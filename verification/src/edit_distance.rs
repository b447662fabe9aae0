//! A small edit-distance helper for "did you mean ...?" suggestions.
//!
//! When a configuration table contains an unknown key, the closest known
//! key is suggested if it is plausibly a typo.

use vstd::prelude::*;

use crate::text::chars_of;

verus! {

/// The smaller of two naturals.
pub open spec fn min_nat(x: nat, y: nat) -> nat {
    if x <= y {
        x
    } else {
        y
    }
}

/// The Levenshtein distance between two character sequences: the least
/// number of single-character insertions, deletions and substitutions
/// that turn `a` into `b`.
pub open spec fn lev(a: Seq<char>, b: Seq<char>) -> nat
    decreases a.len() + b.len(),
{
    if a.len() == 0 {
        b.len()
    } else if b.len() == 0 {
        a.len()
    } else {
        let sub: nat = if a.last() == b.last() {
            0
        } else {
            1
        };
        min_nat(
            min_nat(lev(a.drop_last(), b.drop_last()) + sub, lev(a, b.drop_last()) + 1),
            lev(a.drop_last(), b) + 1,
        )
    }
}

/// The suggestion threshold for an unknown key of `n` characters: `n / 3`
/// rounded up.
pub open spec fn threshold(n: nat) -> nat {
    ((n + 2) / 3) as nat
}

/// A Levenshtein distance never exceeds the longer length.
pub proof fn lemma_lev_bound(a: Seq<char>, b: Seq<char>)
    ensures
        lev(a, b) <= if a.len() >= b.len() {
            a.len()
        } else {
            b.len()
        },
    decreases a.len() + b.len(),
{
    if a.len() > 0 && b.len() > 0 {
        lemma_lev_bound(a.drop_last(), b.drop_last());
    }
}

/// The distance of a sequence to itself is zero.
pub proof fn lemma_lev_self(a: Seq<char>)
    ensures
        lev(a, a) == 0,
    decreases a.len(),
{
    if a.len() > 0 {
        lemma_lev_self(a.drop_last());
    }
}

proof fn lemma_take_step(s: Seq<char>, k: int)
    requires
        0 < k <= s.len(),
    ensures
        s.take(k).drop_last() == s.take(k - 1),
        s.take(k).last() == s[k - 1],
{
    assert(s.take(k).drop_last() =~= s.take(k - 1));
}

/// The Levenshtein distance between `a` and `b`, over `char`s, with the
/// classic single-row dynamic program.
pub fn levenshtein(a: &str, b: &str) -> (r: usize)
    requires
        a@.len() < usize::MAX,
        b@.len() < usize::MAX,
    ensures
        r == lev(a@, b@),
{
    let a_chars = chars_of(a);
    let b_chars = chars_of(b);
    let ghost av = a_chars@;
    let ghost bv = b_chars@;
    let n = b_chars.len();
    // `row[j]` holds the distance between the prefix of `a` consumed so
    // far and the first `j` chars of `b`.
    let mut row: Vec<usize> = Vec::new();
    let mut j: usize = 0;
    while j <= n
        invariant
            n == bv.len(),
            n < usize::MAX,
            j <= n + 1,
            row@.len() == j,
            forall|k: int| 0 <= k < j ==> row@[k] == lev(av.take(0), bv.take(k)),
        decreases n + 1 - j,
    {
        proof {
            assert(av.take(0).len() == 0);
        }
        row.push(j);
        j = j + 1;
    }
    let mut i: usize = 0;
    while i < a_chars.len()
        invariant
            n == bv.len(),
            av == a_chars@,
            bv == b_chars@,
            av.len() < usize::MAX,
            n < usize::MAX,
            i <= av.len(),
            row@.len() == n + 1,
            forall|k: int| 0 <= k <= n ==> row@[k] == lev(av.take(i as int), bv.take(k)),
        decreases av.len() - i,
    {
        let a_char = a_chars[i];
        let mut diagonal = row[0];
        proof {
            assert(bv.take(0).len() == 0);
            assert(av.take(i + 1).len() == i + 1);
        }
        row.set(0, i + 1);
        let mut j: usize = 0;
        while j < n
            invariant
                n == bv.len(),
                av == a_chars@,
                bv == b_chars@,
                av.len() < usize::MAX,
                n < usize::MAX,
                i < av.len(),
                a_char == av[i as int],
                j <= n,
                row@.len() == n + 1,
                diagonal == lev(av.take(i as int), bv.take(j as int)),
                forall|k: int| 0 <= k <= j ==> row@[k] == lev(av.take(i + 1), bv.take(k)),
                forall|k: int| j < k <= n ==> row@[k] == lev(av.take(i as int), bv.take(k)),
            decreases n - j,
        {
            proof {
                lemma_lev_bound(av.take(i as int), bv.take(j as int));
                lemma_lev_bound(av.take(i + 1), bv.take(j as int));
                lemma_lev_bound(av.take(i as int), bv.take(j + 1));
                lemma_take_step(av, i + 1);
                lemma_take_step(bv, j + 1);
            }
            let b_char = b_chars[j];
            let cost: usize = if a_char != b_char {
                1
            } else {
                0
            };
            let substitution = diagonal + cost;
            diagonal = row[j + 1];
            let insertion = row[j] + 1;
            let deletion = row[j + 1] + 1;
            let mut best = substitution;
            if insertion < best {
                best = insertion;
            }
            if deletion < best {
                best = deletion;
            }
            proof {
                let ap = av.take(i + 1);
                let bp = bv.take(j + 1);
                assert(ap.len() > 0 && bp.len() > 0);
                assert(lev(ap, bp) == min_nat(
                    min_nat(lev(ap.drop_last(), bp.drop_last()) + (if ap.last() == bp.last() {
                        0nat
                    } else {
                        1nat
                    }), lev(ap, bp.drop_last()) + 1),
                    lev(ap.drop_last(), bp) + 1,
                ));
            }
            row.set(j + 1, best);
            j = j + 1;
        }
        i = i + 1;
    }
    proof {
        assert(av.take(av.len() as int) == av);
        assert(bv.take(n as int) == bv);
    }
    row[n]
}

/// Returns the known key closest to `unknown`, when close enough to be a
/// plausible typo.
///
/// "Close enough" means a Levenshtein distance of at most one third of
/// the unknown key's length, rounded up. Ties go to the earliest candidate
/// in `known`.
pub fn suggest<'a>(unknown: &str, known: &[&'a str]) -> (r: Option<&'a str>)
    requires
        unknown@.len() < usize::MAX,
        forall|k: int| 0 <= k < known@.len() ==> (#[trigger] known@[k])@.len() < usize::MAX,
    ensures
        r is None <==> forall|k: int|
            0 <= k < known@.len() ==> lev(unknown@, (#[trigger] known@[k])@) > threshold(
                unknown@.len(),
            ),
        r matches Some(c) ==> exists|k: int|
            #![trigger known@[k]]
            0 <= k < known@.len() && c == known@[k] && lev(unknown@, c@) <= threshold(
                unknown@.len(),
            ) && (forall|m: int|
                0 <= m < known@.len() ==> lev(unknown@, c@) <= lev(unknown@, (#[trigger] known@[m])@))
                && (forall|m: int|
                0 <= m < k ==> lev(unknown@, c@) < lev(unknown@, (#[trigger] known@[m])@)),
{
    let unknown_chars = chars_of(unknown);
    let limit: usize = unknown_chars.len() / 3 + if unknown_chars.len() % 3 == 0 {
        0
    } else {
        1
    };
    assert(limit == threshold(unknown@.len()));
    let mut best: Option<(usize, usize)> = None;
    let mut i: usize = 0;
    while i < known.len()
        invariant
            i <= known@.len(),
            unknown@.len() < usize::MAX,
            limit == threshold(unknown@.len()),
            forall|k: int| 0 <= k < known@.len() ==> (#[trigger] known@[k])@.len() < usize::MAX,
            best is None ==> forall|k: int|
                0 <= k < i ==> lev(unknown@, (#[trigger] known@[k])@) > limit,
            best matches Some(p) ==> {
                &&& p.0 < i
                &&& p.1 == lev(unknown@, known@[p.0 as int]@)
                &&& p.1 <= limit
                &&& forall|m: int|
                    0 <= m < i ==> lev(unknown@, (#[trigger] known@[m])@) > limit || p.1 <= lev(
                        unknown@,
                        known@[m]@,
                    )
                &&& forall|m: int| 0 <= m < p.0 ==> p.1 < lev(unknown@, (#[trigger] known@[m])@)
            },
        decreases known@.len() - i,
    {
        let candidate = known[i];
        let distance = levenshtein(unknown, candidate);
        if distance <= limit {
            match best {
                None => {
                    best = Some((i, distance));
                },
                Some((_, d)) => {
                    if distance < d {
                        best = Some((i, distance));
                    }
                },
            }
        }
        i = i + 1;
    }
    match best {
        None => None,
        Some((k, _)) => {
            proof {
                let c = known@[k as int];
                assert(forall|m: int|
                    0 <= m < known@.len() ==> lev(unknown@, c@) <= lev(
                        unknown@,
                        (#[trigger] known@[m])@,
                    ));
            }
            Some(known[k])
        },
    }
}

} // verus!

//! The OAS wire tree: the shape a document takes on the wire (YAML or
//! JSON), with every key in the order it is emitted.
//!
//! The versioned emitter produces a [`Wire`] value; turning it into text
//! is the job of a YAML or JSON writer.

use vstd::prelude::*;

verus! {

/// A node of the wire tree.
#[derive(Debug, PartialEq)]
pub enum Wire {
    /// A string scalar.
    Str(String),
    /// A boolean scalar.
    Bool(bool),
    /// An integer scalar.
    Int(i64),
    /// A floating-point scalar, held as its IEEE-754 bit pattern.
    Float(u64),
    /// A sequence, in order.
    List(Vec<Wire>),
    /// A mapping, its entries in emission order.
    Mapping(Vec<(String, Wire)>),
}

/// The mathematical model of a [`Wire`] node.
pub enum WireView {
    Str(Seq<char>),
    Bool(bool),
    Int(i64),
    Float(u64),
    List(Seq<WireView>),
    Mapping(Seq<(Seq<char>, WireView)>),
}

/// The model of a wire node.
pub open spec fn wire_view(w: Wire) -> WireView
    decreases w,
{
    match w {
        Wire::Str(s) => WireView::Str(s@),
        Wire::Bool(b) => WireView::Bool(b),
        Wire::Int(i) => WireView::Int(i),
        Wire::Float(f) => WireView::Float(f),
        Wire::List(v) => WireView::List(seq_view(v@)),
        Wire::Mapping(m) => WireView::Mapping(entries_view(m@)),
    }
}

/// The model of a sequence of wire nodes.
pub open spec fn seq_view(s: Seq<Wire>) -> Seq<WireView>
    decreases s,
{
    if s.len() == 0 {
        Seq::empty()
    } else {
        seq_view(s.subrange(0, s.len() - 1)).push(wire_view(s[s.len() - 1]))
    }
}

/// The model of the entries of a wire mapping.
pub open spec fn entries_view(s: Seq<(String, Wire)>) -> Seq<(Seq<char>, WireView)>
    decreases s,
{
    if s.len() == 0 {
        Seq::empty()
    } else {
        entries_view(s.subrange(0, s.len() - 1)).push(
            (s[s.len() - 1].0@, wire_view(s[s.len() - 1].1)),
        )
    }
}

impl View for Wire {
    type V = WireView;

    open spec fn view(&self) -> WireView {
        wire_view(*self)
    }
}

pub proof fn lemma_seq_view_push(s: Seq<Wire>, w: Wire)
    ensures
        seq_view(s.push(w)) == seq_view(s).push(wire_view(w)),
{
    assert(s.push(w).subrange(0, s.len() as int) =~= s);
}

pub proof fn lemma_entries_view_push(s: Seq<(String, Wire)>, k: String, w: Wire)
    ensures
        entries_view(s.push((k, w))) == entries_view(s).push((k@, wire_view(w))),
{
    assert(s.push((k, w)).subrange(0, s.len() as int) =~= s);
}

/// Appends an entry to a mapping under construction.
pub fn push_entry(entries: &mut Vec<(String, Wire)>, key: String, value: Wire)
    ensures
        entries_view(final(entries)@) == entries_view(old(entries)@).push((key@, wire_view(value))),
{
    proof {
        lemma_entries_view_push(entries@, key, value);
    }
    entries.push((key, value));
}

/// Appends an element to a sequence under construction.
pub fn push_item(items: &mut Vec<Wire>, value: Wire)
    ensures
        seq_view(final(items)@) == seq_view(old(items)@).push(wire_view(value)),
{
    proof {
        lemma_seq_view_push(items@, value);
    }
    items.push(value);
}

} // verus!

//! The filesystem gateway's entry points: reading a package's
//! `[package.metadata.frieze]` section, loading partial documents, and
//! writing generated documents. The file work itself happens at the
//! program's edge.

use vstd::prelude::*;

verus! {

/// Reads a package's generation configuration from the
/// `[package.metadata.frieze]` section of its `Cargo.toml`.
#[derive(Debug, Default)]
pub struct FsMetadataSource;

impl FsMetadataSource {
    pub fn new() -> (r: Self)
        ensures
            r == (FsMetadataSource {}),
    {
        FsMetadataSource
    }
}

/// Loads a partial OAS document from disk, parsing YAML or JSON by the
/// path's extension.
#[derive(Debug, Default)]
pub struct FsPartialSource;

impl FsPartialSource {
    pub fn new() -> (r: Self)
        ensures
            r == (FsPartialSource {}),
    {
        FsPartialSource
    }
}

/// Whether an output file matches what would be written.
#[derive(Debug, Clone, Copy, PartialEq, Eq, Structural)]
pub enum CheckOutcome {
    UpToDate,
    Stale,
    Missing,
}

/// The check-mode verdict for one output: `Missing` when the file is
/// absent, `UpToDate` when its bytes are exactly the rendering, `Stale`
/// otherwise.
pub fn check_outcome(expected: &Vec<u8>, actual: Option<Vec<u8>>) -> (r: CheckOutcome)
    ensures
        match actual {
            None => r == CheckOutcome::Missing,
            Some(a) => if a@ == expected@ {
                r == CheckOutcome::UpToDate
            } else {
                r == CheckOutcome::Stale
            },
        },
{
    let bytes = match actual {
        None => {
            return CheckOutcome::Missing;
        },
        Some(a) => a,
    };
    if bytes.len() != expected.len() {
        assert(bytes@.len() != expected@.len());
        return CheckOutcome::Stale;
    }
    let mut i: usize = 0;
    while i < bytes.len()
        invariant
            actual == Some(bytes),
            bytes@.len() == expected@.len(),
            i <= bytes@.len(),
            forall|k: int| 0 <= k < i ==> bytes@[k] == expected@[k],
        decreases bytes@.len() - i,
    {
        if bytes[i] != expected[i] {
            assert(bytes@[i as int] != expected@[i as int]);
            return CheckOutcome::Stale;
        }
        i = i + 1;
    }
    assert(bytes@ =~= expected@);
    CheckOutcome::UpToDate
}

/// Serializes a generated document and writes it to its output path, or
/// compares the rendering against the file already there.
#[derive(Debug, Default)]
pub struct FsOutputSink;

impl FsOutputSink {
    pub fn new() -> (r: Self)
        ensures
            r == (FsOutputSink {}),
    {
        FsOutputSink
    }
}

} // verus!

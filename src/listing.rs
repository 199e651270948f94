use vstd::prelude::*;

use crate::error::{BotError, IoKind};
use crate::names::{is_supported_icon, is_supported_path};

verus! {

/// What looking up a pool directory found.
#[derive(Clone, Copy, Debug, PartialEq, Eq, Structural)]
pub enum DirProbe {
    Missing,
    Directory,
    NotDirectory,
    Failed(IoKind),
}

/// What to do with a pool directory after looking it up.
#[derive(Clone, Copy, Debug, PartialEq, Eq, Structural)]
pub enum ListingStep {
    /// No directory is configured: the pool is empty.
    Unset,
    /// The directory does not exist: create it; the pool is empty.
    Create,
    /// Read the directory's entries.
    Read,
    /// The pool cannot be listed.
    Fail(BotError),
}

/// One entry of a pool directory.
#[derive(Clone, Debug)]
pub struct DirEntry {
    pub path: String,
    pub is_file: bool,
}

pub open spec fn listing_step_spec(dir: Seq<char>, probe: DirProbe) -> ListingStep {
    if dir.len() == 0 {
        ListingStep::Unset
    } else {
        match probe {
            DirProbe::Missing => ListingStep::Create,
            DirProbe::Directory => ListingStep::Read,
            DirProbe::NotDirectory => ListingStep::Fail(BotError::Configuration),
            DirProbe::Failed(k) => ListingStep::Fail(BotError::Io(k)),
        }
    }
}

/// Decides how to list the pool at `dir`, given what looking it up found
/// (which an empty `dir` does not need).
pub fn listing_step(dir: &str, probe: DirProbe) -> (r: ListingStep)
    ensures
        r == listing_step_spec(dir@, probe),
{
    if dir.unicode_len() == 0 {
        return ListingStep::Unset;
    }
    match probe {
        DirProbe::Missing => ListingStep::Create,
        DirProbe::Directory => ListingStep::Read,
        DirProbe::NotDirectory => ListingStep::Fail(BotError::Configuration),
        DirProbe::Failed(k) => ListingStep::Fail(BotError::Io(k)),
    }
}

/// The views of a sequence of paths.
pub open spec fn paths_view(v: Seq<String>) -> Seq<Seq<char>> {
    v.map_values(|s: String| s@)
}

/// The candidates among directory entries: the files with a supported
/// extension, in the order listed.
pub open spec fn candidates_spec(entries: Seq<DirEntry>) -> Seq<Seq<char>>
    decreases entries.len(),
{
    if entries.len() == 0 {
        seq![]
    } else {
        let e = entries.last();
        let rest = candidates_spec(entries.drop_last());
        if e.is_file && is_supported_path(e.path@) {
            rest.push(e.path@)
        } else {
            rest
        }
    }
}

/// Keeps the entries that are files with a supported image extension.
pub fn select_candidates(entries: &Vec<DirEntry>) -> (r: Vec<String>)
    ensures
        paths_view(r@) == candidates_spec(entries@),
{
    let mut r: Vec<String> = Vec::new();
    let mut i: usize = 0;
    while i < entries.len()
        invariant
            i <= entries@.len(),
            paths_view(r@) == candidates_spec(entries@.subrange(0, i as int)),
        decreases entries@.len() - i,
    {
        let e = &entries[i];
        assert(entries@.subrange(0, i + 1).drop_last() =~= entries@.subrange(0, i as int));
        if e.is_file && is_supported_icon(e.path.as_str()) {
            let p = e.path.clone();
            proof {
                assert(paths_view(r@.push(p)) =~= paths_view(r@).push(p@));
            }
            r.push(p);
        }
        i = i + 1;
    }
    assert(entries@.subrange(0, entries@.len() as int) =~= entries@);
    r
}

/// The listing of a pool whose directory was read: its candidates, or the
/// failure of the read.
pub fn listing_from_read(read: Result<Vec<DirEntry>, IoKind>) -> (r: Result<Vec<String>, BotError>)
    ensures
        read is Ok ==> r is Ok && paths_view(r->Ok_0@) == candidates_spec(read->Ok_0@),
        read is Err ==> r == Err::<Vec<String>, BotError>(BotError::Io(read->Err_0)),
{
    match read {
        Ok(entries) => Ok(select_candidates(&entries)),
        Err(k) => Err(BotError::Io(k)),
    }
}

/// The listing of a pool whose directory had to be created: empty, or the
/// failure of the creation.
pub fn listing_after_create(created: Result<(), IoKind>) -> (r: Result<Vec<String>, BotError>)
    ensures
        created is Ok ==> r is Ok && r->Ok_0@.len() == 0,
        created is Err ==> r == Err::<Vec<String>, BotError>(BotError::Io(created->Err_0)),
{
    match created {
        Ok(()) => Ok(Vec::new()),
        Err(k) => Err(BotError::Io(k)),
    }
}

} // verus!

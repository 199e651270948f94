use vstd::prelude::*;

use crate::error::{BotError, IoKind};
use crate::names::{file_name_of, icon_filename, is_current_dir, is_parent_dir, join_spec, last_index_of};
use crate::relocation::{lemma_relocation_moves_file, model_run, FileTree, RelocationStage};

verus! {

/// How a rotation ended without error.
#[derive(Clone, Copy, Debug, PartialEq, Eq, Structural)]
pub enum RotationOutcome {
    /// No available pool is configured.
    PoolUnset,
    /// A pool could not be read for want of permission (a warning).
    Unreadable,
    /// Neither pool holds a candidate.
    NoCandidates,
    /// The selected icon was uploaded and moved to the spent pool.
    Updated,
}

/// Where a rotation stands. `ListingAvailable` lists the available pool,
/// `Recycling` recycles the spent pool into it, `Uploading` uploads `icon`
/// as the guild icon, and `Relocating` moves `icon` into the spent pool.
#[derive(Clone, Copy, Debug, PartialEq, Eq, Structural)]
pub enum RotationStage {
    ListingAvailable,
    Recycling,
    Uploading,
    Relocating,
    Done(RotationOutcome),
    Failed(BotError),
}

/// One icon rotation: pick a random candidate of the available pool
/// (recycling the spent pool when the available one is empty), upload it,
/// and only then move it into the spent pool.
#[derive(Clone, Debug)]
pub struct Rotation {
    pub available_dir: String,
    pub spent_dir: String,
    /// The selected candidate, once there is one.
    pub icon: String,
    pub stage: RotationStage,
}

/// The end of a rotation whose listing or recycling failed with `e`: a
/// permission problem is downgraded to a warning.
pub open spec fn failed_listing(e: BotError) -> RotationStage {
    if e == BotError::Io(IoKind::PermissionDenied) {
        RotationStage::Done(RotationOutcome::Unreadable)
    } else {
        RotationStage::Failed(e)
    }
}

/// Whether the rotation waits for a list of candidates.
pub open spec fn awaits_candidates(stage: RotationStage) -> bool {
    stage is ListingAvailable || stage is Recycling
}

/// The stage after `chosen` was selected: it is uploaded next, unless its
/// path has no file name.
pub open spec fn selection_stage(chosen: Seq<char>) -> RotationStage {
    if file_name_of(chosen) is None {
        RotationStage::Failed(BotError::Configuration)
    } else {
        RotationStage::Uploading
    }
}

/// Relies on rand's `IndexedRandom::choose` over the thread-local generator:
/// `None` exactly for an empty slice, otherwise one of its elements.
#[verifier::external_body]
fn choose_icon(paths: &Vec<String>) -> (r: Option<String>)
    ensures
        paths@.len() == 0 <==> r is None,
        r is Some ==> exists|i: int| 0 <= i < paths@.len() && #[trigger] paths@[i]@ == r->Some_0@,
{
    rand::seq::IndexedRandom::choose(paths.as_slice(), &mut rand::rng()).cloned()
}

impl Rotation {
    /// Starts a rotation between the two pools. Without an available pool
    /// there is nothing to do.
    pub fn new(available_dir: &str, spent_dir: &str) -> (r: Rotation)
        ensures
            r.available_dir@ == available_dir@,
            r.spent_dir@ == spent_dir@,
            available_dir@.len() == 0 ==> r.stage == RotationStage::Done(RotationOutcome::PoolUnset),
            available_dir@.len() > 0 ==> r.stage == RotationStage::ListingAvailable,
    {
        let stage = if available_dir.unicode_len() == 0 {
            RotationStage::Done(RotationOutcome::PoolUnset)
        } else {
            RotationStage::ListingAvailable
        };
        Rotation {
            available_dir: available_dir.to_owned(),
            spent_dir: spent_dir.to_owned(),
            icon: String::new(),
            stage,
        }
    }

    /// Takes the selected candidate `chosen`: it is uploaded next, unless
    /// its path has no file name. Outside the listing stages nothing changes.
    pub fn select(&mut self, chosen: String)
        ensures
            !awaits_candidates(old(self).stage) ==> *final(self) == *old(self),
            awaits_candidates(old(self).stage) ==> final(self).stage == selection_stage(chosen@),
            awaits_candidates(old(self).stage) && final(self).stage is Uploading ==> final(self).icon@ == chosen@,
            final(self).available_dir == old(self).available_dir,
            final(self).spent_dir == old(self).spent_dir,
    {
        if !(self.stage == RotationStage::ListingAvailable || self.stage == RotationStage::Recycling) {
            return;
        }
        match icon_filename(chosen.as_str()) {
            Ok(_) => {
                self.icon = chosen;
                self.stage = RotationStage::Uploading;
            },
            Err(e) => {
                self.stage = RotationStage::Failed(e);
            },
        }
    }

    /// Takes the candidates of the available pool (or, after recycling,
    /// the recycled ones). A failure ends the rotation (as a warning when
    /// permission was denied); an empty available pool is recycled first;
    /// an empty pool after recycling ends the rotation with nothing to do;
    /// otherwise a random candidate is selected. Outside the listing stages
    /// nothing changes.
    pub fn candidates(&mut self, listing: Result<Vec<String>, BotError>)
        ensures
            !awaits_candidates(old(self).stage) ==> *final(self) == *old(self),
            awaits_candidates(old(self).stage) && listing is Err
                ==> final(self).stage == failed_listing(listing->Err_0),
            old(self).stage is ListingAvailable && listing is Ok && listing->Ok_0@.len() == 0
                ==> final(self).stage == RotationStage::Recycling,
            old(self).stage is Recycling && listing is Ok && listing->Ok_0@.len() == 0
                ==> final(self).stage == RotationStage::Done(RotationOutcome::NoCandidates),
            awaits_candidates(old(self).stage) && listing is Ok && listing->Ok_0@.len() > 0
                ==> exists|i: int| #![trigger listing->Ok_0@[i]] 0 <= i < listing->Ok_0@.len() && {
                    &&& final(self).stage == selection_stage(listing->Ok_0@[i]@)
                    &&& final(self).stage is Uploading ==> final(self).icon@ == listing->Ok_0@[i]@
                },
            final(self).available_dir == old(self).available_dir,
            final(self).spent_dir == old(self).spent_dir,
    {
        if !(self.stage == RotationStage::ListingAvailable || self.stage == RotationStage::Recycling) {
            return;
        }
        match listing {
            Err(e) => {
                self.stage = if e.is_permission_denied() {
                    RotationStage::Done(RotationOutcome::Unreadable)
                } else {
                    RotationStage::Failed(e)
                };
            },
            Ok(paths) => {
                if paths.len() == 0 {
                    self.stage = if self.stage == RotationStage::ListingAvailable {
                        RotationStage::Recycling
                    } else {
                        RotationStage::Done(RotationOutcome::NoCandidates)
                    };
                } else {
                    match choose_icon(&paths) {
                        Some(chosen) => self.select(chosen),
                        None => {},
                    }
                }
            },
        }
    }

    /// Takes the result of the upload: on success the icon is moved to the
    /// spent pool next; a failure ends the rotation and leaves the icon in
    /// the available pool. Outside the upload stage nothing changes.
    pub fn uploaded(&mut self, succeeded: bool)
        ensures
            !(old(self).stage is Uploading) ==> *final(self) == *old(self),
            old(self).stage is Uploading && succeeded ==> final(self).stage == RotationStage::Relocating,
            old(self).stage is Uploading && !succeeded
                ==> final(self).stage == RotationStage::Failed(BotError::Platform),
            final(self).icon == old(self).icon,
            final(self).available_dir == old(self).available_dir,
            final(self).spent_dir == old(self).spent_dir,
    {
        if self.stage != RotationStage::Uploading {
            return;
        }
        self.stage = if succeeded {
            RotationStage::Relocating
        } else {
            RotationStage::Failed(BotError::Platform)
        };
    }

    /// Takes the result of moving the uploaded icon into the spent pool. A
    /// failure is reported; the icon change stays applied. Outside the
    /// relocation stage nothing changes.
    pub fn relocated(&mut self, result: Result<String, BotError>)
        ensures
            !(old(self).stage is Relocating) ==> *final(self) == *old(self),
            old(self).stage is Relocating && result is Ok
                ==> final(self).stage == RotationStage::Done(RotationOutcome::Updated),
            old(self).stage is Relocating && result is Err
                ==> final(self).stage == RotationStage::Failed(result->Err_0),
            final(self).icon == old(self).icon,
            final(self).available_dir == old(self).available_dir,
            final(self).spent_dir == old(self).spent_dir,
    {
        if self.stage != RotationStage::Relocating {
            return;
        }
        self.stage = match result {
            Ok(_) => RotationStage::Done(RotationOutcome::Updated),
            Err(e) => RotationStage::Failed(e),
        };
    }

    /// How the rotation ended, once it has.
    pub fn outcome(&self) -> (r: Option<Result<RotationOutcome, BotError>>)
        ensures
            self.stage is Done ==> r == Some(Ok::<RotationOutcome, BotError>(self.stage->Done_0)),
            self.stage is Failed ==> r == Some(Err::<RotationOutcome, BotError>(self.stage->Failed_0)),
            !(self.stage is Done || self.stage is Failed) ==> r is None,
    {
        match self.stage {
            RotationStage::Done(o) => Some(Ok(o)),
            RotationStage::Failed(e) => Some(Err(e)),
            _ => None,
        }
    }
}

/// Whether `path` is a file directly inside the directory `dir`: `dir`, a
/// separator, and a name that holds no separator and is neither `.` nor `..`.
pub open spec fn in_dir(path: Seq<char>, dir: Seq<char>) -> bool {
    let name = path.subrange(dir.len() + 1 as int, path.len() as int);
    &&& path.len() > dir.len() + 1
    &&& path.subrange(0, dir.len() as int) == dir
    &&& path[dir.len() as int] == '/'
    &&& !name.contains('/')
    &&& !is_current_dir(name)
    &&& !is_parent_dir(name)
}

/// The files of the pool at `dir`.
pub open spec fn pool_files(fs: FileTree, dir: Seq<char>) -> Set<Seq<char>> {
    fs.dom().filter(|p: Seq<char>| in_dir(p, dir))
}

proof fn lemma_last_index_after(s: Seq<char>, t: Seq<char>, c: char)
    requires
        !t.contains(c),
    ensures
        last_index_of(s + t, c) == last_index_of(s, c),
    decreases t.len(),
{
    if t.len() > 0 {
        assert((s + t).drop_last() =~= s + t.drop_last());
        assert((s + t).last() == t[t.len() - 1]);
        lemma_last_index_after(s, t.drop_last(), c);
    } else {
        assert(s + t =~= s);
    }
}

proof fn lemma_in_dir_split(path: Seq<char>, dir: Seq<char>)
    requires
        in_dir(path, dir),
    ensures
        path == dir + seq!['/'] + path.subrange(dir.len() + 1 as int, path.len() as int),
        last_index_of(path, '/') == dir.len(),
        file_name_of(path) == Some(path.subrange(dir.len() + 1 as int, path.len() as int)),
{
    let name = path.subrange(dir.len() + 1 as int, path.len() as int);
    let head = dir + seq!['/'];
    assert(path =~= head + name);
    assert(head.drop_last() =~= dir);
    lemma_last_index_after(head, name, '/');
    assert(path.subrange(last_index_of(path, '/') + 1, path.len() as int) =~= name);
}

/// A successful rotation moves the uploaded icon out of the available pool
/// and into the spent pool under its file name, with its content; the rest
/// of both pools is unchanged. (A pool directory is named without a
/// trailing separator.)
pub proof fn lemma_rotation_moves_icon_between_pools(
    fs: FileTree,
    available: Seq<char>,
    spent: Seq<char>,
    icon: Seq<char>,
)
    requires
        available != spent,
        available.len() > 0 && available.last() != '/',
        spent.len() > 0 && spent.last() != '/',
        fs.contains_key(icon),
        in_dir(icon, available),
    ensures
        selection_stage(icon) == RotationStage::Uploading,
        ({
            let name = file_name_of(icon)->Some_0;
            let dest = join_spec(spent, name);
            let (after, stage) = model_run(fs, RelocationStage::CreatingDir, icon, dest, 4);
            &&& stage == RelocationStage::Moved
            &&& after.contains_key(dest) && after[dest] == fs[icon]
            &&& pool_files(after, available) == pool_files(fs, available).remove(icon)
            &&& pool_files(after, spent) == pool_files(fs, spent).insert(dest)
        }),
{
    lemma_in_dir_split(icon, available);
    let name = icon.subrange(available.len() + 1 as int, icon.len() as int);
    let dest = join_spec(spent, name);
    assert(dest == spent + seq!['/'] + name);
    assert((spent + seq!['/'] + name).subrange(spent.len() + 1 as int, dest.len() as int) =~= name);
    assert(dest.subrange(0, spent.len() as int) =~= spent);
    assert(in_dir(dest, spent));
    lemma_in_dir_split(dest, spent);
    if in_dir(dest, available) {
        lemma_in_dir_split(dest, available);
        assert(available =~= dest.subrange(0, available.len() as int));
    }
    assert(!in_dir(dest, available));
    if in_dir(icon, spent) {
        lemma_in_dir_split(icon, spent);
        assert(spent =~= icon.subrange(0, spent.len() as int));
    }
    assert(icon != dest);
    lemma_relocation_moves_file(fs, icon, dest);
    let (after, stage) = model_run(fs, RelocationStage::CreatingDir, icon, dest, 4);
    assert(pool_files(after, available) =~= pool_files(fs, available).remove(icon));
    assert(pool_files(after, spent) =~= pool_files(fs, spent).insert(dest));
}

} // verus!

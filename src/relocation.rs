use vstd::prelude::*;

use crate::error::{BotError, IoKind};
use crate::names::{file_name_of, icon_filename, join_path, join_spec};

verus! {

/// Where a relocation stands. Each running stage names the one file-system
/// operation to perform next:
/// `CreatingDir` creates the target directory, `CheckingTarget` asks whether
/// the destination exists, `RemovingTarget` deletes it, `Renaming` renames the
/// source to the destination, `Copying` copies it there, and `RemovingSource`
/// deletes the source after a copy.
#[derive(Clone, Copy, Debug, PartialEq, Eq, Structural)]
pub enum RelocationStage {
    CreatingDir,
    CheckingTarget,
    RemovingTarget,
    Renaming,
    Copying { rename: IoKind },
    RemovingSource { rename: IoKind },
    Moved,
    Failed(BotError),
}

/// Moving one icon file into a directory, keeping its file name. A file of
/// the same name at the destination is replaced; a failed rename falls back
/// to copying and deleting the source.
#[derive(Clone, Debug)]
pub struct Relocation {
    pub source: String,
    pub target_dir: String,
    pub destination: String,
    pub stage: RelocationStage,
}

/// The stage after the current operation of `stage` reported `outcome`
/// (`Ok(present)` for the existence check, `Ok(_)` for the others).
pub open spec fn relocation_next(stage: RelocationStage, outcome: Result<bool, IoKind>) -> RelocationStage {
    match stage {
        RelocationStage::CreatingDir => match outcome {
            Ok(_) => RelocationStage::CheckingTarget,
            Err(k) => RelocationStage::Failed(BotError::Io(k)),
        },
        RelocationStage::CheckingTarget => match outcome {
            Ok(true) => RelocationStage::RemovingTarget,
            Ok(false) => RelocationStage::Renaming,
            Err(k) => RelocationStage::Failed(BotError::Io(k)),
        },
        RelocationStage::RemovingTarget => match outcome {
            Ok(_) => RelocationStage::Renaming,
            Err(k) => RelocationStage::Failed(BotError::Io(k)),
        },
        RelocationStage::Renaming => match outcome {
            Ok(_) => RelocationStage::Moved,
            Err(k) => RelocationStage::Copying { rename: k },
        },
        RelocationStage::Copying { rename } => match outcome {
            Ok(_) => RelocationStage::RemovingSource { rename },
            Err(k) => RelocationStage::Failed(BotError::Relocation { rename, fallback: k }),
        },
        RelocationStage::RemovingSource { rename } => match outcome {
            Ok(_) => RelocationStage::Moved,
            Err(k) => RelocationStage::Failed(BotError::Relocation { rename, fallback: k }),
        },
        RelocationStage::Moved => stage,
        RelocationStage::Failed(_) => stage,
    }
}

pub open spec fn is_final_stage(stage: RelocationStage) -> bool {
    stage is Moved || stage is Failed
}

impl Relocation {
    /// Plans moving `source` into `target_dir`: the destination is the
    /// source's file name inside `target_dir`. A source without a file name
    /// fails at once with a configuration error.
    pub fn new(source: &str, target_dir: &str) -> (r: Relocation)
        ensures
            r.source@ == source@,
            r.target_dir@ == target_dir@,
            file_name_of(source@) is None ==> r.stage == RelocationStage::Failed(BotError::Configuration),
            file_name_of(source@) is Some ==> r.stage == RelocationStage::CreatingDir
                && r.destination@ == join_spec(target_dir@, file_name_of(source@)->Some_0),
    {
        match icon_filename(source) {
            Ok(name) => Relocation {
                source: source.to_owned(),
                target_dir: target_dir.to_owned(),
                destination: join_path(target_dir, name.as_str()),
                stage: RelocationStage::CreatingDir,
            },
            Err(e) => Relocation {
                source: source.to_owned(),
                target_dir: target_dir.to_owned(),
                destination: String::new(),
                stage: RelocationStage::Failed(e),
            },
        }
    }

    /// Whether the relocation has ended, either way.
    pub fn is_finished(&self) -> (r: bool)
        ensures
            r == is_final_stage(self.stage),
    {
        match self.stage {
            RelocationStage::Moved | RelocationStage::Failed(_) => true,
            _ => false,
        }
    }

    /// Takes the outcome of the operation of the current stage.
    pub fn resume(&mut self, outcome: Result<bool, IoKind>)
        ensures
            final(self).stage == relocation_next(old(self).stage, outcome),
            final(self).source == old(self).source,
            final(self).target_dir == old(self).target_dir,
            final(self).destination == old(self).destination,
    {
        self.stage = match self.stage {
            RelocationStage::CreatingDir => match outcome {
                Ok(_) => RelocationStage::CheckingTarget,
                Err(k) => RelocationStage::Failed(BotError::Io(k)),
            },
            RelocationStage::CheckingTarget => match outcome {
                Ok(true) => RelocationStage::RemovingTarget,
                Ok(false) => RelocationStage::Renaming,
                Err(k) => RelocationStage::Failed(BotError::Io(k)),
            },
            RelocationStage::RemovingTarget => match outcome {
                Ok(_) => RelocationStage::Renaming,
                Err(k) => RelocationStage::Failed(BotError::Io(k)),
            },
            RelocationStage::Renaming => match outcome {
                Ok(_) => RelocationStage::Moved,
                Err(k) => RelocationStage::Copying { rename: k },
            },
            RelocationStage::Copying { rename } => match outcome {
                Ok(_) => RelocationStage::RemovingSource { rename },
                Err(k) => RelocationStage::Failed(BotError::Relocation { rename, fallback: k }),
            },
            RelocationStage::RemovingSource { rename } => match outcome {
                Ok(_) => RelocationStage::Moved,
                Err(k) => RelocationStage::Failed(BotError::Relocation { rename, fallback: k }),
            },
            RelocationStage::Moved => RelocationStage::Moved,
            RelocationStage::Failed(e) => RelocationStage::Failed(e),
        };
    }

    /// The result once finished: the destination, or the failure.
    pub fn result(&self) -> (r: Option<Result<String, BotError>>)
        ensures
            !is_final_stage(self.stage) ==> r is None,
            self.stage is Moved ==> r is Some && r->Some_0 is Ok && r->Some_0->Ok_0@ == self.destination@,
            self.stage is Failed ==> r == Some(Err::<String, BotError>(self.stage->Failed_0)),
    {
        match self.stage {
            RelocationStage::Moved => Some(Ok(self.destination.clone())),
            RelocationStage::Failed(e) => Some(Err(e)),
            _ => None,
        }
    }
}

/// A model of the files on disk: each path with its content.
pub type FileTree = Map<Seq<char>, Seq<u8>>;

/// What the operation of `stage` does to `fs` and reports, for a file system
/// where directories can always be created and a rename always works.
pub open spec fn model_operation(fs: FileTree, stage: RelocationStage, src: Seq<char>, dest: Seq<char>) -> (FileTree, Result<bool, IoKind>) {
    match stage {
        RelocationStage::CheckingTarget => (fs, Ok(fs.contains_key(dest))),
        RelocationStage::RemovingTarget => if fs.contains_key(dest) {
            (fs.remove(dest), Ok(true))
        } else {
            (fs, Err(IoKind::NotFound))
        },
        RelocationStage::Renaming => if fs.contains_key(src) {
            (fs.remove(src).insert(dest, fs[src]), Ok(true))
        } else {
            (fs, Err(IoKind::NotFound))
        },
        RelocationStage::Copying { .. } => if fs.contains_key(src) {
            (fs.insert(dest, fs[src]), Ok(true))
        } else {
            (fs, Err(IoKind::NotFound))
        },
        RelocationStage::RemovingSource { .. } => if fs.contains_key(src) {
            (fs.remove(src), Ok(true))
        } else {
            (fs, Err(IoKind::NotFound))
        },
        _ => (fs, Ok(true)),
    }
}

/// Runs a relocation against the model for at most `fuel` operations.
pub open spec fn model_run(fs: FileTree, stage: RelocationStage, src: Seq<char>, dest: Seq<char>, fuel: nat) -> (FileTree, RelocationStage)
    decreases fuel,
{
    if fuel == 0 || is_final_stage(stage) {
        (fs, stage)
    } else {
        let (next_fs, outcome) = model_operation(fs, stage, src, dest);
        model_run(next_fs, relocation_next(stage, outcome), src, dest, (fuel - 1) as nat)
    }
}

/// Moving a file from one pool to another leaves it absent from the first
/// and present in the second with the same content, whether or not a file
/// of that name was there before; no other file changes.
pub proof fn lemma_relocation_moves_file(fs: FileTree, src: Seq<char>, dest: Seq<char>)
    requires
        fs.contains_key(src),
        src != dest,
    ensures
        ({
            let (after, stage) = model_run(fs, RelocationStage::CreatingDir, src, dest, 4);
            &&& stage == RelocationStage::Moved
            &&& after.contains_key(dest)
            &&& after[dest] == fs[src]
            &&& !after.contains_key(src)
            &&& forall|p: Seq<char>| p != src && p != dest ==> (#[trigger] after.contains_key(p) == fs.contains_key(p)
                && (fs.contains_key(p) ==> after[p] == fs[p]))
        }),
{
    reveal_with_fuel(model_run, 5);
    if fs.contains_key(dest) {
        let fs1 = fs.remove(dest);
        assert(fs1.contains_key(src));
        let fs2 = fs1.remove(src).insert(dest, fs1[src]);
        assert(model_run(fs, RelocationStage::CreatingDir, src, dest, 4) == (fs2, RelocationStage::Moved));
    } else {
        let fs2 = fs.remove(src).insert(dest, fs[src]);
        assert(model_run(fs, RelocationStage::CreatingDir, src, dest, 4) == (fs2, RelocationStage::Moved));
    }
}

} // verus!

use vstd::prelude::*;

verus! {

/// What stands at a path on disk, symbolic links followed. `Missing` also
/// covers a path whose metadata could not be read.
#[derive(Clone, Copy, Debug, PartialEq, Eq, Structural)]
pub enum EntryKind {
    Missing,
    File,
    Dir,
    Other,
}

impl EntryKind {
    /// Whether a regular file stands there.
    pub fn is_file(&self) -> (r: bool)
        ensures
            r == (*self == EntryKind::File),
    {
        match self {
            EntryKind::File => true,
            _ => false,
        }
    }

    /// Whether a directory stands there.
    pub fn is_dir(&self) -> (r: bool)
        ensures
            r == (*self == EntryKind::Dir),
    {
        match self {
            EntryKind::Dir => true,
            _ => false,
        }
    }

    /// Whether anything stands there.
    pub fn is_present(&self) -> (r: bool)
        ensures
            r == (*self != EntryKind::Missing),
    {
        match self {
            EntryKind::Missing => false,
            _ => true,
        }
    }
}

/// One change to the filesystem at a path.
#[derive(Clone, Copy, Debug, PartialEq, Eq, Structural)]
pub enum ResetStep {
    /// Delete the file there.
    RemoveFile,
    /// Delete the directory there with everything under it.
    RemoveDirAll,
    /// Create an empty directory there.
    CreateDir,
}

/// The steps that leave an empty directory at a path where `found` stands:
/// a file is deleted, anything else that exists is deleted as a tree, and
/// then the directory is created.
pub open spec fn reset_plan(found: EntryKind) -> Seq<ResetStep> {
    match found {
        EntryKind::Missing => seq![ResetStep::CreateDir],
        EntryKind::File => seq![ResetStep::RemoveFile, ResetStep::CreateDir],
        _ => seq![ResetStep::RemoveDirAll, ResetStep::CreateDir],
    }
}

/// The steps, in order, that reset a path where `found` stands to an empty
/// directory. They are to be run in turn, stopping at the first failure.
pub fn reset_steps(found: EntryKind) -> (r: Vec<ResetStep>)
    ensures
        r@ == reset_plan(found),
{
    let mut steps: Vec<ResetStep> = Vec::new();
    if found.is_present() {
        if found.is_file() {
            steps.push(ResetStep::RemoveFile);
        } else {
            steps.push(ResetStep::RemoveDirAll);
        }
    }
    steps.push(ResetStep::CreateDir);
    proof {
        assert(steps@ =~= reset_plan(found));
    }
    steps
}

/// Whatever stands at a path, a reset ends by creating the directory, and
/// only where nothing stands does it skip the removal before that.
pub proof fn law_reset_ends_by_creating(found: EntryKind)
    ensures
        reset_plan(found).last() == ResetStep::CreateDir,
        reset_plan(found).len() == 1 <==> found == EntryKind::Missing,
{
}

} // verus!

//! The mover: where one file is taken from and where it is put, and in which steps.

use vstd::prelude::*;
use vstd::string::*;
use crate::classify::{classified, classify, separator};

verus! {

/// The path `rest` below the directory `base`.
pub open spec fn joined(base: Seq<char>, rest: Seq<char>) -> Seq<char> {
    base + separator() + rest
}

/// Appends `rest` to `base` as a further component of the path.
pub fn join(base: &str, rest: &str) -> (r: String)
    ensures
        r@ == joined(base@, rest@),
{
    proof {
        reveal_strlit("/");
    }
    let mut path = String::from_str(base);
    path.append("/");
    path.append(rest);
    assert("/"@ =~= separator());
    path
}

/// One relocation: the file `from` goes into `directory` and is then found at `end_file`.
#[derive(Debug)]
pub struct MovePlan {
    /// The file as it is found.
    pub from: String,
    /// The directory that takes it.
    pub directory: String,
    /// The file as it is left.
    pub end_file: String,
}

/// A relocation as three sequences of characters.
pub struct MovePlanView {
    pub from: Seq<char>,
    pub directory: Seq<char>,
    pub end_file: Seq<char>,
}

impl View for MovePlan {
    type V = MovePlanView;

    open spec fn view(&self) -> MovePlanView {
        MovePlanView { from: self.from@, directory: self.directory@, end_file: self.end_file@ }
    }
}

/// The relocation of the entry `file` of `dir` into the subdirectory `to` of `dir`, under the
/// name it has.
pub open spec fn relocation(dir: Seq<char>, file: Seq<char>, to: Seq<char>) -> MovePlanView {
    MovePlanView {
        from: joined(dir, file),
        directory: joined(dir, to),
        end_file: joined(joined(dir, to), file),
    }
}

/// The relocation that puts the entry `file` of `dir` where its name says it belongs.
pub open spec fn filing(dir: Seq<char>, file: Seq<char>) -> MovePlanView {
    relocation(dir, file, classified(file))
}

/// One step of a relocation.
#[derive(Clone, Copy, Debug, PartialEq, Eq, Structural)]
pub enum MoveStep {
    /// Create the plan's directory and every missing directory above it.
    CreateDirectory,
    /// Rename the plan's `from` to its `end_file`.
    Rename,
}

/// The steps of a relocation, in order: the directory is created only where it is absent,
/// the rename always follows.
pub open spec fn steps_of(directory_exists: bool) -> Seq<MoveStep> {
    if directory_exists {
        seq![MoveStep::Rename]
    } else {
        seq![MoveStep::CreateDirectory, MoveStep::Rename]
    }
}

/// Plans the relocation of the entry `file` of `dir` into the subdirectory `to` of `dir`.
/// The file keeps its name.
pub fn move_files(dir: &str, file: &str, to: &str) -> (r: MovePlan)
    ensures
        r@ == relocation(dir@, file@, to@),
{
    let from = join(dir, file);
    let directory = join(dir, to);
    let end_file = join(directory.as_str(), file);
    MovePlan { from, directory, end_file }
}

/// Plans what is done about one path that was reported: nothing where it is no regular file,
/// else the relocation of the file named `file` into the directory that its name gives.
pub fn update_file(path: &str, file: &str, is_file: bool) -> (r: Option<MovePlan>)
    ensures
        !is_file ==> r is None,
        is_file ==> r is Some && r->0@ == filing(path@, file@),
{
    if !is_file {
        return None;
    }
    let to = classify(file);
    Some(move_files(path, file, to.as_str()))
}

impl MovePlan {
    /// The steps by which the plan is carried out, given whether its directory is there
    /// already. A step that fails ends the relocation.
    pub fn steps(&self, directory_exists: bool) -> (r: Vec<MoveStep>)
        ensures
            r@ == steps_of(directory_exists),
    {
        let mut list: Vec<MoveStep> = Vec::new();
        if !directory_exists {
            list.push(MoveStep::CreateDirectory);
        }
        list.push(MoveStep::Rename);
        assert(list@ =~= steps_of(directory_exists));
        list
    }

    /// The path that a failure of `step` is reported with: the directory that could not be
    /// created, or the file that could not be renamed.
    pub fn offending_path(&self, step: MoveStep) -> (r: &String)
        ensures
            step == MoveStep::CreateDirectory ==> r@ == self.directory@,
            step == MoveStep::Rename ==> r@ == self.from@,
    {
        match step {
            MoveStep::CreateDirectory => &self.directory,
            MoveStep::Rename => &self.from,
        }
    }
}

/// A relocation never renames a file onto itself: the place where the file is left lies
/// strictly below the place where it was found, whatever the three names are. A file that
/// sits in its partition already is therefore not found under `from`, and the rename fails as
/// a step of this one relocation only.
pub proof fn relocation_leaves_the_place(dir: Seq<char>, file: Seq<char>, to: Seq<char>)
    ensures
        relocation(dir, file, to).from != relocation(dir, file, to).end_file,
        relocation(dir, file, to).end_file.len() == relocation(dir, file, to).from.len()
            + to.len() + 1,
{
    assert(relocation(dir, file, to).end_file.len() != relocation(dir, file, to).from.len());
}

} // verus!

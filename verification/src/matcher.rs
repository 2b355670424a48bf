use vstd::prelude::*;

use crate::error::NeatError;
use crate::paths::join_path;
use crate::pattern::{MatchOptions, build_glob, check_pattern, get_match_options, joined_pattern, pattern_valid};

verus! {

/// A scoped glob: the absolute pattern for one mapping, with its match
/// options.
pub struct Glob {
    pub glob: String,
    pub options: MatchOptions,
}

impl Glob {
    /// The pattern scoped to `base_dir`, matched with the run's case
    /// sensitivity.
    pub fn new(base_dir: &str, glob: &str, case_sensitive: bool) -> (r: Glob)
        ensures
            r.glob@ == joined_pattern(base_dir@, glob@),
            r.options.case_sensitive == case_sensitive,
            !r.options.require_literal_separator,
            !r.options.require_literal_leading_dot,
    {
        Glob { glob: build_glob(base_dir, glob), options: get_match_options(case_sensitive) }
    }

    /// Validates the scoped pattern; a malformed one is a `Pattern` error.
    pub fn glob(&self) -> (r: Result<(), NeatError>)
        ensures
            r is Ok <==> pattern_valid(self.glob@),
            r is Err ==> r->Err_0 is Pattern,
    {
        check_pattern(self.glob.as_str())
    }
}

/// The executor state for one mapping: the target root, the destination
/// folder under it, and the scoped glob.
pub struct Matcher {
    pub from: String,
    pub to: String,
    pub glob: Glob,
}

/// The strategy applied to each matched file, chosen once per run: a dry run
/// only reports, a real run renames and reports only when `log` is set.
pub enum MoveOp {
    DryRun,
    Rename { log: bool },
}

/// The strategy that a run's flags select.
pub open spec fn move_op_spec(dry_run: bool, verbose: u8) -> MoveOp {
    if dry_run {
        MoveOp::DryRun
    } else {
        MoveOp::Rename { log: verbose > 0 }
    }
}

/// Whether the strategy emits a log line for each move.
pub open spec fn op_logs(op: MoveOp) -> bool {
    match op {
        MoveOp::DryRun => true,
        MoveOp::Rename { log } => log,
    }
}

/// Whether the strategy performs the rename.
pub open spec fn op_renames(op: MoveOp) -> bool {
    op is Rename
}

/// Selects the move strategy from the run's flags.
pub fn get_move_op(dry_run: bool, verbose: u8) -> (r: MoveOp)
    ensures
        r == move_op_spec(dry_run, verbose),
{
    if dry_run {
        MoveOp::DryRun
    } else {
        MoveOp::Rename { log: verbose > 0 }
    }
}

/// What one move amounts to under a strategy: an optional log line, and
/// whether the file is actually renamed.
pub struct MoveStep {
    pub log: Option<String>,
    pub rename: bool,
}

/// The log line reported for a move.
pub open spec fn move_log(from: Seq<char>, to: Seq<char>) -> Seq<char> {
    "moving \""@ + from + "\" to \""@ + to + "\""@
}

/// Applies the strategy to one `(from, to)` pair: the step renames exactly
/// when the strategy does, and its log line is a function of the two paths
/// alone.
pub fn move_step(op: &MoveOp, from: &str, to: &str) -> (r: MoveStep)
    ensures
        r.rename == op_renames(*op),
        op_logs(*op) ==> r.log is Some && r.log->0@ == move_log(from@, to@),
        !op_logs(*op) ==> r.log is None,
{
    let rename = match op {
        MoveOp::DryRun => false,
        MoveOp::Rename { .. } => true,
    };
    let logs = match op {
        MoveOp::DryRun => true,
        MoveOp::Rename { log } => *log,
    };
    if logs {
        let mut s = "moving \"".to_owned();
        s.append(from);
        s.append("\" to \"");
        s.append(to);
        s.append("\"");
        proof {
            assert(s@ =~= move_log(from@, to@));
        }
        MoveStep { log: Some(s), rename }
    } else {
        MoveStep { log: None, rename }
    }
}

/// Whether the folder step creates the destination directory.
pub open spec fn folder_creates(exists: bool, is_dir: bool, dry_run: bool) -> bool {
    !dry_run && !exists
}

/// Whether the folder step fails because a non-directory occupies the
/// destination path.
pub open spec fn folder_conflict(exists: bool, is_dir: bool, dry_run: bool) -> bool {
    !dry_run && exists && !is_dir
}

/// The log line reported for a planned directory creation.
pub open spec fn creating_log(path: Seq<char>) -> Seq<char> {
    "creating \""@ + path + "\""@
}

/// What the folder step amounts to: an optional log line, and whether the
/// directory (with its missing ancestors) is created.
pub struct FolderPlan {
    pub log: Option<String>,
    pub create: bool,
}

/// Decides the folder step for a destination path, given what the filesystem
/// reported of it: a dry run only reports; otherwise a missing destination is
/// created, an existing directory is kept, and an existing non-directory is a
/// `NamingConflict`.
pub fn plan_create_folder(path: &str, exists: bool, is_dir: bool, dry_run: bool) -> (r: Result<
    FolderPlan,
    NeatError,
>)
    ensures
        r is Err <==> folder_conflict(exists, is_dir, dry_run),
        r is Err ==> (r->Err_0 matches NeatError::NamingConflict { file } && file@ == path@),
        r is Ok ==> r->Ok_0.create == folder_creates(exists, is_dir, dry_run),
        r is Ok && dry_run ==> r->Ok_0.log is Some && r->Ok_0.log->0@ == creating_log(path@),
        r is Ok && !dry_run ==> r->Ok_0.log is None,
{
    if dry_run {
        let mut s = "creating \"".to_owned();
        s.append(path);
        s.append("\"");
        proof {
            assert(s@ =~= creating_log(path@));
        }
        Ok(FolderPlan { log: Some(s), create: false })
    } else if !exists {
        Ok(FolderPlan { log: None, create: true })
    } else if !is_dir {
        Err(NeatError::NamingConflict { file: path.to_owned() })
    } else {
        Ok(FolderPlan { log: None, create: false })
    }
}

/// The plan for one mapping: the destination folder, the scoped pattern with
/// its options, and the move strategy.
pub struct MappingPlan {
    pub folder_path: String,
    pub pattern: String,
    pub options: MatchOptions,
    pub op: MoveOp,
}

impl Matcher {
    /// The executor state for one mapping: `to` is `to` appended to the
    /// target root `from`, and the glob is scoped to `from`.
    pub fn new(from: &str, to: &str, glob: &str, case_sensitive: bool) -> (r: Matcher)
        ensures
            r.from@ == from@,
            r.to@ == crate::paths::joined_path(from@, to@),
            r.glob.glob@ == joined_pattern(from@, glob@),
            r.glob.options.case_sensitive == case_sensitive,
            !r.glob.options.require_literal_separator,
            !r.glob.options.require_literal_leading_dot,
    {
        Matcher {
            from: from.to_owned(),
            to: join_path(from, to),
            glob: Glob::new(from, glob, case_sensitive),
        }
    }

    /// The plan for this mapping under the run's flags.
    pub fn run(&self, dry_run: bool, verbose: u8) -> (r: MappingPlan)
        ensures
            r.folder_path@ == self.to@,
            r.pattern@ == self.glob.glob@,
            r.options == self.glob.options,
            r.op == move_op_spec(dry_run, verbose),
    {
        MappingPlan {
            folder_path: self.to.clone(),
            pattern: self.glob.glob.clone(),
            options: self.glob.options,
            op: get_move_op(dry_run, verbose),
        }
    }
}

} // verus!

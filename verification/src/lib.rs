use vstd::prelude::*;

pub mod config;
pub mod error;
pub mod matcher;
pub mod paths;
pub mod pattern;

use crate::config::{Config, Mapping, Opts};
use crate::matcher::{MappingPlan, Matcher, MoveOp, move_op_spec};
use crate::paths::joined_path;
use crate::pattern::joined_pattern;

verus! {

/// What the plan of one mapping must hold: the destination folder appended to
/// the target root, the glob scoped to that root, the run's match options,
/// and the move strategy that the run's flags select.
pub open spec fn plan_for(r: MappingPlan, opts: Opts, mapping: Mapping) -> bool {
    &&& r.folder_path@ == joined_path(opts.target@, mapping.folder@)
    &&& r.pattern@ == joined_pattern(opts.target@, mapping.glob@)
    &&& r.options.case_sensitive == opts.case_sensitive
    &&& !r.options.require_literal_separator
    &&& !r.options.require_literal_leading_dot
    &&& r.op == move_op_spec(opts.dry_run, opts.verbose)
}

/// Plans one mapping: computes the destination folder, the scoped glob and
/// the move strategy for it.
pub fn exec(opts: &Opts, mapping: &Mapping) -> (r: MappingPlan)
    ensures
        plan_for(r, *opts, *mapping),
{
    let m = Matcher::new(
        opts.target.as_str(),
        mapping.folder.as_str(),
        mapping.glob.as_str(),
        opts.case_sensitive,
    );
    m.run(opts.dry_run, opts.verbose)
}

/// Plans a whole run: one plan per mapping, in configuration order.
pub fn run(conf: &Config, opts: &Opts) -> (r: Vec<MappingPlan>)
    ensures
        r@.len() == conf.mapping@.len(),
        forall|i: int| 0 <= i < r@.len() ==> plan_for(#[trigger] r@[i], *opts, conf.mapping@[i]),
{
    let n = conf.mapping.len();
    let mut plans: Vec<MappingPlan> = Vec::new();
    let mut i: usize = 0;
    while i < n
        invariant
            i <= n,
            n == conf.mapping@.len(),
            plans@.len() == i as int,
            forall|j: int|
                0 <= j < i as int ==> plan_for(#[trigger] plans@[j], *opts, conf.mapping@[j]),
        decreases n - i,
    {
        let plan = exec(opts, &conf.mapping[i]);
        plans.push(plan);
        i = i + 1;
    }
    plans
}

/// A dry run is an idempotent no-op on the filesystem: any two plans made for
/// the same options and mapping agree on every field, the strategy they carry
/// logs and never renames, and the folder step neither creates a directory
/// nor conflicts, whatever the filesystem reports. Since `move_step` and
/// `plan_create_folder` pin each log line as a function of the paths alone,
/// two dry runs over the same mappings and matches report identical
/// intentions and change nothing.
pub proof fn lemma_dry_run_idempotent(
    opts: Opts,
    mapping: Mapping,
    p1: MappingPlan,
    p2: MappingPlan,
    found: bool,
    is_dir: bool,
)
    requires
        opts.dry_run,
        plan_for(p1, opts, mapping),
        plan_for(p2, opts, mapping),
    ensures
        p1.folder_path@ == p2.folder_path@,
        p1.pattern@ == p2.pattern@,
        p1.options == p2.options,
        p1.op == p2.op,
        p1.op == MoveOp::DryRun,
        matcher::op_logs(p1.op),
        !matcher::op_renames(p1.op),
        !matcher::folder_creates(found, is_dir, opts.dry_run),
        !matcher::folder_conflict(found, is_dir, opts.dry_run),
{
}

/// Whether some move in the list takes `p` as its source.
pub open spec fn is_move_source(moves: Seq<(Seq<char>, Seq<char>)>, p: Seq<char>) -> bool {
    exists|i: int| 0 <= i < moves.len() && (#[trigger] moves[i]).0 == p
}

/// Whether some move in the list takes `p` as its destination.
pub open spec fn is_move_target(moves: Seq<(Seq<char>, Seq<char>)>, p: Seq<char>) -> bool {
    exists|i: int| 0 <= i < moves.len() && (#[trigger] moves[i]).1 == p
}

/// The set of file paths present after the moves are performed in order: each
/// rename takes its source out and puts its destination in.
pub open spec fn apply_renames(
    files: Set<Seq<char>>,
    moves: Seq<(Seq<char>, Seq<char>)>,
) -> Set<Seq<char>>
    decreases moves.len(),
{
    if moves.len() == 0 {
        files
    } else {
        apply_renames(
            files.remove(moves[0].0).insert(moves[0].1),
            moves.subrange(1, moves.len() as int),
        )
    }
}

/// A successful real run relocates exactly the matched files: afterwards
/// every destination path is present, every source path is absent, and every
/// other path is exactly as it was. This holds when the sources are present
/// and pairwise distinct, the destinations fresh and pairwise distinct, and
/// no destination coincides with a source — the normal case of rules over
/// disjoint file sets; two matches sharing a base name fall outside it, since
/// the second rename would overwrite the first.
pub proof fn lemma_real_run_relocates(files: Set<Seq<char>>, moves: Seq<(Seq<char>, Seq<char>)>)
    requires
        forall|i: int| 0 <= i < moves.len() ==> files.contains((#[trigger] moves[i]).0),
        forall|i: int| 0 <= i < moves.len() ==> !files.contains((#[trigger] moves[i]).1),
        forall|i: int, j: int| 0 <= i < j < moves.len() ==> moves[i].0 != moves[j].0,
        forall|i: int, j: int| 0 <= i < j < moves.len() ==> moves[i].1 != moves[j].1,
        forall|i: int, j: int|
            0 <= i < moves.len() && 0 <= j < moves.len() ==> moves[i].0 != moves[j].1,
    ensures
        forall|p: Seq<char>|
            apply_renames(files, moves).contains(p) <==> ((files.contains(p) && !is_move_source(
                moves,
                p,
            )) || is_move_target(moves, p)),
    decreases moves.len(),
{
    if moves.len() == 0 {
        assert forall|p: Seq<char>| !is_move_source(moves, p) && !is_move_target(moves, p) by {}
    } else {
        let m0 = moves[0];
        let files2 = files.remove(m0.0).insert(m0.1);
        let rest = moves.subrange(1, moves.len() as int);
        assert forall|i: int| 0 <= i < rest.len() implies files2.contains(
            (#[trigger] rest[i]).0,
        ) by {
            assert(rest[i] == moves[i + 1]);
        }
        assert forall|i: int| 0 <= i < rest.len() implies !files2.contains(
            (#[trigger] rest[i]).1,
        ) by {
            assert(rest[i] == moves[i + 1]);
        }
        lemma_real_run_relocates(files2, rest);
        assert(apply_renames(files, moves) == apply_renames(files2, rest));
        assert forall|p: Seq<char>|
            apply_renames(files, moves).contains(p) <==> ((files.contains(p) && !is_move_source(
                moves,
                p,
            )) || is_move_target(moves, p)) by {
            if is_move_source(moves, p) {
                let i = choose|i: int| 0 <= i < moves.len() && (#[trigger] moves[i]).0 == p;
                if i > 0 {
                    assert(rest[i - 1] == moves[i]);
                    assert(is_move_source(rest, p));
                }
            }
            if is_move_source(rest, p) {
                let i = choose|i: int| 0 <= i < rest.len() && (#[trigger] rest[i]).0 == p;
                assert(moves[i + 1] == rest[i]);
                assert(is_move_source(moves, p));
            }
            if is_move_target(moves, p) {
                let i = choose|i: int| 0 <= i < moves.len() && (#[trigger] moves[i]).1 == p;
                if i > 0 {
                    assert(rest[i - 1] == moves[i]);
                    assert(is_move_target(rest, p));
                }
            }
            if is_move_target(rest, p) {
                let i = choose|i: int| 0 <= i < rest.len() && (#[trigger] rest[i]).1 == p;
                assert(moves[i + 1] == rest[i]);
                assert(is_move_target(moves, p));
            }
        }
    }
}

} // verus!

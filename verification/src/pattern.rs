use vstd::prelude::*;

use crate::error::NeatError;
use crate::paths::{ends_with_slash, starts_with_slash, ends_with_slash_exec, starts_with_slash_exec};

verus! {

/// Options controlling how a glob pattern is matched against a file name.
#[derive(Clone, Copy, PartialEq, Eq, Structural, Debug)]
pub struct MatchOptions {
    pub case_sensitive: bool,
    pub require_literal_separator: bool,
    pub require_literal_leading_dot: bool,
}

/// The match options used for a run: literal-separator and leading-dot
/// requirements stay at their defaults, case sensitivity follows the flag.
pub fn get_match_options(case_sensitive: bool) -> (r: MatchOptions)
    ensures
        r.case_sensitive == case_sensitive,
        !r.require_literal_separator,
        !r.require_literal_leading_dot,
{
    MatchOptions {
        case_sensitive,
        require_literal_separator: false,
        require_literal_leading_dot: false,
    }
}

/// The scoped pattern for one mapping: the glob appended to the target root,
/// with exactly one separator between the two parts, whether or not the
/// folder already ends or the glob already starts with one — one is inserted
/// when neither carries it, and one is dropped when both do.
pub open spec fn joined_pattern(folder: Seq<char>, glob: Seq<char>) -> Seq<char> {
    if !ends_with_slash(folder) && !starts_with_slash(glob) {
        folder + seq!['/'] + glob
    } else if ends_with_slash(folder) && starts_with_slash(glob) {
        folder + glob.subrange(1, glob.len() as int)
    } else {
        folder + glob
    }
}

/// Builds the absolute glob pattern of `joined_pattern` for one mapping.
pub fn build_glob(folder: &str, glob: &str) -> (r: String)
    ensures
        r@ == joined_pattern(folder@, glob@),
{
    let mut result = folder.to_owned();
    let folder_slash = ends_with_slash_exec(folder);
    let glob_slash = starts_with_slash_exec(glob);
    if !folder_slash && !glob_slash {
        result.append("/");
        proof {
            reveal_strlit("/");
            assert(result@ =~= folder@ + seq!['/']);
        }
        result.append(glob);
    } else if folder_slash && glob_slash {
        let n = glob.unicode_len();
        let rest = glob.substring_char(1, n);
        result.append(rest);
    } else {
        result.append(glob);
    }
    proof {
        assert(result@ =~= joined_pattern(folder@, glob@));
    }
    result
}

/// Separator placement does not change the constructed pattern: appending a
/// trailing separator to a folder that has none, or a leading one to a glob
/// that has none, yields the same pattern as leaving it off.
pub proof fn lemma_build_glob_separator_agnostic(folder: Seq<char>, glob: Seq<char>)
    ensures
        !ends_with_slash(folder) ==> joined_pattern(folder.push('/'), glob) == joined_pattern(
            folder,
            glob,
        ),
        !starts_with_slash(glob) ==> joined_pattern(folder, seq!['/'] + glob) == joined_pattern(
            folder,
            glob,
        ),
{
    assert(ends_with_slash(folder.push('/')));
    assert(starts_with_slash(seq!['/'] + glob));
    if !ends_with_slash(folder) {
        if starts_with_slash(glob) {
            assert(glob =~= seq!['/'] + glob.subrange(1, glob.len() as int));
        }
        assert(joined_pattern(folder.push('/'), glob) =~= joined_pattern(folder, glob));
    }
    if !starts_with_slash(glob) {
        assert((seq!['/'] + glob).subrange(1, (seq!['/'] + glob).len() as int) =~= glob);
        assert(joined_pattern(folder, seq!['/'] + glob) =~= joined_pattern(folder, glob));
    }
}

/// Whether the glob library accepts a pattern; compiling the same text always
/// has the same outcome.
pub uninterp spec fn pattern_valid(pattern: Seq<char>) -> bool;

/// Whether a name matches a valid pattern under the given options; the result
/// is a function of these arguments alone.
pub uninterp spec fn glob_match(
    pattern: Seq<char>,
    name: Seq<char>,
    case_sensitive: bool,
    require_literal_separator: bool,
    require_literal_leading_dot: bool,
) -> bool;

/// Relies on glob::Pattern::new: compiling a pattern succeeds or reports a
/// syntax error, and the outcome depends on the pattern text alone.
#[verifier::external_body]
fn compile_pattern(pattern: &str) -> (r: Result<(), NeatError>)
    ensures
        r is Ok <==> pattern_valid(pattern@),
        r is Err ==> r->Err_0 is Pattern,
{
    match ::glob::Pattern::new(pattern) {
        Ok(_) => Ok(()),
        Err(e) => Err(NeatError::Pattern { pos: e.pos, msg: e.msg.to_owned() }),
    }
}

/// Relies on glob::Pattern::new and glob::Pattern::matches_with: whether a
/// name matches a pattern is a function of the pattern text, the name and the
/// match options alone; a malformed pattern is rejected by the compile step.
#[verifier::external_body]
fn match_with_options(pattern: &str, name: &str, options: &MatchOptions) -> (r: Result<
    bool,
    NeatError,
>)
    ensures
        r is Ok <==> pattern_valid(pattern@),
        r is Err ==> r->Err_0 is Pattern,
        r is Ok ==> r->Ok_0 == glob_match(
            pattern@,
            name@,
            options.case_sensitive,
            options.require_literal_separator,
            options.require_literal_leading_dot,
        ),
{
    let opts = ::glob::MatchOptions {
        case_sensitive: options.case_sensitive,
        require_literal_separator: options.require_literal_separator,
        require_literal_leading_dot: options.require_literal_leading_dot,
    };
    match ::glob::Pattern::new(pattern) {
        Ok(p) => Ok(p.matches_with(name, opts)),
        Err(e) => Err(NeatError::Pattern { pos: e.pos, msg: e.msg.to_owned() }),
    }
}

/// Validates a constructed glob pattern; run before any enumeration so that a
/// malformed pattern aborts the mapping with a `Pattern` error.
pub fn check_pattern(pattern: &str) -> (r: Result<(), NeatError>)
    ensures
        r is Ok <==> pattern_valid(pattern@),
        r is Err ==> r->Err_0 is Pattern,
{
    compile_pattern(pattern)
}

/// Whether `name` matches the glob `pattern` under `options`; a malformed
/// pattern is reported as a `Pattern` error.
pub fn glob_matches(pattern: &str, name: &str, options: &MatchOptions) -> (r: Result<
    bool,
    NeatError,
>)
    ensures
        r is Ok <==> pattern_valid(pattern@),
        r is Err ==> r->Err_0 is Pattern,
        r is Ok ==> r->Ok_0 == glob_match(
            pattern@,
            name@,
            options.case_sensitive,
            options.require_literal_separator,
            options.require_literal_leading_dot,
        ),
{
    match_with_options(pattern, name, options)
}

} // verus!

use vstd::prelude::*;

use crate::error::NeatError;

verus! {

/// True when the path's last character is the separator.
pub open spec fn ends_with_slash(s: Seq<char>) -> bool {
    s.len() > 0 && s[s.len() - 1] == '/'
}

/// True when the path's first character is the separator.
pub open spec fn starts_with_slash(s: Seq<char>) -> bool {
    s.len() > 0 && s[0] == '/'
}

/// How a relative path is appended to a base path: an absolute path replaces
/// the base, anything else is appended with exactly one separator between the
/// two parts.
pub open spec fn joined_path(base: Seq<char>, rel: Seq<char>) -> Seq<char> {
    if starts_with_slash(rel) {
        rel
    } else if base.len() == 0 || ends_with_slash(base) {
        base + rel
    } else {
        base + seq!['/'] + rel
    }
}

/// The part of a path after its last separator; empty when the path is empty
/// or ends with a separator.
pub open spec fn base_name(path: Seq<char>) -> Seq<char>
    decreases path.len(),
{
    if path.len() == 0 {
        Seq::empty()
    } else if path[path.len() - 1] == '/' {
        Seq::empty()
    } else {
        base_name(path.drop_last()) + seq![path[path.len() - 1]]
    }
}

pub(crate) fn ends_with_slash_exec(s: &str) -> (r: bool)
    ensures
        r == ends_with_slash(s@),
{
    let n = s.unicode_len();
    if n == 0 {
        false
    } else {
        s.get_char(n - 1) == '/'
    }
}

pub(crate) fn starts_with_slash_exec(s: &str) -> (r: bool)
    ensures
        r == starts_with_slash(s@),
{
    let n = s.unicode_len();
    if n == 0 {
        false
    } else {
        s.get_char(0) == '/'
    }
}

/// Appends `rel` to `base` with the separator placement of `joined_path`.
pub fn join_path(base: &str, rel: &str) -> (r: String)
    ensures
        r@ == joined_path(base@, rel@),
{
    if starts_with_slash_exec(rel) {
        rel.to_owned()
    } else {
        let mut s = base.to_owned();
        if base.unicode_len() > 0 && !ends_with_slash_exec(base) {
            s.append("/");
            proof {
                reveal_strlit("/");
                assert(s@ =~= base@ + seq!['/']);
            }
        }
        s.append(rel);
        proof {
            assert(s@ =~= joined_path(base@, rel@));
        }
        s
    }
}

/// A suffix that holds no separator and starts right after one (or at the
/// start of the path) is the path's base name.
proof fn lemma_base_name_suffix(s: Seq<char>, i: int)
    requires
        0 <= i <= s.len(),
        forall|j: int| i <= j < s.len() ==> s[j] != '/',
        i == 0 || s[i - 1] == '/',
    ensures
        base_name(s) == s.subrange(i, s.len() as int),
    decreases s.len() - i,
{
    if i == s.len() {
        assert(base_name(s) =~= s.subrange(i, s.len() as int));
    } else {
        let s2 = s.drop_last();
        lemma_base_name_suffix(s2, i);
        assert(base_name(s) =~= s.subrange(i, s.len() as int));
    }
}

/// A base name holds no separator; in particular it never starts with one,
/// so appending it to a folder never takes the absolute-path branch of
/// `joined_path`.
pub proof fn lemma_base_name_has_no_slash(s: Seq<char>)
    ensures
        forall|j: int| 0 <= j < base_name(s).len() ==> base_name(s)[j] != '/',
        !starts_with_slash(base_name(s)),
    decreases s.len(),
{
    if s.len() == 0 {
    } else if s[s.len() - 1] == '/' {
    } else {
        lemma_base_name_has_no_slash(s.drop_last());
    }
}

/// Distinct relative paths give distinct destinations under one folder: with
/// distinct base names, the moves of one mapping touch pairwise distinct
/// destination paths, as the premises of `lemma_real_run_relocates` ask.
pub proof fn lemma_joined_path_injective(folder: Seq<char>, a: Seq<char>, b: Seq<char>)
    requires
        !starts_with_slash(a),
        !starts_with_slash(b),
        joined_path(folder, a) == joined_path(folder, b),
    ensures
        a == b,
{
    let pre = if folder.len() == 0 || ends_with_slash(folder) {
        folder
    } else {
        folder + seq!['/']
    };
    assert(joined_path(folder, a) == pre + a);
    assert(joined_path(folder, b) == pre + b);
    assert((pre + a).len() == (pre + b).len());
    assert forall|i: int| 0 <= i < a.len() implies a[i] == b[i] by {
        assert((pre + a)[pre.len() + i] == a[i]);
        assert((pre + b)[pre.len() + i] == b[i]);
    }
    assert(a =~= b);
}

/// The current- and parent-directory names, which name no file of their own.
pub open spec fn dot_name(s: Seq<char>) -> bool {
    s == seq!['.'] || s == seq!['.', '.']
}

fn is_dot_name(name: &str) -> (r: bool)
    ensures
        r == dot_name(name@),
{
    let n = name.unicode_len();
    if n == 1 {
        let r = name.get_char(0) == '.';
        proof {
            if r {
                assert(name@ =~= seq!['.']);
            }
        }
        r
    } else if n == 2 {
        let r = name.get_char(0) == '.' && name.get_char(1) == '.';
        proof {
            if r {
                assert(name@ =~= seq!['.', '.']);
            }
        }
        r
    } else {
        false
    }
}

/// The destination of one matched file: the file's base name appended to the
/// destination folder. A match without a base name — an empty one, or the
/// `.` and `..` directory names — is a `Filename` error.
pub fn build_file_path(folder: &str, file: &str) -> (r: Result<String, NeatError>)
    ensures
        r is Ok <==> base_name(file@).len() > 0 && !dot_name(base_name(file@)),
        r is Ok ==> r->Ok_0@ == joined_path(folder@, base_name(file@)),
        r is Err ==> (r->Err_0 matches NeatError::Filename { file: f } && f@ == file@),
{
    let n = file.unicode_len();
    let mut i = n;
    while i > 0 && file.get_char(i - 1) != '/'
        invariant
            0 <= i <= n,
            n == file@.len(),
            forall|j: int| i <= j < n ==> file@[j] != '/',
        decreases i,
    {
        i = i - 1;
    }
    proof {
        lemma_base_name_suffix(file@, i as int);
    }
    if i == n {
        Err(NeatError::Filename { file: file.to_owned() })
    } else {
        let name = file.substring_char(i, n);
        if is_dot_name(name) {
            Err(NeatError::Filename { file: file.to_owned() })
        } else {
            Ok(join_path(folder, name))
        }
    }
}

} // verus!

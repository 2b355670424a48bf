use vstd::prelude::*;

verus! {

/// Everything that can stop a run: a mapping entry that fails validation, a
/// destination occupied by a plain file, a matched path without a base name,
/// a malformed glob pattern, an unreadable filesystem entry, and an OS-level
/// failure while creating a directory or renaming a file.
#[derive(Debug)]
pub enum NeatError {
    /// A mapping entry is missing its `glob` and/or `folder` field; carries
    /// the entry's position in the configuration.
    ConfigValidation { index: usize, missing_glob: bool, missing_folder: bool },
    /// The destination path exists and is not a directory.
    NamingConflict { file: String },
    /// A matched path has no extractable base name.
    Filename { file: String },
    /// The constructed glob pattern is syntactically invalid.
    Pattern { pos: usize, msg: String },
    /// A filesystem entry could not be read while matches were enumerated.
    Glob { path: String, msg: String },
    /// Directory creation or a file rename failed at the OS level.
    Io { msg: String },
}

/// The decimal digit for a value below ten.
pub open spec fn digit_char(d: nat) -> char {
    if d == 0 {
        '0'
    } else if d == 1 {
        '1'
    } else if d == 2 {
        '2'
    } else if d == 3 {
        '3'
    } else if d == 4 {
        '4'
    } else if d == 5 {
        '5'
    } else if d == 6 {
        '6'
    } else if d == 7 {
        '7'
    } else if d == 8 {
        '8'
    } else {
        '9'
    }
}

/// The decimal notation of a number, most significant digit first.
pub open spec fn dec_digits(n: nat) -> Seq<char>
    decreases n,
{
    if n < 10 {
        seq![digit_char(n)]
    } else {
        dec_digits(n / 10) + seq![digit_char(n % 10)]
    }
}

fn digit_str(d: usize) -> (r: &'static str)
    requires
        d < 10,
    ensures
        r@ == seq![digit_char(d as nat)],
{
    let r: &'static str = match d {
        0 => "0",
        1 => "1",
        2 => "2",
        3 => "3",
        4 => "4",
        5 => "5",
        6 => "6",
        7 => "7",
        8 => "8",
        _ => "9",
    };
    proof {
        reveal_strlit("0");
        reveal_strlit("1");
        reveal_strlit("2");
        reveal_strlit("3");
        reveal_strlit("4");
        reveal_strlit("5");
        reveal_strlit("6");
        reveal_strlit("7");
        reveal_strlit("8");
        reveal_strlit("9");
        assert(r@ =~= seq![digit_char(d as nat)]);
    }
    r
}

/// The decimal notation of `n`, for error messages that name an entry's
/// position.
pub fn usize_to_string(n: usize) -> (r: String)
    ensures
        r@ == dec_digits(n as nat),
    decreases n,
{
    if n < 10 {
        digit_str(n).to_owned()
    } else {
        let mut s = usize_to_string(n / 10);
        s.append(digit_str(n % 10));
        proof {
            assert(s@ =~= dec_digits(n as nat));
        }
        s
    }
}

/// The field names reported for a mapping entry that fails validation.
pub open spec fn missing_fields_text(missing_glob: bool, missing_folder: bool) -> Seq<char> {
    if missing_glob && missing_folder {
        "glob and folder"@
    } else if missing_glob {
        "glob"@
    } else {
        "folder"@
    }
}

/// The message that `describe` renders for each error.
pub open spec fn spec_describe(e: NeatError) -> Seq<char> {
    match e {
        NeatError::ConfigValidation { index, missing_glob, missing_folder } => "mapping entry "@
            + dec_digits(index as nat) + " is missing "@ + missing_fields_text(
            missing_glob,
            missing_folder,
        ),
        NeatError::NamingConflict { file } => "File exists with the name "@ + file@,
        NeatError::Filename { file } => "Failed to read filename "@ + file@,
        NeatError::Pattern { pos, msg } => "Pattern syntax error near position "@ + dec_digits(
            pos as nat,
        ) + ": "@ + msg@,
        NeatError::Glob { path, msg } => "Failed to read "@ + path@ + ": "@ + msg@,
        NeatError::Io { msg } => msg@,
    }
}

impl NeatError {
    /// A human-readable description of the error, pinned exactly by
    /// `spec_describe`.
    pub fn describe(&self) -> (r: String)
        ensures
            r@ == spec_describe(*self),
    {
        match self {
            NeatError::ConfigValidation { index, missing_glob, missing_folder } => {
                let mut s = "mapping entry ".to_owned();
                let num = usize_to_string(*index);
                s.append(num.as_str());
                s.append(" is missing ");
                if *missing_glob && *missing_folder {
                    s.append("glob and folder");
                } else if *missing_glob {
                    s.append("glob");
                } else {
                    s.append("folder");
                }
                proof {
                    assert(s@ =~= spec_describe(*self));
                }
                s
            },
            NeatError::NamingConflict { file } => {
                let mut s = "File exists with the name ".to_owned();
                s.append(file.as_str());
                proof {
                    assert(s@ =~= spec_describe(*self));
                }
                s
            },
            NeatError::Filename { file } => {
                let mut s = "Failed to read filename ".to_owned();
                s.append(file.as_str());
                proof {
                    assert(s@ =~= spec_describe(*self));
                }
                s
            },
            NeatError::Pattern { pos, msg } => {
                let mut s = "Pattern syntax error near position ".to_owned();
                let num = usize_to_string(*pos);
                s.append(num.as_str());
                s.append(": ");
                s.append(msg.as_str());
                proof {
                    assert(s@ =~= spec_describe(*self));
                }
                s
            },
            NeatError::Glob { path, msg } => {
                let mut s = "Failed to read ".to_owned();
                s.append(path.as_str());
                s.append(": ");
                s.append(msg.as_str());
                proof {
                    assert(s@ =~= spec_describe(*self));
                }
                s
            },
            NeatError::Io { msg } => msg.clone(),
        }
    }
}

} // verus!

use vstd::prelude::*;

use crate::error::NeatError;

verus! {

/// One configured rule: files matching `glob` move into `folder`, both
/// relative to the target root.
#[derive(Debug)]
pub struct Mapping {
    pub glob: String,
    pub folder: String,
}

/// The configuration: mappings in execution order.
#[derive(Debug)]
pub struct Config {
    pub mapping: Vec<Mapping>,
}

/// A mapping entry as read from the configuration file, before validation:
/// either field may be absent.
#[derive(Debug)]
pub struct RawMapping {
    pub glob: Option<String>,
    pub folder: Option<String>,
}

/// The options of one run, immutable for its duration.
#[derive(Debug)]
pub struct Opts {
    /// The target folder to be organized.
    pub target: String,
    /// Whether the globs are case sensitive.
    pub case_sensitive: bool,
    /// Report planned actions without touching the filesystem.
    pub dry_run: bool,
    /// Verbosity level; above zero, real moves are logged too.
    pub verbose: u8,
}

/// A raw entry is complete when both required fields are present.
pub open spec fn raw_entry_ok(r: RawMapping) -> bool {
    r.glob is Some && r.folder is Some
}

/// Upfront validation: every entry must carry both `glob` and `folder`. The
/// first incomplete entry is rejected, naming its position and the missing
/// fields, before any mapping executes.
pub fn validate_config(raw: &Vec<RawMapping>) -> (r: Result<Config, NeatError>)
    ensures
        r is Ok <==> (forall|i: int| 0 <= i < raw@.len() ==> raw_entry_ok(#[trigger] raw@[i])),
        r is Ok ==> r->Ok_0.mapping@.len() == raw@.len(),
        r is Ok ==> (forall|i: int|
            0 <= i < raw@.len() ==> (#[trigger] r->Ok_0.mapping@[i]).glob@ == raw@[i].glob->0@
                && r->Ok_0.mapping@[i].folder@ == raw@[i].folder->0@),
        r is Err ==> (r->Err_0 matches NeatError::ConfigValidation {
            index,
            missing_glob,
            missing_folder,
        } && {
            &&& (index as int) < raw@.len()
            &&& !raw_entry_ok(raw@[index as int])
            &&& forall|j: int| 0 <= j < index as int ==> raw_entry_ok(#[trigger] raw@[j])
            &&& missing_glob == (raw@[index as int].glob is None)
            &&& missing_folder == (raw@[index as int].folder is None)
        }),
{
    let n = raw.len();
    let mut mappings: Vec<Mapping> = Vec::new();
    let mut i: usize = 0;
    while i < n
        invariant
            i <= n,
            n == raw@.len(),
            mappings@.len() == i as int,
            forall|j: int| 0 <= j < i as int ==> raw_entry_ok(#[trigger] raw@[j]),
            forall|j: int|
                0 <= j < i as int ==> (#[trigger] mappings@[j]).glob@ == raw@[j].glob->0@
                    && mappings@[j].folder@ == raw@[j].folder->0@,
        decreases n - i,
    {
        let entry = &raw[i];
        match (&entry.glob, &entry.folder) {
            (Some(g), Some(f)) => {
                mappings.push(Mapping { glob: g.clone(), folder: f.clone() });
            },
            (g_opt, f_opt) => {
                return Err(
                    NeatError::ConfigValidation {
                        index: i,
                        missing_glob: g_opt.is_none(),
                        missing_folder: f_opt.is_none(),
                    },
                );
            },
        }
        i = i + 1;
    }
    Ok(Config { mapping: mappings })
}

} // verus!

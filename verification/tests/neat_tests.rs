use neat::config::{Mapping, Opts, RawMapping, validate_config};
use neat::error::{NeatError, usize_to_string};
use neat::matcher::{FolderPlan, Matcher, MoveOp, MoveStep, get_move_op, move_step, plan_create_folder};
use neat::paths::{build_file_path, join_path};
use neat::pattern::{build_glob, check_pattern, get_match_options, glob_matches};
use neat::{exec, run};

fn opts(target: &str, case_sensitive: bool, dry_run: bool, verbose: u8) -> Opts {
    Opts { target: target.to_string(), case_sensitive, dry_run, verbose }
}

fn mapping(glob: &str, folder: &str) -> Mapping {
    Mapping { glob: glob.to_string(), folder: folder.to_string() }
}

#[test]
fn build_glob_inserts_exactly_one_separator() {
    assert_eq!(build_glob("a/", "*.txt"), "a/*.txt");
    assert_eq!(build_glob("a", "*.txt"), "a/*.txt");
    assert_eq!(build_glob("a", "/*.txt"), "a/*.txt");
    assert_eq!(build_glob("a/", "/*.txt"), "a/*.txt");
}

#[test]
fn build_glob_separator_edges() {
    assert_eq!(build_glob("", "*.txt"), "/*.txt");
    assert_eq!(build_glob("a/", "/"), "a/");
    assert_eq!(build_glob("/tmp/x/", "/**/*.pdf"), "/tmp/x/**/*.pdf");
}

#[test]
fn join_path_appends_with_one_separator() {
    assert_eq!(join_path("/tmp/x", "docs"), "/tmp/x/docs");
    assert_eq!(join_path("/tmp/x/", "docs"), "/tmp/x/docs");
    assert_eq!(join_path("", "docs"), "docs");
}

#[test]
fn join_path_lets_an_absolute_path_replace_the_base() {
    assert_eq!(join_path("/tmp/x", "/abs/docs"), "/abs/docs");
}

#[test]
fn build_file_path_takes_only_the_base_name() {
    let r = build_file_path("/tmp/x/docs", "/tmp/x/report.pdf").unwrap();
    assert_eq!(r, "/tmp/x/docs/report.pdf");
    let r = build_file_path("/tmp/x/docs", "report.pdf").unwrap();
    assert_eq!(r, "/tmp/x/docs/report.pdf");
    let r = build_file_path("/tmp/x/docs", "a/b/c/notes.txt").unwrap();
    assert_eq!(r, "/tmp/x/docs/notes.txt");
}

#[test]
fn build_file_path_without_base_name_is_a_filename_error() {
    let r = build_file_path("/tmp/x/docs", "/tmp/x/sub/");
    match r {
        Err(NeatError::Filename { file }) => {
            assert_eq!(file, "/tmp/x/sub/");
        }
        _ => panic!("expected a Filename error"),
    }
    let r = build_file_path("/tmp/x/docs", "");
    assert!(matches!(r, Err(NeatError::Filename { .. })));
    let r = build_file_path("/tmp/x/docs", "/");
    assert!(matches!(r, Err(NeatError::Filename { .. })));
    let r = build_file_path("/tmp/x/docs", "a/..");
    assert!(matches!(r, Err(NeatError::Filename { .. })));
    let r = build_file_path("/tmp/x/docs", ".");
    assert!(matches!(r, Err(NeatError::Filename { .. })));
    let r = build_file_path("/tmp/x/docs", "a/.");
    assert!(matches!(r, Err(NeatError::Filename { .. })));
    let r = build_file_path("/tmp/x/docs", "..");
    assert!(matches!(r, Err(NeatError::Filename { .. })));
    let r = build_file_path("/tmp/x/docs", "a/...").unwrap();
    assert_eq!(r, "/tmp/x/docs/...");
}

#[test]
fn case_insensitive_matching_widens_the_match_set() {
    let insensitive = get_match_options(false);
    let sensitive = get_match_options(true);
    assert_eq!(glob_matches("*.txt", "A.TXT", &insensitive).unwrap(), true);
    assert_eq!(glob_matches("*.txt", "A.TXT", &sensitive).unwrap(), false);
    assert_eq!(glob_matches("*.txt", "a.txt", &sensitive).unwrap(), true);
}

#[test]
fn malformed_patterns_are_rejected_before_any_move() {
    let r = check_pattern("a/**b");
    match r {
        Err(e @ NeatError::Pattern { .. }) => {
            assert_eq!(
                e.describe(),
                "Pattern syntax error near position 4: recursive wildcards must form a single path component"
            );
        }
        _ => panic!("expected a Pattern error"),
    }
    assert!(check_pattern("*.pdf").is_ok());
    let r = glob_matches("[", "x", &get_match_options(true));
    assert!(matches!(r, Err(NeatError::Pattern { .. })));
}

#[test]
fn validation_rejects_the_first_incomplete_entry() {
    let raw = vec![
        RawMapping { glob: Some("*.pdf".to_string()), folder: Some("docs".to_string()) },
        RawMapping { glob: Some("*.txt".to_string()), folder: Some("text".to_string()) },
        RawMapping { glob: Some("*.jpg".to_string()), folder: None },
    ];
    let r = validate_config(&raw);
    match r {
        Err(e @ NeatError::ConfigValidation { index: 2, missing_glob: false, missing_folder: true }) => {
            assert_eq!(e.describe(), "mapping entry 2 is missing folder");
        }
        _ => panic!("expected a ConfigValidation error for entry 2"),
    }
}

#[test]
fn validation_names_every_missing_field() {
    let raw = vec![RawMapping { glob: None, folder: Some("docs".to_string()) }];
    let e = validate_config(&raw).unwrap_err();
    assert_eq!(e.describe(), "mapping entry 0 is missing glob");
    let raw = vec![RawMapping { glob: None, folder: None }];
    let e = validate_config(&raw).unwrap_err();
    assert_eq!(e.describe(), "mapping entry 0 is missing glob and folder");
}

#[test]
fn validation_keeps_complete_entries_in_order() {
    let raw = vec![
        RawMapping { glob: Some("*.pdf".to_string()), folder: Some("docs".to_string()) },
        RawMapping { glob: Some("*.txt".to_string()), folder: Some("text".to_string()) },
    ];
    let conf = validate_config(&raw).unwrap();
    assert_eq!(conf.mapping.len(), 2);
    assert_eq!(conf.mapping[0].glob, "*.pdf");
    assert_eq!(conf.mapping[0].folder, "docs");
    assert_eq!(conf.mapping[1].glob, "*.txt");
    assert_eq!(conf.mapping[1].folder, "text");
}

#[test]
fn a_dry_run_plans_the_same_intentions_twice_and_never_mutates() {
    let o = opts("/tmp/x", false, true, 0);
    let m = mapping("*.pdf", "docs");
    let first = exec(&o, &m);
    let second = exec(&o, &m);
    assert_eq!(first.folder_path, second.folder_path);
    assert_eq!(first.pattern, second.pattern);
    assert!(matches!(first.op, MoveOp::DryRun));
    assert!(matches!(second.op, MoveOp::DryRun));
    let s1: MoveStep = move_step(&first.op, "/tmp/x/report.pdf", "/tmp/x/docs/report.pdf");
    let s2: MoveStep = move_step(&second.op, "/tmp/x/report.pdf", "/tmp/x/docs/report.pdf");
    assert_eq!(s1.log, s2.log);
    assert_eq!(s1.log.unwrap(), "moving \"/tmp/x/report.pdf\" to \"/tmp/x/docs/report.pdf\"");
    assert!(!s1.rename);
    assert!(!s2.rename);
    let f1: FolderPlan = plan_create_folder("/tmp/x/docs", false, false, true).unwrap();
    let f2: FolderPlan = plan_create_folder("/tmp/x/docs", false, false, true).unwrap();
    assert!(!f1.create);
    assert!(!f2.create);
    assert_eq!(f1.log, f2.log);
    assert_eq!(f1.log.unwrap(), "creating \"/tmp/x/docs\"");
}

#[test]
fn the_move_strategy_follows_the_run_flags() {
    assert!(matches!(get_move_op(true, 0), MoveOp::DryRun));
    assert!(matches!(get_move_op(true, 3), MoveOp::DryRun));
    assert!(matches!(get_move_op(false, 0), MoveOp::Rename { log: false }));
    assert!(matches!(get_move_op(false, 2), MoveOp::Rename { log: true }));
    let silent = move_step(&MoveOp::Rename { log: false }, "a", "b");
    assert!(silent.rename);
    assert!(silent.log.is_none());
    let loud = move_step(&MoveOp::Rename { log: true }, "a", "b");
    assert!(loud.rename);
    assert_eq!(loud.log.unwrap(), "moving \"a\" to \"b\"");
}

#[test]
fn the_folder_step_creates_keeps_or_conflicts() {
    let created = plan_create_folder("/tmp/x/docs", false, false, false).unwrap();
    assert!(created.create);
    assert!(created.log.is_none());
    let kept = plan_create_folder("/tmp/x/docs", true, true, false).unwrap();
    assert!(!kept.create);
    assert!(kept.log.is_none());
}

#[test]
fn a_plain_file_at_the_destination_is_a_naming_conflict() {
    let r = plan_create_folder("/tmp/x/notes.txt", true, false, false);
    match r {
        Err(e @ NeatError::NamingConflict { .. }) => {
            assert_eq!(e.describe(), "File exists with the name /tmp/x/notes.txt");
        }
        _ => panic!("expected a NamingConflict error"),
    }
}

#[test]
fn the_example_scenario_moves_only_the_matching_pdf() {
    let o = opts("/tmp/x", false, false, 0);
    let m = mapping("*.pdf", "docs");
    let plan = exec(&o, &m);
    assert_eq!(plan.folder_path, "/tmp/x/docs");
    assert_eq!(plan.pattern, "/tmp/x/*.pdf");
    assert!(check_pattern(&plan.pattern).is_ok());
    assert_eq!(glob_matches(&plan.pattern, "/tmp/x/report.pdf", &plan.options).unwrap(), true);
    assert_eq!(glob_matches(&plan.pattern, "/tmp/x/notes.txt", &plan.options).unwrap(), false);
    let dest = build_file_path(&plan.folder_path, "/tmp/x/report.pdf").unwrap();
    assert_eq!(dest, "/tmp/x/docs/report.pdf");
    let step = move_step(&plan.op, "/tmp/x/report.pdf", &dest);
    assert!(step.rename);
    assert!(step.log.is_none());
}

#[test]
fn a_whole_run_plans_every_mapping_in_order() {
    let o = opts("/tmp/x", true, false, 1);
    let conf = validate_config(&vec![
        RawMapping { glob: Some("*.pdf".to_string()), folder: Some("docs".to_string()) },
        RawMapping { glob: Some("*.txt".to_string()), folder: Some("text".to_string()) },
    ])
    .unwrap();
    let plans = run(&conf, &o);
    assert_eq!(plans.len(), 2);
    assert_eq!(plans[0].pattern, "/tmp/x/*.pdf");
    assert_eq!(plans[0].folder_path, "/tmp/x/docs");
    assert_eq!(plans[1].pattern, "/tmp/x/*.txt");
    assert_eq!(plans[1].folder_path, "/tmp/x/text");
    assert!(plans[0].options.case_sensitive);
    assert!(matches!(plans[0].op, MoveOp::Rename { log: true }));
}

#[test]
fn numbers_render_in_decimal() {
    assert_eq!(usize_to_string(0), "0");
    assert_eq!(usize_to_string(7), "7");
    assert_eq!(usize_to_string(42), "42");
    assert_eq!(usize_to_string(1000), "1000");
    assert_eq!(usize_to_string(90210), "90210");
}

#[test]
fn every_error_has_a_description() {
    let e = NeatError::Filename { file: "x/".to_string() };
    assert_eq!(e.describe(), "Failed to read filename x/");
    let e = NeatError::Io { msg: "permission denied".to_string() };
    assert_eq!(e.describe(), "permission denied");
    let e = NeatError::Glob { path: "/tmp/x/a.pdf".to_string(), msg: "permission denied".to_string() };
    assert_eq!(e.describe(), "Failed to read /tmp/x/a.pdf: permission denied");
    let e = NeatError::Pattern { pos: 3, msg: "invalid range pattern".to_string() };
    assert_eq!(e.describe(), "Pattern syntax error near position 3: invalid range pattern");
}

#[test]
fn recursive_globs_reach_sub_folders() {
    let o = opts("/tmp/x", false, false, 0);
    let m = mapping("**/*.pdf", "docs");
    let plan = exec(&o, &m);
    assert_eq!(plan.pattern, "/tmp/x/**/*.pdf");
    assert!(check_pattern(&plan.pattern).is_ok());
    assert_eq!(glob_matches(&plan.pattern, "/tmp/x/sub/deep/old.pdf", &plan.options).unwrap(), true);
}

#[test]
fn the_matcher_scopes_paths_and_pattern_to_the_root() {
    let m = Matcher::new("/tmp/x", "docs", "*.pdf", false);
    assert_eq!(m.from, "/tmp/x");
    assert_eq!(m.to, "/tmp/x/docs");
    assert_eq!(m.glob.glob, "/tmp/x/*.pdf");
    assert!(!m.glob.options.case_sensitive);
    assert!(m.glob.glob().is_ok());
    let plan = m.run(true, 0);
    assert_eq!(plan.folder_path, "/tmp/x/docs");
    assert_eq!(plan.pattern, "/tmp/x/*.pdf");
    assert!(matches!(plan.op, MoveOp::DryRun));
    let bad = Matcher::new("/tmp/x", "docs", "***", false);
    assert!(matches!(bad.glob.glob(), Err(NeatError::Pattern { .. })));
}

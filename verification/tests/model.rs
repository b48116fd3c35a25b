use preflight::{
    apply_cleanup, apply_copy_match, apply_mkdir, apply_mkfile, apply_move, build_task, exec_task,
    run_tasks, Entry, EntryData, FieldValue, FsError, FsModel, ResolvedTask, Task, TaskFields,
    TaskKind,
};

fn content_of(fs: &FsModel, path: &str) -> Vec<u8> {
    match fs.get_entry(path) {
        Some(Entry { data: EntryData::File { content }, .. }) => content.clone(),
        _ => panic!("no file at {}", path),
    }
}

fn mode_of(fs: &FsModel, path: &str) -> u32 {
    fs.get_entry(path).expect("entry missing").mode
}

#[test]
fn mkdir_is_idempotent() {
    let mut fs = FsModel::new();
    apply_mkdir(&mut fs, "/srv/www").unwrap();
    assert!(fs.contains("/srv/www"));
    let mode_first = mode_of(&fs, "/srv/www");
    apply_mkdir(&mut fs, "/srv/www").unwrap();
    assert_eq!(mode_of(&fs, "/srv/www"), mode_first);
    assert!(matches!(
        fs.get_entry("/srv/www").unwrap().data,
        EntryData::Dir
    ));
}

#[test]
fn mkdir_over_a_file_fails() {
    let mut fs = FsModel::new();
    apply_mkfile(&mut fs, "/srv/www");
    assert_eq!(apply_mkdir(&mut fs, "/srv/www"), Err(FsError::NotADirectory));
}

#[test]
fn mkfile_is_idempotent() {
    let mut fs = FsModel::new();
    apply_mkfile(&mut fs, "/etc/flag");
    assert_eq!(content_of(&fs, "/etc/flag"), Vec::<u8>::new());
    apply_mkfile(&mut fs, "/etc/flag");
    assert_eq!(content_of(&fs, "/etc/flag"), Vec::<u8>::new());
    assert!(fs.contains("/etc/flag"));
}

#[test]
fn move_renames_an_entry() {
    let mut fs = FsModel::new();
    apply_mkfile(&mut fs, "/a");
    apply_move(&mut fs, "/a", "/b").unwrap();
    assert!(!fs.contains("/a"));
    assert!(fs.contains("/b"));
}

#[test]
fn move_of_a_missing_source_fails() {
    let mut fs = FsModel::new();
    assert_eq!(apply_move(&mut fs, "/a", "/b"), Err(FsError::MissingSource));
}

#[test]
fn copy_overwrites_and_converges() {
    let mut fs = FsModel::new();
    apply_mkfile(&mut fs, "/data/one.txt");
    apply_mkfile(&mut fs, "/dst/one.txt");
    apply_copy_match(&mut fs, true, "/data", "/data/one.txt", "/dst").unwrap();
    let first = content_of(&fs, "/dst//one.txt");
    // Second copy changes nothing further.
    apply_copy_match(&mut fs, true, "/data", "/data/one.txt", "/dst").unwrap();
    assert_eq!(content_of(&fs, "/dst//one.txt"), first);
    assert_eq!(
        content_of(&fs, "/dst//one.txt"),
        content_of(&fs, "/data/one.txt")
    );
}

#[test]
fn copy_if_absent_is_idempotent_and_preserves_existing() {
    let mut fs = FsModel::new();
    apply_mkfile(&mut fs, "/data/one.txt");
    // Destination does not exist yet: the first application creates it.
    apply_copy_match(&mut fs, false, "/data", "/data/one.txt", "/dst").unwrap();
    assert!(fs.contains("/dst//one.txt"));
    let first = content_of(&fs, "/dst//one.txt");
    // The second application leaves it exactly as the first did.
    apply_copy_match(&mut fs, false, "/data", "/data/one.txt", "/dst").unwrap();
    assert_eq!(content_of(&fs, "/dst//one.txt"), first);
}

#[test]
fn copy_if_absent_never_overwrites_a_preexisting_destination() {
    let mut fs = FsModel::new();
    apply_mkfile(&mut fs, "/data/one.txt");
    apply_mkfile(&mut fs, "/dst//one.txt");
    let before = mode_of(&fs, "/dst//one.txt");
    apply_copy_match(&mut fs, false, "/data", "/data/one.txt", "/dst").unwrap();
    assert_eq!(mode_of(&fs, "/dst//one.txt"), before);
    assert_eq!(content_of(&fs, "/dst//one.txt"), Vec::<u8>::new());
}

#[test]
fn copy_of_a_matched_directory_copies_its_mode() {
    let mut fs = FsModel::new();
    apply_mkdir(&mut fs, "/data/sub").unwrap();
    apply_copy_match(&mut fs, true, "/data", "/data/sub", "/dst").unwrap();
    assert!(matches!(
        fs.get_entry("/dst//sub").unwrap().data,
        EntryData::Dir
    ));
    assert_eq!(mode_of(&fs, "/dst//sub"), mode_of(&fs, "/data/sub"));
}

#[test]
fn copy_of_a_missing_match_fails() {
    let mut fs = FsModel::new();
    assert_eq!(
        apply_copy_match(&mut fs, true, "/data", "/data/nope", "/dst"),
        Err(FsError::MissingSource)
    );
}

fn chmod_task(target: &str, mode: &str) -> Task {
    let f = TaskFields {
        message: FieldValue::Str("set modes".to_string()),
        action: FieldValue::Str("chmod".to_string()),
        from: FieldValue::Absent,
        to: FieldValue::Absent,
        target: FieldValue::Str(target.to_string()),
        uid: FieldValue::Absent,
        gid: FieldValue::Absent,
        mode: FieldValue::Str(mode.to_string()),
    };
    build_task(&f).unwrap()
}

#[test]
fn chmod_sets_exact_bits_on_root_and_matches() {
    let mut fs = FsModel::new();
    apply_mkdir(&mut fs, "/srv").unwrap();
    apply_mkfile(&mut fs, "/srv/a");
    apply_mkfile(&mut fs, "/srv/b");
    let t = chmod_task("/srv/*", "0644");
    let matches = vec!["/srv/a".to_string(), "/srv/b".to_string()];
    exec_task(&mut fs, &t, &matches).unwrap();
    // The pattern's literal root and every match carry exactly 0644.
    assert_eq!(mode_of(&fs, "/srv"), 0o644);
    assert_eq!(mode_of(&fs, "/srv/a"), 0o644);
    assert_eq!(mode_of(&fs, "/srv/b"), 0o644);
}

#[test]
fn chmod_of_a_missing_target_fails() {
    let mut fs = FsModel::new();
    let t = chmod_task("/nope", "0644");
    assert_eq!(exec_task(&mut fs, &t, &vec![]), Err(FsError::MissingTarget));
}

#[test]
fn chown_with_uid_only_keeps_groups() {
    let mut fs = FsModel::new();
    apply_mkdir(&mut fs, "/srv").unwrap();
    apply_mkfile(&mut fs, "/srv/a");
    let gid_root_before = fs.get_entry("/srv").unwrap().gid;
    let gid_match_before = fs.get_entry("/srv/a").unwrap().gid;
    let t = Task {
        message: "own".to_string(),
        kind: TaskKind::Chown { target: "/srv/*".to_string(), uid: Some(1000), gid: None },
    };
    exec_task(&mut fs, &t, &vec!["/srv/a".to_string()]).unwrap();
    assert_eq!(fs.get_entry("/srv").unwrap().uid, 1000);
    assert_eq!(fs.get_entry("/srv/a").unwrap().uid, 1000);
    assert_eq!(fs.get_entry("/srv").unwrap().gid, gid_root_before);
    assert_eq!(fs.get_entry("/srv/a").unwrap().gid, gid_match_before);
}

#[test]
fn chown_of_a_missing_target_fails() {
    let mut fs = FsModel::new();
    let t = Task {
        message: "own".to_string(),
        kind: TaskKind::Chown { target: "/nope".to_string(), uid: Some(1), gid: None },
    };
    assert_eq!(exec_task(&mut fs, &t, &vec![]), Err(FsError::MissingTarget));
}

fn simple_task(action: &str, target: &str) -> Task {
    let f = TaskFields {
        message: FieldValue::Str("step".to_string()),
        action: FieldValue::Str(action.to_string()),
        from: FieldValue::Absent,
        to: FieldValue::Absent,
        target: FieldValue::Str(target.to_string()),
        uid: FieldValue::Absent,
        gid: FieldValue::Absent,
        mode: FieldValue::Absent,
    };
    build_task(&f).unwrap()
}

#[test]
fn mkdir_mkfile_chmod_sequence() {
    let mut fs = FsModel::new();
    let tasks = vec![
        ResolvedTask { task: simple_task("mkdir", "/tmp/x/y"), matches: vec![] },
        ResolvedTask { task: simple_task("mkfile", "/tmp/x/y/f.txt"), matches: vec![] },
        ResolvedTask {
            task: chmod_task("/tmp/x/y/f.txt", "0600"),
            matches: vec!["/tmp/x/y/f.txt".to_string()],
        },
    ];
    run_tasks(&mut fs, &tasks).unwrap();
    assert!(fs.contains("/tmp/x/y/f.txt"));
    assert_eq!(content_of(&fs, "/tmp/x/y/f.txt"), Vec::<u8>::new());
    assert_eq!(mode_of(&fs, "/tmp/x/y/f.txt"), 0o600);
}

#[test]
fn unknown_action_does_not_abort_the_run() {
    let mut fs = FsModel::new();
    let unknown = Task { message: "???".to_string(), kind: TaskKind::Unknown };
    let tasks = vec![
        ResolvedTask { task: unknown, matches: vec![] },
        ResolvedTask { task: simple_task("mkdir", "/after"), matches: vec![] },
    ];
    run_tasks(&mut fs, &tasks).unwrap();
    assert!(fs.contains("/after"));
}

#[test]
fn a_failing_task_stops_the_run() {
    let mut fs = FsModel::new();
    let tasks = vec![
        ResolvedTask { task: simple_task("mkfile", "/f"), matches: vec![] },
        ResolvedTask { task: simple_task("mkdir", "/f"), matches: vec![] },
        ResolvedTask { task: simple_task("mkfile", "/g"), matches: vec![] },
    ];
    assert_eq!(run_tasks(&mut fs, &tasks), Err(FsError::NotADirectory));
    assert!(!fs.contains("/g"));
}

#[test]
fn cleanup_removes_runner_and_configuration() {
    let mut fs = FsModel::new();
    apply_mkfile(&mut fs, "/bin/runner");
    apply_mkfile(&mut fs, "/preflight.toml");
    apply_cleanup(&mut fs, &FieldValue::Absent, "/bin/runner", "/preflight.toml").unwrap();
    assert!(!fs.contains("/bin/runner"));
    assert!(!fs.contains("/preflight.toml"));
}

#[test]
fn cleanup_with_keep_true_leaves_both_files() {
    let mut fs = FsModel::new();
    apply_mkfile(&mut fs, "/bin/runner");
    apply_mkfile(&mut fs, "/preflight.toml");
    apply_cleanup(&mut fs, &FieldValue::Bool(true), "/bin/runner", "/preflight.toml").unwrap();
    assert!(fs.contains("/bin/runner"));
    assert!(fs.contains("/preflight.toml"));
}

#[test]
fn cleanup_with_non_boolean_keep_still_cleans() {
    let mut fs = FsModel::new();
    apply_mkfile(&mut fs, "/bin/runner");
    apply_mkfile(&mut fs, "/preflight.toml");
    apply_cleanup(&mut fs, &FieldValue::Int(1), "/bin/runner", "/preflight.toml").unwrap();
    assert!(!fs.contains("/bin/runner"));
    assert!(!fs.contains("/preflight.toml"));
}

#[test]
fn cleanup_of_a_missing_file_fails() {
    let mut fs = FsModel::new();
    assert_eq!(
        apply_cleanup(&mut fs, &FieldValue::Absent, "/bin/runner", "/preflight.toml"),
        Err(FsError::MissingCleanupTarget)
    );
}

#[test]
fn copy_through_exec_task_uses_the_pattern_prefix() {
    let mut fs = FsModel::new();
    apply_mkdir(&mut fs, "/data").unwrap();
    apply_mkfile(&mut fs, "/data/a.txt");
    let f = TaskFields {
        message: FieldValue::Str("copy".to_string()),
        action: FieldValue::Str("copy".to_string()),
        from: FieldValue::Str("/data/*".to_string()),
        to: FieldValue::Str("/out".to_string()),
        target: FieldValue::Absent,
        uid: FieldValue::Absent,
        gid: FieldValue::Absent,
        mode: FieldValue::Absent,
    };
    let t = build_task(&f).unwrap();
    exec_task(&mut fs, &t, &vec!["/data/a.txt".to_string()]).unwrap();
    assert!(fs.contains("/out//a.txt"));
}

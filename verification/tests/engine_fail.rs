use dotbackup::config::{App, Config};
use dotbackup::engine::{Direction, Engine, Event, Op, PathKind};
use dotbackup::error::Type;

fn app(name: &str, files: &[&str]) -> App {
    App {
        name: name.to_string(),
        files: files.iter().map(|s| s.to_string()).collect(),
        ignore: vec![],
        pre_backup: vec![],
        post_backup: vec![],
        pre_setup: vec![],
        post_setup: vec![],
    }
}

fn config(backup_dir: &str, apps: Vec<App>) -> Config {
    Config {
        selected_apps: vec![],
        clean: false,
        backup_dir: Some(backup_dir.to_string()),
        ignore: vec![],
        apps,
        pre_backup: vec![],
        post_backup: vec![],
        pre_setup: vec![],
        post_setup: vec![],
    }
}

#[test]
fn failing_hook_aborts_run_with_exit_code() {
    let mut c = config("/backup", vec![app("vim", &["/home/u/.vimrc"])]);
    c.pre_backup = vec!["exit 1".to_string()];
    let mut e = Engine::new(c, "/home/u".to_string(), Direction::Backup).unwrap();
    match e.step(Event::Start) {
        Op::RunHook { script } => assert_eq!(script, "exit 1"),
        op => panic!("expected the hook, got {:?}", op),
    }
    match e.step(Event::HookFailed { code: 1 }) {
        Op::Fail { error } => {
            assert!(matches!(error.kind, Type::System));
            assert_eq!(error.msg, "sh returned non-zero: 1");
        },
        op => panic!("expected the failure, got {:?}", op),
    }
    // Nothing of the run happens after the failure: no hook, no copy.
    for _ in 0..5 {
        match e.step(Event::Completed) {
            Op::Fail { error } => assert_eq!(error.msg, "sh returned non-zero: 1"),
            op => panic!("a failed run must stay failed, got {:?}", op),
        }
    }
}

#[test]
fn failing_app_post_hook_aborts_remaining_apps() {
    let mut c = config(
        "/backup",
        vec![app("vim", &["/home/u/.vimrc"]), app("git", &["/home/u/.gitconfig"])],
    );
    c.apps[0].post_backup = vec!["exit 3".to_string()];
    let mut e = Engine::new(c, "/home/u".to_string(), Direction::Backup).unwrap();
    e.step(Event::Start);
    e.step(Event::Completed);
    e.step(Event::Completed); // stat .vimrc
    e.step(Event::Found { kind: PathKind::IsFile });
    e.step(Event::Found { kind: PathKind::IsDir }); // copy issued
    e.step(Event::Completed); // next file check
    match e.step(Event::Completed) {
        Op::RunHook { script } => assert_eq!(script, "exit 3"),
        op => panic!("expected the post hook, got {:?}", op),
    }
    match e.step(Event::HookFailed { code: 3 }) {
        Op::Fail { error } => assert_eq!(error.msg, "sh returned non-zero: 3"),
        op => panic!("expected the failure, got {:?}", op),
    }
    // The second application is never reached.
    assert!(matches!(e.step(Event::Completed), Op::Fail { .. }));
}

#[test]
fn hook_spawn_failure_is_system_error() {
    let mut c = config("/backup", vec![]);
    c.pre_backup = vec!["echo hi".to_string()];
    let mut e = Engine::new(c, "/home/u".to_string(), Direction::Backup).unwrap();
    e.step(Event::Start);
    match e.step(Event::HookError { msg: "failed to spawn sh: not found".to_string() }) {
        Op::Fail { error } => {
            assert!(matches!(error.kind, Type::System));
            assert_eq!(error.msg, "failed to spawn sh: not found");
        },
        op => panic!("expected the failure, got {:?}", op),
    }
}

#[test]
fn path_outside_root_fails_app_before_any_copy() {
    let mut e = Engine::new(
        config("/backup", vec![app("evil", &["/etc/passwd"])]),
        "/home/u".to_string(),
        Direction::Backup,
    )
    .unwrap();
    e.step(Event::Start);
    e.step(Event::Completed);
    match e.step(Event::Completed) {
        Op::Fail { error } => {
            assert!(matches!(error.kind, Type::Config));
            assert_eq!(
                error.msg,
                "expected files under the configuration root (/home/u): /etc/passwd"
            );
        },
        op => panic!("expected the rejection, got {:?}", op),
    }
}

#[test]
fn path_outside_root_fails_setup_too() {
    let mut e = Engine::new(
        config("/backup", vec![app("evil", &["/etc/passwd"])]),
        "/home/u".to_string(),
        Direction::Setup,
    )
    .unwrap();
    e.step(Event::Start);
    e.step(Event::Completed);
    match e.step(Event::Completed) {
        Op::Fail { error } => {
            assert!(matches!(error.kind, Type::Config));
            assert_eq!(error.msg, "configuration file not under configuration root: /etc/passwd");
        },
        op => panic!("expected the rejection, got {:?}", op),
    }
}

#[test]
fn unknown_selected_app_fails_before_any_copy() {
    let mut c = config("/backup", vec![app("vim", &["/home/u/.vimrc"])]);
    c.selected_apps = vec!["ghost".to_string()];
    let mut e = Engine::new(c, "/home/u".to_string(), Direction::Backup).unwrap();
    assert!(matches!(e.step(Event::Start), Op::Nop));
    match e.step(Event::Completed) {
        Op::Fail { error } => {
            assert!(matches!(error.kind, Type::Argument));
            assert_eq!(error.msg, "app not found: ghost");
        },
        op => panic!("expected the rejection, got {:?}", op),
    }
    assert!(matches!(e.step(Event::Completed), Op::Fail { .. }));
}

#[test]
fn unknown_selection_after_first_app_aborts_midway() {
    // The run is not atomic: the first selected application has already
    // run when the unknown name is reached.
    let mut c = config("/backup", vec![app("vim", &["/home/u/.vimrc"])]);
    c.selected_apps = vec!["vim".to_string(), "ghost".to_string()];
    let mut e = Engine::new(c, "/home/u".to_string(), Direction::Backup).unwrap();
    e.step(Event::Start);
    e.step(Event::Completed);
    e.step(Event::Completed); // stat of vim's file
    e.step(Event::Found { kind: PathKind::IsFile });
    match e.step(Event::Found { kind: PathKind::IsDir }) {
        Op::CopyFile { .. } => {},
        op => panic!("expected vim's copy first, got {:?}", op),
    }
    e.step(Event::Completed); // file done
    e.step(Event::Completed); // app done, next schedule position
    match e.step(Event::Completed) {
        Op::Fail { error } => assert_eq!(error.msg, "app not found: ghost"),
        op => panic!("expected the rejection, got {:?}", op),
    }
}

#[test]
fn mkdir_failure_is_reported() {
    let mut e = Engine::new(
        config("/backup", vec![app("vim", &["/home/u/.config/a"])]),
        "/home/u".to_string(),
        Direction::Backup,
    )
    .unwrap();
    e.step(Event::Start);
    e.step(Event::Completed);
    e.step(Event::Completed);
    e.step(Event::Found { kind: PathKind::IsFile });
    e.step(Event::Found { kind: PathKind::Missing }); // mkdir issued
    match e.step(Event::IoFailed { msg: "permission denied".to_string() }) {
        Op::Fail { error } => {
            assert!(matches!(error.kind, Type::System));
            assert_eq!(error.msg, "create directory error: permission denied");
        },
        op => panic!("expected the failure, got {:?}", op),
    }
}

#[test]
fn remove_failure_is_reported() {
    let mut c = config("/backup", vec![app("vim", &["/home/u/.vimrc"])]);
    c.clean = true;
    let mut e = Engine::new(c, "/home/u".to_string(), Direction::Backup).unwrap();
    e.step(Event::Start);
    e.step(Event::Completed);
    e.step(Event::Completed);
    e.step(Event::Found { kind: PathKind::IsFile });
    e.step(Event::Found { kind: PathKind::IsDir }); // destination stat
    e.step(Event::Found { kind: PathKind::IsDir }); // removal of a stale tree
    match e.step(Event::IoFailed { msg: "busy".to_string() }) {
        Op::Fail { error } => assert_eq!(error.msg, "remove directory error: busy"),
        op => panic!("expected the failure, got {:?}", op),
    }
}

#[test]
fn read_dir_failure_is_reported_as_copy_directory_error() {
    let mut e = Engine::new(
        config("/backup", vec![app("vim", &["/home/u/.vim"])]),
        "/home/u".to_string(),
        Direction::Backup,
    )
    .unwrap();
    e.step(Event::Start);
    e.step(Event::Completed);
    e.step(Event::Completed);
    e.step(Event::Found { kind: PathKind::IsDir });
    e.step(Event::Found { kind: PathKind::IsDir }); // destination mkdir issued
    e.step(Event::Completed); // listing issued
    match e.step(Event::IoFailed { msg: "not readable".to_string() }) {
        Op::Fail { error } => assert_eq!(error.msg, "copy directory error: not readable"),
        op => panic!("expected the failure, got {:?}", op),
    }
}

#[test]
fn event_no_operation_can_produce_fails_the_run() {
    let mut e = Engine::new(config("/backup", vec![]), "/home/u".to_string(), Direction::Backup)
        .unwrap();
    // The first event of a run must be its start.
    match e.step(Event::Completed) {
        Op::Fail { error } => {
            assert!(matches!(error.kind, Type::Unknown));
            assert_eq!(error.msg, "unexpected event");
        }
        op => panic!("expected the protocol failure, got {:?}", op),
    }
}

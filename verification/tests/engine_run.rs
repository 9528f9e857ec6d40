use dotbackup::config::{App, Config};
use dotbackup::engine::{Direction, Engine, Event, Op, PathKind};
use dotbackup::error::Type;

fn app(name: &str, files: &[&str]) -> App {
    App {
        name: name.to_string(),
        files: files.iter().map(|s| s.to_string()).collect(),
        ignore: vec![],
        pre_backup: vec![],
        post_backup: vec![],
        pre_setup: vec![],
        post_setup: vec![],
    }
}

fn config(backup_dir: &str, apps: Vec<App>) -> Config {
    Config {
        selected_apps: vec![],
        clean: false,
        backup_dir: Some(backup_dir.to_string()),
        ignore: vec![],
        apps,
        pre_backup: vec![],
        post_backup: vec![],
        pre_setup: vec![],
        post_setup: vec![],
    }
}

fn engine(c: Config, d: Direction) -> Engine {
    Engine::new(c, "/home/u".to_string(), d).expect("engine should build")
}

#[test]
fn missing_backup_dir_is_config_error() {
    let mut c = config("/backup", vec![]);
    c.backup_dir = None;
    let e = Engine::new(c, "/home/u".to_string(), Direction::Backup).unwrap_err();
    assert!(matches!(e.kind, Type::Config));
    assert_eq!(e.msg, "backup_dir not set");
}

#[test]
fn empty_run_finishes_at_once() {
    let mut e = engine(config("/backup", vec![]), Direction::Backup);
    assert!(matches!(e.step(Event::Start), Op::Nop));
    assert!(matches!(e.step(Event::Completed), Op::Done));
    // A finished run keeps reporting completion.
    assert!(matches!(e.step(Event::Completed), Op::Done));
}

#[test]
fn single_file_backup_copies_to_mirrored_path() {
    let mut e = engine(config("/backup", vec![app("vim", &["/home/u/.vimrc"])]), Direction::Backup);
    assert!(matches!(e.step(Event::Start), Op::Nop)); // schedule position 0
    assert!(matches!(e.step(Event::Completed), Op::Nop)); // file check next
    match e.step(Event::Completed) {
        Op::Stat { path } => assert_eq!(path, "/home/u/.vimrc"),
        op => panic!("expected a stat of the live file, got {:?}", op),
    }
    match e.step(Event::Found { kind: PathKind::IsFile }) {
        Op::Stat { path } => assert_eq!(path, "/backup"),
        op => panic!("expected a stat of the destination parent, got {:?}", op),
    }
    match e.step(Event::Found { kind: PathKind::IsDir }) {
        Op::CopyFile { src, dest } => {
            assert_eq!(src, "/home/u/.vimrc");
            assert_eq!(dest, "/backup/.vimrc");
        },
        op => panic!("expected the copy, got {:?}", op),
    }
    assert!(matches!(e.step(Event::Completed), Op::Nop)); // next file
    assert!(matches!(e.step(Event::Completed), Op::Nop)); // next app
    assert!(matches!(e.step(Event::Completed), Op::Done));
}

#[test]
fn missing_parent_directory_is_created() {
    let mut e = engine(
        config("/backup", vec![app("vim", &["/home/u/.config/nvim/init.vim"])]),
        Direction::Backup,
    );
    e.step(Event::Start);
    e.step(Event::Completed);
    e.step(Event::Completed); // stat src
    match e.step(Event::Found { kind: PathKind::IsFile }) {
        Op::Stat { path } => assert_eq!(path, "/backup/.config/nvim"),
        op => panic!("expected parent stat, got {:?}", op),
    }
    match e.step(Event::Found { kind: PathKind::Missing }) {
        Op::MkDirAll { path } => assert_eq!(path, "/backup/.config/nvim"),
        op => panic!("expected directory creation, got {:?}", op),
    }
    match e.step(Event::Completed) {
        Op::CopyFile { src, dest } => {
            assert_eq!(src, "/home/u/.config/nvim/init.vim");
            assert_eq!(dest, "/backup/.config/nvim/init.vim");
        },
        op => panic!("expected the copy, got {:?}", op),
    }
}

#[test]
fn missing_source_is_skipped_not_fatal() {
    let mut e = engine(
        config("/backup", vec![app("vim", &["/home/u/.gone", "/home/u/.here"])]),
        Direction::Backup,
    );
    e.step(Event::Start);
    e.step(Event::Completed);
    match e.step(Event::Completed) {
        Op::Stat { path } => assert_eq!(path, "/home/u/.gone"),
        op => panic!("expected stat, got {:?}", op),
    }
    // The first file does not exist: processing moves on to the second.
    assert!(matches!(e.step(Event::Found { kind: PathKind::Missing }), Op::Nop));
    match e.step(Event::Completed) {
        Op::Stat { path } => assert_eq!(path, "/home/u/.here"),
        op => panic!("expected stat of the second file, got {:?}", op),
    }
}

#[test]
fn setup_mirrors_backup() {
    // Setup reads from the archive and writes to the live path: the exact
    // mirror of the backup copy, which is the shape of the round trip.
    let mut e = engine(config("/backup", vec![app("vim", &["/home/u/.vimrc"])]), Direction::Setup);
    e.step(Event::Start);
    e.step(Event::Completed);
    match e.step(Event::Completed) {
        Op::Stat { path } => assert_eq!(path, "/backup/.vimrc"),
        op => panic!("expected stat of the archived file, got {:?}", op),
    }
    match e.step(Event::Found { kind: PathKind::IsFile }) {
        Op::Stat { path } => assert_eq!(path, "/home/u"),
        op => panic!("expected parent stat, got {:?}", op),
    }
    match e.step(Event::Found { kind: PathKind::IsDir }) {
        Op::CopyFile { src, dest } => {
            assert_eq!(src, "/backup/.vimrc");
            assert_eq!(dest, "/home/u/.vimrc");
        },
        op => panic!("expected the restore copy, got {:?}", op),
    }
}

#[test]
fn hooks_run_in_order_around_copies() {
    let mut c = config("/backup", vec![app("vim", &["/home/u/.vimrc"])]);
    c.pre_backup = vec!["touch $BACKUP_DIR/a".to_string()];
    c.post_backup = vec!["touch $BACKUP_DIR/b".to_string()];
    c.apps[0].pre_backup = vec!["echo app-pre".to_string()];
    c.apps[0].post_backup = vec!["echo app-post".to_string()];
    let mut e = engine(c, Direction::Backup);

    let mut trace: Vec<String> = Vec::new();
    let mut op = e.step(Event::Start);
    for _ in 0..40 {
        let ev = match &op {
            Op::Nop => Event::Completed,
            Op::RunHook { script } => {
                trace.push(format!("hook:{}", script));
                Event::Completed
            },
            Op::Stat { path } => {
                trace.push(format!("stat:{}", path));
                Event::Found { kind: PathKind::IsFile }
            },
            Op::CopyFile { src, dest } => {
                trace.push(format!("copy:{}->{}", src, dest));
                Event::Completed
            },
            Op::MkDirAll { path } => {
                trace.push(format!("mkdir:{}", path));
                Event::Completed
            },
            Op::Done => break,
            op => panic!("unexpected operation {:?}", op),
        };
        op = e.step(ev);
    }
    // Note: the destination parent statted as a file simply skips creation.
    let hook_a = trace.iter().position(|t| t == "hook:touch $BACKUP_DIR/a").unwrap();
    let app_pre = trace.iter().position(|t| t == "hook:echo app-pre").unwrap();
    let copy = trace.iter().position(|t| t.starts_with("copy:")).unwrap();
    let app_post = trace.iter().position(|t| t == "hook:echo app-post").unwrap();
    let hook_b = trace.iter().position(|t| t == "hook:touch $BACKUP_DIR/b").unwrap();
    assert!(hook_a < app_pre && app_pre < copy && copy < app_post && app_post < hook_b);
}

#[test]
fn selection_runs_only_named_apps_in_given_order() {
    let mut c = config(
        "/backup",
        vec![app("vim", &["/home/u/.vimrc"]), app("git", &["/home/u/.gitconfig"])],
    );
    c.selected_apps = vec!["git".to_string()];
    let mut e = engine(c, Direction::Backup);
    e.step(Event::Start);
    e.step(Event::Completed);
    match e.step(Event::Completed) {
        Op::Stat { path } => assert_eq!(path, "/home/u/.gitconfig"),
        op => panic!("expected the selected app's file, got {:?}", op),
    }
}

#[test]
fn copy_failure_aborts_with_system_error() {
    let mut e = engine(config("/backup", vec![app("vim", &["/home/u/.vimrc"])]), Direction::Backup);
    e.step(Event::Start);
    e.step(Event::Completed);
    e.step(Event::Completed);
    e.step(Event::Found { kind: PathKind::IsFile });
    e.step(Event::Found { kind: PathKind::IsDir }); // copy issued
    match e.step(Event::IoFailed { msg: "disk full".to_string() }) {
        Op::Fail { error } => {
            assert!(matches!(error.kind, Type::System));
            assert_eq!(error.msg, "copy file error: disk full");
        },
        op => panic!("expected the failure, got {:?}", op),
    }
}

use dotbackup::config::{App, Config};
use dotbackup::engine::{DirEntry, Direction, Engine, Event, Op, PathKind};
use dotbackup::globs::GlobPattern;

fn app(name: &str, files: &[&str]) -> App {
    App {
        name: name.to_string(),
        files: files.iter().map(|s| s.to_string()).collect(),
        ignore: vec![],
        pre_backup: vec![],
        post_backup: vec![],
        pre_setup: vec![],
        post_setup: vec![],
    }
}

fn config(backup_dir: &str, apps: Vec<App>) -> Config {
    Config {
        selected_apps: vec![],
        clean: false,
        backup_dir: Some(backup_dir.to_string()),
        ignore: vec![],
        apps,
        pre_backup: vec![],
        post_backup: vec![],
        pre_setup: vec![],
        post_setup: vec![],
    }
}

fn entry(name: &str, is_dir: bool) -> DirEntry {
    DirEntry { name: name.to_string(), is_dir }
}

fn to_walk_start(e: &mut Engine) {
    e.step(Event::Start);
    e.step(Event::Completed);
    e.step(Event::Completed); // stat of the source
    e.step(Event::Found { kind: PathKind::IsDir }); // parent stat issued
}

#[test]
fn directory_tree_walk_honors_ignores_and_recurses() {
    let mut c = config("/backup", vec![app("vim", &["/home/u/.vim"])]);
    c.ignore = vec![GlobPattern::new("*.bak").unwrap()];
    c.apps[0].ignore = vec![GlobPattern::new("swap").unwrap()];
    let mut e = Engine::new(c, "/home/u".to_string(), Direction::Backup).unwrap();
    to_walk_start(&mut e);
    match e.step(Event::Found { kind: PathKind::IsDir }) {
        Op::MkDirAll { path } => assert_eq!(path, "/backup/.vim"),
        op => panic!("expected creation of the destination, got {:?}", op),
    }
    match e.step(Event::Completed) {
        Op::ReadDir { path } => assert_eq!(path, "/home/u/.vim"),
        op => panic!("expected the listing, got {:?}", op),
    }
    let listing = vec![
        entry("vimrc", false),
        entry("old.bak", false),
        entry("swap", true),
        entry("colors", true),
    ];
    match e.step(Event::Listing { entries: listing }) {
        Op::CopyFile { src, dest } => {
            assert_eq!(src, "/home/u/.vim/vimrc");
            assert_eq!(dest, "/backup/.vim/vimrc");
        },
        op => panic!("expected the first file copy, got {:?}", op),
    }
    // The entry matching the global pattern and the directory matching the
    // application pattern are both passed over without any operation.
    assert!(matches!(e.step(Event::Completed), Op::Nop));
    assert!(matches!(e.step(Event::Completed), Op::Nop));
    match e.step(Event::Completed) {
        Op::MkDirAll { path } => assert_eq!(path, "/backup/.vim/colors"),
        op => panic!("expected descent into the subdirectory, got {:?}", op),
    }
    match e.step(Event::Completed) {
        Op::ReadDir { path } => assert_eq!(path, "/home/u/.vim/colors"),
        op => panic!("expected the subdirectory listing, got {:?}", op),
    }
    match e.step(Event::Listing { entries: vec![entry("x.vim", false)] }) {
        Op::CopyFile { src, dest } => {
            assert_eq!(src, "/home/u/.vim/colors/x.vim");
            assert_eq!(dest, "/backup/.vim/colors/x.vim");
        },
        op => panic!("expected the nested copy, got {:?}", op),
    }
    assert!(matches!(e.step(Event::Completed), Op::Nop)); // subdirectory frame done
    assert!(matches!(e.step(Event::Completed), Op::Nop)); // top frame done
    assert!(matches!(e.step(Event::Completed), Op::Nop)); // walk finished, next file
    assert!(matches!(e.step(Event::Completed), Op::Nop)); // app done, next schedule position
    assert!(matches!(e.step(Event::Completed), Op::Done));
}

#[test]
fn empty_directory_copies_nothing_but_creates_destination() {
    let c = config("/backup", vec![app("vim", &["/home/u/.vim"])]);
    let mut e = Engine::new(c, "/home/u".to_string(), Direction::Backup).unwrap();
    to_walk_start(&mut e);
    match e.step(Event::Found { kind: PathKind::IsDir }) {
        Op::MkDirAll { path } => assert_eq!(path, "/backup/.vim"),
        op => panic!("expected creation of the destination, got {:?}", op),
    }
    assert!(matches!(e.step(Event::Completed), Op::ReadDir { .. }));
    assert!(matches!(e.step(Event::Listing { entries: vec![] }), Op::Nop));
    assert!(matches!(e.step(Event::Completed), Op::Nop));
}

#[test]
fn clean_removes_existing_file_destination_before_copy() {
    let mut c = config("/backup", vec![app("vim", &["/home/u/.vimrc"])]);
    c.clean = true;
    let mut e = Engine::new(c, "/home/u".to_string(), Direction::Backup).unwrap();
    e.step(Event::Start);
    e.step(Event::Completed);
    e.step(Event::Completed);
    e.step(Event::Found { kind: PathKind::IsFile });
    match e.step(Event::Found { kind: PathKind::IsDir }) {
        Op::Stat { path } => assert_eq!(path, "/backup/.vimrc"),
        op => panic!("expected the destination stat under clean, got {:?}", op),
    }
    match e.step(Event::Found { kind: PathKind::IsFile }) {
        Op::RemoveFile { path } => assert_eq!(path, "/backup/.vimrc"),
        op => panic!("expected removal of the stale file, got {:?}", op),
    }
    match e.step(Event::Completed) {
        Op::CopyFile { src, dest } => {
            assert_eq!(src, "/home/u/.vimrc");
            assert_eq!(dest, "/backup/.vimrc");
        },
        op => panic!("expected the fresh copy, got {:?}", op),
    }
}

#[test]
fn clean_removes_whole_stale_directory_before_tree_copy() {
    // The destination directory is cleared before being repopulated, so a
    // stale file in it cannot survive the copy of its sibling tree.
    let mut c = config("/backup", vec![app("vim", &["/home/u/.vim"])]);
    c.clean = true;
    let mut e = Engine::new(c, "/home/u".to_string(), Direction::Backup).unwrap();
    to_walk_start(&mut e);
    e.step(Event::Found { kind: PathKind::IsDir }); // destination stat issued
    match e.step(Event::Found { kind: PathKind::IsDir }) {
        Op::RemoveTree { path } => assert_eq!(path, "/backup/.vim"),
        op => panic!("expected removal of the stale tree, got {:?}", op),
    }
    match e.step(Event::Completed) {
        Op::MkDirAll { path } => assert_eq!(path, "/backup/.vim"),
        op => panic!("expected the fresh destination, got {:?}", op),
    }
}

#[test]
fn clean_skips_removal_when_destination_missing() {
    let mut c = config("/backup", vec![app("vim", &["/home/u/.vimrc"])]);
    c.clean = true;
    let mut e = Engine::new(c, "/home/u".to_string(), Direction::Backup).unwrap();
    e.step(Event::Start);
    e.step(Event::Completed);
    e.step(Event::Completed);
    e.step(Event::Found { kind: PathKind::IsFile });
    e.step(Event::Found { kind: PathKind::IsDir }); // destination stat issued
    assert!(matches!(e.step(Event::Found { kind: PathKind::Missing }), Op::CopyFile { .. }));
}

#[test]
fn without_clean_runs_are_identical_and_remove_nothing() {
    // Planning is deterministic: two runs over the same outcomes issue the
    // same operations, and none of them is a removal — repeating a backup
    // only rewrites the same copies.
    let run = || -> Vec<String> {
        let c = config("/backup", vec![app("vim", &["/home/u/.vimrc", "/home/u/.vim"])]);
        let mut e = Engine::new(c, "/home/u".to_string(), Direction::Backup).unwrap();
        let mut ops: Vec<String> = Vec::new();
        let mut op = e.step(Event::Start);
        for _ in 0..40 {
            ops.push(format!("{:?}", op));
            let ev = match &op {
                Op::Nop | Op::RunHook { .. } | Op::CopyFile { .. } | Op::MkDirAll { .. } => {
                    Event::Completed
                },
                Op::Stat { path } => Event::Found {
                    kind: if path.ends_with(".vim") && !path.starts_with("/backup") {
                        PathKind::IsDir
                    } else if path == "/backup" {
                        PathKind::IsDir
                    } else {
                        PathKind::IsFile
                    },
                },
                Op::ReadDir { .. } => Event::Listing {
                    entries: vec![DirEntry { name: "vimrc".to_string(), is_dir: false }],
                },
                Op::Done => break,
                op => panic!("unexpected operation {:?}", op),
            };
            op = e.step(ev);
        }
        ops
    };
    let first = run();
    let second = run();
    assert_eq!(first, second);
    assert!(first.iter().all(|o| !o.starts_with("Remove")));
    assert!(first.iter().any(|o| o.starts_with("CopyFile")));
}

use dotbackup::cli::Name;
use dotbackup::config::Config;
use dotbackup::doc::DocValue;
use dotbackup::dump::{format_array, help_text, name_text};

fn text(s: &str) -> DocValue {
    DocValue::Text(s.to_string())
}

fn strings(items: &[&str]) -> DocValue {
    DocValue::List(items.iter().map(|s| text(s)).collect())
}

fn table(entries: Vec<(&str, DocValue)>) -> DocValue {
    DocValue::Table(entries.into_iter().map(|(k, v)| (k.to_string(), v)).collect())
}

#[test]
fn format_array_renders_name_and_items() {
    let items = vec!["a".to_string(), "b".to_string()];
    assert_eq!(format_array("files", &items, 0), "files:\n  - a\n  - b\n");
    assert_eq!(format_array("files", &items, 2), "    files:\n      - a\n      - b\n");
}

#[test]
fn format_array_omits_empty_arrays() {
    let items: Vec<String> = vec![];
    assert_eq!(format_array("files", &items, 0), "");
}

#[test]
fn config_dump_renders_every_section() {
    let doc = table(vec![
        ("backup_dir", text("/backup")),
        ("clean", DocValue::Flag(true)),
        ("ignore", strings(&["*.bak"])),
        (
            "apps",
            table(vec![(
                "vim",
                table(vec![
                    ("files", strings(&["~/.vimrc"])),
                    ("pre_backup", strings(&["echo hi"])),
                ]),
            )]),
        ),
        ("post_setup", strings(&["echo done"])),
    ]);
    let c = Config::load_from_doc(&doc, "/home/u").unwrap();
    let expected = "backup_dir: /backup\n\
                    clean: true\n\
                    ignore:\n\
                    \x20\x20- *.bak\n\
                    apps:\n\
                    \x20\x20vim:\n\
                    \x20\x20\x20\x20files:\n\
                    \x20\x20\x20\x20\x20\x20- /home/u/.vimrc\n\
                    \x20\x20\x20\x20pre_backup:\n\
                    \x20\x20\x20\x20\x20\x20- echo hi\n\
                    post_setup:\n\
                    \x20\x20- echo done\n";
    assert_eq!(c.to_text(), expected);
}

#[test]
fn config_dump_minimal() {
    let c = Config::load_from_doc(&table(vec![]), "/home/u").unwrap();
    assert_eq!(c.to_text(), "clean: false\n");
}

#[test]
fn config_dump_shows_selection_as_comment() {
    let mut c = Config::load_from_doc(&table(vec![]), "/home/u").unwrap();
    c.selected_apps = vec!["vim".to_string(), "git".to_string()];
    assert_eq!(c.to_text(), "clean: false\n# selected_apps: [\"vim\", \"git\"]\n");
}

#[test]
fn selection_comment_escapes_quotes_and_backslashes() {
    let mut c = Config::load_from_doc(&table(vec![]), "/home/u").unwrap();
    c.selected_apps = vec!["a\"b".to_string(), "c\\d".to_string()];
    assert_eq!(
        c.to_text(),
        "clean: false\n# selected_apps: [\"a\\\"b\", \"c\\\\d\"]\n"
    );
}

#[test]
fn executable_names() {
    assert_eq!(name_text(Name::Dotbackup), "dotbackup");
    assert_eq!(name_text(Name::Dotsetup), "dotsetup");
}

#[test]
fn help_text_names_executable_and_config_path() {
    let h = help_text(Name::Dotbackup, "/etc/xdg/dotbackup/CONFIG.yml");
    assert!(h.starts_with("Dotfile backup utility (dotbackup / dotsetup)\n"));
    assert!(h.contains("Usage: dotbackup [OPTIONS] [APPS]"));
    assert!(h.contains("Use configuration file at /etc/xdg/dotbackup/CONFIG.yml"));
    assert!(h.contains("Delete old backup files before backup"));
    let h2 = help_text(Name::Dotsetup, "/p/CONFIG.yml");
    assert!(h2.contains("Usage: dotsetup [OPTIONS] [APPS]"));
    assert!(h2.contains("Delete old configuration files before setup"));
}

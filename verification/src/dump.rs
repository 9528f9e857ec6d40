//! The textual rendering of a configuration: the dump format (two-space
//! indentation per nesting level, empty arrays omitted), and the help
//! text.

use vstd::prelude::*;
use crate::cli::Name;
use crate::config::{App, Config};
use crate::engine::AppModel;
use crate::globs::pat_views;

verus! {

/// `n` levels of two-space indentation.
pub open spec fn indent(n: int) -> Seq<char>
    decreases n,
{
    if n <= 0 {
        Seq::empty()
    } else {
        indent(n - 1) + "  "@
    }
}

fn indent_e(n: usize) -> (r: String)
    ensures
        r@ == indent(n as int),
{
    let mut out = String::new();
    let mut i: usize = 0;
    while i < n
        invariant
            0 <= i <= n,
            out@ == indent(i as int),
        decreases n - i,
    {
        out.append("  ");
        i += 1;
    }
    out
}

/// The item lines of an array rendering, from position `i` on: each item
/// indented, behind a dash.
pub open spec fn item_lines(items: Seq<Seq<char>>, i: int, ind: int) -> Seq<char>
    decreases items.len() - i,
{
    if i < 0 || i >= items.len() {
        Seq::empty()
    } else {
        indent(ind) + "- "@ + items[i] + "\n"@ + item_lines(items, i + 1, ind)
    }
}

/// The rendering of a named string array: nothing when it is empty, else
/// its name as a heading and one line per item, indented one level deeper.
pub open spec fn array_text(name: Seq<char>, items: Seq<Seq<char>>, ind: int) -> Seq<char> {
    if items.len() == 0 {
        Seq::empty()
    } else {
        indent(ind) + name + ":\n"@ + item_lines(items, 0, ind + 1)
    }
}

/// Renders a named string array at the given indentation level.
pub fn format_array(name: &str, items: &Vec<String>, ind: usize) -> (r: String)
    requires
        ind < usize::MAX,
    ensures
        r@ == array_text(name@, items.deep_view(), ind as int),
{
    let ghost dv = items.deep_view();
    let ghost full = array_text(name@, dv, ind as int);
    let mut out = String::new();
    if items.len() == 0 {
        return out;
    }
    let head = indent_e(ind);
    out.append(head.as_str());
    out.append(name);
    out.append(":\n");
    let deeper = indent_e(ind + 1);
    proof {
        assert(out@ + item_lines(dv, 0, ind as int + 1) =~= full);
    }
    let mut i: usize = 0;
    while i < items.len()
        invariant
            0 <= i <= dv.len(),
            dv == items.deep_view(),
            full == array_text(name@, dv, ind as int),
            deeper@ == indent(ind as int + 1),
            out@ + item_lines(dv, i as int, ind as int + 1) == full,
        decreases dv.len() - i,
    {
        let ghost before = out@;
        out.append(deeper.as_str());
        out.append("- ");
        out.append(items[i].as_str());
        out.append("\n");
        proof {
            assert(out@ + item_lines(dv, i as int + 1, ind as int + 1) =~= before + item_lines(
                dv,
                i as int,
                ind as int + 1,
            ));
        }
        i += 1;
    }
    proof {
        assert(out@ + item_lines(dv, dv.len() as int, ind as int + 1) =~= out@);
    }
    out
}

/// The rendering of one application in the dump: its name as a heading,
/// then its file list, ignore list and hook lists, each two levels deep.
pub open spec fn app_text(a: AppModel) -> Seq<char> {
    indent(1) + a.name + ":\n"@ + array_text("files"@, a.files, 2) + array_text(
        "ignore"@,
        a.ignore,
        2,
    ) + array_text("pre_backup"@, a.pre_backup, 2) + array_text("post_backup"@, a.post_backup, 2)
        + array_text("pre_setup"@, a.pre_setup, 2) + array_text("post_setup"@, a.post_setup, 2)
}

impl App {
    /// Renders this application for the configuration dump.
    pub fn to_text(&self) -> (r: String)
        ensures
            r@ == app_text(self@),
    {
        let mut out = indent_e(1);
        out.append(self.name.as_str());
        out.append(":\n");
        let mut texts: Vec<String> = Vec::new();
        let mut i: usize = 0;
        while i < self.ignore.len()
            invariant
                0 <= i <= self.ignore@.len(),
                texts@.len() == i,
                forall|j: int| 0 <= j < i ==> (#[trigger] texts@[j])@ == self.ignore@[j]@,
            decreases self.ignore@.len() - i,
        {
            texts.push(self.ignore[i].as_text().to_owned());
            i += 1;
        }
        assert(texts.deep_view() =~~= pat_views(self.ignore@));
        let files = format_array("files", &self.files, 2);
        out.append(files.as_str());
        let ignore = format_array("ignore", &texts, 2);
        out.append(ignore.as_str());
        let pre_b = format_array("pre_backup", &self.pre_backup, 2);
        out.append(pre_b.as_str());
        let post_b = format_array("post_backup", &self.post_backup, 2);
        out.append(post_b.as_str());
        let pre_s = format_array("pre_setup", &self.pre_setup, 2);
        out.append(pre_s.as_str());
        let post_s = format_array("post_setup", &self.post_setup, 2);
        out.append(post_s.as_str());
        assert(out@ =~= app_text(self@));
        out
    }
}

/// The opening lines of the dump: the backup directory when one is set,
/// and the clean flag.
pub open spec fn config_head_text(backup_dir: Option<Seq<char>>, clean: bool) -> Seq<char> {
    (match backup_dir {
        Some(b) => "backup_dir: "@ + b + "\n"@,
        None => Seq::empty(),
    }) + "clean: "@ + (if clean {
        "true"@
    } else {
        "false"@
    }) + "\n"@
}

/// The selection comment of the dump: the selected names, quoted, in a
/// bracketed list (nothing when no selection is active).
pub open spec fn selected_text(selected: Seq<Seq<char>>) -> Seq<char> {
    if selected.len() == 0 {
        Seq::empty()
    } else {
        "# selected_apps: ["@ + quoted_items(selected, 0) + "]\n"@
    }
}

/// A name as it stands between the quotes: quotes and backslashes are
/// escaped with a backslash; every other character is kept as it is.
pub open spec fn escaped(s: Seq<char>) -> Seq<char>
    decreases s.len(),
{
    if s.len() == 0 {
        Seq::empty()
    } else if s[0] == '"' || s[0] == '\\' {
        seq!['\\', s[0]] + escaped(s.drop_first())
    } else {
        seq![s[0]] + escaped(s.drop_first())
    }
}

/// Escapes a name for the selection comment.
fn escape_name(s: &str) -> (r: String)
    ensures
        r@ == escaped(s@),
{
    let n = s.unicode_len();
    let mut out = String::new();
    proof {
        assert(s@.subrange(0, n as int) =~= s@);
        reveal_strlit("\\");
        assert("\\"@ =~= seq!['\\']);
    }
    let mut i: usize = 0;
    while i < n
        invariant
            0 <= i <= n,
            n == s@.len(),
            "\\"@ =~= seq!['\\'],
            out@ + escaped(s@.subrange(i as int, n as int)) == escaped(s@),
        decreases n - i,
    {
        let ghost before = out@;
        let ghost tail = s@.subrange(i as int, n as int);
        let c = s.get_char(i);
        if c == '"' || c == '\\' {
            out.append("\\");
        }
        let piece = s.substring_char(i, i + 1);
        out.append(piece);
        proof {
            assert(tail[0] == s@[i as int]);
            assert(tail.drop_first() =~= s@.subrange(i as int + 1, n as int));
            assert(piece@ =~= seq![s@[i as int]]);
            assert(out@ + escaped(s@.subrange(i as int + 1, n as int)) =~= before + escaped(
                tail,
            ));
        }
        i += 1;
    }
    proof {
        assert(s@.subrange(n as int, n as int) =~= Seq::<char>::empty());
        assert(out@ + escaped(Seq::<char>::empty()) =~= out@);
    }
    out
}

/// The quoted names from position `i` on, separated by commas, each
/// escaped as `escaped` states.
pub open spec fn quoted_items(items: Seq<Seq<char>>, i: int) -> Seq<char>
    decreases items.len() - i,
{
    if i < 0 || i >= items.len() {
        Seq::empty()
    } else if i + 1 == items.len() {
        "\""@ + escaped(items[i]) + "\""@
    } else {
        "\""@ + escaped(items[i]) + "\", "@ + quoted_items(items, i + 1)
    }
}

/// The application section of the dump, from application `i` on.
pub open spec fn apps_text(apps: Seq<AppModel>, i: int) -> Seq<char>
    decreases apps.len() - i,
{
    if i < 0 || i >= apps.len() {
        Seq::empty()
    } else {
        app_text(apps[i]) + apps_text(apps, i + 1)
    }
}

/// The whole dump: header, global ignore list, selection comment, the
/// applications under their heading, and the four global hook lists.
pub open spec fn config_text(c: Config) -> Seq<char> {
    config_head_text(c.backup_dir.deep_view(), c.clean) + array_text(
        "ignore"@,
        pat_views(c.ignore@),
        0,
    ) + selected_text(c.selected_apps.deep_view()) + (if c.apps@.len() == 0 {
        Seq::empty()
    } else {
        "apps:\n"@ + apps_text(c.apps.deep_view(), 0)
    }) + array_text("pre_backup"@, c.pre_backup.deep_view(), 0) + array_text(
        "post_backup"@,
        c.post_backup.deep_view(),
        0,
    ) + array_text("pre_setup"@, c.pre_setup.deep_view(), 0) + array_text(
        "post_setup"@,
        c.post_setup.deep_view(),
        0,
    )
}

impl Config {
    /// Renders the whole configuration, as the dump action shows it.
    #[verifier::rlimit(100)]
    #[verifier::spinoff_prover]
    pub fn to_text(&self) -> (r: String)
        ensures
            r@ == config_text(*self),
    {
        let mut out = String::new();
        match &self.backup_dir {
            Some(b) => {
                out.append("backup_dir: ");
                out.append(b.as_str());
                out.append("\n");
            },
            None => {},
        }
        out.append("clean: ");
        if self.clean {
            out.append("true");
        } else {
            out.append("false");
        }
        out.append("\n");
        assert(out@ =~= config_head_text(self.backup_dir.deep_view(), self.clean));
        let mut texts: Vec<String> = Vec::new();
        let mut i: usize = 0;
        while i < self.ignore.len()
            invariant
                0 <= i <= self.ignore@.len(),
                texts@.len() == i,
                forall|j: int| 0 <= j < i ==> (#[trigger] texts@[j])@ == self.ignore@[j]@,
            decreases self.ignore@.len() - i,
        {
            texts.push(self.ignore[i].as_text().to_owned());
            i += 1;
        }
        assert(texts.deep_view() =~~= pat_views(self.ignore@));
        let ignore = format_array("ignore", &texts, 0);
        out.append(ignore.as_str());
        if self.selected_apps.len() > 0 {
            let ghost sel = self.selected_apps.deep_view();
            out.append("# selected_apps: [");
            let ghost mid = out@;
            let mut j: usize = 0;
            while j < self.selected_apps.len()
                invariant
                    0 <= j <= sel.len(),
                    sel.len() > 0,
                    sel == self.selected_apps.deep_view(),
                    out@ + quoted_items(sel, j as int) == mid + quoted_items(sel, 0),
                decreases sel.len() - j,
            {
                let ghost before = out@;
                out.append("\"");
                let esc = escape_name(self.selected_apps[j].as_str());
                out.append(esc.as_str());
                if j + 1 < self.selected_apps.len() {
                    out.append("\", ");
                } else {
                    out.append("\"");
                }
                proof {
                    assert(out@ + quoted_items(sel, j as int + 1) =~= before + quoted_items(
                        sel,
                        j as int,
                    ));
                }
                j += 1;
            }
            proof {
                assert(out@ + quoted_items(sel, sel.len() as int) =~= out@);
            }
            out.append("]\n");
            assert(out@ =~= config_head_text(self.backup_dir.deep_view(), self.clean)
                + array_text("ignore"@, pat_views(self.ignore@), 0) + selected_text(sel));
        }
        if self.apps.len() > 0 {
            out.append("apps:\n");
            let ghost head = out@;
            let mut a: usize = 0;
            while a < self.apps.len()
                invariant
                    0 <= a <= self.apps@.len(),
                    head + apps_text(self.apps.deep_view(), 0) == out@ + apps_text(
                        self.apps.deep_view(),
                        a as int,
                    ),
                decreases self.apps@.len() - a,
            {
                let ghost before = out@;
                let t = self.apps[a].to_text();
                out.append(t.as_str());
                proof {
                    assert(out@ + apps_text(self.apps.deep_view(), a as int + 1) =~= before
                        + apps_text(self.apps.deep_view(), a as int));
                }
                a += 1;
            }
            proof {
                assert(out@ + apps_text(
                    self.apps.deep_view(),
                    self.apps.deep_view().len() as int,
                ) =~= out@);
            }
        }
        let pre_b = format_array("pre_backup", &self.pre_backup, 0);
        out.append(pre_b.as_str());
        let post_b = format_array("post_backup", &self.post_backup, 0);
        out.append(post_b.as_str());
        let pre_s = format_array("pre_setup", &self.pre_setup, 0);
        out.append(pre_s.as_str());
        let post_s = format_array("post_setup", &self.post_setup, 0);
        out.append(post_s.as_str());
        assert(out@ =~= config_text(*self));
        out
    }
}

/// The executable's name as text.
pub fn name_text(name: Name) -> (r: String)
    ensures
        name is Dotbackup ==> r@ == "dotbackup"@,
        name is Dotsetup ==> r@ == "dotsetup"@,
{
    match name {
        Name::Dotbackup => "dotbackup".to_owned(),
        Name::Dotsetup => "dotsetup".to_owned(),
    }
}

/// The help text of either executable, around the name and the path shown
/// for the `-c` option.
pub open spec fn help_text_spec(name: Name, config_path: Seq<char>) -> Seq<char> {
    "Dotfile backup utility (dotbackup / dotsetup)\n\nUsage: "@ + (if name is Dotbackup {
        "dotbackup"@
    } else {
        "dotsetup"@
    }) + " [OPTIONS] [APPS]\n\nOptions:\n  -h, --help                     Print help\n  -f, --file <PATH>              Use configuration file at PATH\n  -c, --config <CONFIG>          Use configuration file at "@
        + config_path
        + "\n  -l, --list                     List all applications and exit\n      --clean                    "@
        + (if name is Dotbackup {
        "Delete old backup files before backup"@
    } else {
        "Delete old configuration files before setup"@
    })
        + "\n  -V, --version                  Print version info and exit\n  -v, --verbose                  Use verbose output\n      --dump-config              Print parsed configuration\n\nSee 'man dotbackup' and 'man dotsetup' for more information.\n"@
}

/// Builds the help text.
pub fn help_text(name: Name, config_path: &str) -> (r: String)
    ensures
        r@ == help_text_spec(name, config_path@),
{
    let mut out: String = "Dotfile backup utility (dotbackup / dotsetup)\n\nUsage: ".to_owned();
    let n = name_text(name);
    out.append(n.as_str());
    out.append(
        " [OPTIONS] [APPS]\n\nOptions:\n  -h, --help                     Print help\n  -f, --file <PATH>              Use configuration file at PATH\n  -c, --config <CONFIG>          Use configuration file at ",
    );
    out.append(config_path);
    out.append(
        "\n  -l, --list                     List all applications and exit\n      --clean                    ",
    );
    match name {
        Name::Dotbackup => out.append("Delete old backup files before backup"),
        Name::Dotsetup => out.append("Delete old configuration files before setup"),
    }
    out.append(
        "\n  -V, --version                  Print version info and exit\n  -v, --verbose                  Use verbose output\n      --dump-config              Print parsed configuration\n\nSee 'man dotbackup' and 'man dotsetup' for more information.\n",
    );
    out
}

} // verus!

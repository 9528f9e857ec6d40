//! The entity model: the root configuration and its applications, built
//! from a configuration document and read-only afterwards.

use vstd::prelude::*;
use crate::doc::{DocValue, table_get, all_text, texts};
use crate::error::{Error, Type};
use crate::globs::{GlobPattern, glob_wf, pat_views};
use crate::paths::expanded;

verus! {

/// One configured application: its managed file paths (after home
/// expansion), its own ignore patterns, and its four hook lists.
#[derive(Debug)]
pub struct App {
    pub name: String,
    pub files: Vec<String>,
    pub ignore: Vec<GlobPattern>,
    pub pre_backup: Vec<String>,
    pub post_backup: Vec<String>,
    pub pre_setup: Vec<String>,
    pub post_setup: Vec<String>,
}

/// The root configuration: global backup directory, clean policy, global
/// ignore patterns, the applications in document order, the selection
/// filter, and the global hook lists.
#[derive(Debug)]
pub struct Config {
    pub selected_apps: Vec<String>,
    pub clean: bool,
    pub backup_dir: Option<String>,
    pub ignore: Vec<GlobPattern>,
    pub apps: Vec<App>,
    pub pre_backup: Vec<String>,
    pub post_backup: Vec<String>,
    pub pre_setup: Vec<String>,
    pub post_setup: Vec<String>,
}

/// The entries of a mapping node (empty for any other node).
pub open spec fn doc_table(d: DocValue) -> Seq<(String, DocValue)> {
    match d {
        DocValue::Table(es) => es@,
        _ => Seq::empty(),
    }
}

/// Whether the value at `key`, if any, is a sequence of string scalars.
pub open spec fn array_field_ok(es: Seq<(String, DocValue)>, key: Seq<char>) -> bool {
    match table_get(es, key) {
        None => true,
        Some(d) => d matches DocValue::List(v) && all_text(v@),
    }
}

/// The strings of the sequence at `key` (empty when the key is absent).
pub open spec fn array_field(es: Seq<(String, DocValue)>, key: Seq<char>) -> Seq<Seq<char>> {
    match table_get(es, key) {
        Some(DocValue::List(v)) => texts(v@),
        _ => Seq::empty(),
    }
}

/// Whether every pattern text is a well-formed glob.
pub open spec fn globs_wf(ss: Seq<Seq<char>>) -> bool {
    forall|i: int| 0 <= i < ss.len() ==> glob_wf(ss[i])
}

/// Whether an application's document node is well-shaped: a mapping whose
/// `files`, `ignore` and hook entries are string sequences, with every
/// ignore entry a well-formed glob.
pub open spec fn app_doc_ok(d: DocValue) -> bool {
    &&& d is Table
    &&& array_field_ok(doc_table(d), "files"@)
    &&& array_field_ok(doc_table(d), "ignore"@)
    &&& globs_wf(array_field(doc_table(d), "ignore"@))
    &&& array_field_ok(doc_table(d), "pre_backup"@)
    &&& array_field_ok(doc_table(d), "post_backup"@)
    &&& array_field_ok(doc_table(d), "pre_setup"@)
    &&& array_field_ok(doc_table(d), "post_setup"@)
}

/// The fields an application loaded from node `d` must hold: the name; the
/// `files` entries, each home-expanded; the compiled `ignore` patterns; and
/// the four hook lists.
pub open spec fn app_matches_doc(a: App, name: Seq<char>, d: DocValue, home: Seq<char>) -> bool {
    &&& a.name@ == name
    &&& a.files.deep_view() == array_field(doc_table(d), "files"@).map_values(
        |s: Seq<char>| expanded(s, home),
    )
    &&& pat_views(a.ignore@) == array_field(doc_table(d), "ignore"@)
    &&& a.pre_backup.deep_view() == array_field(doc_table(d), "pre_backup"@)
    &&& a.post_backup.deep_view() == array_field(doc_table(d), "post_backup"@)
    &&& a.pre_setup.deep_view() == array_field(doc_table(d), "pre_setup"@)
    &&& a.post_setup.deep_view() == array_field(doc_table(d), "post_setup"@)
}

/// The application nodes of the configuration document (empty when absent).
pub open spec fn apps_table(d: DocValue) -> Seq<(String, DocValue)> {
    match table_get(doc_table(d), "apps"@) {
        Some(v) => doc_table(v),
        None => Seq::empty(),
    }
}

/// Whether a root configuration document is well-shaped: a mapping whose
/// `backup_dir` is a string, `clean` a boolean, `ignore` and the hook
/// entries string sequences of well-formed globs, and `apps` a mapping of
/// well-shaped application nodes.
pub open spec fn config_doc_ok(d: DocValue) -> bool {
    &&& d is Table
    &&& match table_get(doc_table(d), "backup_dir"@) {
        None => true,
        Some(v) => v is Text,
    }
    &&& match table_get(doc_table(d), "clean"@) {
        None => true,
        Some(v) => v is Flag,
    }
    &&& array_field_ok(doc_table(d), "ignore"@)
    &&& globs_wf(array_field(doc_table(d), "ignore"@))
    &&& match table_get(doc_table(d), "apps"@) {
        None => true,
        Some(v) => v is Table,
    }
    &&& (forall|i: int|
        0 <= i < apps_table(d).len() ==> app_doc_ok(#[trigger] apps_table(d)[i].1))
    &&& array_field_ok(doc_table(d), "pre_backup"@)
    &&& array_field_ok(doc_table(d), "post_backup"@)
    &&& array_field_ok(doc_table(d), "pre_setup"@)
    &&& array_field_ok(doc_table(d), "post_setup"@)
}

/// The fields a configuration loaded from document `d` must hold.
pub open spec fn config_matches_doc(c: Config, d: DocValue, home: Seq<char>) -> bool {
    &&& c.selected_apps@.len() == 0
    &&& match table_get(doc_table(d), "backup_dir"@) {
        None => c.backup_dir is None,
        Some(v) => c.backup_dir matches Some(b) && b@ == expanded(v.text(), home),
    }
    &&& c.clean == match table_get(doc_table(d), "clean"@) {
        Some(DocValue::Flag(b)) => b,
        _ => false,
    }
    &&& pat_views(c.ignore@) == array_field(doc_table(d), "ignore"@)
    &&& c.apps@.len() == apps_table(d).len()
    &&& (forall|i: int|
        0 <= i < c.apps@.len() ==> app_matches_doc(
            #[trigger] c.apps@[i],
            apps_table(d)[i].0@,
            apps_table(d)[i].1,
            home,
        ))
    &&& c.pre_backup.deep_view() == array_field(doc_table(d), "pre_backup"@)
    &&& c.post_backup.deep_view() == array_field(doc_table(d), "post_backup"@)
    &&& c.pre_setup.deep_view() == array_field(doc_table(d), "pre_setup"@)
    &&& c.post_setup.deep_view() == array_field(doc_table(d), "post_setup"@)
}

/// Collects the string sequence at `key` of a mapping: absent means empty;
/// any other shape is a configuration error.
pub fn collect_array(es: &Vec<(String, DocValue)>, key: &str) -> (r: Result<Vec<String>, Error>)
    ensures
        match r {
            Ok(v) => array_field_ok(es@, key@) && v.deep_view() == array_field(es@, key@),
            Err(e) => {
                &&& !array_field_ok(es@, key@)
                &&& e.kind == Type::Config
                &&& match table_get(es@, key@) {
                    Some(d) => if !(d is List) {
                        e.msg@ == "expected "@ + key@ + " to be an array"@
                    } else {
                        e.msg@ == "expected element of "@ + key@ + " to be string"@
                    },
                    None => false,
                }
            },
        },
{
    match crate::doc::lookup(es, key) {
        None => {
            let r: Vec<String> = Vec::new();
            assert(r.deep_view() =~~= array_field(es@, key@));
            Ok(r)
        },
        Some(d) => {
            match d {
                DocValue::List(items) => {
                    let mut out: Vec<String> = Vec::new();
                    let mut i: usize = 0;
                    while i < items.len()
                        invariant
                            0 <= i <= items@.len(),
                            out@.len() == i,
                            table_get(es@, key@) matches Some(DocValue::List(it)) && it@
                                == items@,
                            forall|j: int| 0 <= j < i ==> items@[j] is Text,
                            forall|j: int| 0 <= j < i ==> out@[j]@ == #[trigger] items@[j].text(),
                        decreases items@.len() - i,
                    {
                        match &items[i] {
                            DocValue::Text(s) => {
                                out.push(s.clone());
                            },
                            _ => {
                                proof {
                                    assert(!all_text(items@)) by {
                                        if all_text(items@) {
                                            assert(items@[i as int] is Text);
                                        }
                                    }
                                    reveal_strlit("expected element of ");
                                    reveal_strlit(" to be string");
                                }
                                let mut m: String = "expected element of ".to_owned();
                                m.append(key);
                                m.append(" to be string");
                                return Err(Error::new(Type::Config, m));
                            },
                        }
                        i += 1;
                    }
                    assert(out.deep_view() =~~= texts(items@));
                    Ok(out)
                },
                _ => {
                    proof {
                        reveal_strlit("expected ");
                        reveal_strlit(" to be an array");
                    }
                    let mut m: String = "expected ".to_owned();
                    m.append(key);
                    m.append(" to be an array");
                    Err(Error::new(Type::Config, m))
                },
            }
        },
    }
}

/// Compiles each pattern text; the first rejection is returned as the glob
/// library's own message.
pub fn compile_globs(src: &Vec<String>) -> (r: Result<Vec<GlobPattern>, String>)
    ensures
        match r {
            Ok(ps) => globs_wf(src.deep_view()) && pat_views(ps@) == src.deep_view(),
            Err(_) => !globs_wf(src.deep_view()),
        },
{
    let mut out: Vec<GlobPattern> = Vec::new();
    let mut i: usize = 0;
    while i < src.len()
        invariant
            0 <= i <= src@.len(),
            out@.len() == i,
            forall|j: int| 0 <= j < i ==> glob_wf(#[trigger] src@[j]@),
            forall|j: int| 0 <= j < i ==> (#[trigger] out@[j])@ == src@[j]@,
        decreases src@.len() - i,
    {
        match GlobPattern::new(src[i].as_str()) {
            Ok(p) => {
                out.push(p);
            },
            Err(e) => {
                assert(!glob_wf(src.deep_view()[i as int]));
                return Err(e);
            },
        }
        i += 1;
    }
    assert(pat_views(out@) =~~= src.deep_view());
    assert(globs_wf(src.deep_view()));
    Ok(out)
}

/// Expands each path of the list against the home directory.
fn expand_all(src: Vec<String>, home: &str) -> (r: Vec<String>)
    ensures
        r.deep_view() == src.deep_view().map_values(|s: Seq<char>| expanded(s, home@)),
{
    let mut out: Vec<String> = Vec::new();
    let mut i: usize = 0;
    while i < src.len()
        invariant
            0 <= i <= src@.len(),
            out@.len() == i,
            forall|j: int| 0 <= j < i ==> (#[trigger] out@[j])@ == expanded(src@[j]@, home@),
        decreases src@.len() - i,
    {
        let e = crate::paths::expanduser(src[i].as_str(), home);
        out.push(e);
        i += 1;
    }
    assert(out.deep_view() =~~= src.deep_view().map_values(|s: Seq<char>| expanded(s, home@)));
    out
}

impl App {
    /// Builds one application from its document node. The node must be a
    /// mapping; its `files` are home-expanded, its `ignore` patterns
    /// compiled, its hook lists taken as they stand.
    pub fn load_from_config(name: &str, d: &DocValue, home: &str) -> (r: Result<App, Error>)
        ensures
            match r {
                Ok(a) => app_doc_ok(*d) && app_matches_doc(a, name@, *d, home@),
                Err(e) => !app_doc_ok(*d) && e.kind == Type::Config,
            },
    {
        match d {
            DocValue::Table(es) => {
                let files_raw = match collect_array(es, "files") {
                    Ok(v) => v,
                    Err(e) => { return Err(e); },
                };
                let files = expand_all(files_raw, home);
                let ignore_raw = match collect_array(es, "ignore") {
                    Ok(v) => v,
                    Err(e) => { return Err(e); },
                };
                let ignore = match compile_globs(&ignore_raw) {
                    Ok(ps) => ps,
                    Err(e) => {
                        proof {
                            reveal_strlit("invalid glob: ");
                        }
                        let mut m: String = "invalid glob: ".to_owned();
                        m.append(e.as_str());
                        return Err(Error::new(Type::Config, m));
                    },
                };
                let pre_backup = match collect_array(es, "pre_backup") {
                    Ok(v) => v,
                    Err(e) => { return Err(e); },
                };
                let post_backup = match collect_array(es, "post_backup") {
                    Ok(v) => v,
                    Err(e) => { return Err(e); },
                };
                let pre_setup = match collect_array(es, "pre_setup") {
                    Ok(v) => v,
                    Err(e) => { return Err(e); },
                };
                let post_setup = match collect_array(es, "post_setup") {
                    Ok(v) => v,
                    Err(e) => { return Err(e); },
                };
                Ok(App {
                    name: name.to_owned(),
                    files,
                    ignore,
                    pre_backup,
                    post_backup,
                    pre_setup,
                    post_setup,
                })
            },
            _ => {
                proof {
                    reveal_strlit("expected app ");
                    reveal_strlit(" to be a mapping");
                }
                let mut m: String = "expected app ".to_owned();
                m.append(name);
                m.append(" to be a mapping");
                Err(Error::new(Type::Config, m))
            },
        }
    }
}

impl Config {
    /// Builds the whole configuration from its document, validating every
    /// field and rejecting the first ill-shaped one.
    pub fn load_from_doc(d: &DocValue, home: &str) -> (r: Result<Config, Error>)
        ensures
            match r {
                Ok(c) => config_doc_ok(*d) && config_matches_doc(c, *d, home@),
                Err(e) => {
                    &&& !config_doc_ok(*d)
                    &&& e.kind == Type::Config
                    &&& (!(*d is Table) ==> e.msg@ == "configuration not valid"@)
                },
            },
    {
        let es = match d {
            DocValue::Table(es) => es,
            _ => {
                proof {
                    reveal_strlit("configuration not valid");
                }
                return Err(Error::new(Type::Config, "configuration not valid".to_owned()));
            },
        };
        let backup_dir: Option<String> = match crate::doc::lookup(es, "backup_dir") {
            None => None,
            Some(v) => match v {
                DocValue::Text(s) => Some(crate::paths::expanduser(s.as_str(), home)),
                _ => {
                    proof {
                        reveal_strlit("expected backup_dir to be a string");
                    }
                    return Err(
                        Error::new(
                            Type::Config,
                            "expected backup_dir to be a string".to_owned(),
                        ),
                    );
                },
            },
        };
        let clean: bool = match crate::doc::lookup(es, "clean") {
            None => false,
            Some(v) => match v {
                DocValue::Flag(b) => *b,
                _ => {
                    proof {
                        reveal_strlit("expected clean to be a boolean");
                    }
                    return Err(
                        Error::new(Type::Config, "expected clean to be a boolean".to_owned()),
                    );
                },
            },
        };
        let ignore_raw = match collect_array(es, "ignore") {
            Ok(v) => v,
            Err(e) => { return Err(e); },
        };
        let ignore = match compile_globs(&ignore_raw) {
            Ok(ps) => ps,
            Err(e) => {
                proof {
                    reveal_strlit("invalid glob: ");
                }
                let mut m: String = "invalid glob: ".to_owned();
                m.append(e.as_str());
                return Err(Error::new(Type::Config, m));
            },
        };
        let mut apps: Vec<App> = Vec::new();
        match crate::doc::lookup(es, "apps") {
            None => {},
            Some(v) => match v {
                DocValue::Table(aes) => {
                    let mut i: usize = 0;
                    while i < aes.len()
                        invariant
                            0 <= i <= aes@.len(),
                            apps@.len() == i,
                            *d is Table,
                            apps_table(*d) == aes@,
                            forall|j: int|
                                0 <= j < i ==> app_doc_ok(#[trigger] aes@[j].1)
                                    && app_matches_doc(apps@[j], aes@[j].0@, aes@[j].1, home@),
                        decreases aes@.len() - i,
                    {
                        let app = match App::load_from_config(
                            aes[i].0.as_str(),
                            &aes[i].1,
                            home,
                        ) {
                            Ok(a) => a,
                            Err(e) => {
                                proof {
                                    assert(!config_doc_ok(*d)) by {
                                        if config_doc_ok(*d) {
                                            assert(app_doc_ok(apps_table(*d)[i as int].1));
                                        }
                                    }
                                }
                                return Err(e);
                            },
                        };
                        apps.push(app);
                        i += 1;
                    }
                },
                _ => {
                    proof {
                        reveal_strlit("expected apps to be a mapping");
                    }
                    return Err(
                        Error::new(Type::Config, "expected apps to be a mapping".to_owned()),
                    );
                },
            },
        }
        let pre_setup = match collect_array(es, "pre_setup") {
            Ok(v) => v,
            Err(e) => { return Err(e); },
        };
        let pre_backup = match collect_array(es, "pre_backup") {
            Ok(v) => v,
            Err(e) => { return Err(e); },
        };
        let post_backup = match collect_array(es, "post_backup") {
            Ok(v) => v,
            Err(e) => { return Err(e); },
        };
        let post_setup = match collect_array(es, "post_setup") {
            Ok(v) => v,
            Err(e) => { return Err(e); },
        };
        Ok(Config {
            selected_apps: Vec::new(),
            clean,
            backup_dir,
            ignore,
            apps,
            pre_backup,
            post_backup,
            pre_setup,
            post_setup,
        })
    }

    /// The backup directory, owed whenever one is configured; its absence
    /// is the fatal configuration error of either operation.
    pub fn get_backup_dir(&self) -> (r: Result<String, Error>)
        ensures
            match r {
                Ok(b) => self.backup_dir matches Some(s) && b@ == s@,
                Err(e) => self.backup_dir is None && e.kind == Type::Config && e.msg@
                    == "backup_dir not set"@,
            },
    {
        match &self.backup_dir {
            Some(b) => Ok(b.clone()),
            None => {
                proof {
                    reveal_strlit("backup_dir not set");
                }
                Err(Error::new(Type::Config, "backup_dir not set".to_owned()))
            },
        }
    }

    /// One freshly loaded configuration applied over the invocation's
    /// state so far: the newer document replaces everything, except that
    /// the clean override can only ever be turned on, and the selection
    /// belongs to the command line alone.
    pub fn apply_file(self, newer: Config) -> (r: Config)
        ensures
            r.clean == (self.clean || newer.clean),
            r.selected_apps@ == self.selected_apps@,
            r.backup_dir == newer.backup_dir,
            r.ignore@ == newer.ignore@,
            r.apps@ == newer.apps@,
            r.pre_backup@ == newer.pre_backup@,
            r.post_backup@ == newer.post_backup@,
            r.pre_setup@ == newer.pre_setup@,
            r.post_setup@ == newer.post_setup@,
    {
        let clean = if self.clean {
            true
        } else {
            newer.clean
        };
        Config { clean, selected_apps: self.selected_apps, ..newer }
    }

    /// The configured application names, in document order.
    pub fn list_apps(&self) -> (r: Vec<String>)
        ensures
            r.deep_view() == self.apps@.map_values(|a: App| a.name@),
    {
        let mut out: Vec<String> = Vec::new();
        let mut i: usize = 0;
        while i < self.apps.len()
            invariant
                0 <= i <= self.apps@.len(),
                out@.len() == i,
                forall|j: int| 0 <= j < i ==> (#[trigger] out@[j])@ == self.apps@[j].name@,
            decreases self.apps@.len() - i,
        {
            out.push(self.apps[i].name.clone());
            i += 1;
        }
        assert(out.deep_view() =~~= self.apps@.map_values(|a: App| a.name@));
        out
    }
}

} // verus!

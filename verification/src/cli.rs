//! The command-line surface: which executable was invoked, what it was
//! asked to do, and the pure parsing of its arguments into a plan — which
//! configuration documents to load, in what order, with which overrides.
//! Reading the files the plan names, and carrying the plan out, is the
//! driver's part.

use vstd::prelude::*;
use crate::error::{Error, Type};
use crate::paths::{joined, str_eq, str_starts_with};

verus! {

/// Which of the two executables is running.
#[derive(Clone, Copy, PartialEq, Eq, Structural, Debug)]
pub enum Name {
    Dotbackup,
    Dotsetup,
}

/// What one invocation does.
#[derive(Clone, Copy, PartialEq, Eq, Structural, Debug)]
pub enum Action {
    Backup,
    Setup,
    Help,
    List,
    Version,
    DumpConfig,
}

/// The operation an executable performs when nothing else is asked of it.
pub fn default_action(name: Name) -> (r: Action)
    ensures
        r == default_action_spec(name),
{
    match name {
        Name::Dotbackup => Action::Backup,
        Name::Dotsetup => Action::Setup,
    }
}

pub open spec fn default_action_spec(name: Name) -> Action {
    match name {
        Name::Dotbackup => Action::Backup,
        Name::Dotsetup => Action::Setup,
    }
}

/// Where a configuration document comes from: a path given with `-f`, or a
/// configuration name given with `-c`, to be found under the configuration
/// directory.
#[derive(Debug)]
pub enum ConfigSource {
    AtPath(String),
    ByName(String),
}

/// The mathematical value of a configuration source.
pub enum SourceModel {
    AtPath(Seq<char>),
    ByName(Seq<char>),
}

impl View for ConfigSource {
    type V = SourceModel;

    open spec fn view(&self) -> SourceModel {
        match self {
            ConfigSource::AtPath(p) => SourceModel::AtPath(p@),
            ConfigSource::ByName(n) => SourceModel::ByName(n@),
        }
    }
}

impl DeepView for ConfigSource {
    type V = SourceModel;

    open spec fn deep_view(&self) -> SourceModel {
        self@
    }
}

/// The parsed plan of one invocation: the action, the clean override, the
/// selected application names in the order given, the configuration
/// documents to load in order, and whether the default document is to be
/// loaded because none was named.
#[derive(Debug)]
pub struct CliPlan {
    pub action: Action,
    pub clean: bool,
    pub selected: Vec<String>,
    pub loads: Vec<ConfigSource>,
    pub load_default: bool,
}

/// The mathematical value of a plan.
#[verifier::ext_equal]
pub struct PlanModel {
    pub action: Action,
    pub clean: bool,
    pub selected: Seq<Seq<char>>,
    pub loads: Seq<SourceModel>,
    pub load_default: bool,
}

impl View for CliPlan {
    type V = PlanModel;

    open spec fn view(&self) -> PlanModel {
        PlanModel {
            action: self.action,
            clean: self.clean,
            selected: self.selected.deep_view(),
            loads: self.loads.deep_view(),
            load_default: self.load_default,
        }
    }
}

/// The plan before any argument is read.
pub open spec fn init_plan(name: Name) -> PlanModel {
    PlanModel {
        action: default_action_spec(name),
        clean: false,
        selected: Seq::empty(),
        loads: Seq::empty(),
        load_default: true,
    }
}

/// One step of parsing: the arguments from position `i` applied to the
/// plan built so far. A help or version request ends parsing at once and
/// suppresses the default load; an option missing its value or an unknown
/// option is an argument error.
pub open spec fn parse_from(args: Seq<Seq<char>>, i: int, st: PlanModel) -> Result<
    PlanModel,
    (Type, Seq<char>),
>
    decreases args.len() - i,
{
    if i < 0 || i >= args.len() {
        Ok(st)
    } else {
        let arg = args[i];
        if arg == "-h"@ || arg == "--help"@ {
            Ok(PlanModel { action: Action::Help, load_default: false, ..st })
        } else if arg == "-f"@ || arg == "--file"@ {
            if i + 1 >= args.len() {
                Err((Type::Argument, "expected a file path after option "@ + arg))
            } else {
                parse_from(
                    args,
                    i + 2,
                    PlanModel {
                        loads: st.loads.push(SourceModel::AtPath(args[i + 1])),
                        load_default: false,
                        ..st
                    },
                )
            }
        } else if arg == "-c"@ || arg == "--config"@ {
            if i + 1 >= args.len() {
                Err((Type::Argument, "expected a configuration name after option "@ + arg))
            } else {
                parse_from(
                    args,
                    i + 2,
                    PlanModel {
                        loads: st.loads.push(SourceModel::ByName(args[i + 1])),
                        load_default: false,
                        ..st
                    },
                )
            }
        } else if arg == "-l"@ || arg == "--list"@ {
            parse_from(args, i + 1, PlanModel { action: Action::List, ..st })
        } else if arg == "--clean"@ {
            parse_from(args, i + 1, PlanModel { clean: true, ..st })
        } else if arg == "-V"@ || arg == "--version"@ {
            Ok(PlanModel { action: Action::Version, load_default: false, ..st })
        } else if arg == "-v"@ || arg == "--verbose"@ {
            Err((Type::Unknown, "not yet implemented"@))
        } else if arg == "--dump-config"@ {
            parse_from(args, i + 1, PlanModel { action: Action::DumpConfig, ..st })
        } else if arg.len() >= 1 && arg[0] == '-' {
            Err((Type::Argument, "unknown argument: \""@ + arg + "\""@))
        } else {
            parse_from(args, i + 1, PlanModel { selected: st.selected.push(arg), ..st })
        }
    }
}

/// Parses the command-line arguments (the executable's own name already
/// removed) into the invocation's plan. The verbose switch is not carried
/// by this library; the caller must rule it out beforehand.
pub fn parse_args(name: Name, args: &Vec<String>) -> (r: Result<CliPlan, Error>)
    requires
        forall|j: int|
            0 <= j < args@.len() ==> (#[trigger] args@[j])@ != "-v"@ && args@[j]@
                != "--verbose"@,
    ensures
        match r {
            Ok(p) => parse_from(args.deep_view(), 0, init_plan(name)) matches Ok(pm) && p@
                =~~= pm,
            Err(e) => parse_from(args.deep_view(), 0, init_plan(name)) matches Err(em)
                && e.kind == em.0 && e.msg@ == em.1,
        },
{
    let mut action = default_action(name);
    let mut clean = false;
    let mut selected: Vec<String> = Vec::new();
    let mut loads: Vec<ConfigSource> = Vec::new();
    let mut load_default = true;
    let mut i: usize = 0;
    let ghost args_v = args.deep_view();
    proof {
        assert(PlanModel {
            action,
            clean,
            selected: selected.deep_view(),
            loads: loads.deep_view(),
            load_default,
        } =~~= init_plan(name));
    }
    while i < args.len()
        invariant
            0 <= i <= args@.len(),
            args_v == args.deep_view(),
            forall|j: int|
                0 <= j < args@.len() ==> (#[trigger] args@[j])@ != "-v"@ && args@[j]@
                    != "--verbose"@,
            parse_from(args_v, 0, init_plan(name)) == parse_from(
                args_v,
                i as int,
                PlanModel {
                    action,
                    clean,
                    selected: selected.deep_view(),
                    loads: loads.deep_view(),
                    load_default,
                },
            ),
        decreases args@.len() - i,
    {
        let ghost st = PlanModel {
            action,
            clean,
            selected: selected.deep_view(),
            loads: loads.deep_view(),
            load_default,
        };
        let arg = &args[i];
        if str_eq(arg.as_str(), "-h") || str_eq(arg.as_str(), "--help") {
            return Ok(
                CliPlan { action: Action::Help, clean, selected, loads, load_default: false },
            );
        } else if str_eq(arg.as_str(), "-f") || str_eq(arg.as_str(), "--file") {
            if i + 1 >= args.len() {
                let msg = crate::engine::prefixed(
                    "expected a file path after option ",
                    arg.as_str(),
                );
                return Err(Error::new(Type::Argument, msg));
            }
            loads.push(ConfigSource::AtPath(args[i + 1].clone()));
            load_default = false;
            proof {
                assert(loads.deep_view() =~~= st.loads.push(
                    SourceModel::AtPath(args_v[i as int + 1]),
                ));
            }
            i += 2;
        } else if str_eq(arg.as_str(), "-c") || str_eq(arg.as_str(), "--config") {
            if i + 1 >= args.len() {
                let msg = crate::engine::prefixed(
                    "expected a configuration name after option ",
                    arg.as_str(),
                );
                return Err(Error::new(Type::Argument, msg));
            }
            loads.push(ConfigSource::ByName(args[i + 1].clone()));
            load_default = false;
            proof {
                assert(loads.deep_view() =~~= st.loads.push(
                    SourceModel::ByName(args_v[i as int + 1]),
                ));
            }
            i += 2;
        } else if str_eq(arg.as_str(), "-l") || str_eq(arg.as_str(), "--list") {
            action = Action::List;
            i += 1;
        } else if str_eq(arg.as_str(), "--clean") {
            clean = true;
            i += 1;
        } else if str_eq(arg.as_str(), "-V") || str_eq(arg.as_str(), "--version") {
            return Ok(
                CliPlan {
                    action: Action::Version,
                    clean,
                    selected,
                    loads,
                    load_default: false,
                },
            );
        } else if str_eq(arg.as_str(), "--dump-config") {
            action = Action::DumpConfig;
            i += 1;
        } else if str_starts_with(arg.as_str(), "-") {
            proof {
                reveal_strlit("-");
                assert(args_v[i as int].subrange(0, 1) =~= "-"@);
                assert(args_v[i as int].subrange(0, 1)[0] == args_v[i as int][0]);
                assert(args_v[i as int].len() >= 1 && args_v[i as int][0] == '-');
            }
            let mut msg: String = "unknown argument: \"".to_owned();
            msg.append(arg.as_str());
            msg.append("\"");
            return Err(Error::new(Type::Argument, msg));
        } else {
            proof {
                reveal_strlit("-");
                if args_v[i as int].len() >= 1 && args_v[i as int][0] == '-' {
                    assert(args_v[i as int].subrange(0, 1) =~= "-"@);
                }
                assert(!(args_v[i as int].len() >= 1 && args_v[i as int][0] == '-'));
            }
            selected.push(arg.clone());
            proof {
                assert(selected.deep_view() =~~= st.selected.push(args_v[i as int]));
            }
            i += 1;
        }
    }
    Ok(CliPlan { action, clean, selected, loads, load_default })
}

/// Relies on dirs::config_dir: the platform's configuration directory, if
/// the platform defines one and its path is well-formed text.
#[verifier::external_body]
fn os_config_dir() -> (r: Option<String>) {
    dirs::config_dir().and_then(|p| p.to_str().map(|s| s.to_string()))
}

/// Relies on dirs::home_dir: the user's home directory, if the platform
/// knows one and its path is well-formed text.
#[verifier::external_body]
fn os_home_dir() -> (r: Option<String>) {
    dirs::home_dir().and_then(|p| p.to_str().map(|s| s.to_string()))
}

/// The configuration root: the home directory. Its absence is a fatal
/// system error.
pub fn config_root() -> (r: Result<String, Error>)
    ensures
        r matches Err(e) ==> e.kind == Type::System && e.msg@
            == "unknown system, cannot decide home directory"@,
{
    match os_home_dir() {
        Some(h) => Ok(h),
        None => {
            proof {
                reveal_strlit("unknown system, cannot decide home directory");
            }
            Err(
                Error::new(
                    Type::System,
                    "unknown system, cannot decide home directory".to_owned(),
                ),
            )
        },
    }
}

/// This tool's configuration directory: `dotbackup` under the platform's
/// configuration directory.
pub fn config_dir() -> (r: Result<String, Error>)
    ensures
        r matches Ok(p) ==> (exists|base: Seq<char>| p@ == joined(base, "dotbackup"@)),
        r matches Err(e) ==> e.kind == Type::System && e.msg@
            == "unknown system, cannot decide configuration directory"@,
{
    match os_config_dir() {
        Some(base) => {
            let p = crate::paths::join_path(base.as_str(), "dotbackup");
            Ok(p)
        },
        None => {
            proof {
                reveal_strlit("unknown system, cannot decide configuration directory");
            }
            Err(
                Error::new(
                    Type::System,
                    "unknown system, cannot decide configuration directory".to_owned(),
                ),
            )
        },
    }
}

/// The default configuration document: `dotbackup.yml` in the
/// configuration directory.
pub fn default_config_path() -> (r: Result<String, Error>)
    ensures
        r matches Ok(p) ==> (exists|base: Seq<char>| p@ == joined(base, "dotbackup.yml"@)),
        r matches Err(e) ==> e.kind == Type::System,
{
    let dir = match config_dir() {
        Ok(d) => d,
        Err(e) => { return Err(e); },
    };
    Ok(crate::paths::join_path(dir.as_str(), "dotbackup.yml"))
}

/// The path a `-c NAME` source names: `NAME.yml` in the configuration
/// directory.
pub fn named_config_path(name: &str) -> (r: Result<String, Error>)
    ensures
        r matches Ok(p) ==> (exists|base: Seq<char>| p@ == joined(base, name@ + ".yml"@)),
        r matches Err(e) ==> e.kind == Type::System,
{
    let dir = match config_dir() {
        Ok(d) => d,
        Err(e) => { return Err(e); },
    };
    let mut file: String = name.to_owned();
    file.append(".yml");
    Ok(crate::paths::join_path(dir.as_str(), file.as_str()))
}

} // verus!

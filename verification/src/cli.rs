//! Command-line surface and startup decisions: argument parsing, the
//! `--launch` bypass, and the fallback taken when no session exists yet.
//! All of it is pure decision logic; reading files, the environment and
//! process exit stay with the caller.

use vstd::prelude::*;

use crate::selection::index_view;
use crate::state::{Preset, PresetView};
use vstd::string::StringExecFns;

verus! {

/// What the command line asks for: run the interactive UI (with a presets
/// file and an optional preset to launch instead), or print usage.
#[derive(Clone, Debug, PartialEq)]
pub enum CliCommand {
    Run { presets_path: String, launch: Option<String> },
    Help,
}

/// A rejected command line: a flag missing its value, or an argument that
/// is no known flag.
#[derive(Clone, Debug, PartialEq)]
pub enum CliError {
    MissingValue { flag: String },
    Unknown { arg: String },
}

#[verifier::ext_equal]
pub enum CliCommandView {
    Run { presets_path: Seq<char>, launch: Option<Seq<char>> },
    Help,
}

#[verifier::ext_equal]
pub enum CliErrorView {
    MissingValue { flag: Seq<char> },
    Unknown { arg: Seq<char> },
}

impl View for CliCommand {
    type V = CliCommandView;

    open spec fn view(&self) -> CliCommandView {
        match self {
            CliCommand::Run { presets_path, launch } => CliCommandView::Run {
                presets_path: presets_path@,
                launch: match launch {
                    None => None,
                    Some(l) => Some(l@),
                },
            },
            CliCommand::Help => CliCommandView::Help,
        }
    }
}

impl View for CliError {
    type V = CliErrorView;

    open spec fn view(&self) -> CliErrorView {
        match self {
            CliError::MissingValue { flag } => CliErrorView::MissingValue { flag: flag@ },
            CliError::Unknown { arg } => CliErrorView::Unknown { arg: arg@ },
        }
    }
}

/// The view of a parse outcome.
pub open spec fn parse_result_view(r: Result<CliCommand, CliError>) -> Result<
    CliCommandView,
    CliErrorView,
> {
    match r {
        Ok(c) => Ok(c@),
        Err(e) => Err(e@),
    }
}

/// The presets file consulted when `--presets` is not given.
pub fn default_presets_path() -> (r: String)
    ensures
        r@ == "~/.config/muffin/presets.kdl"@,
{
    "~/.config/muffin/presets.kdl".to_owned()
}

/// Parsing from argument `i` on, with the path and launch choice collected
/// so far. A later flag overrides an earlier one; `--help` wins as soon as
/// it is seen; the first unknown argument rejects the command line.
pub open spec fn parse_from(
    args: Seq<Seq<char>>,
    i: int,
    path: Seq<char>,
    launch: Option<Seq<char>>,
) -> Result<CliCommandView, CliErrorView>
    decreases args.len() - i when 0 <= i <= args.len()
{
    if i >= args.len() {
        Ok(CliCommandView::Run { presets_path: path, launch })
    } else {
        let a = args[i];
        if a == "--presets"@ || a == "-p"@ {
            if i + 1 < args.len() {
                parse_from(args, i + 2, args[i + 1], launch)
            } else {
                Err(CliErrorView::MissingValue { flag: a })
            }
        } else if a == "--help"@ || a == "-h"@ {
            Ok(CliCommandView::Help)
        } else if a == "--launch"@ || a == "-l"@ {
            if i + 1 < args.len() {
                parse_from(args, i + 2, path, Some(args[i + 1]))
            } else {
                Err(CliErrorView::MissingValue { flag: a })
            }
        } else {
            Err(CliErrorView::Unknown { arg: a })
        }
    }
}

/// What a whole command line (without the program name) means.
pub open spec fn spec_parse_args(args: Seq<Seq<char>>) -> Result<CliCommandView, CliErrorView> {
    parse_from(args, 0, "~/.config/muffin/presets.kdl"@, None)
}

/// Parse the arguments after the program name.
pub fn parse_args(args: &Vec<String>) -> (r: Result<CliCommand, CliError>)
    ensures
        parse_result_view(r) == spec_parse_args(args@.map_values(|a: String| a@)),
{
    let ghost argsv = args@.map_values(|a: String| a@);
    let flag_presets = "--presets".to_owned();
    let flag_p = "-p".to_owned();
    let flag_help = "--help".to_owned();
    let flag_h = "-h".to_owned();
    let flag_launch = "--launch".to_owned();
    let flag_l = "-l".to_owned();
    let mut path = default_presets_path();
    let mut launch: Option<String> = None;
    let mut i: usize = 0;
    while i < args.len()
        invariant
            i <= args.len(),
            argsv == args@.map_values(|a: String| a@),
            flag_presets@ == "--presets"@,
            flag_p@ == "-p"@,
            flag_help@ == "--help"@,
            flag_h@ == "-h"@,
            flag_launch@ == "--launch"@,
            flag_l@ == "-l"@,
            parse_from(argsv, i as int, path@, match launch {
                None => None,
                Some(l) => Some(l@),
            }) == spec_parse_args(argsv),
        decreases args.len() - i,
    {
        let a = &args[i];
        if *a == flag_presets || *a == flag_p {
            if i + 1 < args.len() {
                path = args[i + 1].clone();
                i = i + 2;
            } else {
                return Err(CliError::MissingValue { flag: a.clone() });
            }
        } else if *a == flag_help || *a == flag_h {
            return Ok(CliCommand::Help);
        } else if *a == flag_launch || *a == flag_l {
            if i + 1 < args.len() {
                launch = Some(args[i + 1].clone());
                i = i + 2;
            } else {
                return Err(CliError::MissingValue { flag: a.clone() });
            }
        } else {
            return Err(CliError::Unknown { arg: a.clone() });
        }
    }
    Ok(CliCommand::Run { presets_path: path, launch })
}

impl CliError {
    /// The diagnostic a rejected command line is reported with; `arg0` is
    /// the program name, used to point at the usage text.
    pub fn message(&self, arg0: &String) -> (r: String)
        ensures
            r@ == spec_cli_error_message(self@, arg0@),
    {
        match self {
            CliError::MissingValue { flag } => {
                let flag_launch = "--launch".to_owned();
                let flag_l = "-l".to_owned();
                let mut m = flag.clone();
                if *flag == flag_launch || *flag == flag_l {
                    m.append(" expects a preset name");
                } else {
                    m.append(" expects a path");
                }
                m
            },
            CliError::Unknown { arg } => {
                let mut m = "Unknown flag or value '".to_owned();
                m.append(arg.as_str());
                m.append("'. Run '");
                m.append(arg0.as_str());
                m.append(" --help' for usage.");
                m
            },
        }
    }
}

/// The diagnostic for a rejected command line.
pub open spec fn spec_cli_error_message(e: CliErrorView, arg0: Seq<char>) -> Seq<char> {
    match e {
        CliErrorView::MissingValue { flag } => flag + (if flag == "--launch"@ || flag == "-l"@ {
            " expects a preset name"@
        } else {
            " expects a path"@
        }),
        CliErrorView::Unknown { arg } => "Unknown flag or value '"@ + arg + "'. Run '"@ + arg0
            + " --help' for usage."@,
    }
}

/// The first index at or after `k` whose preset carries `name`.
pub open spec fn first_named_from(ps: Seq<PresetView>, name: Seq<char>, k: int) -> Option<int>
    decreases ps.len() - k when 0 <= k <= ps.len()
{
    if k >= ps.len() {
        None
    } else if ps[k].name == name {
        Some(k)
    } else {
        first_named_from(ps, name, k + 1)
    }
}

/// The index of the preset named `name`, if any.
pub open spec fn spec_find_preset(ps: Seq<PresetView>, name: Seq<char>) -> Option<int> {
    first_named_from(ps, name, 0)
}

/// A found index is inside the list and carries the name.
pub proof fn lemma_find_preset_in_range(ps: Seq<PresetView>, name: Seq<char>, k: int)
    requires
        0 <= k <= ps.len(),
    ensures
        first_named_from(ps, name, k) matches Some(i) ==> k <= i < ps.len() && ps[i].name == name,
    decreases ps.len() - k,
{
    if k < ps.len() && ps[k].name != name {
        lemma_find_preset_in_range(ps, name, k + 1);
    }
}

/// Look a preset up by name.
pub fn find_preset(presets: &Vec<Preset>, name: &String) -> (r: Option<usize>)
    ensures
        index_view(r) == spec_find_preset(presets@.map_values(|p: Preset| p@), name@),
{
    let ghost ps = presets@.map_values(|p: Preset| p@);
    let mut i: usize = 0;
    while i < presets.len()
        invariant
            i <= presets.len(),
            ps == presets@.map_values(|p: Preset| p@),
            first_named_from(ps, name@, 0) == first_named_from(ps, name@, i as int),
        decreases presets.len() - i,
    {
        if presets[i].name == *name {
            return Some(i);
        }
        i = i + 1;
    }
    None
}

/// How a launched preset is entered afterwards: switch the current client
/// when already inside a session, attach from outside.
#[derive(Clone, Copy, Debug, PartialEq, Eq, Structural)]
pub enum LaunchMode {
    Switch,
    Attach,
}

/// Decide the `--launch name` bypass: which preset to spawn and how to
/// enter it, or the exact diagnostic when no preset carries the name.
pub fn launch_plan(presets: &Vec<Preset>, name: &String, inside_tmux: bool) -> (r: Result<
    (usize, LaunchMode),
    String,
>)
    ensures
        spec_find_preset(presets@.map_values(|p: Preset| p@), name@) matches Some(i) ==> (r
            matches Ok(p) && p.0 == i && p.1 == (if inside_tmux {
            LaunchMode::Switch
        } else {
            LaunchMode::Attach
        })),
        spec_find_preset(presets@.map_values(|p: Preset| p@), name@) is None ==> (r matches Err(m)
            && m@ == "Preset '"@ + name@ + "' not found."@),
{
    match find_preset(presets, name) {
        Some(i) => {
            if inside_tmux {
                Ok((i, LaunchMode::Switch))
            } else {
                Ok((i, LaunchMode::Attach))
            }
        },
        None => {
            let mut m = "Preset '".to_owned();
            m.append(name.as_str());
            m.append("' not found.");
            Err(m)
        },
    }
}

/// What to do when the backend reports no running session at startup:
/// spawn the configured default preset when it names a loaded preset,
/// otherwise create a plain empty session.
#[derive(Clone, Copy, Debug, PartialEq, Eq, Structural)]
pub enum StartupAction {
    SpawnPreset(usize),
    CreateEmpty,
}

pub fn startup_fallback(presets: &Vec<Preset>, default_preset: &Option<String>) -> (r:
    StartupAction)
    ensures
        (match *default_preset {
            Some(n) => match spec_find_preset(presets@.map_values(|p: Preset| p@), n@) {
                Some(i) => r matches StartupAction::SpawnPreset(j) && j == i,
                None => r is CreateEmpty,
            },
            None => r is CreateEmpty,
        }),
{
    match default_preset {
        Some(n) => match find_preset(presets, n) {
            Some(i) => StartupAction::SpawnPreset(i),
            None => StartupAction::CreateEmpty,
        },
        None => StartupAction::CreateEmpty,
    }
}

} // verus!

use muffin::cli::{
    default_presets_path, find_preset, launch_plan, parse_args, startup_fallback, CliCommand,
    CliError, LaunchMode, StartupAction,
};
use muffin::state::Preset;

fn args(list: &[&str]) -> Vec<String> {
    list.iter().map(|a| a.to_string()).collect()
}

fn presets(names: &[&str]) -> Vec<Preset> {
    names
        .iter()
        .map(|n| Preset { name: n.to_string(), window_count: 1, active: false })
        .collect()
}

#[test]
fn no_arguments_runs_with_the_default_path() {
    let parsed = parse_args(&args(&[]));
    assert_eq!(
        parsed,
        Ok(CliCommand::Run { presets_path: default_presets_path(), launch: None })
    );
    assert_eq!(default_presets_path(), "~/.config/muffin/presets.kdl");
}

#[test]
fn presets_and_launch_flags_take_values() {
    let parsed = parse_args(&args(&["--presets", "/tmp/p.kdl", "-l", "work"]));
    assert_eq!(
        parsed,
        Ok(CliCommand::Run {
            presets_path: "/tmp/p.kdl".to_string(),
            launch: Some("work".to_string()),
        })
    );
}

#[test]
fn later_flags_override_earlier_ones() {
    let parsed = parse_args(&args(&["-p", "a", "-p", "b"]));
    assert_eq!(
        parsed,
        Ok(CliCommand::Run { presets_path: "b".to_string(), launch: None })
    );
}

#[test]
fn help_wins_as_soon_as_it_is_seen() {
    assert_eq!(parse_args(&args(&["--help"])), Ok(CliCommand::Help));
    assert_eq!(parse_args(&args(&["-p", "x", "-h", "bogus"])), Ok(CliCommand::Help));
}

#[test]
fn unknown_argument_is_rejected_with_usage_hint() {
    let parsed = parse_args(&args(&["--bogus"]));
    let error = parsed.expect_err("unknown flag must be rejected");
    assert_eq!(error, CliError::Unknown { arg: "--bogus".to_string() });
    assert_eq!(
        error.message(&"muffin".to_string()),
        "Unknown flag or value '--bogus'. Run 'muffin --help' for usage."
    );
}

#[test]
fn flag_without_value_is_rejected() {
    let missing_path = parse_args(&args(&["--presets"])).expect_err("value required");
    assert_eq!(
        missing_path.message(&"muffin".to_string()),
        "--presets expects a path"
    );
    let missing_name = parse_args(&args(&["-l"])).expect_err("value required");
    assert_eq!(
        missing_name.message(&"muffin".to_string()),
        "-l expects a preset name"
    );
}

#[test]
fn launch_of_a_missing_preset_fails_with_exact_message() {
    let plan = launch_plan(&presets(&["work"]), &"missing".to_string(), false);
    assert_eq!(plan, Err("Preset 'missing' not found.".to_string()));
}

#[test]
fn launch_switches_inside_and_attaches_outside() {
    let list = presets(&["work", "chat"]);
    assert_eq!(
        launch_plan(&list, &"chat".to_string(), true),
        Ok((1, LaunchMode::Switch))
    );
    assert_eq!(
        launch_plan(&list, &"chat".to_string(), false),
        Ok((1, LaunchMode::Attach))
    );
}

#[test]
fn find_preset_returns_the_first_match() {
    let list = presets(&["a", "b", "b"]);
    assert_eq!(find_preset(&list, &"b".to_string()), Some(1));
    assert_eq!(find_preset(&list, &"z".to_string()), None);
    assert_eq!(find_preset(&presets(&[]), &"a".to_string()), None);
}

#[test]
fn startup_falls_back_to_the_configured_default() {
    let list = presets(&["work", "chat"]);
    assert_eq!(
        startup_fallback(&list, &Some("chat".to_string())),
        StartupAction::SpawnPreset(1)
    );
    assert_eq!(
        startup_fallback(&list, &Some("gone".to_string())),
        StartupAction::CreateEmpty
    );
    assert_eq!(startup_fallback(&list, &None), StartupAction::CreateEmpty);
}

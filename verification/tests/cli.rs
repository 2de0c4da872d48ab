use orbok::cli::{
    default_profile_refusal, needs_console, parse_args, portable_refusal, unknown_argument_message,
    CliCommand, DEFAULT_PROFILE_REFUSED_IN_DEBUG_BUILD, PORTABLE_UNAVAILABLE_WHEN_PACKAGED, USAGE,
};

fn parse(args: &[&str]) -> CliCommand {
    let mut all = vec!["orbok".to_string()];
    all.extend(args.iter().map(|arg| arg.to_string()));
    parse_args(&all)
}

#[test]
fn no_arguments_launch_the_gui() {
    assert_eq!(parse(&[]), CliCommand::Gui { portable: false });
}

#[test]
fn the_four_existing_flags_keep_their_meaning() {
    assert_eq!(parse(&["--portable"]), CliCommand::Gui { portable: true });
    assert_eq!(parse(&["--check"]), CliCommand::Check { portable: false });
    assert_eq!(
        parse(&["--portable", "--check"]),
        CliCommand::Check { portable: true }
    );
    assert_eq!(parse(&["--version"]), CliCommand::Version);
    assert_eq!(parse(&["-V"]), CliCommand::Version);
    assert_eq!(parse(&["--check", "--version"]), CliCommand::Version);
}

#[test]
fn help_is_recognised_in_both_spellings() {
    assert_eq!(parse(&["--help"]), CliCommand::Help);
    assert_eq!(parse(&["-h"]), CliCommand::Help);
}

#[test]
fn an_unrecognised_argument_is_named_and_wins() {
    assert_eq!(
        parse(&["--chek"]),
        CliCommand::Unknown("--chek".to_string())
    );
    assert_eq!(
        parse(&["--portable", "--bogus"]),
        CliCommand::Unknown("--bogus".to_string())
    );
    assert_eq!(
        parse(&["--version", "extra"]),
        CliCommand::Unknown("extra".to_string())
    );
}

#[test]
fn only_a_plain_gui_launch_runs_without_a_console() {
    for (args, expected) in [
        (&[][..], false),
        (&["--portable"][..], true),
        (&["--check"][..], true),
        (&["--portable", "--check"][..], true),
        (&["--version"][..], true),
        (&["--help"][..], true),
        (&["--chek"][..], true),
    ] {
        assert_eq!(needs_console(&parse(args)), expected, "{args:?}");
    }
}

#[test]
fn portable_is_refused_only_when_packaged() {
    let refused = Some(PORTABLE_UNAVAILABLE_WHEN_PACKAGED);
    for (args, packaged, expected) in [
        (&["--portable"][..], true, refused),
        (&["--portable", "--check"][..], true, refused),
        (&["--portable"][..], false, None),
        (&["--portable", "--check"][..], false, None),
        (&[][..], true, None),
        (&["--check"][..], true, None),
        (&["--portable", "--version"][..], true, None),
        (&["--portable", "--help"][..], true, None),
        (&["--portable", "--chek"][..], true, None),
    ] {
        assert_eq!(
            portable_refusal(&parse(args), packaged),
            expected,
            "{args:?} packaged={packaged}"
        );
    }
}

#[test]
fn default_profile_is_refused_only_for_a_debug_standard_run_with_no_override_or_allow() {
    let refused = Some(DEFAULT_PROFILE_REFUSED_IN_DEBUG_BUILD);
    for (args, is_debug_build, data_dir_override_set, allow_default_profile, expected) in [
        (&["--check"][..], true, false, false, refused),
        (&[][..], true, false, false, refused),
        (&["--check"][..], true, false, true, None),
        (&["--check"][..], true, true, false, None),
        (&["--portable"][..], true, false, false, None),
        (&["--portable", "--check"][..], true, false, false, None),
        (&["--check"][..], false, false, false, None),
        (&[][..], false, false, false, None),
        (&["--version"][..], true, false, false, None),
        (&["--help"][..], true, false, false, None),
        (&["--chek"][..], true, false, false, None),
    ] {
        assert_eq!(
            default_profile_refusal(
                &parse(args),
                is_debug_build,
                data_dir_override_set,
                allow_default_profile
            ),
            expected,
            "{args:?} is_debug_build={is_debug_build} \
             data_dir_override_set={data_dir_override_set} \
             allow_default_profile={allow_default_profile}"
        );
    }
}

#[test]
fn an_unknown_argument_message_names_it_then_shows_the_usage() {
    let message = unknown_argument_message("--chek");
    assert_eq!(
        message,
        format!("orbok: unrecognized argument '--chek'\n\n{USAGE}")
    );
    assert!(USAGE.starts_with("Usage: orbok [OPTIONS]\n"));
}

#[test]
fn an_unknown_argument_after_help_still_wins() {
    assert_eq!(
        parse(&["--help", "-x", "--version"]),
        CliCommand::Unknown("-x".to_string())
    );
    assert_eq!(parse(&["--help", "--version", "--check"]), CliCommand::Help);
    assert_eq!(
        parse(&["--check", "--portable"]),
        CliCommand::Check { portable: true }
    );
}

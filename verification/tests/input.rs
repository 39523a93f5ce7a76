use ansi_escape_sequences_cli::cli::EscEscapeStyle as EscapeStyle;
use ansi_escape_sequences_cli::input::{analyze_args, parse_args, ArgsError, Parameters};

#[test]
fn test_analyze_args_1() {
    // first arg is on UNIX always the name of the invoked binary
    let args = ["ansi", "red"];
    let (actual_params_1, actual_cmd_1) = analyze_args(&args).expect("Must be valid");
    assert_eq!(actual_params_1.new_line(), false);
    assert_eq!(actual_params_1.no_esc_escape(), false);
    assert_eq!(actual_params_1.escape_style(), EscapeStyle::default());
    assert_eq!(actual_cmd_1, "red");
}

#[test]
#[should_panic]
fn test_analyze_args_2() {
    // first arg is on UNIX always the name of the invoked binary
    let args = ["ansi"];
    let (_actual_params_1, _actual_cmd_1) = analyze_args(&args).unwrap();
}

#[test]
#[should_panic]
fn test_analyze_args_3() {
    // unknown parameter g
    let args = ["ansi", "red", "-g", "-n", "--escape-style", "unicode-rust"];
    let (_actual_params_1, _actual_cmd_1) = analyze_args(&args).expect("Must be valid");
}

#[test]
fn test_analyze_args_4() {
    // first arg is on UNIX always the name of the invoked binary
    let args = ["ansi", "red", "-n", "--escape-style", "unicode-rust"];
    let (actual_params_1, actual_cmd_1) = analyze_args(&args).expect("Must be valid");
    assert_eq!(actual_params_1.new_line(), true);
    assert_eq!(actual_params_1.no_esc_escape(), false);
    assert_eq!(actual_params_1.escape_style(), EscapeStyle::UnicodeRust);
    assert_eq!(actual_cmd_1, "red");
}

#[test]
fn default_parameters_set_nothing() {
    let params = Parameters::default();
    assert_eq!(params.new_line(), false);
    assert_eq!(params.no_esc_escape(), false);
    assert_eq!(params.escape_style(), EscapeStyle::Bash);
    assert_eq!(params, Parameters::default());
}

#[test]
fn short_and_long_options_mean_the_same() {
    let short = ["ansi", "-n", "-e", "-s", "hex", "bold"];
    let long = ["ansi", "--new-line", "--no-escape", "--escape-style", "hex", "bold"];
    let (short_params, short_cmd) = parse_args(&short).unwrap();
    let (long_params, long_cmd) = parse_args(&long).unwrap();
    assert_eq!(short_params, long_params);
    assert_eq!(short_cmd, "bold");
    assert_eq!(long_cmd, "bold");
    assert_eq!(short_params.new_line(), true);
    assert_eq!(short_params.no_esc_escape(), true);
    assert_eq!(short_params.escape_style(), EscapeStyle::Hex);
}

#[test]
fn options_may_follow_the_command() {
    let args = ["ansi", "bg-cyan", "-e"];
    let (params, cmd) = parse_args(&args).unwrap();
    assert_eq!(cmd, "bg-cyan");
    assert_eq!(params.no_esc_escape(), true);
    assert_eq!(params.new_line(), false);
}

#[test]
fn every_escape_style_can_be_chosen() {
    let names = ["bash", "hex", "unicode", "unicode-rust", "direct"];
    let styles = [
        EscapeStyle::Bash,
        EscapeStyle::Hex,
        EscapeStyle::Unicode,
        EscapeStyle::UnicodeRust,
        EscapeStyle::Direct,
    ];
    for (name, style) in names.iter().zip(styles.iter()) {
        let args = ["ansi", "--escape-style", name, "red"];
        let (params, cmd) = parse_args(&args).unwrap();
        assert_eq!(params.escape_style(), *style);
        assert_eq!(cmd, "red");
    }
}

#[test]
fn the_last_escape_style_wins() {
    let args = ["ansi", "-s", "hex", "red", "-s", "unicode"];
    let (params, _cmd) = parse_args(&args).unwrap();
    assert_eq!(params.escape_style(), EscapeStyle::Unicode);
}

#[test]
fn the_value_of_an_option_is_no_option() {
    // what follows `-s` is read as a style, whatever it looks like
    let args = ["ansi", "red", "-s", "-n"];
    assert_eq!(parse_args(&args), Err(ArgsError::UnrecognizedEscapeStyle(3)));
}

#[test]
fn help_takes_the_place_of_the_command() {
    let args = ["ansi", "-h"];
    let (params, cmd) = analyze_args(&args).expect("Must be valid");
    assert_eq!(cmd, "help");
    assert_eq!(params, Parameters::default());

    let args = ["ansi", "--help"];
    let (_params, cmd) = analyze_args(&args).expect("Must be valid");
    assert_eq!(cmd, "help");

    let args = ["ansi", "red", "--help"];
    let (_params, cmd) = analyze_args(&args).expect("Must be valid");
    assert_eq!(cmd, "help");
}

#[test]
fn a_command_after_help_is_one_too_many() {
    let args = ["ansi", "-h", "red"];
    assert_eq!(parse_args(&args), Err(ArgsError::TooManyCommands(2)));
    assert!(analyze_args(&args).is_none());
}

#[test]
fn no_command_is_missing_input() {
    let none: [&str; 0] = [];
    assert_eq!(parse_args(&none), Err(ArgsError::MissingInput));
    assert_eq!(parse_args(&["ansi"]), Err(ArgsError::MissingInput));
    assert_eq!(parse_args(&["ansi", "-n"]), Err(ArgsError::MissingInput));
    assert_eq!(parse_args(&["ansi", "-s", "hex"]), Err(ArgsError::MissingInput));
    assert!(analyze_args(&["ansi"]).is_none());
}

#[test]
fn an_option_without_its_value_is_turned_down() {
    assert_eq!(
        parse_args(&["ansi", "red", "-s"]),
        Err(ArgsError::MissingOptionArgument(2))
    );
    assert_eq!(
        parse_args(&["ansi", "--escape-style"]),
        Err(ArgsError::MissingOptionArgument(1))
    );
    assert!(analyze_args(&["ansi", "red", "-s"]).is_none());
}

#[test]
fn an_unknown_escape_style_is_turned_down() {
    assert_eq!(
        parse_args(&["ansi", "red", "-s", "octal"]),
        Err(ArgsError::UnrecognizedEscapeStyle(3))
    );
    // names are matched exactly
    assert_eq!(
        parse_args(&["ansi", "-s", "Hex", "red"]),
        Err(ArgsError::UnrecognizedEscapeStyle(2))
    );
    assert!(analyze_args(&["ansi", "red", "-s", "octal"]).is_none());
}

#[test]
fn an_unknown_option_is_turned_down() {
    assert_eq!(
        parse_args(&["ansi", "red", "-g", "-n", "--escape-style", "unicode-rust"]),
        Err(ArgsError::UnrecognizedOption(2))
    );
    assert_eq!(parse_args(&["ansi", "-"]), Err(ArgsError::UnrecognizedOption(1)));
    assert_eq!(parse_args(&["ansi", "--"]), Err(ArgsError::UnrecognizedOption(1)));
    assert_eq!(parse_args(&["ansi", "-N", "red"]), Err(ArgsError::UnrecognizedOption(1)));
}

#[test]
fn a_second_command_is_turned_down() {
    assert_eq!(
        parse_args(&["ansi", "bold", "underline"]),
        Err(ArgsError::TooManyCommands(2))
    );
    assert!(analyze_args(&["ansi", "bold", "underline"]).is_none());
}

#[test]
fn the_first_error_is_reported() {
    assert_eq!(
        parse_args(&["ansi", "-x", "red", "blue", "-s"]),
        Err(ArgsError::UnrecognizedOption(1))
    );
    assert_eq!(
        parse_args(&["ansi", "red", "blue", "-x"]),
        Err(ArgsError::TooManyCommands(2))
    );
}

#[test]
fn the_program_name_is_passed_over() {
    let (params, cmd) = parse_args(&["-n", "red"]).unwrap();
    assert_eq!(cmd, "red");
    assert_eq!(params.new_line(), false);
}

#[test]
fn an_empty_argument_is_a_command() {
    let (_params, cmd) = parse_args(&["ansi", ""]).unwrap();
    assert_eq!(cmd, "");
}

#[test]
fn an_unknown_word_is_still_a_command() {
    // the command is looked up later, by its name
    let (_params, cmd) = parse_args(&["ansi", "neonpink"]).unwrap();
    assert_eq!(cmd, "neonpink");
}

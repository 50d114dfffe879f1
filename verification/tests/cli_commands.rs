use gateway::practice::cli_commands::{
    analyze, execute, format_help, need_of, parse_args, Analysis, CliError, Command, Config,
    Facts, Need,
};

#[test]
fn cli_commands_test_from_args_custom_missing_argument() {
    let args = vec!["only_one".to_string()];
    let err = Config::from_args_custom(args).expect_err("expected error");
    assert!(matches!(err, CliError::MissingArgument));
}

#[test]
fn parse_count_command() {
    let args: Vec<String> = vec!["mycli".into(), "count".into(), "test_input.txt".into()];
    let cmd = parse_args(&args).unwrap();
    assert_eq!(
        cmd,
        Command::Count {
            filename: "test_input.txt".into()
        }
    );
}

#[test]
fn parse_count_command_fails() {
    let args: Vec<String> = vec!["mycli".into(), "what".into(), "test_input.txt".into()];
    let cmd = parse_args(&args);
    assert!(cmd.is_err());
}

#[test]
fn parse_echo_command() {
    let args: Vec<String> = vec!["mycli".into(), "echo".into(), "what is this?".into()];
    let cmd = parse_args(&args).unwrap();
    assert_eq!(
        cmd,
        Command::Echo {
            text: "what is this?".into()
        }
    );
}

#[test]
fn parse_yaml_command() {
    let args: Vec<String> = vec!["mycli".into(), "statsyaml".into(), "test.txt".into()];
    let cmd = parse_args(&args).unwrap();
    assert_eq!(
        cmd,
        Command::StatsYAML {
            filename: "test.txt".into()
        }
    );
}

#[test]
fn parse_size_command() {
    let args: Vec<String> = vec!["mycli".into(), "size".into(), "test.txt".into()];
    let cmd = parse_args(&args).unwrap();
    assert_eq!(
        cmd,
        Command::FileSize {
            filename: "test.txt".into()
        }
    );
}

#[test]
fn parse_help_command() {
    let args: Vec<String> = vec!["mycli".into(), "--help".into()];
    let config = Config::from_args_custom(args).unwrap();
    assert_eq!(config.command, Command::Help);
}

#[test]
fn parse_help_command_fails() {
    let args: Vec<String> = vec!["mycli".into(), "--help".into(), "something".into()];
    let err = parse_args(&args).unwrap_err();
    assert!(matches!(err, CliError::MissingArgument));
}

#[test]
fn parse_command_fails() {
    let args: Vec<String> = vec!["mycli".into()];
    let err = Config::from_args_custom(args);
    assert!(err.is_err())
}

#[test]
fn parse_command_fails_count_no_arg() {
    let args: Vec<String> = vec!["mycli".into(), "count".into()];
    let err = Config::from_args_custom(args).unwrap_err();
    assert!(matches!(err, CliError::MissingArgument));
}

#[test]
fn parse_json_command_in_upper_case() {
    let args: Vec<String> = vec!["mycli".into(), "StatsJSON".into(), "data.txt".into()];
    let cmd = parse_args(&args).unwrap();
    assert_eq!(
        cmd,
        Command::StatsJSON {
            filename: "data.txt".into()
        }
    );
}

#[test]
fn parse_unknown_command_is_invalid() {
    let args: Vec<String> = vec!["mycli".into(), "what".into(), "test_input.txt".into()];
    assert!(matches!(parse_args(&args), Err(CliError::InvalidCommand)));
}

#[test]
fn commands_name_what_they_need() {
    assert_eq!(
        need_of(&Command::Count { filename: "a".into() }),
        Need::Analysis { filename: "a".into() }
    );
    assert_eq!(
        need_of(&Command::FileSize { filename: "b".into() }),
        Need::Size { filename: "b".into() }
    );
    assert_eq!(need_of(&Command::Echo { text: "c".into() }), Need::Nothing);
    assert_eq!(need_of(&Command::Help), Need::Nothing);
}

#[test]
fn execute_words_each_answer() {
    let facts = Facts::Analysis(Analysis { lines: 2, words: 4, chars: 18 });
    assert_eq!(
        execute(Command::Count { filename: "f".into() }, Ok(facts)).unwrap(),
        "lines: 2, words: 4, chars: 18"
    );
    assert_eq!(
        execute(Command::StatsJSON { filename: "f".into() }, Ok(facts)).unwrap(),
        r#"{"lines": 2, "words": 4, "chars": 18}"#
    );
    assert_eq!(
        execute(Command::StatsYAML { filename: "f".into() }, Ok(facts)).unwrap(),
        "items:\n  lines: 2\n  words: 4\n  chars: 18"
    );
    assert_eq!(
        execute(Command::FileSize { filename: "f".into() }, Ok(Facts::Size(4))).unwrap(),
        "Size of file is: 4 Byte"
    );
    assert_eq!(
        execute(Command::Echo { text: "hi there".into() }, Ok(Facts::Nothing)).unwrap(),
        "Echo: hi there"
    );
    assert_eq!(execute(Command::Help, Ok(Facts::Nothing)).unwrap(), format_help());
}

#[test]
fn execute_hands_on_a_failure() {
    let failure = CliError::Io(std::io::Error::new(std::io::ErrorKind::NotFound, "gone"));
    let out = execute(Command::Count { filename: "nopath.txt".into() }, Err(failure));
    assert!(matches!(out, Err(CliError::Io(_))));
}

#[test]
fn help_lists_every_command() {
    let help = format_help();
    assert!(help.starts_with("Commands\n\t\n        count <file>\tprints line/word/char counts\n\t"));
    assert!(help.ends_with("echo  <text>\tprints the text\n\t"));
    assert_eq!(help.lines().count(), 12);
}

#[test]
fn analyze_of_two_lines() {
    let result = analyze("Hello world\nLine 2");
    assert_eq!(result, Analysis { lines: 2, words: 4, chars: 18 });
    assert_eq!(analyze("").lines, 0);
}

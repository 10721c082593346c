use neoeco::command::{
    execute_command, Command, CommandBehavior, CommandBuilder, CommandKind, Effect,
    MatchDiagnostic, MatchResult, ResolveError, SyntaxError,
};
use neoeco::exit::ExitCommand;
use neoeco::help::HelpCommand;
use neoeco::registry::Registry;
use neoeco::regression::RegressionCommand;
use neoeco::store::CommandStore;

const INDEX: &str =
    r#"{"help":"help","exit":"exit","regression":"regression","reg":"regression"}"#;

fn help_cmd() -> Command {
    CommandBuilder::new("help".to_string())
        .add_pattern("help x".to_string())
        .add_document("help command document".to_string())
        .build()
}

fn exit_cmd() -> Command {
    CommandBuilder::new("exit".to_string())
        .add_pattern("exit".to_string())
        .add_document("exit command document".to_string())
        .build()
}

fn reg_cmd() -> Command {
    CommandBuilder::new("regression".to_string())
        .add_alias(Some("reg".to_string()))
        .add_pattern("reg y, x1 x2 ...".to_string())
        .add_document("regression command document".to_string())
        .build()
}

fn store() -> CommandStore {
    CommandStore::from_parts(vec![help_cmd(), exit_cmd(), reg_cmd()], INDEX).unwrap()
}

fn registry() -> Registry {
    let mut registry = Registry::new();
    registry.register(CommandKind::Help(HelpCommand { command: help_cmd() }));
    registry.register(CommandKind::Exit(ExitCommand { command: exit_cmd() }));
    registry.register(CommandKind::Regression(RegressionCommand { command: reg_cmd() }));
    registry
}

#[test]
fn builder_sets_all_fields() {
    let cmd = reg_cmd();
    assert_eq!(cmd.name(), "regression");
    assert_eq!(cmd.alias().as_deref(), Some("reg"));
    assert_eq!(cmd.pattern(), "reg y, x1 x2 ...");
    assert_eq!(cmd.document(), "regression command document");
}

#[test]
fn resolve_formal_name_returns_registered_descriptor() {
    let store = store();
    let resolved = Command::resolve("help something", &store).unwrap();
    assert_eq!(resolved, help_cmd());
    let resolved = Command::resolve("regression y, x1", &store).unwrap();
    assert_eq!(resolved, reg_cmd());
}

#[test]
fn resolve_alias_agrees_with_formal_name() {
    let store = store();
    let by_alias = Command::resolve("reg y, x1 x2", &store).unwrap();
    let by_name = Command::resolve("regression y, x1 x2", &store).unwrap();
    assert_eq!(by_alias, by_name);
    assert_eq!(by_alias, reg_cmd());
}

#[test]
fn resolve_empty_line_fails_with_no_command_given() {
    let store = store();
    assert!(matches!(
        Command::resolve("", &store),
        Err(ResolveError::NoCommandGiven)
    ));
    assert!(matches!(
        Command::resolve("   ", &store),
        Err(ResolveError::NoCommandGiven)
    ));
}

#[test]
fn resolve_unknown_token_fails_with_unknown_command() {
    let store = store();
    match Command::resolve("bogus123", &store) {
        Err(ResolveError::UnknownCommand(token)) => assert_eq!(token, "bogus123"),
        other => panic!("expected UnknownCommand, got {:?}", other),
    }
}

#[test]
fn resolve_takes_candidate_from_before_first_comma() {
    let store = store();
    let resolved = Command::resolve("reg y, x1 x2", &store).unwrap();
    assert_eq!(resolved.name(), "regression");
}

#[test]
fn regression_match_extracts_variables() {
    let reg = RegressionCommand { command: reg_cmd() };
    let pattern = "reg y, x1 x2 ...".to_string();
    match reg.check_pattern(&pattern, "reg y, x1 x2") {
        MatchResult::Parsed(vars) => {
            assert_eq!(vars.explained(), "y");
            assert_eq!(vars.explaining(), &vec!["x1".to_string(), "x2".to_string()]);
            assert!(vars.other().is_empty());
        },
        other => panic!("expected Parsed, got {:?}", other),
    }
}

#[test]
fn regression_match_without_comma_is_a_syntax_error() {
    let reg = RegressionCommand { command: reg_cmd() };
    let pattern = "reg y, x1 x2 ...".to_string();
    assert!(matches!(
        reg.check_pattern(&pattern, "reg y x1 x2"),
        MatchResult::Failed(SyntaxError::CommaNotThird)
    ));
}

#[test]
fn regression_match_without_explaining_variables_fails() {
    let reg = RegressionCommand { command: reg_cmd() };
    let pattern = "reg y, x1 x2 ...".to_string();
    assert!(matches!(
        reg.check_pattern(&pattern, "reg y,"),
        MatchResult::Failed(SyntaxError::NoExplainingVariables)
    ));
}

#[test]
fn regression_match_rejects_reserved_characters_in_names() {
    let reg = RegressionCommand { command: reg_cmd() };
    let pattern = "reg y, x1 x2 ...".to_string();
    assert!(matches!(
        reg.check_pattern(&pattern, "reg y;bad, x1"),
        MatchResult::Failed(SyntaxError::BadExplainedVariable)
    ));
    assert!(matches!(
        reg.check_pattern(&pattern, "reg y, x\u{ff0c}1"),
        MatchResult::Failed(SyntaxError::BadExplainingVariable)
    ));
}

#[test]
fn regression_match_with_too_few_tokens_fails() {
    let reg = RegressionCommand { command: reg_cmd() };
    let pattern = "reg y, x1 x2 ...".to_string();
    assert!(matches!(
        reg.check_pattern(&pattern, "reg"),
        MatchResult::Failed(SyntaxError::MissingArguments)
    ));
    assert!(matches!(
        reg.check_pattern(&pattern, "reg y"),
        MatchResult::Failed(SyntaxError::MissingArguments)
    ));
}

#[test]
fn regression_match_keeps_explaining_order() {
    let reg = RegressionCommand { command: reg_cmd() };
    let pattern = "reg y, x1 x2 ...".to_string();
    match reg.check_pattern(&pattern, "reg y, b a c") {
        MatchResult::Parsed(vars) => {
            assert_eq!(
                vars.explaining(),
                &vec!["b".to_string(), "a".to_string(), "c".to_string()]
            );
        },
        other => panic!("expected Parsed, got {:?}", other),
    }
}

#[test]
fn full_width_comma_is_no_separator() {
    let reg = RegressionCommand { command: reg_cmd() };
    let pattern = "reg y, x1 x2 ...".to_string();
    assert!(matches!(
        reg.check_pattern(&pattern, "reg y\u{ff0c} x1 x2"),
        MatchResult::Failed(SyntaxError::CommaNotThird)
    ));
}

#[test]
fn help_match_alone_yields_no_variables() {
    let help = HelpCommand { command: help_cmd() };
    let pattern = "help x".to_string();
    assert!(matches!(
        help.check_pattern(&pattern, "help"),
        MatchResult::NoVariables
    ));
}

#[test]
fn help_match_with_one_argument_captures_it() {
    let help = HelpCommand { command: help_cmd() };
    let pattern = "help x".to_string();
    match help.check_pattern(&pattern, "help reg") {
        MatchResult::Parsed(vars) => {
            assert_eq!(vars.explained(), "reg");
            assert!(vars.explaining().is_empty());
            assert!(vars.other().is_empty());
        },
        other => panic!("expected Parsed, got {:?}", other),
    }
}

#[test]
fn help_match_with_extra_tokens_is_a_syntax_error() {
    let help = HelpCommand { command: help_cmd() };
    let pattern = "help x".to_string();
    assert!(matches!(
        help.check_pattern(&pattern, "help reg extra"),
        MatchResult::Failed(SyntaxError::TooManyArguments)
    ));
}

#[test]
fn exit_match_never_blocks_and_execute_terminates() {
    let exit = ExitCommand { command: exit_cmd() };
    let pattern = "exit".to_string();
    assert!(matches!(
        exit.check_pattern(&pattern, "exit"),
        MatchResult::NoVariables
    ));
    assert!(matches!(
        exit.check_pattern(&pattern, "exit right now please"),
        MatchResult::ExtraIgnored
    ));
    let store = store();
    assert!(matches!(exit.execute(&store, None), Effect::Terminate));
    let vars = match exit.check_pattern(&pattern, "exit") {
        MatchResult::Parsed(v) => Some(v),
        _ => None,
    };
    assert!(matches!(exit.execute(&store, vars), Effect::Terminate));
}

#[test]
fn matching_twice_yields_equal_variables() {
    let reg = RegressionCommand { command: reg_cmd() };
    let pattern = "reg y, x1 x2 ...".to_string();
    let first = reg.check_pattern(&pattern, "reg y, x1 x2");
    let second = reg.check_pattern(&pattern, "reg y, x1 x2");
    match (first, second) {
        (MatchResult::Parsed(a), MatchResult::Parsed(b)) => {
            assert_eq!(a.explained(), b.explained());
            assert_eq!(a.explaining(), b.explaining());
            assert_eq!(a.other(), b.other());
        },
        other => panic!("expected two Parsed results, got {:?}", other),
    }
}

#[test]
fn built_descriptor_reads_back_unchanged() {
    let built = reg_cmd();
    let store = store();
    let read_back = Command::deserialize_command("regression", &store).unwrap();
    assert_eq!(read_back, built);
    let via_alias = Command::deserialize_command("reg", &store).unwrap();
    assert_eq!(via_alias, built);
}

#[test]
fn store_rejects_duplicate_names_and_bad_index() {
    assert!(CommandStore::from_parts(vec![help_cmd(), help_cmd()], INDEX).is_none());
    assert!(CommandStore::from_parts(vec![help_cmd()], "this is not json").is_none());
}

#[test]
fn store_from_parsed_index_resolves_like_from_text() {
    let index: serde_json::Value = serde_json::from_str(INDEX).unwrap();
    let store =
        CommandStore::from_index_value(vec![help_cmd(), exit_cmd(), reg_cmd()], index).unwrap();
    assert_eq!(Command::resolve("reg y, x1", &store).unwrap(), reg_cmd());
    let bad_index: serde_json::Value = serde_json::from_str(INDEX).unwrap();
    assert!(CommandStore::from_index_value(vec![help_cmd(), help_cmd()], bad_index).is_none());
}

#[test]
fn help_execute_prints_target_document() {
    let store = store();
    let help = HelpCommand { command: help_cmd() };
    let pattern = "help x".to_string();
    let vars = match help.check_pattern(&pattern, "help reg") {
        MatchResult::Parsed(v) => Some(v),
        _ => None,
    };
    match help.execute(&store, vars) {
        Effect::PrintDocument(doc) => assert_eq!(doc, "regression command document"),
        other => panic!("expected PrintDocument, got {:?}", other),
    }
}

#[test]
fn help_execute_without_argument_prints_own_document() {
    let store = store();
    let help = HelpCommand { command: help_cmd() };
    match help.execute(&store, None) {
        Effect::PrintDocument(doc) => assert_eq!(doc, "help command document"),
        other => panic!("expected PrintDocument, got {:?}", other),
    }
}

#[test]
fn help_execute_reports_missing_target() {
    let store = store();
    let help = HelpCommand { command: help_cmd() };
    let pattern = "help x".to_string();
    let vars = match help.check_pattern(&pattern, "help nothere") {
        MatchResult::Parsed(v) => Some(v),
        _ => None,
    };
    match help.execute(&store, vars) {
        Effect::MissingTarget(name) => assert_eq!(name, "nothere"),
        other => panic!("expected MissingTarget, got {:?}", other),
    }
}

#[test]
fn explain_from_dispatches_to_the_right_behavior() {
    let store = store();
    let registry = registry();
    assert!(registry.covers_store(&store));
    let parser = Command::explain_from(&"help reg".to_string(), &store, &registry).unwrap();
    assert!(matches!(parser.command(), CommandKind::Help(_)));
    let vars = parser.variables().as_ref().unwrap();
    assert_eq!(vars.explained(), "reg");
    assert!(parser.diagnostic().is_none());
    let effect = execute_command(Some(parser), &store);
    match effect {
        Effect::PrintDocument(doc) => assert_eq!(doc, "regression command document"),
        other => panic!("expected PrintDocument, got {:?}", other),
    }
}

#[test]
fn explain_from_keeps_syntax_failures_dispatchable() {
    let store = store();
    let registry = registry();
    let parser = Command::explain_from(&"reg y x1".to_string(), &store, &registry).unwrap();
    assert!(matches!(parser.command(), CommandKind::Regression(_)));
    assert!(parser.variables().is_none());
    assert!(matches!(
        parser.diagnostic(),
        Some(MatchDiagnostic::Syntax(SyntaxError::CommaNotThird))
    ));
    assert!(matches!(
        execute_command(Some(parser), &store),
        Effect::Nothing
    ));
}

#[test]
fn explain_from_flags_ignored_extra_parameters() {
    let store = store();
    let registry = registry();
    let parser = Command::explain_from(&"exit please".to_string(), &store, &registry).unwrap();
    assert!(matches!(parser.command(), CommandKind::Exit(_)));
    assert!(matches!(
        parser.diagnostic(),
        Some(MatchDiagnostic::ExtraParameters)
    ));
    assert!(matches!(
        execute_command(Some(parser), &store),
        Effect::Terminate
    ));
}

#[test]
fn explain_from_rejects_unknown_commands() {
    let store = store();
    let registry = registry();
    match Command::explain_from(&"bogus123 y, x".to_string(), &store, &registry) {
        Err(ResolveError::UnknownCommand(token)) => assert_eq!(token, "bogus123"),
        other => panic!("expected UnknownCommand, got {:?}", other.map(|_| ())),
    }
}

#[test]
fn execute_command_without_parser_does_nothing() {
    let store = store();
    assert!(matches!(execute_command(None, &store), Effect::Nothing));
}

#[test]
fn regression_execute_inspects_parsed_variables() {
    let store = store();
    let reg = RegressionCommand { command: reg_cmd() };
    let pattern = "reg y, x1 x2 ...".to_string();
    let vars = match reg.check_pattern(&pattern, "reg y, x1") {
        MatchResult::Parsed(v) => Some(v),
        _ => None,
    };
    match reg.execute(&store, vars) {
        Effect::Inspect(v) => assert_eq!(v.explained(), "y"),
        other => panic!("expected Inspect, got {:?}", other),
    }
    assert!(matches!(reg.execute(&store, None), Effect::Nothing));
}

#[test]
fn alias_pointing_nowhere_is_an_unknown_command() {
    // The index maps `reg` to `regression`, but no such descriptor is stored.
    let store = CommandStore::from_parts(vec![help_cmd(), exit_cmd()], INDEX).unwrap();
    match Command::resolve("reg y, x1", &store) {
        Err(ResolveError::UnknownCommand(token)) => assert_eq!(token, "reg"),
        other => panic!("expected UnknownCommand, got {:?}", other),
    }
}

#[test]
fn a_name_the_index_does_not_know_is_unknown() {
    // Existence is checked against the alias/name index alone: a stored
    // descriptor whose name the index lacks does not resolve.
    let store = CommandStore::from_parts(
        vec![help_cmd(), exit_cmd(), reg_cmd()],
        r#"{"exit":"exit","regression":"regression","reg":"regression"}"#,
    )
    .unwrap();
    match Command::resolve("help", &store) {
        Err(ResolveError::UnknownCommand(token)) => assert_eq!(token, "help"),
        other => panic!("expected UnknownCommand, got {:?}", other),
    }
}

#[test]
fn check_variable_name_rejects_delimiters() {
    assert!(Command::check_variable_name("x1"));
    assert!(!Command::check_variable_name("x,1"));
    assert!(!Command::check_variable_name("x;1"));
    assert!(!Command::check_variable_name("x\u{ff0c}1"));
    assert!(!Command::check_variable_name("x\u{ff1b}1"));
    assert!(Command::check_variable_name(""));
}

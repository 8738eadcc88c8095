use qol_store::cli::{
    handle_commands, Cli, Commands, Step, EXIT_NOT_IMPLEMENTED, NOT_IMPLEMENTED, NO_COMMAND,
};

#[derive(Debug, PartialEq)]
enum Git {
    Status,
    Commit(String),
}

#[test]
fn no_command_says_so_and_ends_normally() {
    let cli: Cli<Git> = Cli { commands: None };
    match handle_commands(&cli) {
        Step::Leave { message, code } => {
            assert_eq!(message, "No command provided.");
            assert_eq!(message, NO_COMMAND);
            assert_eq!(code, 0);
        }
        other => panic!("unexpected step {other:?}"),
    }
}

#[test]
fn git_subcommand_is_handed_on_unchanged() {
    let cli = Cli { commands: Some(Commands::Git { com: Git::Commit("fix".to_string()) }) };
    match handle_commands(&cli) {
        Step::RunGit { com } => assert_eq!(com, &Git::Commit("fix".to_string())),
        other => panic!("unexpected step {other:?}"),
    }
    let cli = Cli { commands: Some(Commands::Git { com: Git::Status }) };
    assert!(matches!(handle_commands(&cli), Step::RunGit { com: Git::Status }));
}

#[test]
fn web_search_ends_with_an_error() {
    let cli: Cli<Git> = Cli { commands: Some(Commands::WebSearch {}) };
    match handle_commands(&cli) {
        Step::Leave { message, code } => {
            assert_eq!(message, NOT_IMPLEMENTED);
            assert!(!message.is_empty());
            assert_eq!(code, EXIT_NOT_IMPLEMENTED);
            assert_ne!(code, 0);
        }
        other => panic!("unexpected step {other:?}"),
    }
}

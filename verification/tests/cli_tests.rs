use croak::cli::{Cli, CliCommand, Task, TransportKind};

#[test]
fn subcommands_come_first() {
    let edit = Cli { command: Some(CliCommand::Edit), target_args: vec!["x".to_string()] };
    assert!(matches!(edit.task(), Task::EditConfig));
    let conf = Cli { command: Some(CliCommand::Configure { transport: TransportKind::Http }), target_args: vec![] };
    assert!(matches!(conf.task(), Task::Configure(TransportKind::Http)));
    let run = Cli { command: None, target_args: vec!["make".to_string(), "all".to_string()] };
    match run.task() {
        Task::Run(args) => assert_eq!(args, vec!["make".to_string(), "all".to_string()]),
        _ => panic!("expected a run"),
    }
}

use croak::config::Config;
use croak::process::{notification, notifications, resolve_hostname, run, ChildWatch, RunError, WaitStep, POLL_INTERVAL_MS};
use croak::transport::http::{Http, Method};
use croak::transport::Transport;

fn configured() -> Config {
    let mut c = Config::default();
    c.transports.push(Transport::Http(Http::new("n".to_string(), Method::POST, "u".to_string(), None, None, None)));
    c
}

#[test]
fn run_needs_a_command() {
    match run(&vec![], &configured()) {
        Err(e) => {
            assert!(matches!(e, RunError::NoTarget));
            assert_eq!(e.message(), "No target command provided. Nothing to run.");
        },
        Ok(_) => panic!("ran nothing"),
    }
}

#[test]
fn run_needs_a_transport() {
    match run(&vec!["ls".to_string()], &Config::default()) {
        Err(e) => {
            assert!(matches!(e, RunError::NoTransports));
            assert_eq!(e.message(), "No transports configured. Notifications cannot be sent.");
        },
        Ok(_) => panic!("ran without transports"),
    }
}

#[test]
fn run_splits_program_and_arguments() {
    let plan = run(&vec!["ls".to_string(), "-l".to_string(), "/tmp".to_string()], &configured()).ok().unwrap();
    assert_eq!(plan.program, "ls");
    assert_eq!(plan.args, vec!["-l".to_string(), "/tmp".to_string()]);
    let plan = run(&vec!["true".to_string()], &configured()).ok().unwrap();
    assert!(plan.args.is_empty());
}

#[test]
fn hostname_prefers_override_then_machine() {
    assert_eq!(resolve_hostname(Some("cfg".to_string()), Some("sys".to_string())), "cfg");
    assert_eq!(resolve_hostname(None, Some("sys".to_string())), "sys");
    assert_eq!(resolve_hostname(None, None), "croak");
}

#[test]
fn notification_texts() {
    let n = notification("box", "make", "exit status: 0");
    assert_eq!(n.title, "[box] Command 'make' exited with status: exit status: 0");
    assert_eq!(n.body, "The command 'make' was executed and exited with status: exit status: 0.");
}

#[test]
fn waiting_steps() {
    let mut w = ChildWatch::new("make".to_string());
    assert!(matches!(w.wait_step(false, false), WaitStep::Sleep(ms) if ms == POLL_INTERVAL_MS));
    match w.wait_step(false, true) {
        WaitStep::Fail(e) => assert_eq!(e.message(), "Interrupted while running command 'make'"),
        _ => panic!("interrupt ignored"),
    }
    assert!(matches!(w.wait_step(true, true), WaitStep::Finished));
    assert!(matches!(w.wait_step(true, false), WaitStep::Fail(RunError::AlreadyReaped)));
    assert!(!w.release());
    assert_eq!(RunError::AlreadyReaped.message(), "Child process was already reaped");
}

#[test]
fn released_watch_was_held() {
    let mut w = ChildWatch::new("sleep".to_string());
    assert!(w.release());
    assert!(matches!(w.wait_step(true, false), WaitStep::Fail(RunError::AlreadyReaped)));
}

#[test]
fn one_notification_per_transport() {
    let mut cfg = configured();
    cfg.transports.push(Transport::Http(Http::new("m".to_string(), Method::PUT, "v".to_string(), None, None, None)));
    let ns = notifications(&cfg, Some("sys".to_string()), "make", "exit status: 2");
    assert_eq!(ns.len(), 2);
    for n in &ns {
        assert_eq!(n.title, "[sys] Command 'make' exited with status: exit status: 2");
        assert_eq!(n.body, "The command 'make' was executed and exited with status: exit status: 2.");
    }
    cfg.settings.override_hostname = Some("cfg".to_string());
    let ns = notifications(&cfg, None, "make", "s");
    assert!(ns[1].title.starts_with("[cfg] "));
    cfg.settings.override_hostname = None;
    let ns = notifications(&cfg, None, "make", "s");
    assert!(ns[0].title.starts_with("[croak] "));
    assert!(notifications(&Config::default(), None, "x", "s").is_empty());
}

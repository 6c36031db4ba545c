//! Running the watched command: what is run, how the wait for it goes, and
//! the notification that reports its exit.
use vstd::prelude::*;

use crate::config::Config;
use crate::utils::PACKAGE_NAME;

verus! {

/// Why a run failed.
pub enum RunError {
    /// No command was given.
    NoTarget,
    /// No transport is configured, so no notification could be sent.
    NoTransports,
    /// The program was interrupted while the command ran; this is the command.
    Interrupted(String),
    /// The command was waited for after it had already been reaped.
    AlreadyReaped,
}

impl RunError {
    /// The text that describes the error.
    pub fn message(&self) -> (r: String)
        ensures
            self is NoTarget ==> r@ == "No target command provided. Nothing to run."@,
            self is NoTransports ==> r@ == "No transports configured. Notifications cannot be sent."@,
            self matches RunError::Interrupted(c) ==> r@ == "Interrupted while running command '"@
                + c@ + "'"@,
            self is AlreadyReaped ==> r@ == "Child process was already reaped"@,
    {
        match self {
            RunError::NoTarget => "No target command provided. Nothing to run.".to_owned(),
            RunError::NoTransports => "No transports configured. Notifications cannot be sent.".to_owned(),
            RunError::Interrupted(c) => {
                let mut s = "Interrupted while running command '".to_owned();
                s.append(c.as_str());
                s.append("'");
                s
            },
            RunError::AlreadyReaped => "Child process was already reaped".to_owned(),
        }
    }
}

/// The program to run and its arguments.
pub struct RunPlan {
    pub program: String,
    pub args: Vec<String>,
}

/// What to run for the command line `target` under the configuration `cfg`:
/// its first word is the program, the others are its arguments. A run needs
/// a command and at least one transport.
pub fn run(target: &Vec<String>, cfg: &Config) -> (r: Result<RunPlan, RunError>)
    ensures
        target@.len() == 0 ==> r matches Err(RunError::NoTarget),
        target@.len() > 0 && cfg.transports@.len() == 0 ==> r matches Err(RunError::NoTransports),
        target@.len() > 0 && cfg.transports@.len() > 0 ==> (r matches Ok(p) && p.program@
            == target@[0]@ && p.args@.map_values(|a: String| a@) == target@.drop_first().map_values(
            |a: String| a@,
        )),
{
    if target.len() == 0 {
        return Err(RunError::NoTarget);
    }
    if cfg.transports.len() == 0 {
        return Err(RunError::NoTransports);
    }
    let program = target[0].clone();
    let mut args: Vec<String> = Vec::new();
    let mut i: usize = 1;
    while i < target.len()
        invariant
            1 <= i <= target@.len(),
            args@.map_values(|a: String| a@) =~= target@.subrange(1, i as int).map_values(
                |a: String| a@,
            ),
        decreases target@.len() - i,
    {
        let ghost before = args@.map_values(|a: String| a@);
        args.push(target[i].clone());
        assert(args@.map_values(|a: String| a@) =~= before.push(target@[i as int]@));
        assert(target@.subrange(1, i + 1) =~= target@.subrange(1, i as int).push(target@[i as int]));
        i = i + 1;
    }
    assert(target@.subrange(1, target@.len() as int) =~= target@.drop_first());
    Ok(RunPlan { program, args })
}

/// The host name put in notifications: the configured override, else the
/// machine's host name when it could be read, else the program's name.
pub open spec fn hostname_spec(configured: Option<String>, system: Option<String>) -> Seq<char> {
    match configured {
        Some(h) => h@,
        None => match system {
            Some(h) => h@,
            None => PACKAGE_NAME@,
        },
    }
}

/// The host name put in notifications.
pub fn resolve_hostname(configured: Option<String>, system: Option<String>) -> (r: String)
    ensures
        r@ == hostname_spec(configured, system),
{
    match configured {
        Some(h) => h,
        None => match system {
            Some(h) => h,
            None => PACKAGE_NAME.to_owned(),
        },
    }
}

/// The notification that reports the exit of a command.
pub struct Notification {
    pub title: String,
    pub body: String,
}

/// The title of the notification for `command` on `host`, which exited with
/// `status`.
pub open spec fn title_text(host: Seq<char>, command: Seq<char>, status: Seq<char>) -> Seq<char> {
    "["@ + host + "] Command '"@ + command + "' exited with status: "@ + status
}

/// The body of the notification for `command`, which exited with `status`.
pub open spec fn body_text(command: Seq<char>, status: Seq<char>) -> Seq<char> {
    "The command '"@ + command + "' was executed and exited with status: "@ + status + "."@
}

/// The notification for `command` on `host`, which exited with `status`
/// (the exit status as the platform writes it).
pub fn notification(host: &str, command: &str, status: &str) -> (r: Notification)
    ensures
        r.title@ == title_text(host@, command@, status@),
        r.body@ == body_text(command@, status@),
{
    let mut title = "[".to_owned();
    title.append(host);
    title.append("] Command '");
    title.append(command);
    title.append("' exited with status: ");
    title.append(status);
    let mut body = "The command '".to_owned();
    body.append(command);
    body.append("' was executed and exited with status: ");
    body.append(status);
    body.append(".");
    Notification { title, body }
}

/// How long to sleep between two looks at the running command.
pub const POLL_INTERVAL_MS: u64 = 100;

/// The next step of waiting for the command.
pub enum WaitStep {
    /// The command has exited.
    Finished,
    /// The wait fails.
    Fail(RunError),
    /// Sleep this many milliseconds, then look again.
    Sleep(u64),
}

/// The kind of the next step of waiting for a command.
#[derive(Debug, PartialEq, Eq, Structural)]
pub enum StepKind {
    Finished,
    Reaped,
    Interrupted,
    Sleep,
}

/// The next step of waiting, from whether the command is still held (not yet
/// reaped), whether it has exited, and whether the program was interrupted.
pub open spec fn step_kind(held: bool, exited: bool, interrupted: bool) -> StepKind {
    if !held {
        StepKind::Reaped
    } else if exited {
        StepKind::Finished
    } else if interrupted {
        StepKind::Interrupted
    } else {
        StepKind::Sleep
    }
}

/// Whether the command is still held after that step: once it has exited it
/// is reaped and let go.
pub open spec fn held_after(held: bool, exited: bool, interrupted: bool) -> bool {
    held && !exited
}

/// The watch over a running command: its name, and whether it is still held,
/// that is, not yet reaped.
pub struct ChildWatch {
    held: bool,
    command: String,
}

impl ChildWatch {
    /// Whether the command is still held.
    pub closed spec fn is_held(&self) -> bool {
        self.held
    }

    /// The command's name.
    pub closed spec fn command_name(&self) -> Seq<char> {
        self.command@
    }

    /// A watch over the command `command`, which has just been started.
    pub fn new(command: String) -> (r: ChildWatch)
        ensures
            r.is_held(),
            r.command_name() == command@,
    {
        ChildWatch { held: true, command }
    }

    /// The next step of waiting for the command, from whether it has exited
    /// and whether the program was interrupted. A command that has exited is
    /// reaped and no longer held.
    pub fn wait_step(&mut self, exited: bool, interrupted: bool) -> (r: WaitStep)
        ensures
            final(self).is_held() == held_after(old(self).is_held(), exited, interrupted),
            final(self).command_name() == old(self).command_name(),
            step_kind(old(self).is_held(), exited, interrupted) == StepKind::Reaped ==> r matches WaitStep::Fail(
                RunError::AlreadyReaped,
            ),
            step_kind(old(self).is_held(), exited, interrupted) == StepKind::Finished ==> r is Finished,
            step_kind(old(self).is_held(), exited, interrupted) == StepKind::Interrupted ==> (r matches WaitStep::Fail(
                RunError::Interrupted(c),
            ) && c@ == old(self).command_name()),
            step_kind(old(self).is_held(), exited, interrupted) == StepKind::Sleep ==> r matches WaitStep::Sleep(
                POLL_INTERVAL_MS,
            ),
            old(self).is_held() && exited ==> r is Finished && !final(self).is_held(),
            old(self).is_held() && !exited ==> final(self).is_held(),
            !old(self).is_held() ==> !final(self).is_held(),
            !old(self).is_held() ==> r matches WaitStep::Fail(RunError::AlreadyReaped),
    {
        if !self.held {
            WaitStep::Fail(RunError::AlreadyReaped)
        } else if exited {
            self.held = false;
            WaitStep::Finished
        } else if interrupted {
            WaitStep::Fail(RunError::Interrupted(self.command.clone()))
        } else {
            WaitStep::Sleep(POLL_INTERVAL_MS)
        }
    }

    /// Lets the command go when the watch ends: says whether it was still
    /// held, and so must be stopped and reaped by the caller.
    pub fn release(&mut self) -> (r: bool)
        ensures
            r == old(self).is_held(),
            !final(self).is_held(),
            final(self).command_name() == old(self).command_name(),
    {
        let was = self.held;
        self.held = false;
        was
    }
}

/// A held command that has exited is reported finished and let go, whether
/// or not the program was interrupted (the exit is looked at first); one that
/// has not exited stays held, and is reported interrupted or waited for; one
/// no longer held is reported reaped.
pub proof fn law_exit_is_finished(interrupted: bool, exited: bool)
    ensures
        step_kind(true, true, interrupted) == StepKind::Finished,
        !held_after(true, true, interrupted),
        held_after(true, false, interrupted),
        step_kind(true, false, true) == StepKind::Interrupted,
        step_kind(true, false, false) == StepKind::Sleep,
        step_kind(false, exited, interrupted) == StepKind::Reaped,
        !held_after(false, exited, interrupted),
{
}

/// A command is reaped at most once: after the step that finds it exited,
/// every later step reports that it was already reaped.
pub proof fn law_child_reaped_at_most_once(
    held: bool,
    exited: bool,
    interrupted: bool,
    exited_later: bool,
    interrupted_later: bool,
)
    ensures
        step_kind(held, exited, interrupted) == StepKind::Finished ==> step_kind(
            held_after(held, exited, interrupted),
            exited_later,
            interrupted_later,
        ) == StepKind::Reaped,
{
}

/// The notifications that report the exit of `command` with `status`: one for
/// each configured transport, in the order of the transports, each naming the
/// host that `hostname_spec` chooses from the configured override and the
/// machine's host name. Each is sent on its own: a failed send does not stop
/// the others.
pub fn notifications(cfg: &Config, system_hostname: Option<String>, command: &str, status: &str) -> (r:
    Vec<Notification>)
    ensures
        r@.len() == cfg.transports@.len(),
        forall|k: int|
            0 <= k < r@.len() ==> (#[trigger] r@[k]).title@ == title_text(
                hostname_spec(cfg.settings.override_hostname, system_hostname),
                command@,
                status@,
            ) && r@[k].body@ == body_text(command@, status@),
{
    let configured = match &cfg.settings.override_hostname {
        Some(h) => Some(h.clone()),
        None => None,
    };
    let host = resolve_hostname(configured, system_hostname);
    let mut r: Vec<Notification> = Vec::new();
    let mut i: usize = 0;
    while i < cfg.transports.len()
        invariant
            i <= cfg.transports@.len(),
            r@.len() == i,
            host@ == hostname_spec(cfg.settings.override_hostname, system_hostname),
            forall|k: int|
                0 <= k < i ==> (#[trigger] r@[k]).title@ == title_text(host@, command@, status@)
                    && r@[k].body@ == body_text(command@, status@),
        decreases cfg.transports@.len() - i,
    {
        r.push(notification(host.as_str(), command, status));
        i = i + 1;
    }
    r
}

} // verus!

//! The command line: which mode an invocation runs in, and what is printed
//! once a management command (`--install`, `--uninstall`, `--start`,
//! `--stop`) has run.
use vstd::prelude::*;
use vstd::string::*;
use crate::install::Machine;
use crate::paths::Platform;
use crate::service::kill_others_spec;
use crate::steps::{must, must_step, push_step, steps_view, Action, ActionView, Plan, SetupError, Step, StepView};
use crate::templates::append_str;
use crate::text::{owned, str_eq, views};
use crate::urls::{looks_like_url, url_like};

verus! {

/// The management commands shared by every application.
#[derive(Clone, Copy, PartialEq, Eq, Structural, Debug)]
pub enum CommonCommand {
    Config,
    Install,
    Uninstall,
    Start,
    Stop,
}

pub open spec fn common_command_spec(cmd: Seq<char>) -> Option<CommonCommand> {
    if cmd == "--config"@ {
        Some(CommonCommand::Config)
    } else if cmd == "--install"@ {
        Some(CommonCommand::Install)
    } else if cmd == "--uninstall"@ {
        Some(CommonCommand::Uninstall)
    } else if cmd == "--start"@ {
        Some(CommonCommand::Start)
    } else if cmd == "--stop"@ {
        Some(CommonCommand::Stop)
    } else {
        None
    }
}

/// The management command that `cmd` names, if any.
pub fn common_command(cmd: &str) -> (r: Option<CommonCommand>)
    ensures
        r == common_command_spec(cmd@),
{
    if str_eq(cmd, "--config") {
        Some(CommonCommand::Config)
    } else if str_eq(cmd, "--install") {
        Some(CommonCommand::Install)
    } else if str_eq(cmd, "--uninstall") {
        Some(CommonCommand::Uninstall)
    } else if str_eq(cmd, "--start") {
        Some(CommonCommand::Start)
    } else if str_eq(cmd, "--stop") {
        Some(CommonCommand::Stop)
    } else {
        None
    }
}

/// How a program starts: with its control panel, attached to the console
/// of the shell that started it (Windows), or as a console program.
#[derive(Clone, Copy, PartialEq, Eq, Structural, Debug)]
pub enum StartMode {
    Gui,
    AttachConsole,
    Console,
}

pub open spec fn start_mode_spec(p: Platform, n_args: nat, double_clicked: bool) -> StartMode {
    match p {
        Platform::Windows => if n_args < 2 {
            StartMode::Gui
        } else {
            StartMode::AttachConsole
        },
        Platform::MacOs | Platform::Linux => if n_args < 2 && double_clicked {
            StartMode::Gui
        } else {
            StartMode::Console
        },
        Platform::Other => StartMode::Console,
    }
}

/// What the program learns of how it was started: the number of processes
/// attached to its console and whether it could attach to its parent's
/// console (Windows), whether its standard output is a terminal, and
/// whether a graphical display is available (`DISPLAY` or
/// `WAYLAND_DISPLAY` set).
#[derive(Clone, Copy, PartialEq, Eq, Structural, Debug)]
pub struct LaunchProbe {
    pub console_processes: u32,
    pub parent_console_attachable: bool,
    pub stdout_is_terminal: bool,
    pub has_display: bool,
}

pub open spec fn double_clicked_spec(p: Platform, probe: LaunchProbe) -> bool {
    match p {
        Platform::Windows => if probe.console_processes > 0 {
            probe.console_processes == 1
        } else {
            !probe.parent_console_attachable
        },
        Platform::MacOs => !probe.stdout_is_terminal,
        Platform::Linux => probe.has_display && !probe.stdout_is_terminal,
        Platform::Other => false,
    }
}

/// Whether the program was started from the desktop rather than from a
/// shell: on Windows it is alone on its console (or has none and no parent
/// console to attach to); on macOS its output is no terminal; on Linux, in
/// addition, a display is available.
pub fn is_double_clicked(p: Platform, probe: &LaunchProbe) -> (r: bool)
    ensures
        r == double_clicked_spec(p, *probe),
{
    match p {
        Platform::Windows => if probe.console_processes > 0 {
            probe.console_processes == 1
        } else {
            !probe.parent_console_attachable
        },
        Platform::MacOs => !probe.stdout_is_terminal,
        Platform::Linux => probe.has_display && !probe.stdout_is_terminal,
        Platform::Other => false,
    }
}

/// The control panel opens for a start without arguments (on macOS and
/// Linux only where the program was double-clicked); on Windows a start
/// with arguments attaches to the console.
pub fn setup_gui_or_console(p: Platform, n_args: usize, double_clicked: bool) -> (r: StartMode)
    ensures
        r == start_mode_spec(p, n_args as nat, double_clicked),
{
    match p {
        Platform::Windows => if n_args < 2 {
            StartMode::Gui
        } else {
            StartMode::AttachConsole
        },
        Platform::MacOs | Platform::Linux => if n_args < 2 && double_clicked {
            StartMode::Gui
        } else {
            StartMode::Console
        },
        Platform::Other => StartMode::Console,
    }
}

/// What an invocation does.
#[derive(Debug, Clone, PartialEq, Eq)]
pub enum CliAction {
    /// Print the status.
    Status,
    /// Run a management command.
    Common(CommonCommand),
    /// Run the daemon.
    Daemon,
    /// Hand the URL to the running daemon.
    ForwardUrl(String),
}

pub enum CliActionView {
    Status,
    Common(CommonCommand),
    Daemon,
    ForwardUrl(Seq<char>),
}

impl View for CliAction {
    type V = CliActionView;

    open spec fn view(&self) -> CliActionView {
        match self {
            CliAction::Status => CliActionView::Status,
            CliAction::Common(c) => CliActionView::Common(*c),
            CliAction::Daemon => CliActionView::Daemon,
            CliAction::ForwardUrl(u) => CliActionView::ForwardUrl(u@),
        }
    }
}

/// Each management flag names its own command, and no other text names a
/// command: `--install` installs, `--uninstall` uninstalls, `--start`
/// starts, `--stop` stops and `--config` shows the configuration.
pub proof fn lemma_each_flag_names_its_command(cmd: Seq<char>)
    ensures
        (common_command_spec(cmd) == Some(CommonCommand::Install)) == (cmd == "--install"@),
        (common_command_spec(cmd) == Some(CommonCommand::Uninstall)) == (cmd == "--uninstall"@),
        (common_command_spec(cmd) == Some(CommonCommand::Start)) == (cmd == "--start"@),
        (common_command_spec(cmd) == Some(CommonCommand::Stop)) == (cmd == "--stop"@),
        (common_command_spec(cmd) == Some(CommonCommand::Config)) == (cmd == "--config"@),
{
    reveal_strlit("--install");
    reveal_strlit("--uninstall");
    reveal_strlit("--start");
    reveal_strlit("--stop");
    reveal_strlit("--config");
    assert("--install"@.len() == 9);
    assert("--uninstall"@.len() == 11);
    assert("--start"@.len() == 7);
    assert("--stop"@.len() == 6);
    assert("--config"@.len() == 8);
}

/// The action for the arguments `args` (the program's name first): the
/// status without an argument; else the management command, the daemon
/// for `--daemon`, the URL (where the program `forwards_urls`) for an
/// argument that looks like one, and the status for anything else.
pub open spec fn cli_action_spec(args: Seq<Seq<char>>, forwards_urls: bool) -> CliActionView {
    if args.len() < 2 {
        CliActionView::Status
    } else {
        let a = args[1];
        match common_command_spec(a) {
            Some(c) => CliActionView::Common(c),
            None => if a == "--daemon"@ {
                CliActionView::Daemon
            } else if forwards_urls && url_like(a) {
                CliActionView::ForwardUrl(a)
            } else {
                CliActionView::Status
            },
        }
    }
}

/// A management flag as the first argument runs that command, whatever
/// the program: `--uninstall` uninstalls, and so on.
pub proof fn lemma_flag_argument_runs_its_command(args: Seq<Seq<char>>, forwards_urls: bool, c: CommonCommand)
    requires
        args.len() >= 2,
    ensures
        (cli_action_spec(args, forwards_urls) == CliActionView::Common(c)) == (args[1] == match c {
            CommonCommand::Install => "--install"@,
            CommonCommand::Uninstall => "--uninstall"@,
            CommonCommand::Start => "--start"@,
            CommonCommand::Stop => "--stop"@,
            CommonCommand::Config => "--config"@,
        }),
{
    lemma_each_flag_names_its_command(args[1]);
}

/// `--daemon` as the first argument runs the daemon, and nothing else
/// does.
pub proof fn lemma_daemon_flag_runs_the_daemon(args: Seq<Seq<char>>, forwards_urls: bool)
    ensures
        (cli_action_spec(args, forwards_urls) == CliActionView::Daemon) == (args.len() >= 2 && args[1]
            == "--daemon"@),
{
    reveal_strlit("--daemon");
    reveal_strlit("--config");
    reveal_strlit("--install");
    reveal_strlit("--uninstall");
    reveal_strlit("--start");
    reveal_strlit("--stop");
    assert("--daemon"@.len() == 8);
    assert("--daemon"@[2] != "--config"@[2]);
    assert("--daemon"@ != "--config"@);
    assert("--daemon"@ != "--install"@);
    assert("--daemon"@ != "--uninstall"@);
    assert("--daemon"@ != "--start"@);
    assert("--daemon"@ != "--stop"@);
    assert(common_command_spec("--daemon"@) is None);
}

pub fn cli_action(args: &Vec<String>, forwards_urls: bool) -> (r: CliAction)
    ensures
        r@ == cli_action_spec(views(args@), forwards_urls),
{
    if args.len() < 2 {
        return CliAction::Status;
    }
    let a = args[1].as_str();
    assert(a@ == views(args@)[1]);
    match common_command(a) {
        Some(c) => CliAction::Common(c),
        None => if str_eq(a, "--daemon") {
            CliAction::Daemon
        } else if forwards_urls && looks_like_url(a) {
            CliAction::ForwardUrl(owned(a))
        } else {
            CliAction::Status
        },
    }
}

/// `Client` for the client, `Host` for anything else.
pub open spec fn app_label_spec(app: Seq<char>) -> Seq<char> {
    if app == "client"@ {
        "Client"@
    } else {
        "Host"@
    }
}

pub fn app_label(app_type: &str) -> (r: &'static str)
    ensures
        r@ == app_label_spec(app_type@),
{
    if str_eq(app_type, "client") {
        "Client"
    } else {
        "Host"
    }
}

/// What is printed once `cmd` has run for `app`, given its error message
/// (`None` on success); `--config` prints nothing here.
pub open spec fn command_report_spec(cmd: CommonCommand, app: Seq<char>, error: Option<Seq<char>>) -> Option<Seq<char>> {
    let label = app_label_spec(app);
    match cmd {
        CommonCommand::Config => None,
        CommonCommand::Install => Some(
            match error {
                None => label + " installation completed successfully!"@,
                Some(e) => "Installation failed: "@ + e,
            },
        ),
        CommonCommand::Uninstall => Some(
            match error {
                None => label + " uninstallation completed successfully!"@,
                Some(e) => "Uninstallation failed: "@ + e,
            },
        ),
        CommonCommand::Start => Some(
            match error {
                None => label + " daemon started successfully!"@,
                Some(e) => "Failed to start "@ + app + " daemon: "@ + e,
            },
        ),
        CommonCommand::Stop => Some(
            match error {
                None => label + " daemon stopped successfully!"@,
                Some(e) => "Failed to stop "@ + app + " daemon: "@ + e,
            },
        ),
    }
}

pub fn command_report(cmd: CommonCommand, app_type: &str, error: &Option<String>) -> (r: Option<String>)
    ensures
        crate::config::opt_view(r) == command_report_spec(
            cmd,
            app_type@,
            crate::config::opt_view(*error),
        ),
{
    let label = app_label(app_type);
    match cmd {
        CommonCommand::Config => None,
        CommonCommand::Install => match error {
            None => {
                let mut s = owned(label);
                append_str(&mut s, " installation completed successfully!");
                Some(s)
            },
            Some(e) => {
                let mut s = owned("Installation failed: ");
                append_str(&mut s, e.as_str());
                Some(s)
            },
        },
        CommonCommand::Uninstall => match error {
            None => {
                let mut s = owned(label);
                append_str(&mut s, " uninstallation completed successfully!");
                Some(s)
            },
            Some(e) => {
                let mut s = owned("Uninstallation failed: ");
                append_str(&mut s, e.as_str());
                Some(s)
            },
        },
        CommonCommand::Start => match error {
            None => {
                let mut s = owned(label);
                append_str(&mut s, " daemon started successfully!");
                Some(s)
            },
            Some(e) => {
                let mut s = owned("Failed to start ");
                append_str(&mut s, app_type);
                append_str(&mut s, " daemon: ");
                append_str(&mut s, e.as_str());
                Some(s)
            },
        },
        CommonCommand::Stop => match error {
            None => {
                let mut s = owned(label);
                append_str(&mut s, " daemon stopped successfully!");
                Some(s)
            },
            Some(e) => {
                let mut s = owned("Failed to stop ");
                append_str(&mut s, app_type);
                append_str(&mut s, " daemon: ");
                append_str(&mut s, e.as_str());
                Some(s)
            },
        },
    }
}

/// Starting the daemon: the running executable is started with `--daemon`.
pub open spec fn start_daemon_spec(m: Machine) -> (Seq<StepView>, Result<(), SetupError>) {
    match m.current_exe {
        None => (Seq::empty(), Err(SetupError::NoExecutablePath)),
        Some(e) => (seq![must(ActionView::Spawn(e@, seq!["--daemon"@]))], Ok(())),
    }
}

/// Starts the daemon of the running program.
pub fn start_daemon(m: &Machine) -> (r: Plan)
    ensures
        crate::steps::plan_view(r) == start_daemon_spec(*m),
{
    let mut steps: Vec<Step> = Vec::new();
    match &m.current_exe {
        None => {
            assert(steps_view(steps@) =~= Seq::<StepView>::empty());
            Plan { steps, outcome: Err(SetupError::NoExecutablePath) }
        },
        Some(e) => {
            let args = vec![owned("--daemon")];
            assert(views(args@) =~= seq!["--daemon"@]);
            push_step(&mut steps, must_step(Action::Spawn { program: e.clone(), args }));
            assert(steps_view(steps@) =~= seq![must(ActionView::Spawn(e@, seq!["--daemon"@]))]);
            Plan { steps, outcome: Ok(()) }
        },
    }
}

/// Stops every running daemon of `app_type` other than this process.
pub fn stop_daemon(app_type: &str, m: &Machine) -> (r: Plan)
    ensures
        crate::steps::plan_view(r) == (kill_others_spec(m.platform, app_type@, m.pid), Ok::<(), SetupError>(())),
{
    let steps = crate::service::kill_other_daemon_processes(app_type, m.platform, m.pid);
    Plan { steps, outcome: Ok(()) }
}

} // verus!

//! Installing the daemon as a service of the init system.

use vstd::prelude::*;
use vstd::string::*;
use crate::actuator::{command_views, texts, CommandLine, CommandLineView};
use crate::text::{nth_token, token};

verus! {

/// The unit file that ships with the program.
pub const SERVICE_TEMPLATE: &'static str = "assets/service/hayaku-ike.service";

/// Where the init system looks for the unit file.
pub const SERVICE_UNIT_PATH: &'static str = "/etc/systemd/system/hayaku-ike.service";

/// The tool that talks to the init system.
pub const SERVICE_MANAGER: &'static str = "systemctl";

/// The name of the unit.
pub const SERVICE_NAME: &'static str = "hayaku-ike.service";

/// One step of an installation.
#[derive(Debug, Clone)]
pub enum InstallStep {
    /// Copy a file; the installation ends where the copy fails.
    Copy { from: String, to: String },
    /// Run a command, whatever its result.
    Run(CommandLine),
}

/// Mathematical value of an [`InstallStep`].
pub enum InstallStepView {
    Copy { from: Seq<char>, to: Seq<char> },
    Run(CommandLineView),
}

impl View for InstallStep {
    type V = InstallStepView;

    open spec fn view(&self) -> InstallStepView {
        match self {
            InstallStep::Copy { from, to } => InstallStepView::Copy { from: from@, to: to@ },
            InstallStep::Run(command) => InstallStepView::Run(command@),
        }
    }
}

/// The values of a list of steps.
pub open spec fn step_views(steps: Seq<InstallStep>) -> Seq<InstallStepView> {
    steps.map_values(|s: InstallStep| s@)
}

/// The steps that install the service: none where the unit file that ships
/// with the program is missing; else the copy of the unit file, the reload
/// of the init system, and the start of the unit now and at every boot.
pub open spec fn install_plan(template_present: bool) -> Seq<InstallStepView> {
    if template_present {
        seq![
            InstallStepView::Copy { from: SERVICE_TEMPLATE@, to: SERVICE_UNIT_PATH@ },
            InstallStepView::Run(
                CommandLineView { program: SERVICE_MANAGER@, args: seq!["daemon-reload"@] },
            ),
            InstallStepView::Run(
                CommandLineView {
                    program: SERVICE_MANAGER@,
                    args: seq!["enable"@, "--now"@, SERVICE_NAME@],
                },
            ),
        ]
    } else {
        Seq::empty()
    }
}

/// Plans the installation of the service, given whether the unit file that
/// ships with the program is present.
pub fn install_service(template_present: bool) -> (steps: Vec<InstallStep>)
    ensures
        step_views(steps@) == install_plan(template_present),
{
    let mut steps: Vec<InstallStep> = Vec::new();
    if template_present {
        steps.push(
            InstallStep::Copy {
                from: String::from_str(SERVICE_TEMPLATE),
                to: String::from_str(SERVICE_UNIT_PATH),
            },
        );
        let mut reload: Vec<String> = Vec::new();
        reload.push(String::from_str("daemon-reload"));
        assert(texts(reload@) =~= seq!["daemon-reload"@]);
        steps.push(
            InstallStep::Run(
                CommandLine { program: String::from_str(SERVICE_MANAGER), args: reload },
            ),
        );
        let mut enable: Vec<String> = Vec::new();
        enable.push(String::from_str("enable"));
        enable.push(String::from_str("--now"));
        enable.push(String::from_str(SERVICE_NAME));
        assert(texts(enable@) =~= seq!["enable"@, "--now"@, SERVICE_NAME@]);
        steps.push(
            InstallStep::Run(
                CommandLine { program: String::from_str(SERVICE_MANAGER), args: enable },
            ),
        );
    }
    assert(step_views(steps@) =~= install_plan(template_present));
    steps
}

/// The tool that builds the program.
pub const BUILD_TOOL: &'static str = "cargo";

/// The tool that runs a command as the superuser.
pub const SUDO: &'static str = "sudo";

/// The tool that copies a file.
pub const COPY_TOOL: &'static str = "cp";

/// The command that builds the program for release.
pub open spec fn build_command() -> CommandLineView {
    CommandLineView { program: BUILD_TOOL@, args: seq!["build"@, "--release"@] }
}

/// Writes the command that builds the program for release.
pub fn build_hayaku_ike() -> (command: CommandLine)
    ensures
        command@ == build_command(),
{
    let mut args: Vec<String> = Vec::new();
    args.push(String::from_str("build"));
    args.push(String::from_str("--release"));
    assert(texts(args@) =~= seq!["build"@, "--release"@]);
    CommandLine { program: String::from_str(BUILD_TOOL), args }
}

/// The command as it is run: behind `sudo` where it needs the superuser and
/// the user is another, as it stands otherwise.
pub open spec fn elevated(command: CommandLineView, use_sudo: bool, is_root: bool) -> CommandLineView {
    if use_sudo && !is_root {
        CommandLineView { program: SUDO@, args: seq![command.program] + command.args }
    } else {
        command
    }
}

/// Puts a command behind `sudo` where it needs the superuser and the user is
/// another.
pub fn elevate(command: CommandLine, use_sudo: bool, is_root: bool) -> (run: CommandLine)
    ensures
        run@ == elevated(command@, use_sudo, is_root),
{
    if use_sudo && !is_root {
        let CommandLine { program, args } = command;
        let ghost words = texts(args@);
        let ghost first = program@;
        let mut all: Vec<String> = Vec::new();
        all.push(program);
        let mut i: usize = 0;
        while i < args.len()
            invariant
                i <= args.len(),
                words == texts(args@),
                texts(all@) =~= seq![first] + words.take(i as int),
            decreases args.len() - i,
        {
            let ghost before = all@;
            all.push(args[i].clone());
            proof {
                assert(texts(all@) =~= texts(before).push(args@[i as int]@));
                assert(words.take(i + 1) =~= words.take(i as int).push(words[i as int]));
            }
            i += 1;
        }
        proof {
            assert(words.take(i as int) =~= words);
        }
        CommandLine { program: String::from_str(SUDO), args: all }
    } else {
        command
    }
}

/// What becomes of the setup of the service.
#[derive(Debug, Clone)]
pub enum ServiceSetup {
    /// The user is not the superuser: nothing is set up.
    SkippedNotRoot,
    /// The unit file that ships with the program is missing.
    TemplateMissing,
    /// The commands to run; each of them has to succeed.
    Commands(Vec<CommandLine>),
}

/// Mathematical value of a [`ServiceSetup`].
pub enum ServiceSetupView {
    SkippedNotRoot,
    TemplateMissing,
    Commands(Seq<CommandLineView>),
}

impl View for ServiceSetup {
    type V = ServiceSetupView;

    open spec fn view(&self) -> ServiceSetupView {
        match self {
            ServiceSetup::SkippedNotRoot => ServiceSetupView::SkippedNotRoot,
            ServiceSetup::TemplateMissing => ServiceSetupView::TemplateMissing,
            ServiceSetup::Commands(commands) => ServiceSetupView::Commands(
                command_views(commands@),
            ),
        }
    }
}

/// The commands that set the service up: the copy of the unit file, the
/// reload of the init system, the start of the unit now and at every boot.
pub open spec fn setup_commands() -> Seq<CommandLineView> {
    seq![
        CommandLineView { program: COPY_TOOL@, args: seq![SERVICE_TEMPLATE@, SERVICE_UNIT_PATH@] },
        CommandLineView { program: SERVICE_MANAGER@, args: seq!["daemon-reload"@] },
        CommandLineView {
            program: SERVICE_MANAGER@,
            args: seq!["enable"@, "--now"@, SERVICE_NAME@],
        },
    ]
}

/// What becomes of the setup of the service: the privilege is looked at
/// first, then the unit file.
pub open spec fn service_setup(is_root: bool, template_present: bool) -> ServiceSetupView {
    if !is_root {
        ServiceSetupView::SkippedNotRoot
    } else if !template_present {
        ServiceSetupView::TemplateMissing
    } else {
        ServiceSetupView::Commands(setup_commands())
    }
}

/// Builds a command from its program and up to three arguments.
pub(crate) fn command_of(program: &str, a: &str, b: Option<&str>, c: Option<&str>) -> (command: CommandLine)
    ensures
        command@.program == program@,
        command@.args == seq![a@] + (match b {
            Some(b) => seq![b@],
            None => Seq::empty(),
        }) + (match c {
            Some(c) => seq![c@],
            None => Seq::empty(),
        }),
{
    let mut args: Vec<String> = Vec::new();
    args.push(String::from_str(a));
    if let Some(b) = b {
        args.push(String::from_str(b));
    }
    if let Some(c) = c {
        args.push(String::from_str(c));
    }
    let command = CommandLine { program: String::from_str(program), args };
    assert(command@.args =~= seq![a@] + (match b {
        Some(b) => seq![b@],
        None => Seq::empty(),
    }) + (match c {
        Some(c) => seq![c@],
        None => Seq::empty(),
    }));
    command
}

/// Plans the setup of the service by the installer.
pub fn setup_systemd_service(is_root: bool, template_present: bool) -> (setup: ServiceSetup)
    ensures
        setup@ == service_setup(is_root, template_present),
{
    if !is_root {
        ServiceSetup::SkippedNotRoot
    } else if !template_present {
        ServiceSetup::TemplateMissing
    } else {
        let mut commands: Vec<CommandLine> = Vec::new();
        commands.push(command_of(COPY_TOOL, SERVICE_TEMPLATE, Some(SERVICE_UNIT_PATH), None));
        commands.push(command_of(SERVICE_MANAGER, "daemon-reload", None, None));
        commands.push(command_of(SERVICE_MANAGER, "enable", Some("--now"), Some(SERVICE_NAME)));
        proof {
            let views = command_views(commands@);
            assert(views.len() == 3);
            assert(views[0].args =~= setup_commands()[0].args);
            assert(views[1].args =~= setup_commands()[1].args);
            assert(views[2].args =~= setup_commands()[2].args);
            assert(views =~= setup_commands());
        }
        ServiceSetup::Commands(commands)
    }
}

/// The program that the build leaves behind.
pub const RELEASE_BINARY: &'static str = "target/release/hayaku-ike";

/// The argument that makes the program run its control loop.
pub const DAEMON_ARGUMENT: &'static str = "daemon";

/// The commands by which the launcher registers the service: none for a
/// user other than the superuser; else the copy of the unit file, unless it
/// is installed, then the reload of the init system and the start of the
/// unit.
pub open spec fn launch_commands(is_root: bool, unit_installed: bool) -> Seq<CommandLineView> {
    if !is_root {
        Seq::empty()
    } else if unit_installed {
        setup_commands().subrange(1, 3)
    } else {
        setup_commands()
    }
}

/// Plans how the launcher registers the service.
pub fn plan_launch(is_root: bool, unit_installed: bool) -> (commands: Vec<CommandLine>)
    ensures
        command_views(commands@) == launch_commands(is_root, unit_installed),
{
    let mut commands: Vec<CommandLine> = Vec::new();
    if is_root {
        if !unit_installed {
            commands.push(command_of(COPY_TOOL, SERVICE_TEMPLATE, Some(SERVICE_UNIT_PATH), None));
        }
        commands.push(command_of(SERVICE_MANAGER, "daemon-reload", None, None));
        commands.push(command_of(SERVICE_MANAGER, "enable", Some("--now"), Some(SERVICE_NAME)));
        proof {
            let views = command_views(commands@);
            let wanted = launch_commands(is_root, unit_installed);
            assert(views.len() == wanted.len());
            assert forall|i: int| 0 <= i < views.len() implies views[i] == wanted[i] by {
                assert(views[i].args =~= wanted[i].args);
            }
        }
    }
    assert(command_views(commands@) =~= launch_commands(is_root, unit_installed));
    commands
}

/// Tells whether the launch ends where this command fails: it does where
/// the copy of the unit file fails, and goes on past any other command.
pub fn ends_launch_on_failure(command: &CommandLine) -> (fatal: bool)
    ensures
        fatal == (command@.program == COPY_TOOL@),
{
    let copy = String::from_str(COPY_TOOL);
    command.program == copy
}

/// What follows an attempt.
#[derive(Debug, Clone, Copy, PartialEq, Eq, Structural)]
pub enum RetryStep {
    /// The attempt succeeded.
    Done,
    /// The attempt failed: wait, then try again.
    WaitAndRetry,
    /// The last attempt failed.
    GiveUp,
}

/// What follows the attempt of index `attempt` (counted from zero) of an
/// operation that is tried again up to `retries` times.
pub open spec fn retry_step(succeeded: bool, attempt: nat, retries: nat) -> RetryStep {
    if succeeded {
        RetryStep::Done
    } else if attempt < retries {
        RetryStep::WaitAndRetry
    } else {
        RetryStep::GiveUp
    }
}

/// Decides what follows an attempt.
pub fn retry(succeeded: bool, attempt: u8, retries: u8) -> (step: RetryStep)
    ensures
        step == retry_step(succeeded, attempt as nat, retries as nat),
{
    if succeeded {
        RetryStep::Done
    } else if attempt < retries {
        RetryStep::WaitAndRetry
    } else {
        RetryStep::GiveUp
    }
}

/// Whether the answer to the installer's question asks for the full
/// installation: the answer is "1", white space around it aside.
pub open spec fn wants_full_install(answer: Seq<u8>) -> bool {
    token(answer, 0) == Some(seq![49u8]) && token(answer, 1) is None
}

/// Reads the answer to the installer's question.
pub fn prompt_user(answer: &[u8]) -> (full: bool)
    ensures
        full == wants_full_install(answer@),
{
    let one = match nth_token(answer, 0) {
        Some(t) => t.len() == 1 && t[0] == 49,
        None => false,
    };
    let alone = nth_token(answer, 1).is_none();
    proof {
        if let Some(t) = token(answer@, 0) {
            if t.len() == 1 && t[0] == 49 {
                assert(t =~= seq![49u8]);
            }
        }
    }
    one && alone
}

} // verus!

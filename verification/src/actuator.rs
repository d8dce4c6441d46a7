//! The tuning actuator: which actions a cycle runs, and as which commands.
//!
//! Nothing is executed here.  A cycle is planned as a list of actions, each
//! action expands to the commands that carry it out, and the caller runs
//! them one by one; a command that fails is reported and the next one runs.

use vstd::prelude::*;
use vstd::string::*;
use crate::decimal::{append_decimal, decimal_digits, decimal_string};
use crate::snapshot::SystemSnapshot;

verus! {

/// One performance action.  An action carries no state from cycle to cycle.
#[derive(Debug, Clone, Copy, PartialEq, Eq, Structural)]
pub enum TuningAction {
    /// Put every core under the "performance" governor.
    SetGovernorPerformance,
    /// Put every core under the "powersave" governor.
    SetGovernorPowersave,
    /// Set the kernel's swappiness.
    SetSwappiness(u32),
    /// Turn swap off and on again, which brings swapped pages back in.
    RefreshSwap,
    /// Drop the page cache.
    DropPageCache,
}

/// What a cycle does while the booster is disabled (busy, paused, stopping).
#[derive(Debug, Clone, Copy, PartialEq, Eq, Structural)]
pub enum DisabledPolicy {
    /// Leave the machine as the last enabled cycle set it.
    Skip,
    /// Put the cores back under the "powersave" governor.
    RevertGovernor,
}

/// Which of the controls the machine offers.
#[derive(Debug, Clone, Copy, PartialEq, Eq, Structural)]
pub struct Capabilities {
    /// The governor tool ([`GOVERNOR_TOOL`]) is installed.
    pub governor: bool,
    /// The tool that sets kernel parameters ([`SYSCTL_TOOL`]) is installed.
    pub swappiness: bool,
    /// Both swap tools ([`SWAPOFF_TOOL`], [`SWAPON_TOOL`]) are installed.
    pub swap_cycle: bool,
    /// The cache control file ([`DROP_CACHES_PATH`]) exists.
    pub drop_caches: bool,
}

/// A program and its arguments.
#[derive(Debug, Clone)]
pub struct CommandLine {
    pub program: String,
    pub args: Vec<String>,
}

/// Mathematical value of a [`CommandLine`].
pub struct CommandLineView {
    pub program: Seq<char>,
    pub args: Seq<Seq<char>>,
}

/// The texts of a list of strings.
pub open spec fn texts(list: Seq<String>) -> Seq<Seq<char>> {
    list.map_values(|s: String| s@)
}

impl View for CommandLine {
    type V = CommandLineView;

    open spec fn view(&self) -> CommandLineView {
        CommandLineView { program: self.program@, args: texts(self.args@) }
    }
}

/// The values of a list of command lines.
pub open spec fn command_views(list: Seq<CommandLine>) -> Seq<CommandLineView> {
    list.map_values(|c: CommandLine| c@)
}

/// Swappiness that a boost sets.
pub const BOOST_SWAPPINESS: u32 = 10;

pub const GOVERNOR_TOOL: &'static str = "cpufreq-set";

pub const SYSCTL_TOOL: &'static str = "sysctl";

pub const SWAPOFF_TOOL: &'static str = "swapoff";

pub const SWAPON_TOOL: &'static str = "swapon";

pub const SHELL: &'static str = "sh";

/// The cache control file of the kernel.
pub const DROP_CACHES_PATH: &'static str = "/proc/sys/vm/drop_caches";

/// Shell line that writes the code 3 (page cache, dentries and inodes) to
/// the cache control file.
pub const DROP_CACHES_SCRIPT: &'static str = "echo 3 > /proc/sys/vm/drop_caches";

pub const PERFORMANCE: &'static str = "performance";

pub const POWERSAVE: &'static str = "powersave";

pub const SWAPPINESS_KEY: &'static str = "vm.swappiness=";

/// `seq![a]` where `present`, the empty list otherwise.
pub open spec fn action_if(present: bool, a: TuningAction) -> Seq<TuningAction> {
    if present {
        seq![a]
    } else {
        Seq::empty()
    }
}

/// The actions of an enabled cycle, in the order in which they run: the
/// governor, the swappiness, the swap refresh (only while swap is in use),
/// the page cache; each one only where the machine offers its control.
pub open spec fn boost_actions(caps: Capabilities, swap_used_kib: nat) -> Seq<TuningAction> {
    action_if(caps.governor, TuningAction::SetGovernorPerformance) + action_if(
        caps.swappiness,
        TuningAction::SetSwappiness(BOOST_SWAPPINESS),
    ) + action_if(caps.swap_cycle && swap_used_kib > 0, TuningAction::RefreshSwap) + action_if(
        caps.drop_caches,
        TuningAction::DropPageCache,
    )
}

/// The actions of a disabled cycle: none of the boost, and the governor put
/// back where the policy asks for it and the machine offers the control.
pub open spec fn disabled_actions(caps: Capabilities, policy: DisabledPolicy) -> Seq<
    TuningAction,
> {
    action_if(
        policy == DisabledPolicy::RevertGovernor && caps.governor,
        TuningAction::SetGovernorPowersave,
    )
}

/// The actions of one cycle.
pub open spec fn tuning_plan(
    enabled: bool,
    caps: Capabilities,
    swap_used_kib: nat,
    policy: DisabledPolicy,
) -> Seq<TuningAction> {
    if enabled {
        boost_actions(caps, swap_used_kib)
    } else {
        disabled_actions(caps, policy)
    }
}

/// The mode of a cycle: enabled unless `enabled` says otherwise.
pub open spec fn boost_mode(enabled: Option<bool>) -> bool {
    match enabled {
        Some(e) => e,
        None => true,
    }
}

/// How the shell is asked whether a tool is installed.
pub const PROBE_PREFIX: &'static str = "command -v ";

/// The command that asks the shell whether a tool is installed; it succeeds
/// exactly if the shell finds the tool.
pub open spec fn probe_command(tool: Seq<char>) -> CommandLineView {
    CommandLineView { program: SHELL@, args: seq!["-c"@, PROBE_PREFIX@ + tool] }
}

/// Writes the command that asks the shell whether a tool is installed.
pub fn probe(tool: &str) -> (cmd: CommandLine)
    ensures
        cmd@ == probe_command(tool@),
{
    let mut line = String::from_str(PROBE_PREFIX);
    line.append(tool);
    let mut args: Vec<String> = Vec::new();
    args.push(String::from_str("-c"));
    args.push(line);
    let cmd = CommandLine { program: String::from_str(SHELL), args };
    assert(cmd@.args =~= seq!["-c"@, PROBE_PREFIX@ + tool@]);
    cmd
}

impl Capabilities {
    /// Gathers what was found of the tools and of the cache control file.
    /// The swap refresh needs both of its tools.
    pub fn from_probes(
        governor_tool: bool,
        sysctl_tool: bool,
        swapoff_tool: bool,
        swapon_tool: bool,
        drop_caches_file: bool,
    ) -> (caps: Capabilities)
        ensures
            caps == (Capabilities {
                governor: governor_tool,
                swappiness: sysctl_tool,
                swap_cycle: swapoff_tool && swapon_tool,
                drop_caches: drop_caches_file,
            }),
    {
        Capabilities {
            governor: governor_tool,
            swappiness: sysctl_tool,
            swap_cycle: swapoff_tool && swapon_tool,
            drop_caches: drop_caches_file,
        }
    }
}

/// Plans the tuning actions of one cycle.  Without a mode the cycle runs
/// enabled.
pub fn run_boost_cycle(
    enabled: Option<bool>,
    snapshot: &SystemSnapshot,
    caps: &Capabilities,
    policy: DisabledPolicy,
) -> (plan: Vec<TuningAction>)
    ensures
        plan@ == tuning_plan(boost_mode(enabled), *caps, snapshot@.swap_used_kib, policy),
{
    let on = match enabled {
        Some(e) => e,
        None => true,
    };
    let mut plan: Vec<TuningAction> = Vec::new();
    if on {
        if caps.governor {
            plan.push(TuningAction::SetGovernorPerformance);
        }
        if caps.swappiness {
            plan.push(TuningAction::SetSwappiness(BOOST_SWAPPINESS));
        }
        if caps.swap_cycle && snapshot.swap_used_kib() > 0 {
            plan.push(TuningAction::RefreshSwap);
        }
        if caps.drop_caches {
            plan.push(TuningAction::DropPageCache);
        }
        assert(plan@ =~= boost_actions(*caps, snapshot@.swap_used_kib));
    } else {
        if policy == DisabledPolicy::RevertGovernor && caps.governor {
            plan.push(TuningAction::SetGovernorPowersave);
        }
        assert(plan@ =~= disabled_actions(*caps, policy));
    }
    plan
}

/// The command that puts one core under a governor.
pub open spec fn governor_command(core: nat, governor: Seq<char>) -> CommandLineView {
    CommandLineView {
        program: GOVERNOR_TOOL@,
        args: seq!["-c"@, decimal_digits(core), "-g"@, governor],
    }
}

/// The commands that put the cores `0..cores` under a governor, one command
/// per core.
pub open spec fn governor_commands(cores: nat, governor: Seq<char>) -> Seq<CommandLineView> {
    Seq::new(cores, |core: int| governor_command(core as nat, governor))
}

/// The commands that carry out an action on a machine with `cores` cores.
pub open spec fn action_commands(action: TuningAction, cores: nat) -> Seq<CommandLineView> {
    match action {
        TuningAction::SetGovernorPerformance => governor_commands(cores, PERFORMANCE@),
        TuningAction::SetGovernorPowersave => governor_commands(cores, POWERSAVE@),
        TuningAction::SetSwappiness(value) => seq![
            CommandLineView {
                program: SYSCTL_TOOL@,
                args: seq![SWAPPINESS_KEY@ + decimal_digits(value as nat)],
            },
        ],
        TuningAction::RefreshSwap => seq![
            CommandLineView { program: SWAPOFF_TOOL@, args: seq!["-a"@] },
            CommandLineView { program: SWAPON_TOOL@, args: seq!["-a"@] },
        ],
        TuningAction::DropPageCache => seq![
            CommandLineView { program: SHELL@, args: seq!["-c"@, DROP_CACHES_SCRIPT@] },
        ],
    }
}

/// Builds the command that puts one core under a governor.
fn make_governor_command(core: usize, governor: &str) -> (cmd: CommandLine)
    ensures
        cmd@ == governor_command(core as nat, governor@),
{
    let mut args: Vec<String> = Vec::new();
    args.push(String::from_str("-c"));
    args.push(decimal_string(core as u64));
    args.push(String::from_str("-g"));
    args.push(String::from_str(governor));
    let cmd = CommandLine { program: String::from_str(GOVERNOR_TOOL), args };
    assert(cmd@.args =~= governor_command(core as nat, governor@).args);
    cmd
}

/// Builds the commands that put every core under a governor.
fn make_governor_commands(cores: usize, governor: &str) -> (cmds: Vec<CommandLine>)
    ensures
        command_views(cmds@) == governor_commands(cores as nat, governor@),
{
    let mut cmds: Vec<CommandLine> = Vec::new();
    let mut core: usize = 0;
    while core < cores
        invariant
            core <= cores,
            command_views(cmds@) =~= governor_commands(core as nat, governor@),
        decreases cores - core,
    {
        let cmd = make_governor_command(core, governor);
        let ghost before = cmds@;
        cmds.push(cmd);
        assert(command_views(cmds@) =~= command_views(before).push(cmd@));
        core += 1;
    }
    cmds
}

/// Builds a command with one argument.
fn make_command(program: &str, arg: String) -> (cmd: CommandLine)
    ensures
        cmd@ == (CommandLineView { program: program@, args: seq![arg@] }),
{
    let mut args: Vec<String> = Vec::new();
    args.push(arg);
    let cmd = CommandLine { program: String::from_str(program), args };
    assert(cmd@.args =~= seq![arg@]);
    cmd
}

impl TuningAction {
    /// Expands the action to its commands, in the order in which they run.
    /// A governor is set by one command per core.
    pub fn commands(&self, cores: usize) -> (cmds: Vec<CommandLine>)
        ensures
            command_views(cmds@) == action_commands(*self, cores as nat),
    {
        match self {
            TuningAction::SetGovernorPerformance => make_governor_commands(cores, PERFORMANCE),
            TuningAction::SetGovernorPowersave => make_governor_commands(cores, POWERSAVE),
            TuningAction::SetSwappiness(value) => {
                let mut arg = String::from_str(SWAPPINESS_KEY);
                append_decimal(&mut arg, *value as u64);
                let mut cmds: Vec<CommandLine> = Vec::new();
                cmds.push(make_command(SYSCTL_TOOL, arg));
                assert(command_views(cmds@) =~= action_commands(*self, cores as nat));
                cmds
            },
            TuningAction::RefreshSwap => {
                let mut cmds: Vec<CommandLine> = Vec::new();
                cmds.push(make_command(SWAPOFF_TOOL, String::from_str("-a")));
                cmds.push(make_command(SWAPON_TOOL, String::from_str("-a")));
                assert(command_views(cmds@) =~= action_commands(*self, cores as nat));
                cmds
            },
            TuningAction::DropPageCache => {
                let mut args: Vec<String> = Vec::new();
                args.push(String::from_str("-c"));
                args.push(String::from_str(DROP_CACHES_SCRIPT));
                let cmd = CommandLine { program: String::from_str(SHELL), args };
                assert(cmd@.args =~= seq!["-c"@, DROP_CACHES_SCRIPT@]);
                let mut cmds: Vec<CommandLine> = Vec::new();
                cmds.push(cmd);
                assert(command_views(cmds@) =~= action_commands(*self, cores as nat));
                cmds
            },
        }
    }
}

/// Logged when an enabled cycle starts.
pub const CYCLE_STARTED: &'static str = "Running booster cycle";

/// Logged in place of a disabled cycle.
pub const CYCLE_SKIPPED: &'static str = "Booster cycle skipped (paused)";

/// Logged when an enabled cycle has run its actions.
pub const CYCLE_COMPLETED: &'static str = "Booster cycle completed";

/// The line that opens a cycle in the log.
pub open spec fn cycle_banner(enabled: bool) -> Seq<char> {
    if enabled {
        CYCLE_STARTED@
    } else {
        CYCLE_SKIPPED@
    }
}

/// Picks the line that opens a cycle in the log.
pub fn banner(enabled: bool) -> (line: &'static str)
    ensures
        line@ == cycle_banner(enabled),
{
    if enabled {
        CYCLE_STARTED
    } else {
        CYCLE_SKIPPED
    }
}

/// The line that logs an action on a machine with `cores` cores and
/// `swap_used_kib` KiB of swap in use.
pub open spec fn action_text(action: TuningAction, cores: nat, swap_used_kib: nat) -> Seq<char> {
    match action {
        TuningAction::SetGovernorPerformance => "Detected "@ + decimal_digits(cores)
            + " CPU cores, setting performance governor"@,
        TuningAction::SetGovernorPowersave => "Detected "@ + decimal_digits(cores)
            + " CPU cores, setting powersave governor"@,
        TuningAction::SetSwappiness(value) => "Swappiness set to "@ + decimal_digits(value as nat),
        TuningAction::RefreshSwap => "Used swap: "@ + decimal_digits(swap_used_kib)
            + " KiB. Refreshing swap..."@,
        TuningAction::DropPageCache => "Dropping page cache"@,
    }
}

/// The words of a command line, each with a blank before it.
pub open spec fn spaced(words: Seq<Seq<char>>) -> Seq<char>
    decreases words.len(),
{
    if words.len() == 0 {
        Seq::empty()
    } else {
        spaced(words.drop_last()) + " "@ + words.last()
    }
}

/// The line that logs a command that failed.
pub open spec fn failure_text(command: CommandLineView) -> Seq<char> {
    "Command failed: "@ + command.program + spaced(command.args)
}

impl TuningAction {
    /// Writes the line that logs the action.
    pub fn describe(&self, snapshot: &SystemSnapshot) -> (line: String)
        ensures
            line@ == action_text(*self, snapshot@.cpu_core_count, snapshot@.swap_used_kib),
    {
        match self {
            TuningAction::SetGovernorPerformance => {
                let mut line = String::from_str("Detected ");
                append_decimal(&mut line, snapshot.cpu_core_count() as u64);
                line.append(" CPU cores, setting performance governor");
                line
            },
            TuningAction::SetGovernorPowersave => {
                let mut line = String::from_str("Detected ");
                append_decimal(&mut line, snapshot.cpu_core_count() as u64);
                line.append(" CPU cores, setting powersave governor");
                line
            },
            TuningAction::SetSwappiness(value) => {
                let mut line = String::from_str("Swappiness set to ");
                append_decimal(&mut line, *value as u64);
                line
            },
            TuningAction::RefreshSwap => {
                let mut line = String::from_str("Used swap: ");
                append_decimal(&mut line, snapshot.swap_used_kib());
                line.append(" KiB. Refreshing swap...");
                line
            },
            TuningAction::DropPageCache => String::from_str("Dropping page cache"),
        }
    }
}

impl CommandLine {
    /// Writes the line that logs that the command failed.  A command that
    /// fails does not stop the commands behind it.
    pub fn failure(&self) -> (line: String)
        ensures
            line@ == failure_text(self@),
    {
        let mut line = String::from_str("Command failed: ");
        line.append(self.program.as_str());
        let ghost head = line@;
        let mut i: usize = 0;
        while i < self.args.len()
            invariant
                i <= self.args.len(),
                line@ == head + spaced(texts(self.args@).take(i as int)),
            decreases self.args.len() - i,
        {
            line.append(" ");
            line.append(self.args[i].as_str());
            proof {
                let words = texts(self.args@);
                assert(words.take(i + 1).drop_last() =~= words.take(i as int));
                assert(words.take(i + 1).last() == self.args@[i as int]@);
                assert(line@ =~= head + spaced(words.take(i + 1)));
            }
            i += 1;
        }
        proof {
            assert(texts(self.args@).take(i as int) =~= texts(self.args@));
        }
        line
    }
}

/// Law: a cycle that finds no swap in use never refreshes the swap, whatever
/// its mode, the controls of the machine and the policy.
pub proof fn lemma_no_refresh_without_swap(
    enabled: bool,
    caps: Capabilities,
    policy: DisabledPolicy,
)
    ensures
        !tuning_plan(enabled, caps, 0, policy).contains(TuningAction::RefreshSwap),
{
    let plan = tuning_plan(enabled, caps, 0, policy);
    assert forall|i: int| 0 <= i < plan.len() implies plan[i] != TuningAction::RefreshSwap by {}
}

/// Law: a disabled cycle runs none of the boost actions.
pub proof fn lemma_disabled_cycle_skips_boost(
    caps: Capabilities,
    swap_used_kib: nat,
    policy: DisabledPolicy,
)
    ensures
        forall|a: TuningAction| #[trigger]
            tuning_plan(false, caps, swap_used_kib, policy).contains(a) ==> a
                == TuningAction::SetGovernorPowersave,
        policy == DisabledPolicy::Skip ==> tuning_plan(false, caps, swap_used_kib, policy).len()
            == 0,
{
}

} // verus!

use hayaku_ike::actuator::{
    banner, probe, run_boost_cycle, Capabilities, CommandLine, DisabledPolicy, TuningAction,
};
use hayaku_ike::snapshot::SystemSnapshot;

fn all() -> Capabilities {
    Capabilities::from_probes(true, true, true, true, true)
}

fn line(c: &CommandLine) -> String {
    let mut parts = vec![c.program.clone()];
    parts.extend(c.args.iter().cloned());
    parts.join(" ")
}

#[test]
fn enabled_cycle_runs_the_actions_in_order() {
    let plan = run_boost_cycle(Some(true), &SystemSnapshot::new(0, 4, 2048), &all(), DisabledPolicy::Skip);
    assert_eq!(
        plan,
        vec![
            TuningAction::SetGovernorPerformance,
            TuningAction::SetSwappiness(10),
            TuningAction::RefreshSwap,
            TuningAction::DropPageCache
        ]
    );
    let by_default = run_boost_cycle(None, &SystemSnapshot::new(0, 4, 2048), &all(), DisabledPolicy::RevertGovernor);
    assert_eq!(by_default, plan);
}

#[test]
fn swap_is_not_refreshed_when_none_is_used() {
    for enabled in [None, Some(true), Some(false)] {
        for policy in [DisabledPolicy::Skip, DisabledPolicy::RevertGovernor] {
            let plan = run_boost_cycle(enabled, &SystemSnapshot::new(0, 4, 0), &all(), policy);
            assert!(!plan.contains(&TuningAction::RefreshSwap));
        }
    }
    let plan = run_boost_cycle(Some(true), &SystemSnapshot::new(0, 4, 0), &all(), DisabledPolicy::Skip);
    assert_eq!(
        plan,
        vec![TuningAction::SetGovernorPerformance, TuningAction::SetSwappiness(10), TuningAction::DropPageCache]
    );
    let plan = run_boost_cycle(Some(true), &SystemSnapshot::new(0, 4, 1), &all(), DisabledPolicy::Skip);
    assert!(plan.contains(&TuningAction::RefreshSwap));
}

#[test]
fn missing_controls_are_skipped_one_by_one() {
    let snapshot = SystemSnapshot::new(0, 2, 100);
    let none = Capabilities::from_probes(false, false, false, false, false);
    assert_eq!(run_boost_cycle(Some(true), &snapshot, &none, DisabledPolicy::Skip), vec![]);
    let only_sysctl = Capabilities::from_probes(false, true, false, false, false);
    assert_eq!(
        run_boost_cycle(Some(true), &snapshot, &only_sysctl, DisabledPolicy::Skip),
        vec![TuningAction::SetSwappiness(10)]
    );
    let half_swap = Capabilities::from_probes(false, false, true, false, false);
    assert!(!half_swap.swap_cycle);
    assert_eq!(run_boost_cycle(Some(true), &snapshot, &half_swap, DisabledPolicy::Skip), vec![]);
    let other_half = Capabilities::from_probes(false, false, false, true, false);
    assert_eq!(run_boost_cycle(Some(true), &snapshot, &other_half, DisabledPolicy::Skip), vec![]);
    let swap_and_cache = Capabilities::from_probes(false, false, true, true, true);
    assert_eq!(
        run_boost_cycle(Some(true), &snapshot, &swap_and_cache, DisabledPolicy::Skip),
        vec![TuningAction::RefreshSwap, TuningAction::DropPageCache]
    );
    let only_governor = Capabilities::from_probes(true, false, false, false, false);
    assert_eq!(
        run_boost_cycle(Some(true), &snapshot, &only_governor, DisabledPolicy::Skip),
        vec![TuningAction::SetGovernorPerformance]
    );
}

#[test]
fn disabled_cycle_follows_the_policy() {
    let snapshot = SystemSnapshot::new(0, 2, 100);
    assert_eq!(run_boost_cycle(Some(false), &snapshot, &all(), DisabledPolicy::Skip), vec![]);
    assert_eq!(
        run_boost_cycle(Some(false), &snapshot, &all(), DisabledPolicy::RevertGovernor),
        vec![TuningAction::SetGovernorPowersave]
    );
    let no_governor = Capabilities::from_probes(false, true, true, true, true);
    assert_eq!(
        run_boost_cycle(Some(false), &snapshot, &no_governor, DisabledPolicy::RevertGovernor),
        vec![]
    );
}

#[test]
fn governor_is_set_core_by_core() {
    let cmds = TuningAction::SetGovernorPerformance.commands(3);
    let lines: Vec<String> = cmds.iter().map(line).collect();
    assert_eq!(
        lines,
        vec![
            "cpufreq-set -c 0 -g performance",
            "cpufreq-set -c 1 -g performance",
            "cpufreq-set -c 2 -g performance"
        ]
    );
    let cmds = TuningAction::SetGovernorPowersave.commands(12);
    assert_eq!(cmds.len(), 12);
    assert_eq!(line(&cmds[0]), "cpufreq-set -c 0 -g powersave");
    assert_eq!(line(&cmds[10]), "cpufreq-set -c 10 -g powersave");
    assert_eq!(line(&cmds[11]), "cpufreq-set -c 11 -g powersave");
    assert_eq!(cmds[11].args, vec!["-c", "11", "-g", "powersave"]);
    assert!(TuningAction::SetGovernorPerformance.commands(0).is_empty());
}

#[test]
fn other_actions_expand_to_their_commands() {
    let cmds = TuningAction::SetSwappiness(10).commands(4);
    assert_eq!(cmds.len(), 1);
    assert_eq!(cmds[0].program, "sysctl");
    assert_eq!(cmds[0].args, vec!["vm.swappiness=10"]);
    let cmds = TuningAction::SetSwappiness(0).commands(4);
    assert_eq!(cmds[0].args, vec!["vm.swappiness=0"]);
    let cmds = TuningAction::SetSwappiness(u32::MAX).commands(4);
    assert_eq!(cmds[0].args, vec!["vm.swappiness=4294967295"]);

    let cmds = TuningAction::RefreshSwap.commands(4);
    let lines: Vec<String> = cmds.iter().map(line).collect();
    assert_eq!(lines, vec!["swapoff -a", "swapon -a"]);

    let cmds = TuningAction::DropPageCache.commands(4);
    assert_eq!(cmds.len(), 1);
    assert_eq!(cmds[0].program, "sh");
    assert_eq!(cmds[0].args, vec!["-c", "echo 3 > /proc/sys/vm/drop_caches"]);
}

#[test]
fn actions_are_logged_with_their_numbers() {
    let snapshot = SystemSnapshot::new(0, 8, 2048);
    assert_eq!(
        TuningAction::SetGovernorPerformance.describe(&snapshot),
        "Detected 8 CPU cores, setting performance governor"
    );
    assert_eq!(
        TuningAction::SetGovernorPowersave.describe(&snapshot),
        "Detected 8 CPU cores, setting powersave governor"
    );
    assert_eq!(TuningAction::SetSwappiness(10).describe(&snapshot), "Swappiness set to 10");
    assert_eq!(TuningAction::RefreshSwap.describe(&snapshot), "Used swap: 2048 KiB. Refreshing swap...");
    assert_eq!(TuningAction::DropPageCache.describe(&snapshot), "Dropping page cache");
    assert_eq!(banner(true), "Running booster cycle");
    assert_eq!(banner(false), "Booster cycle skipped (paused)");
    assert_eq!(hayaku_ike::actuator::CYCLE_COMPLETED, "Booster cycle completed");
}

#[test]
fn failed_command_is_logged_with_its_words() {
    let cmds = TuningAction::RefreshSwap.commands(1);
    assert_eq!(cmds[0].failure(), "Command failed: swapoff -a");
    let cmds = TuningAction::SetGovernorPerformance.commands(2);
    assert_eq!(cmds[1].failure(), "Command failed: cpufreq-set -c 1 -g performance");
    let bare = CommandLine { program: "sync".to_string(), args: vec![] };
    assert_eq!(bare.failure(), "Command failed: sync");
}

#[test]
fn tools_are_probed_through_the_shell() {
    let cmd = probe("cpufreq-set");
    assert_eq!(cmd.program, "sh");
    assert_eq!(cmd.args, vec!["-c", "command -v cpufreq-set"]);
    let cmd = probe("");
    assert_eq!(cmd.program, "sh");
    assert_eq!(cmd.args, vec!["-c", "command -v "]);
    let cmd = probe("this-command-does-not-exist");
    assert_eq!(line(&cmd), "sh -c command -v this-command-does-not-exist");
}

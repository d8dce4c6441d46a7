use hayaku_ike::installer::{
    build_hayaku_ike, elevate, ends_launch_on_failure, install_service, plan_launch, prompt_user, retry,
    setup_systemd_service, InstallStep, RetryStep, ServiceSetup,
};

fn carry_out(steps: &[InstallStep]) -> (Vec<(String, String)>, Vec<Vec<String>>) {
    let mut copies = Vec::new();
    let mut cmds = Vec::new();
    for step in steps {
        match step {
            InstallStep::Copy { from, to } => copies.push((from.clone(), to.clone())),
            InstallStep::Run(command) => {
                let mut words = vec![command.program.clone()];
                words.extend(command.args.iter().cloned());
                cmds.push(words);
            }
        }
    }
    (copies, cmds)
}

#[test]
fn test_service_missing() {
    let steps = install_service(false);
    let (copies, cmds) = carry_out(&steps);

    // No copy or command should have run
    assert!(copies.is_empty());
    assert!(cmds.is_empty());
}

#[test]
fn test_service_installed() {
    let steps = install_service(true);
    let (copies, cmds) = carry_out(&steps);

    // Check that the file was copied
    assert_eq!(copies.len(), 1);
    assert_eq!(copies[0].0, "assets/service/hayaku-ike.service");
    assert_eq!(copies[0].1, "/etc/systemd/system/hayaku-ike.service");

    // Check that commands were run
    assert_eq!(cmds.len(), 2);
    assert_eq!(cmds[0], vec!["systemctl", "daemon-reload"]);
    assert_eq!(cmds[1], vec!["systemctl", "enable", "--now", "hayaku-ike.service"]);
}

#[test]
fn copy_comes_before_the_commands() {
    let steps = install_service(true);
    assert_eq!(steps.len(), 3);
    assert!(matches!(steps[0], InstallStep::Copy { .. }));
    assert!(matches!(steps[1], InstallStep::Run(_)));
    assert!(matches!(steps[2], InstallStep::Run(_)));
}

fn words(c: &hayaku_ike::actuator::CommandLine) -> Vec<String> {
    let mut all = vec![c.program.clone()];
    all.extend(c.args.iter().cloned());
    all
}

#[test]
fn setup_looks_at_the_privilege_first() {
    assert!(matches!(setup_systemd_service(false, true), ServiceSetup::SkippedNotRoot));
    assert!(matches!(setup_systemd_service(false, false), ServiceSetup::SkippedNotRoot));
    assert!(matches!(setup_systemd_service(true, false), ServiceSetup::TemplateMissing));
    match setup_systemd_service(true, true) {
        ServiceSetup::Commands(commands) => {
            let lines: Vec<Vec<String>> = commands.iter().map(words).collect();
            assert_eq!(
                lines,
                vec![
                    vec!["cp", "assets/service/hayaku-ike.service", "/etc/systemd/system/hayaku-ike.service"],
                    vec!["systemctl", "daemon-reload"],
                    vec!["systemctl", "enable", "--now", "hayaku-ike.service"],
                ]
            );
        }
        other => panic!("no commands: {:?}", other),
    }
}

#[test]
fn launcher_copies_the_unit_only_where_it_is_missing() {
    assert!(plan_launch(false, false).is_empty());
    assert!(plan_launch(false, true).is_empty());
    let fresh: Vec<Vec<String>> = plan_launch(true, false).iter().map(words).collect();
    assert_eq!(
        fresh,
        vec![
            vec!["cp", "assets/service/hayaku-ike.service", "/etc/systemd/system/hayaku-ike.service"],
            vec!["systemctl", "daemon-reload"],
            vec!["systemctl", "enable", "--now", "hayaku-ike.service"],
        ]
    );
    let installed: Vec<Vec<String>> = plan_launch(true, true).iter().map(words).collect();
    assert_eq!(
        installed,
        vec![vec!["systemctl", "daemon-reload"], vec!["systemctl", "enable", "--now", "hayaku-ike.service"]]
    );
}

#[test]
fn build_command_builds_for_release() {
    assert_eq!(words(&build_hayaku_ike()), vec!["cargo", "build", "--release"]);
}

#[test]
fn commands_go_behind_sudo_for_other_users_only() {
    assert_eq!(words(&elevate(build_hayaku_ike(), true, false)), vec!["sudo", "cargo", "build", "--release"]);
    assert_eq!(words(&elevate(build_hayaku_ike(), true, true)), vec!["cargo", "build", "--release"]);
    assert_eq!(words(&elevate(build_hayaku_ike(), false, false)), vec!["cargo", "build", "--release"]);
    assert_eq!(words(&elevate(build_hayaku_ike(), false, true)), vec!["cargo", "build", "--release"]);
    let bare = hayaku_ike::actuator::CommandLine { program: "true".to_string(), args: vec![] };
    assert_eq!(words(&elevate(bare, true, false)), vec!["sudo", "true"]);
}

#[test]
fn retries_end_with_the_last_attempt() {
    assert_eq!(retry(true, 0, 3), RetryStep::Done);
    assert_eq!(retry(true, 3, 3), RetryStep::Done);
    assert_eq!(retry(false, 0, 3), RetryStep::WaitAndRetry);
    assert_eq!(retry(false, 2, 3), RetryStep::WaitAndRetry);
    assert_eq!(retry(false, 3, 3), RetryStep::GiveUp);
    assert_eq!(retry(false, 0, 0), RetryStep::GiveUp);
    assert_eq!(retry(false, 255, 255), RetryStep::GiveUp);
    // an operation that never succeeds is tried once more than it is retried
    let mut attempts = 0;
    let mut attempt: u8 = 0;
    loop {
        attempts += 1;
        match retry(false, attempt, 3) {
            RetryStep::WaitAndRetry => attempt += 1,
            _ => break,
        }
    }
    assert_eq!(attempts, 4);
}

#[test]
fn only_the_answer_one_asks_for_the_full_installation() {
    assert!(prompt_user(b"1"));
    assert!(prompt_user(b"1\n"));
    assert!(prompt_user(b"  1 \r\n"));
    assert!(!prompt_user(b""));
    assert!(!prompt_user(b"\n"));
    assert!(!prompt_user(b"2\n"));
    assert!(!prompt_user(b"11\n"));
    assert!(!prompt_user(b"1 1\n"));
    assert!(!prompt_user(b"one\n"));
    for answer in ["1", " 1", "1 ", "\t1\n", "2", "", "1x", "1 2", "01"] {
        assert_eq!(prompt_user(answer.as_bytes()), matches!(answer.trim(), "1"), "{:?}", answer);
    }
}

#[test]
fn only_a_failed_copy_ends_the_launch() {
    let fatal: Vec<bool> = plan_launch(true, false).iter().map(ends_launch_on_failure).collect();
    assert_eq!(fatal, vec![true, false, false]);
    let fatal: Vec<bool> = plan_launch(true, true).iter().map(ends_launch_on_failure).collect();
    assert_eq!(fatal, vec![false, false]);
    assert!(!ends_launch_on_failure(&build_hayaku_ike()));
    let bare = hayaku_ike::actuator::CommandLine { program: "cp".to_string(), args: vec![] };
    assert!(ends_launch_on_failure(&bare));
    let other = hayaku_ike::actuator::CommandLine { program: "cpx".to_string(), args: vec![] };
    assert!(!ends_launch_on_failure(&other));
}

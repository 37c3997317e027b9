use mudbin::error::{Error, ErrorKind};
use mudbin::exit::{check_success, classify_exit, wait_outcome, ProcessExit};
use mudbin::negotiation::{ChannelRace, RaceOutcome};
use mudbin::qemu::{Qemu, QemuConfig};
use mudbin::sandbox::SandboxNames;
use mudbin::text::{i32_to_decimal, u64_to_decimal};

#[test]
fn decimal_rendering() {
    assert_eq!(u64_to_decimal(0), "0");
    assert_eq!(u64_to_decimal(7), "7");
    assert_eq!(u64_to_decimal(1024), "1024");
    assert_eq!(u64_to_decimal(u64::MAX), "18446744073709551615");
    assert_eq!(i32_to_decimal(-15), "-15");
    assert_eq!(i32_to_decimal(i32::MIN), "-2147483648");
}

#[test]
fn sandbox_names_are_fresh() {
    let mut names = SandboxNames::new();
    assert_eq!(names.link(), "link0");
    assert_eq!(names.socket(), "sock0");
    assert_eq!(names.link(), "link1");
    assert_eq!(names.socket(), "sock1");
    let mut seen = std::collections::HashSet::new();
    for _ in 0..100 {
        assert!(seen.insert(names.link()));
        assert!(seen.insert(names.socket()));
    }
    assert!(!seen.contains("tftp"));
}

#[test]
fn exit_classification() {
    assert_eq!(classify_exit(Some(0), None), ProcessExit::Success);
    assert_eq!(classify_exit(Some(3), None), ProcessExit::Failure(3));
    assert_eq!(classify_exit(None, Some(9)), ProcessExit::Killed(9));
    assert_eq!(classify_exit(None, None), ProcessExit::Unknown);
}

#[test]
fn exit_messages_carry_code_and_signal() {
    assert_eq!(ProcessExit::Failure(3).message(), "Child process returned failure exit status 3");
    assert_eq!(ProcessExit::Killed(9).message(), "Child process terminated by signal 9");
    assert_eq!(
        ProcessExit::Unknown.message(),
        "Child process terminated unsuccessfully for unknown reason"
    );
    assert!(check_success(Some(0), None).is_ok());
    let e = check_success(Some(2), None).unwrap_err();
    assert_eq!(e.kind, ErrorKind::ProcessExit(ProcessExit::Failure(2)));
    assert_eq!(e.context, vec!["Child process returned failure exit status 2".to_string()]);
}

#[test]
fn error_chain_renders_outermost_first() {
    let e = Error::new(ErrorKind::Io, "root cause").chain_err("middle").chain_err("top");
    assert_eq!(e.kind, ErrorKind::Io);
    assert_eq!(e.render(), "Error: top\nCaused by: middle\nCaused by: root cause");
}

#[test]
fn process_failure_takes_precedence_over_cleanup() {
    let p = Err(Error::new(ErrorKind::ProcessExit(ProcessExit::Failure(1)), "p"));
    let c = Err(Error::new(ErrorKind::Cleanup, "c"));
    assert_eq!(wait_outcome(p, c).unwrap_err().kind, ErrorKind::ProcessExit(ProcessExit::Failure(1)));
    let c = Err(Error::new(ErrorKind::Cleanup, "c"));
    assert_eq!(wait_outcome(Ok(()), c).unwrap_err().kind, ErrorKind::Cleanup);
    assert!(wait_outcome(Ok(()), Ok(())).is_ok());
}

#[test]
fn qemu_wait_reports_success_for_exit_zero() {
    let q = Qemu::new("/tmp/sandbox".to_string());
    assert_eq!(q.sandbox(), "/tmp/sandbox");
    assert!(q.wait(classify_exit(Some(0), None), Ok(())).is_ok());
}

#[test]
fn qemu_wait_failure_and_cleanup() {
    let q = Qemu::new("/tmp/s".to_string());
    let e = q.wait(ProcessExit::Killed(9), Err(Error::new(ErrorKind::Cleanup, "c"))).unwrap_err();
    assert_eq!(e.kind, ErrorKind::ProcessExit(ProcessExit::Killed(9)));
    assert_eq!(e.render(), "Error: Error in child QEMU process\nCaused by: Child process terminated by signal 9");
    let q = Qemu::new("/tmp/s".to_string());
    let e = q.wait(ProcessExit::Success, Err(Error::new(ErrorKind::Cleanup, "c"))).unwrap_err();
    assert_eq!(e.kind, ErrorKind::Cleanup);
    assert_eq!(e.context.last().unwrap(), "Closing temporary directory for QEMU failed");
}

#[test]
fn race_with_no_channels_is_won_at_once() {
    let plan = QemuConfig::new().plan_launch();
    let race = ChannelRace::for_launch(&plan);
    assert_eq!(race.outcome(), RaceOutcome::Ready);
    assert!(race.result().is_ok());
}

#[test]
fn race_won_when_both_channels_connect() {
    let mut c = QemuConfig::new();
    c.vsport("log").unwrap();
    c.vsport("ctl").unwrap();
    let plan = c.plan_launch();
    let mut race = ChannelRace::for_launch(&plan);
    assert_eq!(race.outcome(), RaceOutcome::Pending);
    assert!(race.on_connect(1));
    assert!(!race.on_connect(1));
    assert!(!race.on_connect(5));
    assert_eq!(race.outcome(), RaceOutcome::Pending);
    assert!(race.on_connect(0));
    assert_eq!(race.outcome(), RaceOutcome::Ready);
    let mut keys: Vec<String> = vec![race.channel(0).clone(), race.channel(1).clone()];
    keys.sort();
    assert_eq!(keys, vec!["ctl".to_string(), "log".to_string()]);
    assert_eq!(race.on_exit(ProcessExit::Failure(1)), RaceOutcome::Ready);
    assert!(race.result().is_ok());
}

#[test]
fn race_lost_when_process_exits_first() {
    let mut c = QemuConfig::new();
    c.vsport("x").unwrap();
    let plan = c.plan_launch();
    for status in [ProcessExit::Success, ProcessExit::Failure(1), ProcessExit::Killed(15), ProcessExit::Unknown] {
        let mut race = ChannelRace::for_launch(&plan);
        assert_eq!(race.on_exit(status), RaceOutcome::ExitedEarly);
        assert!(!race.on_connect(0));
        assert_eq!(race.result().unwrap_err().kind, ErrorKind::ChannelNegotiation);
    }
}

#[test]
fn empty_config_launches_and_reports_success() {
    let config = QemuConfig::new();
    let plan = config.plan_launch();
    assert!(plan.sockets.is_empty() && plan.links.is_empty());
    let race = ChannelRace::for_launch(&plan);
    assert!(race.result().is_ok());
    let qemu = Qemu::new("/tmp/sandbox".to_string());
    assert!(qemu.wait(classify_exit(Some(0), None), Ok(())).is_ok());
}

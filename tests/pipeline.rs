use mudbin::error::{Error, ErrorKind};
use mudbin::pipeline::{
    answer_file, create_disk_args, finalize_disk_args, installer_config, installer_directives,
    render_lines, BuildAction, BuildSession, BuildStage,
};

#[test]
fn disk_tool_arguments() {
    assert_eq!(create_disk_args("/b/image"), vec!["create", "-f", "qcow2", "--", "/b/image", "1T"]);
    assert_eq!(
        finalize_disk_args("/b/image", "out.qcow2"),
        vec!["convert", "-O", "qcow2", "/b/image", "out.qcow2"]
    );
}

#[test]
fn answer_file_starts_with_log_relay() {
    let text = answer_file();
    assert!(text.starts_with(
        "d-i preseed/early_command string tail -n0 -f /var/log/syslog > /dev/virtio-ports/mudbin.vsport.log &\n"
    ));
    assert!(text.ends_with("d-i debian-installer/exit/poweroff boolean true\n"));
    assert_eq!(text.lines().count(), installer_directives().len());
    assert!(text.contains("d-i passwd/username string user\n"));
}

#[test]
fn render_lines_joins_with_newlines() {
    assert_eq!(render_lines(&vec![]), "");
    assert_eq!(render_lines(&vec!["a".to_string(), "b c".to_string()]), "a\nb c\n");
}

#[test]
fn installer_machine_configuration() {
    let plan = installer_config("/b/image").plan_launch();
    assert!(plan.args.contains(&"virtserialport,chardev=mudbin.sock0,name=mudbin.vsport.log".to_string()));
    assert!(plan.args.contains(&"user,restrict=n,tftp=tftp".to_string()));
    assert!(plan.args.contains(&"file=link2,if=virtio".to_string()));
    assert!(plan.args.contains(&"auto=true url=tftp://10.0.2.2/file hostname=mudbin domain=mudbin".to_string()));
    assert_eq!(plan.boot_file, Some(answer_file().into_bytes()));
    assert_eq!(plan.links[2].source, "/b/image");
    assert_eq!(plan.sockets.len(), 1);
    assert_eq!(plan.sockets[0].channel, "log");
}

fn run(results: Vec<Result<(), Error>>) -> (Vec<BuildAction>, Result<(), Error>) {
    let mut session = BuildSession::new();
    let mut actions = Vec::new();
    let mut results = results.into_iter();
    loop {
        let action = session.action();
        actions.push(action);
        if action == BuildAction::Finish {
            return (actions, session.finish());
        }
        session = session.step(results.next().unwrap_or(Ok(())));
    }
}

#[test]
fn pipeline_completes_when_every_step_succeeds() {
    let (actions, result) = run(vec![]);
    assert_eq!(
        actions,
        vec![
            BuildAction::CreateBuildDir,
            BuildAction::CreateDisk,
            BuildAction::LaunchInstaller,
            BuildAction::AwaitInstaller,
            BuildAction::Finalize,
            BuildAction::DiscardBuildDir,
            BuildAction::Finish,
        ]
    );
    assert!(result.is_ok());
}

#[test]
fn pipeline_failure_skips_the_rest_and_discards() {
    let (actions, result) = run(vec![Ok(()), Err(Error::new(ErrorKind::Spawn, "no qemu-img"))]);
    assert_eq!(
        actions,
        vec![
            BuildAction::CreateBuildDir,
            BuildAction::CreateDisk,
            BuildAction::DiscardBuildDir,
            BuildAction::Finish,
        ]
    );
    let e = result.unwrap_err();
    assert_eq!(e.kind, ErrorKind::Spawn);
    assert_eq!(e.render(), "Error: Creating disk image with qemu-img failed\nCaused by: no qemu-img");
}

#[test]
fn pipeline_without_build_dir_finishes_at_once() {
    let (actions, result) = run(vec![Err(Error::new(ErrorKind::Io, "no temp"))]);
    assert_eq!(actions, vec![BuildAction::CreateBuildDir, BuildAction::Finish]);
    assert_eq!(result.unwrap_err().kind, ErrorKind::Io);
}

#[test]
fn cleanup_failure_reported_only_when_alone() {
    let cleanup = || Err(Error::new(ErrorKind::Cleanup, "busy"));
    let (_, result) = run(vec![Ok(()), Ok(()), Ok(()), Ok(()), Ok(()), cleanup()]);
    assert_eq!(result.unwrap_err().kind, ErrorKind::Cleanup);
    let (_, result) = run(vec![
        Ok(()),
        Ok(()),
        Ok(()),
        Err(Error::new(ErrorKind::ChannelNegotiation, "exited")),
        cleanup(),
    ]);
    assert_eq!(result.unwrap_err().kind, ErrorKind::ChannelNegotiation);
    let stage = BuildSession::new().stage;
    assert!(matches!(stage, BuildStage::CreatingDir));
}

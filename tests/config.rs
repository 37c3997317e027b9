use mudbin::channel::valid_channel_name;
use mudbin::error::ErrorKind;
use mudbin::qemu::{LinkRole, QemuConfig};

fn strings(v: &[&str]) -> Vec<String> {
    v.iter().map(|s| s.to_string()).collect()
}

#[test]
fn channel_names_of_allowed_characters_are_accepted() {
    assert!(valid_channel_name("log"));
    assert!(valid_channel_name("a"));
    assert!(valid_channel_name("A-z_0.9"));
    assert!(valid_channel_name(&"x".repeat(64)));
}

#[test]
fn channel_names_outside_the_rules_are_rejected() {
    assert!(!valid_channel_name(""));
    assert!(!valid_channel_name(&"x".repeat(65)));
    assert!(!valid_channel_name("a b"));
    assert!(!valid_channel_name("a/b"));
    assert!(!valid_channel_name("é"));
    assert!(!valid_channel_name("log,name=x"));
}

#[test]
fn vsport_rejects_invalid_and_duplicate_names() {
    let mut c = QemuConfig::new();
    assert!(c.vsport("log").is_ok());
    let dup = c.vsport("log").unwrap_err();
    assert_eq!(dup.kind, ErrorKind::Validation);
    let bad = c.vsport("no spaces").unwrap_err();
    assert_eq!(bad.kind, ErrorKind::Validation);
    assert_eq!(c.plan_launch().sockets.len(), 1);
}

#[test]
fn empty_config_launch_plan() {
    let plan = QemuConfig::new().plan_launch();
    assert_eq!(plan.program, "qemu-system-x86_64");
    assert_eq!(
        plan.args,
        strings(&["-nodefaults", "-accel", "kvm", "-vga", "cirrus", "-m", "1024"])
    );
    assert!(plan.links.is_empty());
    assert!(plan.sockets.is_empty());
    assert!(plan.boot_file.is_none());
}

#[test]
fn full_config_launch_plan() {
    let mut c = QemuConfig::new();
    c.boot_kernel("/k/linux", "/k/initrd.gz", "auto=true quiet");
    c.vsport("log").unwrap();
    c.vsport("ctl").unwrap();
    c.unrestricted_net().tftp_file(b"hello".to_vec());
    c.drive("/img/a", true).drive("/img/b", false);
    let plan = c.plan_launch();
    assert_eq!(
        plan.args,
        strings(&[
            "-nodefaults",
            "-accel",
            "kvm",
            "-vga",
            "cirrus",
            "-m",
            "1024",
            "-device",
            "virtio-serial",
            "-kernel",
            "link0",
            "-initrd",
            "link1",
            "-append",
            "auto=true quiet",
            "-chardev",
            "socket,id=mudbin.sock0,path=sock0",
            "-device",
            "virtserialport,chardev=mudbin.sock0,name=mudbin.vsport.log",
            "-chardev",
            "socket,id=mudbin.sock1,path=sock1",
            "-device",
            "virtserialport,chardev=mudbin.sock1,name=mudbin.vsport.ctl",
            "-net",
            "nic,model=virtio",
            "-net",
            "user,restrict=n,tftp=tftp",
            "-drive",
            "file=link2,if=virtio",
            "-drive",
            "file=link3,if=virtio,read-only",
        ])
    );
    let links: Vec<(LinkRole, &str, &str)> = plan
        .links
        .iter()
        .map(|l| (l.role, l.source.as_str(), l.name.as_str()))
        .collect();
    assert_eq!(
        links,
        vec![
            (LinkRole::Kernel, "/k/linux", "link0"),
            (LinkRole::Initrd, "/k/initrd.gz", "link1"),
            (LinkRole::Drive, "/img/a", "link2"),
            (LinkRole::Drive, "/img/b", "link3"),
        ]
    );
    let sockets: Vec<(&str, &str)> =
        plan.sockets.iter().map(|s| (s.socket.as_str(), s.channel.as_str())).collect();
    assert_eq!(sockets, vec![("sock0", "log"), ("sock1", "ctl")]);
    assert_eq!(plan.boot_file, Some(b"hello".to_vec()));
}

#[test]
fn restricted_net_with_boot_file_keeps_restriction() {
    let mut c = QemuConfig::new();
    c.tftp_file(vec![1, 2, 3]);
    let plan = c.plan_launch();
    let n = plan.args.len();
    assert_eq!(plan.args[n - 1], "user,restrict=y,tftp=tftp");
    assert_eq!(plan.args[n - 2], "-net");
    assert_eq!(plan.args[n - 3], "nic,model=virtio");
}

#[test]
fn unrestricted_net_without_boot_file() {
    let mut c = QemuConfig::new();
    c.unrestricted_net();
    let plan = c.plan_launch();
    assert_eq!(plan.args.last().unwrap(), "user,restrict=n");
}

#[test]
fn drives_without_kernel_start_at_first_link() {
    let mut c = QemuConfig::new();
    c.drive("/img/only", false);
    let plan = c.plan_launch();
    assert_eq!(plan.links[0].name, "link0");
    assert_eq!(plan.args.last().unwrap(), "file=link0,if=virtio,read-only");
}

//! The emulator's configuration, built step by step before launch, and the
//! launch plan derived from it: what to place in the sandbox and the
//! emulator's argument vector.
use vstd::prelude::*;
use crate::channel::{is_valid_channel_name, valid_channel_name};
use crate::error::{Error, ErrorKind, views};
use crate::sandbox::{SandboxNames, lemma_sandbox_names_distinct, link_name, socket_name};
use crate::exit::{ProcessExit, exit_message, wait_outcome};

verus! {

/// A kernel to boot directly: the kernel image, the initial ramdisk and the
/// kernel command line.
#[derive(Debug)]
pub struct BootSpec {
    pub kernel: String,
    pub initrd: String,
    pub cmdline: String,
}

/// Networking: whether outbound traffic is restricted, and a file to serve to
/// the guest over the boot protocol.
#[derive(Debug)]
pub struct NetConfig {
    pub restrict: bool,
    pub tftp_file: Option<Vec<u8>>,
}

/// A disk attached to the machine, writable or read-only.
#[derive(Debug)]
pub struct Drive {
    pub path: String,
    pub writable: bool,
}

/// What a configuration describes, as mathematical values.
pub struct ConfigModel {
    /// Kernel, initial ramdisk and command line.
    pub boot: Option<(Seq<char>, Seq<char>, Seq<char>)>,
    /// Requested channels, in the order of their requests.
    pub channels: Seq<Seq<char>>,
    pub restrict: bool,
    pub boot_file: Option<Seq<u8>>,
    /// Backing file and writability of each drive, in order.
    pub drives: Seq<(Seq<char>, bool)>,
}

/// Channel names are valid and pairwise distinct.
pub open spec fn channels_ok(chs: Seq<Seq<char>>) -> bool {
    &&& chs.no_duplicates()
    &&& forall|i: int| 0 <= i < chs.len() ==> is_valid_channel_name(#[trigger] chs[i])
}

/// The configuration of an emulated machine.
#[derive(Debug)]
pub struct QemuConfig {
    kernel: Option<BootSpec>,
    vsports: Vec<String>,
    net: NetConfig,
    drives: Vec<Drive>,
}

impl View for QemuConfig {
    type V = ConfigModel;

    closed spec fn view(&self) -> ConfigModel {
        ConfigModel {
            boot: match self.kernel {
                Some(b) => Some((b.kernel@, b.initrd@, b.cmdline@)),
                None => None,
            },
            channels: views(self.vsports@),
            restrict: self.net.restrict,
            boot_file: match self.net.tftp_file {
                Some(f) => Some(f@),
                None => None,
            },
            drives: self.drives@.map_values(|d: Drive| (d.path@, d.writable)),
        }
    }
}

impl QemuConfig {
    /// Channel names of the configuration are valid and distinct.
    pub open spec fn wf(&self) -> bool {
        channels_ok(self@.channels)
    }

    /// A configuration with no kernel, no channels, no drives and restricted
    /// networking without a boot file.
    pub fn new() -> (r: QemuConfig)
        ensures
            r.wf(),
            r@.boot is None,
            r@.channels == Seq::<Seq<char>>::empty(),
            r@.restrict,
            r@.boot_file is None,
            r@.drives == Seq::<(Seq<char>, bool)>::empty(),
    {
        let r = QemuConfig {
            kernel: None,
            vsports: Vec::new(),
            net: NetConfig { restrict: true, tftp_file: None },
            drives: Vec::new(),
        };
        proof {
            assert(r@.channels =~= Seq::<Seq<char>>::empty());
            assert(r@.drives =~= Seq::<(Seq<char>, bool)>::empty());
        }
        r
    }

    /// Boots `kernel_path` with `initrd_path` and the command line `append`.
    pub fn boot_kernel(&mut self, kernel_path: &str, initrd_path: &str, append: &str) -> (r:
        &mut QemuConfig)
        ensures
            r@ == (ConfigModel {
                boot: Some((kernel_path@, initrd_path@, append@)),
                ..old(self)@
            }),
            r.wf() == old(self).wf(),
            *final(self) == *final(r),
    {
        self.kernel = Some(
            BootSpec {
                kernel: kernel_path.to_owned(),
                initrd: initrd_path.to_owned(),
                cmdline: append.to_owned(),
            },
        );
        self
    }

    /// Requests a channel named `name`: accepted when the name is valid and not
    /// yet requested, refused with a validation error otherwise.
    pub fn vsport(&mut self, name: &str) -> (r: Result<&mut QemuConfig, Error>)
        requires
            old(self).wf(),
        ensures
            (is_valid_channel_name(name@) && !old(self)@.channels.contains(name@)) <==> r is Ok,
            r matches Ok(c) ==> c@ == (ConfigModel {
                channels: old(self)@.channels.push(name@),
                ..old(self)@
            }) && c.wf() && *final(self) == *final(c),
            r matches Err(e) ==> e.kind == ErrorKind::Validation && *final(self) == *old(self),
    {
        if !valid_channel_name(name) {
            return Err(Error::new(ErrorKind::Validation, "Invalid virtual serial port name"));
        }
        let owned = name.to_owned();
        let mut i: usize = 0;
        while i < self.vsports.len()
            invariant
                owned@ == name@,
                i <= self.vsports@.len(),
                forall|j: int| 0 <= j < i ==> self.vsports@[j]@ != name@,
            decreases self.vsports@.len() - i,
        {
            if self.vsports[i] == owned {
                proof {
                    assert(self@.channels[i as int] == name@);
                }
                return Err(Error::new(ErrorKind::Validation, "Duplicate virtual serial port name"));
            }
            i = i + 1;
        }
        let ghost before = self.vsports@;
        proof {
            assert forall|j: int| 0 <= j < before.len() implies views(before)[j] != name@ by {}
        }
        self.vsports.push(owned);
        proof {
            assert(views(self.vsports@) =~= views(before).push(name@));
            assert(channels_ok(views(self.vsports@))) by {
                let chs = views(self.vsports@);
                assert forall|a: int, b: int| 0 <= a < chs.len() && 0 <= b < chs.len() && a != b
                    implies chs[a] != chs[b] by {
                    assert(views(before).no_duplicates());
                }
            }
        }
        Ok(self)
    }

    /// The number of attached drives.
    pub fn drive_count(&self) -> (r: usize)
        ensures
            r == self@.drives.len(),
    {
        self.drives.len()
    }

    /// Lifts the limits on outbound traffic.
    pub fn unrestricted_net(&mut self) -> (r: &mut QemuConfig)
        ensures
            r@ == (ConfigModel { restrict: false, ..old(self)@ }),
            r.wf() == old(self).wf(),
            *final(self) == *final(r),
    {
        self.net.restrict = false;
        self
    }

    /// Serves `tftp_file` to the guest over the boot protocol.
    pub fn tftp_file(&mut self, tftp_file: Vec<u8>) -> (r: &mut QemuConfig)
        ensures
            r@ == (ConfigModel { boot_file: Some(tftp_file@), ..old(self)@ }),
            r.wf() == old(self).wf(),
            *final(self) == *final(r),
    {
        self.net.tftp_file = Some(tftp_file);
        self
    }

    /// Attaches the file at `path` as the next drive.
    pub fn drive(&mut self, path: &str, allow_write: bool) -> (r: &mut QemuConfig)
        ensures
            r@ == (ConfigModel {
                drives: old(self)@.drives.push((path@, allow_write)),
                ..old(self)@
            }),
            r.wf() == old(self).wf(),
            *final(self) == *final(r),
    {
        let ghost before = self.drives@;
        self.drives.push(Drive { path: path.to_owned(), writable: allow_write });
        proof {
            assert(self.drives@.map_values(|d: Drive| (d.path@, d.writable)) =~= before.map_values(
                |d: Drive| (d.path@, d.writable),
            ).push((path@, allow_write)));
        }
        self
    }
}

} // verus!

verus! {

/// The emulator program.
pub open spec fn emulator_program() -> Seq<char> {
    "qemu-system-x86_64"@
}

/// The fixed arguments: no default devices, hardware acceleration, a minimal
/// display and memory, and the serial multiplexer when a channel is requested.
pub open spec fn baseline_args(any_channel: bool) -> Seq<Seq<char>> {
    let base = seq![
        "-nodefaults"@,
        "-accel"@,
        "kvm"@,
        "-vga"@,
        "cirrus"@,
        "-m"@,
        "1024"@,
    ];
    if any_channel {
        base + seq!["-device"@, "virtio-serial"@]
    } else {
        base
    }
}

/// The boot arguments: the kernel and the initial ramdisk by their first two
/// symlink names, and the literal command line.
pub open spec fn boot_args(boot: Option<(Seq<char>, Seq<char>, Seq<char>)>) -> Seq<Seq<char>> {
    match boot {
        Some((_, _, cmdline)) => seq![
            "-kernel"@,
            link_name(0),
            "-initrd"@,
            link_name(1),
            "-append"@,
            cmdline,
        ],
        None => Seq::empty(),
    }
}

/// The character device of the `j`-th channel's socket.
pub open spec fn chardev_arg(j: nat) -> Seq<char> {
    "socket,id=mudbin."@ + socket_name(j) + ",path="@ + socket_name(j)
}

/// The virtual serial port that shows the `j`-th channel's socket to the guest
/// under `name`.
pub open spec fn serial_port_arg(j: nat, name: Seq<char>) -> Seq<char> {
    "virtserialport,chardev=mudbin."@ + socket_name(j) + ",name=mudbin.vsport."@ + name
}

/// The arguments of each requested channel, in order.
pub open spec fn channel_args(chs: Seq<Seq<char>>) -> Seq<Seq<char>>
    decreases chs.len(),
{
    if chs.len() == 0 {
        Seq::empty()
    } else {
        let j = (chs.len() - 1) as nat;
        channel_args(chs.drop_last()) + seq![
            "-chardev"@,
            chardev_arg(j),
            "-device"@,
            serial_port_arg(j, chs.last()),
        ]
    }
}

/// The user-mode network backend: the restriction flag, and the boot-file
/// directory when a boot file is served.
pub open spec fn net_backend_arg(restrict: bool, boot_file: bool) -> Seq<char> {
    "user,restrict="@ + (if restrict {
        "y"@
    } else {
        "n"@
    }) + (if boot_file {
        ",tftp=tftp"@
    } else {
        Seq::empty()
    })
}

/// The network arguments: present when networking is unrestricted or a boot
/// file is served.
pub open spec fn net_args(restrict: bool, boot_file: bool) -> Seq<Seq<char>> {
    if !restrict || boot_file {
        seq!["-net"@, "nic,model=virtio"@, "-net"@, net_backend_arg(restrict, boot_file)]
    } else {
        Seq::empty()
    }
}

/// The drive backed by symlink number `link`.
pub open spec fn drive_arg(link: nat, writable: bool) -> Seq<char> {
    "file="@ + link_name(link) + ",if=virtio"@ + (if writable {
        Seq::empty()
    } else {
        ",read-only"@
    })
}

/// The arguments of each drive, in order, their symlinks numbered from `first`.
pub open spec fn drive_args(drives: Seq<(Seq<char>, bool)>, first: nat) -> Seq<Seq<char>>
    decreases drives.len(),
{
    if drives.len() == 0 {
        Seq::empty()
    } else {
        drive_args(drives.drop_last(), first) + seq![
            "-drive"@,
            drive_arg((first + drives.len() - 1) as nat, drives.last().1),
        ]
    }
}

/// The number of symlinks that come before the drives' symlinks.
pub open spec fn first_drive_link(m: ConfigModel) -> nat {
    if m.boot is Some {
        2
    } else {
        0
    }
}

/// The emulator's whole argument vector for a configuration.
pub open spec fn launch_args(m: ConfigModel) -> Seq<Seq<char>> {
    baseline_args(m.channels.len() > 0) + boot_args(m.boot) + channel_args(m.channels) + net_args(
        m.restrict,
        m.boot_file is Some,
    ) + drive_args(m.drives, first_drive_link(m))
}

/// What a symlink in the sandbox stands for.
#[derive(Clone, Copy, Debug, PartialEq, Eq, Structural)]
pub enum LinkRole {
    Kernel,
    Initrd,
    Drive,
}

/// A symlink to place in the sandbox: the external path and the link's name.
#[derive(Debug)]
pub struct LinkRequest {
    pub role: LinkRole,
    pub source: String,
    pub name: String,
}

/// A socket to bind in the sandbox, and the channel it carries.
#[derive(Debug)]
pub struct SocketRequest {
    pub socket: String,
    pub channel: String,
}

/// The symlinks of the drives, their names numbered from `first`.
pub open spec fn drive_links(drives: Seq<(Seq<char>, bool)>, first: nat) -> Seq<
    (LinkRole, Seq<char>, Seq<char>),
> {
    Seq::new(drives.len(), |k: int| (LinkRole::Drive, drives[k].0, link_name((first + k) as nat)))
}

/// Every symlink of a launch, in the order they are made: kernel and initial
/// ramdisk, then the drives.
pub open spec fn launch_links(m: ConfigModel) -> Seq<(LinkRole, Seq<char>, Seq<char>)> {
    let boot = match m.boot {
        Some((kernel, initrd, _)) => seq![
            (LinkRole::Kernel, kernel, link_name(0)),
            (LinkRole::Initrd, initrd, link_name(1)),
        ],
        None => Seq::empty(),
    };
    boot + drive_links(m.drives, first_drive_link(m))
}

/// Every socket of a launch with its channel: the `j`-th requested channel
/// gets the `j`-th socket.
pub open spec fn launch_sockets(m: ConfigModel) -> Seq<(Seq<char>, Seq<char>)> {
    Seq::new(m.channels.len(), |j: int| (socket_name(j as nat), m.channels[j]))
}

/// What launching a configuration takes: the symlinks and sockets to create
/// in a fresh sandbox, the boot file to write into its `tftp` directory, and
/// the program with its arguments, run from the sandbox.
#[derive(Debug)]
pub struct LaunchPlan {
    pub program: String,
    pub links: Vec<LinkRequest>,
    pub sockets: Vec<SocketRequest>,
    pub boot_file: Option<Vec<u8>>,
    pub args: Vec<String>,
}

impl LaunchPlan {
    pub open spec fn link_views(&self) -> Seq<(LinkRole, Seq<char>, Seq<char>)> {
        self.links@.map_values(|l: LinkRequest| (l.role, l.source@, l.name@))
    }

    pub open spec fn socket_views(&self) -> Seq<(Seq<char>, Seq<char>)> {
        self.sockets@.map_values(|s: SocketRequest| (s.socket@, s.channel@))
    }
}

fn push_arg(args: &mut Vec<String>, a: String)
    ensures
        views(final(args)@) == views(old(args)@).push(a@),
{
    let ghost before = args@;
    args.push(a);
    proof {
        assert(views(args@) =~= views(before).push(a@));
    }
}

pub(crate) fn push_literal(args: &mut Vec<String>, a: &str)
    ensures
        views(final(args)@) == views(old(args)@).push(a@),
{
    push_arg(args, a.to_owned());
}

fn concat3(a: &str, b: &str, c: &str) -> (r: String)
    ensures
        r@ == a@ + b@ + c@,
{
    let mut r = a.to_owned();
    r.append(b);
    r.append(c);
    r
}

fn concat4(a: &str, b: &str, c: &str, d: &str) -> (r: String)
    ensures
        r@ == a@ + b@ + c@ + d@,
{
    let mut r = concat3(a, b, c);
    r.append(d);
    r
}

impl QemuConfig {
    /// The launch plan of this configuration: the symlinks (kernel, initial
    /// ramdisk, then drives), one socket for each channel, the boot file, and
    /// the emulator's argument vector.
    pub fn plan_launch(&self) -> (r: LaunchPlan)
        requires
            self@.drives.len() + 2 < u64::MAX,
        ensures
            r.program@ == emulator_program(),
            views(r.args@) == launch_args(self@),
            r.link_views() == launch_links(self@),
            r.socket_views() == launch_sockets(self@),
            (match r.boot_file {
                Some(f) => self@.boot_file == Some(f@),
                None => self@.boot_file is None,
            }),
    {
        let ghost m = self@;
        let mut names = SandboxNames::new();
        let mut args: Vec<String> = Vec::new();
        let mut links: Vec<LinkRequest> = Vec::new();
        let mut sockets: Vec<SocketRequest> = Vec::new();

        push_literal(&mut args, "-nodefaults");
        push_literal(&mut args, "-accel");
        push_literal(&mut args, "kvm");
        push_literal(&mut args, "-vga");
        push_literal(&mut args, "cirrus");
        push_literal(&mut args, "-m");
        push_literal(&mut args, "1024");
        if self.vsports.len() > 0 {
            push_literal(&mut args, "-device");
            push_literal(&mut args, "virtio-serial");
        }
        proof {
            assert(views(args@) =~= baseline_args(m.channels.len() > 0));
        }

        match &self.kernel {
            Some(boot) => {
                let kernel_link = names.link();
                let initrd_link = names.link();
                push_literal(&mut args, "-kernel");
                push_arg(&mut args, kernel_link.clone());
                push_literal(&mut args, "-initrd");
                push_arg(&mut args, initrd_link.clone());
                push_literal(&mut args, "-append");
                push_arg(&mut args, boot.cmdline.clone());
                links.push(LinkRequest { role: LinkRole::Kernel, source: boot.kernel.clone(), name: kernel_link });
                links.push(LinkRequest { role: LinkRole::Initrd, source: boot.initrd.clone(), name: initrd_link });
            },
            None => {},
        }
        let ghost prefix = baseline_args(m.channels.len() > 0) + boot_args(m.boot);
        proof {
            assert(views(args@) =~= prefix);
        }
        let first = names.next_link;
        assert(first == first_drive_link(m));
        assert(links@.map_values(|l: LinkRequest| (l.role, l.source@, l.name@)) =~= launch_links(
            m,
        ).subrange(0, first as int));

        let n = self.vsports.len();
        let mut j: usize = 0;
        while j < n
            invariant
                n == m.channels.len(),
                m == self@,
                j <= n,
                names.next_socket == j,
                sockets@.len() == j,
                names.next_link == first,
                views(args@) == prefix + channel_args(m.channels.subrange(0, j as int)),
                sockets@.map_values(|s: SocketRequest| (s.socket@, s.channel@)) == launch_sockets(
                    m,
                ).subrange(0, j as int),
            decreases n - j,
        {
            let ghost before = args@;
            let ghost sockets_before = sockets@;
            let sock = names.socket();
            push_literal(&mut args, "-chardev");
            push_arg(&mut args, concat4("socket,id=mudbin.", sock.as_str(), ",path=", sock.as_str()));
            push_literal(&mut args, "-device");
            push_arg(
                &mut args,
                concat4(
                    "virtserialport,chardev=mudbin.",
                    sock.as_str(),
                    ",name=mudbin.vsport.",
                    self.vsports[j].as_str(),
                ),
            );
            sockets.push(SocketRequest { socket: sock, channel: self.vsports[j].clone() });
            proof {
                assert(sockets@.len() == j + 1);
                assert(forall|i: int| 0 <= i < j ==> sockets@[i] == sockets_before[i]);
                assert(m.channels[j as int] == self.vsports@[j as int]@);
                let chs = m.channels.subrange(0, j as int + 1);
                assert(chs.drop_last() =~= m.channels.subrange(0, j as int));
                assert(chs.last() == m.channels[j as int]);
                assert(views(args@) =~= views(before) + seq![
                    "-chardev"@,
                    chardev_arg(j as nat),
                    "-device"@,
                    serial_port_arg(j as nat, m.channels[j as int]),
                ]);
                assert(sockets@.map_values(|s: SocketRequest| (s.socket@, s.channel@)) =~= launch_sockets(
                    m,
                ).subrange(0, j as int + 1));
            }
            j = j + 1;
        }
        proof {
            assert(m.channels.subrange(0, n as int) =~= m.channels);
            assert(launch_sockets(m).subrange(0, n as int) =~= launch_sockets(m));
        }

        let has_file = self.net.tftp_file.is_some();
        if !self.net.restrict || has_file {
            push_literal(&mut args, "-net");
            push_literal(&mut args, "nic,model=virtio");
            push_literal(&mut args, "-net");
            let flag = if self.net.restrict { "y" } else { "n" };
            let dir = if has_file { ",tftp=tftp" } else { "" };
            proof {
                reveal_strlit("");
            }
            push_arg(&mut args, concat3("user,restrict=", flag, dir));
        }
        let ghost prefix2 = prefix + channel_args(m.channels) + net_args(m.restrict, m.boot_file is Some);
        proof {
            assert(views(args@) =~= prefix2);
        }

        let nd = self.drives.len();
        let mut k: usize = 0;
        while k < nd
            invariant
                nd == m.drives.len(),
                m == self@,
                nd + 2 < u64::MAX,
                first <= 2,
                first == first_drive_link(m),
                k <= nd,
                names.next_link == first + k,
                links@.len() == first + k,
                views(args@) == prefix2 + drive_args(m.drives.subrange(0, k as int), first as nat),
                links@.map_values(|l: LinkRequest| (l.role, l.source@, l.name@)) == launch_links(
                    m,
                ).subrange(0, first + k),
            decreases nd - k,
        {
            let ghost before = args@;
            let ghost links_before = links@;
            let link = names.link();
            let mode = if self.drives[k].writable { "" } else { ",read-only" };
            proof {
                reveal_strlit("");
            }
            push_literal(&mut args, "-drive");
            push_arg(&mut args, concat4("file=", link.as_str(), ",if=virtio", mode));
            links.push(LinkRequest { role: LinkRole::Drive, source: self.drives[k].path.clone(), name: link });
            proof {
                assert(links@.len() == first + k + 1);
                assert(forall|i: int| 0 <= i < first + k ==> links@[i] == links_before[i]);
                assert(m.drives[k as int] == (self.drives@[k as int].path@, self.drives@[k as int].writable));
                assert(launch_links(m)[first + k] == (LinkRole::Drive, m.drives[k as int].0, link_name((first + k) as nat)));
                let ds = m.drives.subrange(0, k as int + 1);
                assert(ds.drop_last() =~= m.drives.subrange(0, k as int));
                assert(ds.last() == m.drives[k as int]);
                assert(views(args@) =~= views(before) + seq![
                    "-drive"@,
                    drive_arg((first + k) as nat, m.drives[k as int].1),
                ]);
                assert(links@.map_values(|l: LinkRequest| (l.role, l.source@, l.name@)) =~= launch_links(
                    m,
                ).subrange(0, first + k + 1));
            }
            k = k + 1;
        }
        proof {
            assert(m.drives.subrange(0, nd as int) =~= m.drives);
            assert(launch_links(m).subrange(0, first + nd) =~= launch_links(m));
            assert(views(args@) =~= launch_args(m));
        }
        let boot_file = match &self.net.tftp_file {
            Some(f) => Some(f.clone()),
            None => None,
        };
        LaunchPlan { program: "qemu-system-x86_64".to_owned(), links, sockets, boot_file, args }
    }
}

} // verus!

verus! {

/// A running emulator whose channels all connected: the sandbox directory it
/// runs in, removed once the process has finished.
#[derive(Debug)]
pub struct Qemu {
    sandbox: String,
}

impl Qemu {
    /// The emulator running in the sandbox at `sandbox`.
    pub fn new(sandbox: String) -> (r: Qemu)
        ensures
            r.sandbox_path() == sandbox@,
    {
        Qemu { sandbox }
    }

    /// The path of the sandbox directory.
    pub closed spec fn sandbox_path(&self) -> Seq<char> {
        self.sandbox@
    }

    /// The path of the sandbox directory.
    pub fn sandbox(&self) -> (r: &String)
        ensures
            r@ == self.sandbox_path(),
    {
        &self.sandbox
    }

    /// The result of the emulator's run, given how the process finished and
    /// how removing its sandbox went: a process failure comes first, whatever
    /// the removal did; a failed removal is reported after a successful run.
    pub fn wait(self, exit: ProcessExit, cleanup: Result<(), Error>) -> (r: Result<(), Error>)
        ensures
            exit != ProcessExit::Success ==> (r matches Err(e) && e.kind == ErrorKind::ProcessExit(exit)
                && views(e.context@) == seq![exit_message(exit), "Error in child QEMU process"@]),
            exit == ProcessExit::Success ==> match cleanup {
                Ok(()) => r is Ok,
                Err(c) => r matches Err(e) && e.kind == c.kind && views(e.context@) == views(
                    c.context@,
                ).push("Closing temporary directory for QEMU failed"@),
            },
    {
        let process = if exit.is_success() {
            Ok(())
        } else {
            let msg = exit.message();
            Err(Error::new(ErrorKind::ProcessExit(exit), msg.as_str()).chain_err("Error in child QEMU process"))
        };
        let cleanup = match cleanup {
            Ok(()) => Ok(()),
            Err(c) => Err(c.chain_err("Closing temporary directory for QEMU failed")),
        };
        wait_outcome(process, cleanup)
    }
}

} // verus!

verus! {

/// The `i`-th symlink of a launch is named by the sandbox's `i`-th link name.
pub proof fn lemma_launch_link_names(m: ConfigModel, i: int)
    requires
        0 <= i < launch_links(m).len(),
    ensures
        launch_links(m)[i].2 == link_name(i as nat),
{
}

/// The symlinks of a launch have pairwise distinct names, and so have its
/// sockets; no symlink shares a name with a socket.
pub proof fn lemma_launch_names_distinct(m: ConfigModel)
    ensures
        forall|i: int, j: int|
            0 <= i < launch_links(m).len() && 0 <= j < launch_links(m).len() && i != j
                ==> #[trigger] launch_links(m)[i].2 != #[trigger] launch_links(m)[j].2,
        forall|i: int, j: int|
            0 <= i < launch_sockets(m).len() && 0 <= j < launch_sockets(m).len() && i != j
                ==> #[trigger] launch_sockets(m)[i].0 != #[trigger] launch_sockets(m)[j].0,
        forall|i: int, j: int|
            0 <= i < launch_links(m).len() && 0 <= j < launch_sockets(m).len()
                ==> #[trigger] launch_links(m)[i].2 != #[trigger] launch_sockets(m)[j].0,
{
    assert forall|i: int, j: int|
        0 <= i < launch_links(m).len() && 0 <= j < launch_links(m).len() && i != j
            implies #[trigger] launch_links(m)[i].2 != #[trigger] launch_links(m)[j].2 by {
        lemma_launch_link_names(m, i);
        lemma_launch_link_names(m, j);
        lemma_sandbox_names_distinct(i as nat, j as nat);
    }
    assert forall|i: int, j: int|
        0 <= i < launch_sockets(m).len() && 0 <= j < launch_sockets(m).len() && i != j
            implies #[trigger] launch_sockets(m)[i].0 != #[trigger] launch_sockets(m)[j].0 by {
        lemma_sandbox_names_distinct(i as nat, j as nat);
    }
    assert forall|i: int, j: int|
        0 <= i < launch_links(m).len() && 0 <= j < launch_sockets(m).len()
            implies #[trigger] launch_links(m)[i].2 != #[trigger] launch_sockets(m)[j].0 by {
        lemma_launch_link_names(m, i);
        lemma_sandbox_names_distinct(i as nat, j as nat);
    }
}

} // verus!

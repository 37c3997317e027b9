//! The image build pipeline: the disk tool's argument vectors, the installer's
//! answer file, the installer machine's configuration, and the order of the
//! steps with what each outcome leads to.
use vstd::prelude::*;
use vstd::utf8::encode_utf8;
use crate::error::{Error, ErrorKind, views};
use crate::qemu::{ConfigModel, QemuConfig, push_literal};

verus! {

/// The disk tool program.
pub open spec fn disk_tool() -> Seq<char> {
    "qemu-img"@
}

/// Creates a thin-provisioned image of one terabyte at `image`.
pub open spec fn disk_create_args(image: Seq<char>) -> Seq<Seq<char>> {
    seq!["create"@, "-f"@, "qcow2"@, "--"@, image, "1T"@]
}

/// Converts the image at `image` into a compacted copy at `output`.
pub open spec fn disk_finalize_args(image: Seq<char>, output: Seq<char>) -> Seq<Seq<char>> {
    seq!["convert"@, "-O"@, "qcow2"@, image, output]
}

/// The disk tool's arguments that create the working image at `image`.
pub fn create_disk_args(image: &str) -> (r: Vec<String>)
    ensures
        views(r@) == disk_create_args(image@),
{
    let mut r: Vec<String> = Vec::new();
    push_literal(&mut r, "create");
    push_literal(&mut r, "-f");
    push_literal(&mut r, "qcow2");
    push_literal(&mut r, "--");
    push_literal(&mut r, image);
    push_literal(&mut r, "1T");
    proof {
        assert(views(r@) =~= disk_create_args(image@));
    }
    r
}

/// The disk tool's arguments that write the finished image at `output`.
pub fn finalize_disk_args(image: &str, output: &str) -> (r: Vec<String>)
    ensures
        views(r@) == disk_finalize_args(image@, output@),
{
    let mut r: Vec<String> = Vec::new();
    push_literal(&mut r, "convert");
    push_literal(&mut r, "-O");
    push_literal(&mut r, "qcow2");
    push_literal(&mut r, image);
    push_literal(&mut r, output);
    proof {
        assert(views(r@) =~= disk_finalize_args(image@, output@));
    }
    r
}

} // verus!

verus! {

/// The installer's directives, one per line of the answer file. The first
/// streams the guest's system log to the `log` channel, so that every later
/// installer phase is relayed.
pub open spec fn answer_directives() -> Seq<Seq<char>> {
    seq![
        "d-i preseed/early_command string tail -n0 -f /var/log/syslog > /dev/virtio-ports/mudbin.vsport.log &"@,
        "d-i debian-installer/locale select en_US.UTF-8"@,
        "d-i console-setup/ask_detect boolean false"@,
        "d-i keyboard-configuration/layout select us"@,
        "d-i keyboard-configuration/variant select us"@,
        "d-i mirror/country string manual"@,
        "d-i mirror/http/hostname string archive.ubuntu.com"@,
        "d-i mirror/http/directory string /ubuntu"@,
        "d-i mirror/http/proxy string"@,
        "d-i passwd/user-fullname string user"@,
        "d-i passwd/username string user"@,
        "d-i passwd/user-password password insecure"@,
        "d-i passwd/user-password-again password insecure"@,
        "d-i clock-setup/utc boolean true"@,
        "d-i time/zone string UTC"@,
        "d-i partman-auto/disk string /dev/vda"@,
        "d-i partman-auto/method string regular"@,
        "d-i partman-auto/choose_recipe select atomic"@,
        "d-i partman/default_filesystem string ext4"@,
        "d-i partman-partitioning/confirm_write_new_label boolean true"@,
        "d-i partman/choose_partition select finish"@,
        "d-i partman/confirm boolean true"@,
        "d-i partman/confirm_nooverwrite boolean true"@,
        "d-i partman-swapfile/size string 0"@,
        "d-i base-installer/kernel/image string linux-virtual"@,
        "tasksel tasksel/first multiselect"@,
        "d-i pkgsel/upgrade select safe-upgrade"@,
        "d-i pkgsel/update-policy select none"@,
        "d-i grub-installer/only_debian boolean true"@,
        "d-i grub-installer/with_other_os boolean true"@,
        "d-i grub-installer/bootdev string /dev/vda"@,
        "d-i preseed/late_command string in-target apt-get clean ; in-target fstrim -a"@,
        "d-i finish-install/reboot_in_progress note"@,
        "d-i debian-installer/exit/poweroff boolean true"@,
    ]
}

/// Lines of text, each followed by a newline.
pub open spec fn lines_text(lines: Seq<Seq<char>>) -> Seq<char>
    decreases lines.len(),
{
    if lines.len() == 0 {
        Seq::empty()
    } else {
        lines_text(lines.drop_last()) + lines.last() + seq!['\n']
    }
}

/// The answer file as text.
pub open spec fn answer_text() -> Seq<char> {
    lines_text(answer_directives())
}

/// The installer's directives, in order.
#[verifier::rlimit(50)]
pub fn installer_directives() -> (r: Vec<String>)
    ensures
        views(r@) == answer_directives(),
{
    let mut r: Vec<String> = Vec::new();
    push_literal(&mut r, "d-i preseed/early_command string tail -n0 -f /var/log/syslog > /dev/virtio-ports/mudbin.vsport.log &");
    push_literal(&mut r, "d-i debian-installer/locale select en_US.UTF-8");
    push_literal(&mut r, "d-i console-setup/ask_detect boolean false");
    push_literal(&mut r, "d-i keyboard-configuration/layout select us");
    push_literal(&mut r, "d-i keyboard-configuration/variant select us");
    push_literal(&mut r, "d-i mirror/country string manual");
    push_literal(&mut r, "d-i mirror/http/hostname string archive.ubuntu.com");
    push_literal(&mut r, "d-i mirror/http/directory string /ubuntu");
    push_literal(&mut r, "d-i mirror/http/proxy string");
    push_literal(&mut r, "d-i passwd/user-fullname string user");
    push_literal(&mut r, "d-i passwd/username string user");
    push_literal(&mut r, "d-i passwd/user-password password insecure");
    push_literal(&mut r, "d-i passwd/user-password-again password insecure");
    push_literal(&mut r, "d-i clock-setup/utc boolean true");
    push_literal(&mut r, "d-i time/zone string UTC");
    push_literal(&mut r, "d-i partman-auto/disk string /dev/vda");
    push_literal(&mut r, "d-i partman-auto/method string regular");
    push_literal(&mut r, "d-i partman-auto/choose_recipe select atomic");
    push_literal(&mut r, "d-i partman/default_filesystem string ext4");
    push_literal(&mut r, "d-i partman-partitioning/confirm_write_new_label boolean true");
    push_literal(&mut r, "d-i partman/choose_partition select finish");
    push_literal(&mut r, "d-i partman/confirm boolean true");
    push_literal(&mut r, "d-i partman/confirm_nooverwrite boolean true");
    push_literal(&mut r, "d-i partman-swapfile/size string 0");
    push_literal(&mut r, "d-i base-installer/kernel/image string linux-virtual");
    push_literal(&mut r, "tasksel tasksel/first multiselect");
    push_literal(&mut r, "d-i pkgsel/upgrade select safe-upgrade");
    push_literal(&mut r, "d-i pkgsel/update-policy select none");
    push_literal(&mut r, "d-i grub-installer/only_debian boolean true");
    push_literal(&mut r, "d-i grub-installer/with_other_os boolean true");
    push_literal(&mut r, "d-i grub-installer/bootdev string /dev/vda");
    push_literal(&mut r, "d-i preseed/late_command string in-target apt-get clean ; in-target fstrim -a");
    push_literal(&mut r, "d-i finish-install/reboot_in_progress note");
    push_literal(&mut r, "d-i debian-installer/exit/poweroff boolean true");
    proof {
        assert(views(r@) =~= answer_directives());
    }
    r
}

/// Joins `lines`, each followed by a newline.
pub fn render_lines(lines: &Vec<String>) -> (r: String)
    ensures
        r@ == lines_text(views(lines@)),
{
    let mut out = String::new();
    let mut i: usize = 0;
    while i < lines.len()
        invariant
            i <= lines@.len(),
            out@ == lines_text(views(lines@).subrange(0, i as int)),
        decreases lines@.len() - i,
    {
        proof {
            let next = views(lines@).subrange(0, i as int + 1);
            assert(next.drop_last() =~= views(lines@).subrange(0, i as int));
            reveal_strlit("\n");
        }
        out.append(lines[i].as_str());
        out.append("\n");
        i = i + 1;
    }
    proof {
        assert(views(lines@).subrange(0, lines@.len() as int) =~= views(lines@));
    }
    out
}

/// The answer file as text.
pub fn answer_file() -> (r: String)
    ensures
        r@ == answer_text(),
{
    render_lines(&installer_directives())
}

} // verus!

verus! {

/// The configuration of the installer machine: the network-boot kernel and
/// initial ramdisk with a command line that fetches the answer file from the
/// embedded boot-file service, the `log` channel, unrestricted networking, the
/// answer file as the boot file, and the working image as the only drive,
/// writable.
pub open spec fn installer_model(image: Seq<char>) -> ConfigModel {
    ConfigModel {
        boot: Some(
            (
                "../../preseedtest/linux"@,
                "../../preseedtest/initrd.gz"@,
                "auto=true url=tftp://10.0.2.2/file hostname=mudbin domain=mudbin"@,
            ),
        ),
        channels: seq!["log"@],
        restrict: false,
        boot_file: Some(encode_utf8(answer_text())),
        drives: seq![(image, true)],
    }
}

/// The configuration of the installer machine for the working image `image`.
pub fn installer_config(image: &str) -> (r: QemuConfig)
    ensures
        r.wf(),
        r@ == installer_model(image@),
{
    let mut config = QemuConfig::new();
    config.boot_kernel(
        "../../preseedtest/linux",
        "../../preseedtest/initrd.gz",
        "auto=true url=tftp://10.0.2.2/file hostname=mudbin domain=mudbin",
    );
    proof {
        reveal_strlit("log");
        assert(crate::channel::is_valid_channel_name("log"@));
    }
    let requested = config.vsport("log");
    assert(requested is Ok);
    config.unrestricted_net();
    let answer = answer_file();
    config.tftp_file(answer.as_str().as_bytes_vec());
    config.drive(image, true);
    proof {
        assert(config@.channels =~= seq!["log"@]);
        assert(config@.drives =~= seq![(image@, true)]);
    }
    config
}

} // verus!

verus! {

/// Where a build stands.
#[derive(Debug)]
pub enum BuildStage {
    /// Allocating the build directory.
    CreatingDir,
    /// Creating the working image in the build directory.
    CreatingDisk,
    /// Launching the installer machine.
    Launching,
    /// Waiting for the installer machine to finish.
    Installing,
    /// Writing the finished image to the output path.
    Finalizing,
    /// Removing the build directory; the error that ended the build, if any.
    Discarding(Option<Error>),
    /// Finished, with the build's result.
    Done(Result<(), Error>),
}

/// What the program running a build does next.
#[derive(Clone, Copy, Debug, PartialEq, Eq, Structural)]
pub enum BuildAction {
    CreateBuildDir,
    CreateDisk,
    LaunchInstaller,
    AwaitInstaller,
    Finalize,
    DiscardBuildDir,
    Finish,
}

/// The action that a stage asks for.
pub open spec fn stage_action(s: BuildStage) -> BuildAction {
    match s {
        BuildStage::CreatingDir => BuildAction::CreateBuildDir,
        BuildStage::CreatingDisk => BuildAction::CreateDisk,
        BuildStage::Launching => BuildAction::LaunchInstaller,
        BuildStage::Installing => BuildAction::AwaitInstaller,
        BuildStage::Finalizing => BuildAction::Finalize,
        BuildStage::Discarding(_) => BuildAction::DiscardBuildDir,
        BuildStage::Done(_) => BuildAction::Finish,
    }
}

/// The context a failure of each step is wrapped in.
pub open spec fn stage_context(s: BuildStage) -> Seq<char> {
    match s {
        BuildStage::CreatingDir => "Creating temporary directory for disk image failed"@,
        BuildStage::CreatingDisk => "Creating disk image with qemu-img failed"@,
        BuildStage::Launching => "Starting the installer in QEMU failed"@,
        BuildStage::Installing => "Installer in QEMU failed"@,
        BuildStage::Finalizing => "Shrinking disk image failed"@,
        _ => "Removing temporary directory for disk image failed"@,
    }
}

/// `outer` is `inner` wrapped in the context `msg`.
pub open spec fn wraps(outer: Error, inner: Error, msg: Seq<char>) -> bool {
    &&& outer.kind == inner.kind
    &&& views(outer.context@) == views(inner.context@).push(msg)
}

/// One step of a build: the stage after `before` when its action had `result`.
/// Each step gates the next; a failure skips the rest, and once the build
/// directory exists it is removed on every path. A failure of the removal is
/// reported only when nothing else failed.
pub open spec fn build_step(before: BuildStage, result: Result<(), Error>, after: BuildStage) -> bool {
    match before {
        BuildStage::CreatingDir => match result {
            Ok(()) => after is CreatingDisk,
            Err(e) => after matches BuildStage::Done(Err(o)) && wraps(o, e, stage_context(before)),
        },
        BuildStage::CreatingDisk => match result {
            Ok(()) => after is Launching,
            Err(e) => after matches BuildStage::Discarding(Some(o)) && wraps(o, e, stage_context(before)),
        },
        BuildStage::Launching => match result {
            Ok(()) => after is Installing,
            Err(e) => after matches BuildStage::Discarding(Some(o)) && wraps(o, e, stage_context(before)),
        },
        BuildStage::Installing => match result {
            Ok(()) => after is Finalizing,
            Err(e) => after matches BuildStage::Discarding(Some(o)) && wraps(o, e, stage_context(before)),
        },
        BuildStage::Finalizing => match result {
            Ok(()) => after matches BuildStage::Discarding(None),
            Err(e) => after matches BuildStage::Discarding(Some(o)) && wraps(o, e, stage_context(before)),
        },
        BuildStage::Discarding(primary) => match primary {
            Some(p) => after == BuildStage::Done(Err(p)),
            None => match result {
                Ok(()) => after == BuildStage::Done(Ok(())),
                Err(e) => after matches BuildStage::Done(Err(o)) && wraps(o, e, stage_context(before)),
            },
        },
        BuildStage::Done(_) => after == before,
    }
}

/// A build of one image, from allocating its build directory to reporting
/// its result.
#[derive(Debug)]
pub struct BuildSession {
    pub stage: BuildStage,
}

impl BuildSession {
    /// A build that has not started.
    pub fn new() -> (r: BuildSession)
        ensures
            r.stage is CreatingDir,
    {
        BuildSession { stage: BuildStage::CreatingDir }
    }

    /// What to do next.
    pub fn action(&self) -> (r: BuildAction)
        ensures
            r == stage_action(self.stage),
    {
        match &self.stage {
            BuildStage::CreatingDir => BuildAction::CreateBuildDir,
            BuildStage::CreatingDisk => BuildAction::CreateDisk,
            BuildStage::Launching => BuildAction::LaunchInstaller,
            BuildStage::Installing => BuildAction::AwaitInstaller,
            BuildStage::Finalizing => BuildAction::Finalize,
            BuildStage::Discarding(_) => BuildAction::DiscardBuildDir,
            BuildStage::Done(_) => BuildAction::Finish,
        }
    }

    /// Records the result of the current action and moves to the next stage.
    pub fn step(self, result: Result<(), Error>) -> (r: BuildSession)
        ensures
            build_step(self.stage, result, r.stage),
    {
        let stage = match self.stage {
            BuildStage::CreatingDir => match result {
                Ok(()) => BuildStage::CreatingDisk,
                Err(e) => BuildStage::Done(
                    Err(e.chain_err("Creating temporary directory for disk image failed")),
                ),
            },
            BuildStage::CreatingDisk => match result {
                Ok(()) => BuildStage::Launching,
                Err(e) => BuildStage::Discarding(
                    Some(e.chain_err("Creating disk image with qemu-img failed")),
                ),
            },
            BuildStage::Launching => match result {
                Ok(()) => BuildStage::Installing,
                Err(e) => BuildStage::Discarding(
                    Some(e.chain_err("Starting the installer in QEMU failed")),
                ),
            },
            BuildStage::Installing => match result {
                Ok(()) => BuildStage::Finalizing,
                Err(e) => BuildStage::Discarding(Some(e.chain_err("Installer in QEMU failed"))),
            },
            BuildStage::Finalizing => match result {
                Ok(()) => BuildStage::Discarding(None),
                Err(e) => BuildStage::Discarding(Some(e.chain_err("Shrinking disk image failed"))),
            },
            BuildStage::Discarding(primary) => match primary {
                Some(p) => BuildStage::Done(Err(p)),
                None => match result {
                    Ok(()) => BuildStage::Done(Ok(())),
                    Err(e) => BuildStage::Done(
                        Err(e.chain_err("Removing temporary directory for disk image failed")),
                    ),
                },
            },
            BuildStage::Done(r) => BuildStage::Done(r),
        };
        BuildSession { stage }
    }

    /// The build's result, once it is done.
    pub fn finish(self) -> (r: Result<(), Error>)
        requires
            self.stage is Done,
        ensures
            self.stage == BuildStage::Done(r),
    {
        match self.stage {
            BuildStage::Done(r) => r,
            _ => Ok(()),
        }
    }
}

/// A build completes only through every step in order: when a step leads to
/// a successful end, the step was the removal of the build directory after a
/// successful finalize, and that removal succeeded.
pub proof fn lemma_success_only_after_finalize(before: BuildStage, result: Result<(), Error>, after: BuildStage)
    requires
        build_step(before, result, after),
        !(before is Done),
        after == BuildStage::Done(Ok(())),
    ensures
        before matches BuildStage::Discarding(None),
        result is Ok,
{
}

/// A failed step never leads on to a later step: it ends the build, at once
/// or after removing the build directory, with an error.
pub proof fn lemma_failure_aborts(before: BuildStage, e: Error, after: BuildStage)
    requires
        build_step(before, Err(e), after),
        !(before is Done),
    ensures
        after matches BuildStage::Done(Err(_)) || after matches BuildStage::Discarding(Some(_)),
{
}

} // verus!

//! Checks at startup: whether the host can run jailed Firecracker VMs.
use crate::command::{command, CommandLine, CommandOutcome};
use crate::decimal::decimal_text;
use crate::firecracker::version::parse_and_validate_version;
use crate::firecracker::{CopyStrategy, JailerConfig, JAILER_UID, VM_IMAGES_DIR};
use crate::platform::Platform;
use crate::text::{chars_of, is_text, join_path, same_text, split_fields, trim_text};
use vstd::prelude::*;

verus! {

/// What was found out about a binary.
#[derive(Debug)]
pub struct BinaryFacts {
    /// Value of the environment variable that names the binary, if it is set.
    pub configured: Option<String>,
    /// Where the binary's name was found on the search path, if it was.
    pub found: Option<String>,
    /// What came of asking the binary for its version.
    pub version: CommandOutcome,
}

/// What was read of the list of users.
#[derive(Debug)]
pub struct PasswdFile {
    /// The lines up to the end, or up to one that could not be read.
    pub lines: Vec<String>,
    /// Why the reading broke off, if it did.
    pub read_error: Option<String>,
}

/// What was found out about the host.
#[derive(Debug)]
pub struct HostFacts {
    pub platform: Platform,
    pub firecracker: BinaryFacts,
    pub jailer: BinaryFacts,
    /// Whether `/dev/kvm` exists.
    pub kvm_exists: bool,
    /// Why `/dev/kvm` cannot be accessed, if it cannot.
    pub kvm_error: Option<String>,
    /// `/etc/passwd`, if it could be opened.
    pub passwd: Option<PasswdFile>,
    /// Whether `/opt/firecracker` exists.
    pub assets_exist: bool,
    /// Whether `/srv/jailer` exists.
    pub jailer_dir_exists: bool,
    /// The device of `/opt/firecracker`, if it could be read.
    pub assets_device: Option<u64>,
    /// The device of `/srv/jailer`, if it could be read.
    pub jailer_device: Option<u64>,
    /// Whether the directory for rootfs copies exists.
    pub images_dir_exists: bool,
    /// Whether `/sys/fs/cgroup/cgroup.controllers` exists.
    pub cgroup_controllers: bool,
    /// Whether the probe file could be written.
    pub probe_written: bool,
    /// What came of copying the probe file by reflink.
    pub probe_copy: CommandOutcome,
}

/// What is given to every VM and not decided by the checks.
#[derive(Debug)]
pub struct HostSite {
    /// Absolute path to the kernel image.
    pub kernel_path: String,
    /// Absolute path to the base rootfs image.
    pub rootfs_path: String,
    /// Directory for per-VM rootfs copies.
    pub vm_images_dir: String,
    /// Host's outward-facing network interface.
    pub host_interface: String,
}

/// Whether the environment asks for development mode.
pub open spec fn dev_mode(warlock_dev: Option<Seq<char>>, rust_env: Option<Seq<char>>) -> bool {
    warlock_dev == Some("true"@) || rust_env == Some("development"@)
}

/// What an optional string slice holds.
pub open spec fn optional_str(s: Option<&str>) -> Option<Seq<char>> {
    match s {
        Some(t) => Some(t@),
        None => None,
    }
}

/// Checks if running in development mode, from the values of the environment variables
/// `WARLOCK_DEV` and `RUST_ENV`.
pub fn is_dev_mode(warlock_dev: Option<&str>, rust_env: Option<&str>) -> (r: bool)
    ensures
        r == dev_mode(optional_str(warlock_dev), optional_str(rust_env)),
{
    let by_warlock = match warlock_dev {
        Some(v) => same_text(v, "true"),
        None => false,
    };
    let by_rust = match rust_env {
        Some(v) => same_text(v, "development"),
        None => false,
    };
    by_warlock || by_rust
}

/// The name of a binary: the configured one, or the default.
pub open spec fn name_of(b: BinaryFacts, default_name: Seq<char>) -> Seq<char> {
    match b.configured {
        Some(name) => name@,
        None => default_name,
    }
}

/// Whether a path is absolute.
pub open spec fn absolute(path: Seq<char>) -> bool {
    path.len() > 0 && path[0] == '/'
}

/// Where a binary is: at its name if that is an absolute path, else where the search found
/// it.
pub open spec fn path_of(b: BinaryFacts, default_name: Seq<char>) -> Option<Seq<char>> {
    if absolute(name_of(b, default_name)) {
        Some(name_of(b, default_name))
    } else {
        crate::text::optional(b.found)
    }
}

/// What is reported of a binary that was not found.
pub open spec fn not_found_message(name: Seq<char>, env_var: Seq<char>) -> Seq<char> {
    "Could not find '"@ + name + "' in PATH. Set `"@ + env_var
        + "` environment variable to the absolute path."@
}

/// The name of a binary: the configured one, or the default.
pub fn binary_name(configured: Option<&str>, default_name: &str) -> (r: String)
    ensures
        r@ == match configured {
            Some(name) => name@,
            None => default_name@,
        },
{
    match configured {
        Some(name) => name.to_string(),
        None => default_name.to_string(),
    }
}

/// Resolves a binary name to its absolute path.
///
/// Takes the configured name if there is one, which is trusted if it is an absolute path.
/// Otherwise the binary is where the search for its name found it.
pub fn resolve_binary_path(b: &BinaryFacts, env_var: &str, default_name: &str) -> (r: Result<
    String,
    String,
>)
    ensures
        match r {
            Ok(path) => path_of(*b, default_name@) == Some(path@),
            Err(msg) => path_of(*b, default_name@) is None && msg@ == not_found_message(
                name_of(*b, default_name@),
                env_var@,
            ),
        },
{
    let configured = match &b.configured {
        Some(name) => Some(name.as_str()),
        None => None,
    };
    let name = binary_name(configured, default_name);
    let chars = chars_of(name.as_str());
    if chars.len() > 0 && chars[0] == '/' {
        return Ok(name);
    }
    match &b.found {
        Some(path) => Ok(path.clone()),
        None => {
            let mut msg = "Could not find '".to_string();
            msg.append(name.as_str());
            msg.append("' in PATH. Set `");
            msg.append(env_var);
            msg.append("` environment variable to the absolute path.");
            Err(msg)
        },
    }
}

/// Why a binary at a path cannot be used, if it cannot: it did not start, or it failed.
pub open spec fn binary_problem(
    path: Seq<char>,
    version: CommandOutcome,
    not_started: (Seq<char>, Seq<char>),
    failed: Seq<char>,
) -> Option<Seq<char>> {
    match version {
        CommandOutcome::NotStarted => Some(not_started.0 + path + not_started.1),
        CommandOutcome::Finished { success, stderr, .. } => if success {
            None
        } else {
            Some(failed + stderr@)
        },
    }
}

/// Whether a binary that was asked for its version ran and succeeded.
fn check_binary(
    path: &str,
    version: &CommandOutcome,
    not_started: (&str, &str),
    failed: &str,
) -> (r: Result<(), String>)
    ensures
        match r {
            Ok(()) => binary_problem(
                path@,
                *version,
                (not_started.0@, not_started.1@),
                failed@,
            ) is None,
            Err(msg) => binary_problem(
                path@,
                *version,
                (not_started.0@, not_started.1@),
                failed@,
            ) == Some(msg@),
        },
{
    match version {
        CommandOutcome::NotStarted => {
            let mut msg = not_started.0.to_string();
            msg.append(path);
            msg.append(not_started.1);
            Err(msg)
        },
        CommandOutcome::Finished { success, stderr, .. } => if *success {
            Ok(())
        } else {
            let mut msg = failed.to_string();
            msg.append(stderr.as_str());
            Err(msg)
        },
    }
}

/// Why the Firecracker binary cannot be used, if it cannot.
pub open spec fn firecracker_problem(b: BinaryFacts) -> Option<Seq<char>> {
    match path_of(b, "firecracker"@) {
        None => Some(not_found_message(name_of(b, "firecracker"@), "FIRECRACKER_BIN"@)),
        Some(path) => match binary_problem(
            path,
            b.version,
            (
                "Failed to execute Firecracker binary at '"@,
                "'. Install Firecracker from https://github.com/firecracker-microvm/firecracker or set `FIRECRACKER_BIN` environment variable to the correct path."@,
            ),
            "Firecracker execution failed: "@,
        ) {
            Some(msg) => Some(msg),
            None => if crate::text::trimmed(b.version.out()).len() == 0 {
                Some("Firecracker version output was empty"@)
            } else {
                None
            },
        },
    }
}

/// Checks for Firecracker binary and returns its version output, trimmed, and its path.
///
/// Fails if the binary cannot be found or executed, or if it names no version.
pub fn check_firecracker_binary(b: &BinaryFacts) -> (r: Result<(String, String), String>)
    ensures
        match r {
            Ok((output, path)) => {
                &&& firecracker_problem(*b) is None
                &&& output@ == crate::text::trimmed(b.version.out())
                &&& path_of(*b, "firecracker"@) == Some(path@)
            },
            Err(msg) => firecracker_problem(*b) == Some(msg@),
        },
{
    let path = match resolve_binary_path(b, "FIRECRACKER_BIN", "firecracker") {
        Ok(path) => path,
        Err(msg) => return Err(msg),
    };
    match check_binary(
        path.as_str(),
        &b.version,
        (
            "Failed to execute Firecracker binary at '",
            "'. Install Firecracker from https://github.com/firecracker-microvm/firecracker or set `FIRECRACKER_BIN` environment variable to the correct path.",
        ),
        "Firecracker execution failed: ",
    ) {
        Ok(()) => {},
        Err(msg) => return Err(msg),
    }
    let output = match &b.version {
        CommandOutcome::Finished { stdout, .. } => trim_text(stdout.as_str()),
        CommandOutcome::NotStarted => String::new(),
    };
    if chars_of(output.as_str()).len() == 0 {
        return Err("Firecracker version output was empty".to_string());
    }
    Ok((output, path))
}

/// Why the jailer binary cannot be used, if it cannot.
pub open spec fn jailer_problem(b: BinaryFacts) -> Option<Seq<char>> {
    match path_of(b, "jailer"@) {
        None => Some(not_found_message(name_of(b, "jailer"@), "JAILER_BIN"@)),
        Some(path) => binary_problem(
            path,
            b.version,
            (
                "Failed to execute jailer binary at '"@,
                "'. The jailer is included in Firecracker releases. Set `JAILER_BIN` environment variable if it is installed elsewhere."@,
            ),
            "Jailer execution failed: "@,
        ),
    }
}

/// Checks that the jailer binary exists and is executable. Returns its path.
pub fn check_jailer_binary(b: &BinaryFacts) -> (r: Result<String, String>)
    ensures
        match r {
            Ok(path) => jailer_problem(*b) is None && path_of(*b, "jailer"@) == Some(path@),
            Err(msg) => jailer_problem(*b) == Some(msg@),
        },
{
    let path = match resolve_binary_path(b, "JAILER_BIN", "jailer") {
        Ok(path) => path,
        Err(msg) => return Err(msg),
    };
    match check_binary(
        path.as_str(),
        &b.version,
        (
            "Failed to execute jailer binary at '",
            "'. The jailer is included in Firecracker releases. Set `JAILER_BIN` environment variable if it is installed elsewhere.",
        ),
        "Jailer execution failed: ",
    ) {
        Ok(()) => Ok(path),
        Err(msg) => Err(msg),
    }
}

/// Why KVM cannot be used, if it cannot. On systems other than Linux it is not looked for.
pub open spec fn kvm_problem(
    platform: Platform,
    exists: bool,
    error: Option<Seq<char>>,
) -> Option<Seq<char>> {
    if !(platform is Linux) {
        None
    } else if !exists {
        Some(
            "KVM device not found at /dev/kvm. Ensure KVM is enabled in your kernel and BIOS. On Ubuntu/Debian, try: sudo modprobe kvm kvm_intel (or kvm_amd for AMD CPUs)"@,
        )
    } else {
        match error {
            Some(e) => Some(
                "Cannot access /dev/kvm: "@ + e
                    + ". You may need to add your user to the kvm group: sudo usermod -aG kvm $USER && newgrp kvm"@,
            ),
            None => None,
        }
    }
}

/// Checks if KVM device is available: that `/dev/kvm` exists and can be accessed.
pub fn check_kvm_available(platform: Platform, exists: bool, error: &Option<String>) -> (r: Result<
    (),
    String,
>)
    ensures
        match r {
            Ok(()) => kvm_problem(platform, exists, crate::text::optional(*error)) is None,
            Err(msg) => kvm_problem(platform, exists, crate::text::optional(*error)) == Some(msg@),
        },
{
    if !platform.is_linux() {
        return Ok(());
    }
    if !exists {
        return Err(
            "KVM device not found at /dev/kvm. Ensure KVM is enabled in your kernel and BIOS. On Ubuntu/Debian, try: sudo modprobe kvm kvm_intel (or kvm_amd for AMD CPUs)".to_string(),
        );
    }
    match error {
        Some(e) => {
            let mut msg = "Cannot access /dev/kvm: ".to_string();
            msg.append(e.as_str());
            msg.append(
                ". You may need to add your user to the kvm group: sudo usermod -aG kvm $USER && newgrp kvm",
            );
            Err(msg)
        },
        None => Ok(()),
    }
}

/// Whether a line of the user list is that of the jailed user: its third field is the UID.
pub open spec fn is_jailer_user(line: Seq<char>) -> bool {
    let fields = crate::text::fields(line, ':');
    fields.len() >= 3 && fields[2] == crate::decimal::decimal(JAILER_UID as nat)
}

/// Why there is no jailed user, if there is none. On systems other than Linux none is looked for.
pub open spec fn user_problem(platform: Platform, passwd: Option<PasswdFile>) -> Option<Seq<char>> {
    if !(platform is Linux) {
        None
    } else {
        match passwd {
            None => Some("Failed to read /etc/passwd"@),
            Some(file) => if exists|i: int|
                0 <= i < file.lines@.len() && is_jailer_user(#[trigger] file.lines@[i]@) {
                None
            } else {
                match file.read_error {
                    Some(e) => Some(e@),
                    None => Some(
                        "No user with uid "@ + crate::decimal::decimal(JAILER_UID as nat)
                            + " found. Run the install-firecracker.sh script to create the 'firecracker' system user."@,
                    ),
                }
            },
        }
    }
}

/// Verifies that the `firecracker` system user (uid 1100) exists.
pub fn check_jailer_user(platform: Platform, passwd: &Option<PasswdFile>) -> (r: Result<(), String>)
    ensures
        match r {
            Ok(()) => user_problem(platform, *passwd) is None,
            Err(msg) => user_problem(platform, *passwd) == Some(msg@),
        },
{
    if !platform.is_linux() {
        return Ok(());
    }
    let file = match passwd {
        Some(file) => file,
        None => return Err("Failed to read /etc/passwd".to_string()),
    };
    let uid = decimal_text(JAILER_UID as u64);
    let mut i: usize = 0;
    while i < file.lines.len()
        invariant
            i <= file.lines@.len(),
            platform is Linux,
            *passwd == Some(*file),
            uid@ == crate::decimal::decimal(JAILER_UID as nat),
            forall|k: int| 0 <= k < i ==> !is_jailer_user(#[trigger] file.lines@[k]@),
        decreases file.lines@.len() - i,
    {
        let line = chars_of(file.lines[i].as_str());
        let fields = split_fields(&line, ':');
        let ghost parts = crate::text::fields(file.lines@[i as int]@, ':');
        proof {
            assert(parts.len() == fields@.len());
            if fields@.len() >= 3 {
                assert(parts[2] == fields@[2]@);
            }
        }
        if fields.len() >= 3 && is_text(&fields[2], uid.as_str()) {
            return Ok(());
        }
        i += 1;
    }
    match &file.read_error {
        Some(e) => Err(e.clone()),
        None => {
            let mut msg = "No user with uid ".to_string();
            msg.append(uid.as_str());
            msg.append(
                " found. Run the install-firecracker.sh script to create the 'firecracker' system user.",
            );
            Err(msg)
        },
    }
}

/// Why assets cannot be hard-linked into the chroot, if they cannot. On systems other than Linux
/// this is not asked.
pub open spec fn filesystem_problem(
    platform: Platform,
    assets_exist: bool,
    jailer_dir_exists: bool,
    assets_device: Option<u64>,
    jailer_device: Option<u64>,
) -> Option<Seq<char>> {
    if !(platform is Linux) {
        None
    } else if !assets_exist {
        Some(
            "/opt/firecracker does not exist. Run install-firecracker.sh to install Firecracker assets."@,
        )
    } else if !jailer_dir_exists {
        Some(
            "/srv/jailer does not exist. Run install-firecracker.sh to create the jailer chroot base directory."@,
        )
    } else if assets_device is None {
        Some("Failed to stat /opt/firecracker"@)
    } else if jailer_device is None {
        Some("Failed to stat /srv/jailer"@)
    } else if assets_device != jailer_device {
        Some(
            "/opt/firecracker and /srv/jailer are on different filesystems. The jailer uses hard links, which cannot cross filesystem boundaries. Move assets to the same filesystem as /srv/jailer."@,
        )
    } else {
        None
    }
}

/// Verifies that /opt/firecracker and /srv/jailer are on the same filesystem
/// (required for hard-linking assets into the jailer chroot).
pub fn check_jailer_filesystem(
    platform: Platform,
    assets_exist: bool,
    jailer_dir_exists: bool,
    assets_device: Option<u64>,
    jailer_device: Option<u64>,
) -> (r: Result<(), String>)
    ensures
        match r {
            Ok(()) => filesystem_problem(
                platform,
                assets_exist,
                jailer_dir_exists,
                assets_device,
                jailer_device,
            ) is None,
            Err(msg) => filesystem_problem(
                platform,
                assets_exist,
                jailer_dir_exists,
                assets_device,
                jailer_device,
            ) == Some(msg@),
        },
{
    if !platform.is_linux() {
        return Ok(());
    }
    if !assets_exist {
        return Err(
            "/opt/firecracker does not exist. Run install-firecracker.sh to install Firecracker assets.".to_string(),
        );
    }
    if !jailer_dir_exists {
        return Err(
            "/srv/jailer does not exist. Run install-firecracker.sh to create the jailer chroot base directory.".to_string(),
        );
    }
    let assets: u64 = match assets_device {
        Some(device) => device,
        None => return Err("Failed to stat /opt/firecracker".to_string()),
    };
    let jailer: u64 = match jailer_device {
        Some(device) => device,
        None => return Err("Failed to stat /srv/jailer".to_string()),
    };
    if assets != jailer {
        return Err(
            "/opt/firecracker and /srv/jailer are on different filesystems. The jailer uses hard links, which cannot cross filesystem boundaries. Move assets to the same filesystem as /srv/jailer.".to_string(),
        );
    }
    Ok(())
}

/// Why there is no place for rootfs copies, if there is none. On systems other than Linux this
/// is not asked.
pub open spec fn images_problem(platform: Platform, exists: bool) -> Option<Seq<char>> {
    if !(platform is Linux) || exists {
        None
    } else {
        Some(VM_IMAGES_DIR@ + " does not exist. Run install-firecracker.sh to create it."@)
    }
}

/// Verifies that the vm-images directory exists.
pub fn check_vm_images_dir(platform: Platform, exists: bool) -> (r: Result<(), String>)
    ensures
        match r {
            Ok(()) => images_problem(platform, exists) is None,
            Err(msg) => images_problem(platform, exists) == Some(msg@),
        },
{
    if !platform.is_linux() || exists {
        Ok(())
    } else {
        let mut msg = VM_IMAGES_DIR.to_string();
        msg.append(" does not exist. Run install-firecracker.sh to create it.");
        Err(msg)
    }
}

/// The small file that is copied to see whether reflinks work, and its copy.
pub fn probe_paths() -> (r: (String, String))
    ensures
        r.0@ == crate::text::path_in(VM_IMAGES_DIR@, ".warlock-probe"@),
        r.1@ == crate::text::path_in(VM_IMAGES_DIR@, ".warlock-probe.reflink"@),
{
    (
        join_path(VM_IMAGES_DIR, ".warlock-probe"),
        join_path(VM_IMAGES_DIR, ".warlock-probe.reflink"),
    )
}

/// The command that copies the probe file by reflink.
pub fn probe_command() -> (r: CommandLine)
    ensures
        r@ == crate::vm::rootfs::copy_line(
            CopyStrategy::Reflink,
            crate::text::path_in(VM_IMAGES_DIR@, ".warlock-probe"@),
            crate::text::path_in(VM_IMAGES_DIR@, ".warlock-probe.reflink"@),
        ),
{
    let (source, target) = probe_paths();
    let args = vec!["--reflink=always", source.as_str(), target.as_str()];
    proof {
        assert(crate::text::slices(args@) =~= crate::vm::rootfs::copy_line(
            CopyStrategy::Reflink,
            source@,
            target@,
        ).1);
    }
    command("cp", args)
}

/// How rootfs images can be copied: by reflink if that worked on a probe file, and as
/// sparse files otherwise. On systems other than Linux reflinks are not tried.
pub open spec fn copy_strategy(
    platform: Platform,
    probe_written: bool,
    probe_copy: CommandOutcome,
) -> CopyStrategy {
    if platform is Linux && probe_written && probe_copy.ok() {
        CopyStrategy::Reflink
    } else {
        CopyStrategy::Sparse
    }
}

/// Detects whether the filesystem for rootfs copies supports reflink copies, from what came
/// of writing a probe file and of copying it. Falls back to sparse copies otherwise.
pub fn detect_copy_strategy(
    platform: Platform,
    probe_written: bool,
    probe_copy: &CommandOutcome,
) -> (r: CopyStrategy)
    ensures
        r == copy_strategy(platform, probe_written, *probe_copy),
{
    if platform.is_linux() && probe_written && probe_copy.succeeded() {
        CopyStrategy::Reflink
    } else {
        CopyStrategy::Sparse
    }
}

/// The cgroup version of the host: 2 if the unified hierarchy's list of controllers exists, and
/// 1 otherwise. On systems other than Linux it is taken to be 2.
pub open spec fn cgroup_version(platform: Platform, controllers_exist: bool) -> usize {
    if !(platform is Linux) || controllers_exist {
        2
    } else {
        1
    }
}

/// Detects whether the host uses cgroup v1 or v2.
pub fn detect_cgroup_version(platform: Platform, controllers_exist: bool) -> (r: usize)
    ensures
        r == cgroup_version(platform, controllers_exist),
{
    if !platform.is_linux() || controllers_exist {
        2
    } else {
        1
    }
}

/// The output by which Firecracker tells its version.
pub open spec fn version_output(facts: HostFacts) -> Seq<char> {
    crate::text::trimmed(facts.firecracker.version.out())
}

/// A part of the host that is looked at, in the order of the checks.
#[derive(Debug, Clone, Copy, PartialEq, Eq, Structural)]
pub enum Look {
    Firecracker,
    Jailer,
    Kvm,
    User,
    Filesystem,
    Images,
}

impl Look {
    /// How many parts are looked at before.
    pub open spec fn rank(self) -> int {
        match self {
            Look::Firecracker => 0,
            Look::Jailer => 1,
            Look::Kvm => 2,
            Look::User => 3,
            Look::Filesystem => 4,
            Look::Images => 5,
        }
    }

    /// What is looked at next.
    pub open spec fn after(self) -> Option<Look> {
        match self {
            Look::Firecracker => Some(Look::Jailer),
            Look::Jailer => Some(Look::Kvm),
            Look::Kvm => Some(Look::User),
            Look::User => Some(Look::Filesystem),
            Look::Filesystem => Some(Look::Images),
            Look::Images => None,
        }
    }

    /// Whether this part of the host passes its checks.
    pub open spec fn passes(self, facts: HostFacts) -> bool {
        match self {
            Look::Firecracker => firecracker_problem(facts.firecracker) is None
                && crate::firecracker::version::accepted_version(version_output(facts)) is Some,
            Look::Jailer => jailer_problem(facts.jailer) is None,
            Look::Kvm => kvm_problem(
                facts.platform,
                facts.kvm_exists,
                crate::text::optional(facts.kvm_error),
            ) is None,
            Look::User => user_problem(facts.platform, facts.passwd) is None,
            Look::Filesystem => filesystem_problem(
                facts.platform,
                facts.assets_exist,
                facts.jailer_dir_exists,
                facts.assets_device,
                facts.jailer_device,
            ) is None,
            Look::Images => images_problem(facts.platform, facts.images_dir_exists) is None,
        }
    }

    /// Whether this is reported of this part of the host, which does not pass its checks.
    pub open spec fn reports(self, facts: HostFacts, msg: Seq<char>) -> bool {
        match self {
            Look::Firecracker => if firecracker_problem(facts.firecracker) is Some {
                firecracker_problem(facts.firecracker) == Some(msg)
            } else {
                is_version_problem(version_output(facts), msg)
            },
            Look::Jailer => jailer_problem(facts.jailer) == Some(msg),
            Look::Kvm => kvm_problem(
                facts.platform,
                facts.kvm_exists,
                crate::text::optional(facts.kvm_error),
            ) == Some(msg),
            Look::User => user_problem(facts.platform, facts.passwd) == Some(msg),
            Look::Filesystem => filesystem_problem(
                facts.platform,
                facts.assets_exist,
                facts.jailer_dir_exists,
                facts.assets_device,
                facts.jailer_device,
            ) == Some(msg),
            Look::Images => images_problem(facts.platform, facts.images_dir_exists) == Some(msg),
        }
    }
}

/// Whether the host passes all checks of the parts up to this one.
pub open spec fn passes_up_to(facts: HostFacts, last: Look) -> bool {
    &&& Look::Firecracker.passes(facts)
    &&& last.rank() >= 1 ==> Look::Jailer.passes(facts)
    &&& last.rank() >= 2 ==> Look::Kvm.passes(facts)
    &&& last.rank() >= 3 ==> Look::User.passes(facts)
    &&& last.rank() >= 4 ==> Look::Filesystem.passes(facts)
    &&& last.rank() >= 5 ==> Look::Images.passes(facts)
}

/// Whether the host passes every check.
pub open spec fn passes(facts: HostFacts) -> bool {
    passes_up_to(facts, Look::Images)
}

/// The problem that is reported of a host that does not pass: the first one, in the order of
/// the checks.
pub open spec fn is_first_problem(facts: HostFacts, msg: Seq<char>) -> bool {
    if !Look::Firecracker.passes(facts) {
        Look::Firecracker.reports(facts, msg)
    } else if !Look::Jailer.passes(facts) {
        Look::Jailer.reports(facts, msg)
    } else if !Look::Kvm.passes(facts) {
        Look::Kvm.reports(facts, msg)
    } else if !Look::User.passes(facts) {
        Look::User.reports(facts, msg)
    } else if !Look::Filesystem.passes(facts) {
        Look::Filesystem.reports(facts, msg)
    } else {
        Look::Images.reports(facts, msg)
    }
}

/// What is reported of an output that names no supported version.
pub open spec fn is_version_problem(output: Seq<char>, msg: Seq<char>) -> bool {
    match crate::firecracker::version::version_text(output) {
        None => if crate::text::lines(output).len() == 0 {
            msg == "Version output was empty"@
        } else {
            msg == "No version number found in output: "@ + crate::text::lines(output)[0]
        },
        Some(text) => match crate::firecracker::version::semver_of(text) {
            None => msg == "Failed to parse Firecracker version string"@,
            Some(v) => msg == "Firecracker version "@ + crate::firecracker::version::semver_text(v)
                + " is too old. Minimum required: 1.14.1"@,
        },
    }
}

impl JailerConfig {
    /// Whether the settings that the checks do not decide are those of the site.
    pub open spec fn is_at(self, site: HostSite) -> bool {
        &&& self.kernel_path@ == site.kernel_path@
        &&& self.rootfs_path@ == site.rootfs_path@
        &&& self.vm_images_dir@ == site.vm_images_dir@
        &&& self.host_interface@ == site.host_interface@
    }
}

/// Judges one part of the host.
fn check_part(facts: &HostFacts, look: Look) -> (r: Result<(), String>)
    ensures
        match r {
            Ok(()) => look.passes(*facts),
            Err(msg) => !look.passes(*facts) && look.reports(*facts, msg@),
        },
{
    match look {
        Look::Firecracker => {
            let (output, _) = match check_firecracker_binary(&facts.firecracker) {
                Ok(found) => found,
                Err(msg) => return Err(msg),
            };
            match parse_and_validate_version(output.as_str()) {
                Ok(_) => Ok(()),
                Err(e) => Err(e.message()),
            }
        },
        Look::Jailer => match check_jailer_binary(&facts.jailer) {
            Ok(_) => Ok(()),
            Err(msg) => Err(msg),
        },
        Look::Kvm => check_kvm_available(facts.platform, facts.kvm_exists, &facts.kvm_error),
        Look::User => check_jailer_user(facts.platform, &facts.passwd),
        Look::Filesystem => check_jailer_filesystem(
            facts.platform,
            facts.assets_exist,
            facts.jailer_dir_exists,
            facts.assets_device,
            facts.jailer_device,
        ),
        Look::Images => check_vm_images_dir(facts.platform, facts.images_dir_exists),
    }
}

/// Judges the host as far as it has been looked at, up to and with the part `last`. Returns
/// what is to be looked at next, if anything is left, or the first problem.
pub fn check_up_to(facts: &HostFacts, last: Look) -> (r: Result<Option<Look>, String>)
    ensures
        match r {
            Ok(next) => passes_up_to(*facts, last) && next == last.after(),
            Err(msg) => !passes_up_to(*facts, last) && is_first_problem(*facts, msg@),
        },
{
    let mut look = Look::Firecracker;
    loop
        invariant
            look.rank() <= last.rank(),
            look.rank() >= 1 ==> Look::Firecracker.passes(*facts),
            look.rank() >= 2 ==> Look::Jailer.passes(*facts),
            look.rank() >= 3 ==> Look::Kvm.passes(*facts),
            look.rank() >= 4 ==> Look::User.passes(*facts),
            look.rank() >= 5 ==> Look::Filesystem.passes(*facts),
        decreases 5 - look.rank(),
    {
        match check_part(facts, look) {
            Ok(()) => {},
            Err(msg) => return Err(msg),
        }
        let next = match look {
            Look::Firecracker => Look::Jailer,
            Look::Jailer => Look::Kvm,
            Look::Kvm => Look::User,
            Look::User => Look::Filesystem,
            Look::Filesystem => Look::Images,
            Look::Images => return Ok(None),
        };
        if look == last {
            return Ok(Some(next));
        }
        look = next;
    }
}

/// Judges all that was found out about the host. Returns the settings that were detected, or
/// the first problem. In development mode nothing is checked, and the settings are defaults.
pub fn preflight_check(dev_mode: bool, facts: &HostFacts, site: HostSite) -> (r: Result<
    JailerConfig,
    String,
>)
    ensures
        match r {
            Ok(config) => {
                &&& config.is_at(site)
                &&& if dev_mode {
                    &&& config.cgroup_version == 2
                    &&& config.firecracker_path@ == "firecracker"@
                    &&& config.jailer_path@ == "jailer"@
                    &&& config.copy_strategy == CopyStrategy::Sparse
                } else {
                    &&& passes(*facts)
                    &&& config.cgroup_version == cgroup_version(
                        facts.platform,
                        facts.cgroup_controllers,
                    )
                    &&& path_of(facts.firecracker, "firecracker"@) == Some(config.firecracker_path@)
                    &&& path_of(facts.jailer, "jailer"@) == Some(config.jailer_path@)
                    &&& config.copy_strategy == copy_strategy(
                        facts.platform,
                        facts.probe_written,
                        facts.probe_copy,
                    )
                }
            },
            Err(msg) => !dev_mode && !passes(*facts) && is_first_problem(*facts, msg@),
        },
{
    let HostSite { kernel_path, rootfs_path, vm_images_dir, host_interface } = site;
    if dev_mode {
        return Ok(
            JailerConfig {
                cgroup_version: 2,
                firecracker_path: "firecracker".to_string(),
                jailer_path: "jailer".to_string(),
                kernel_path,
                rootfs_path,
                vm_images_dir,
                copy_strategy: CopyStrategy::Sparse,
                host_interface,
            },
        );
    }
    match check_up_to(facts, Look::Images) {
        Ok(_) => {},
        Err(msg) => return Err(msg),
    }
    let (_, firecracker_path) = match check_firecracker_binary(&facts.firecracker) {
        Ok(found) => found,
        Err(msg) => return Err(msg),
    };
    let jailer_path = match check_jailer_binary(&facts.jailer) {
        Ok(path) => path,
        Err(msg) => return Err(msg),
    };
    Ok(
        JailerConfig {
            cgroup_version: detect_cgroup_version(facts.platform, facts.cgroup_controllers),
            firecracker_path,
            jailer_path,
            kernel_path,
            rootfs_path,
            vm_images_dir,
            copy_strategy: detect_copy_strategy(
                facts.platform,
                facts.probe_written,
                &facts.probe_copy,
            ),
            host_interface,
        },
    )
}

/// Development mode is asked for by `WARLOCK_DEV=true` and by `RUST_ENV=development`, and by
/// nothing else.
pub proof fn development_mode_is_asked_for(dev: Option<&str>, env: Option<&str>, r: bool)
    requires
        call_ensures(is_dev_mode, (dev, env), r),
    ensures
        r <==> (dev is Some && dev->0@ == "true"@) || (env is Some && env->0@ == "development"@),
{
}

/// A binary that is configured by an absolute path is there; any other is where the search
/// found it; one that was not found is an error that names it and its variable.
pub proof fn binaries_are_where_they_were_found(
    b: BinaryFacts,
    env_var: &str,
    default_name: &str,
    r: Result<String, String>,
)
    requires
        call_ensures(resolve_binary_path, (&b, env_var, default_name), r),
    ensures
        b.configured is Some && b.configured->0@.len() > 0 && b.configured->0@[0] == '/' ==> (
        r matches Ok(path) && path@ == b.configured->0@),
        b.configured is Some && !(b.configured->0@.len() > 0 && b.configured->0@[0] == '/')
            && b.found is Some ==> (r matches Ok(path) && path@ == b.found->0@),
        b.configured is None && !(default_name@.len() > 0 && default_name@[0] == '/') && b.found
            is Some ==> (r matches Ok(path) && path@ == b.found->0@),
        r is Err ==> b.found is None,
        r matches Err(msg) ==> msg@ == "Could not find '"@ + (if b.configured is Some {
            b.configured->0@
        } else {
            default_name@
        }) + "' in PATH. Set `"@ + env_var@ + "` environment variable to the absolute path."@,
        b.configured is Some && !(b.configured->0@.len() > 0 && b.configured->0@[0] == '/')
            && b.found is None ==> r is Err,
        b.configured is None && !(default_name@.len() > 0 && default_name@[0] == '/') && b.found
            is None ==> r is Err,
{
}

/// The name that a binary is searched by is the configured one, or else the default.
pub proof fn configured_names_count(name: &str, default_name: &str, r: String, s: String)
    requires
        call_ensures(binary_name, (Some(name), default_name), r),
        call_ensures(binary_name, (None::<&str>, default_name), s),
    ensures
        r@ == name@,
        s@ == default_name@,
{
}

/// Firecracker passes exactly if it was found, told its version with success, and told
/// anything at all; the jailer exactly if it was found and told its version with success. Each
/// is then used from where it was found.
pub proof fn working_binaries_pass(
    b: BinaryFacts,
    fc_path: Result<String, String>,
    fc: Result<(String, String), String>,
    jailer_path: Result<String, String>,
    jailer: Result<String, String>,
    fc_var: &str,
    fc_name: &str,
    jailer_var: &str,
    jailer_name: &str,
)
    requires
        fc_var@ == "FIRECRACKER_BIN"@,
        fc_name@ == "firecracker"@,
        jailer_var@ == "JAILER_BIN"@,
        jailer_name@ == "jailer"@,
        call_ensures(resolve_binary_path, (&b, fc_var, fc_name), fc_path),
        call_ensures(check_firecracker_binary, (&b,), fc),
        call_ensures(resolve_binary_path, (&b, jailer_var, jailer_name), jailer_path),
        call_ensures(check_jailer_binary, (&b,), jailer),
    ensures
        fc is Ok <==> fc_path is Ok && b.version.ok() && exists|i: int|
            0 <= i < b.version.out().len() && !crate::text::white(#[trigger] b.version.out()[i]),
        fc matches Ok((output, path)) ==> path@ == fc_path->Ok_0@ && output@
            == crate::text::trimmed(b.version.out()),
        fc_path matches Err(msg) ==> (fc matches Err(other) && other@ == msg@),
        jailer is Ok <==> jailer_path is Ok && b.version.ok(),
        jailer matches Ok(path) ==> path@ == jailer_path->Ok_0@,
        jailer_path matches Err(msg) ==> (jailer matches Err(other) && other@ == msg@),
        fc_path is Ok && b.version is Finished && !b.version.ok() ==> (fc matches Err(msg) && msg@
            == "Firecracker execution failed: "@ + b.version.err()),
        jailer_path is Ok && b.version is Finished && !b.version.ok() ==> (jailer matches Err(msg)
            && msg@ == "Jailer execution failed: "@ + b.version.err()),
{
    let out = b.version.out();
    let (lead, tail) = crate::text::trimmed_parts(out);
    let t = crate::text::trimmed(out);
    if t.len() > 0 {
        assert(out[lead.len() as int] == t[0]);
        assert(!crate::text::white(out[lead.len() as int]));
    } else {
        assert forall|i: int| 0 <= i < out.len() implies crate::text::white(#[trigger] out[i]) by {
            if i < lead.len() {
                assert(crate::text::white(lead[i]));
                assert(out[i] == lead[i]);
            } else {
                assert(crate::text::white(tail[i - lead.len()]));
                assert(out[i] == tail[i - lead.len()]);
            }
        }
    }
}

/// On Linux KVM passes if its device exists and can be accessed; the file systems if both
/// directories exist and lie on one device; the copies if their directory exists.
pub proof fn linux_hosts_pass(
    exists: bool,
    error: Option<String>,
    kvm: Result<(), String>,
    assets: bool,
    jailer: bool,
    assets_device: Option<u64>,
    jailer_device: Option<u64>,
    filesystem: Result<(), String>,
    images: Result<(), String>,
)
    requires
        call_ensures(check_kvm_available, (Platform::Linux, exists, &error), kvm),
        call_ensures(
            check_jailer_filesystem,
            (Platform::Linux, assets, jailer, assets_device, jailer_device),
            filesystem,
        ),
        call_ensures(check_vm_images_dir, (Platform::Linux, exists), images),
    ensures
        kvm is Ok <==> exists && error is None,
        filesystem is Ok <==> assets && jailer && assets_device is Some && assets_device
            == jailer_device,
        images is Ok <==> exists,
        exists && error is Some ==> (kvm matches Err(msg) && ("Cannot access /dev/kvm: "@
            + error->0@).is_prefix_of(msg@)),
{
    if exists && error is Some {
        let front = "Cannot access /dev/kvm: "@ + error->0@;
        let msg = kvm->Err_0@;
        assert(front =~= msg.subrange(0, front.len() as int));
    }
}

/// The jailed user is found in any line whose third field is 1100, whatever its other fields
/// and whatever the other lines, and in no other.
pub proof fn jailed_user_is_found(file: PasswdFile, r: Result<(), String>)
    requires
        call_ensures(check_jailer_user, (Platform::Linux, &Some(file)), r),
    ensures
        r is Ok <==> exists|i: int|
            {
                &&& 0 <= i < file.lines@.len()
                &&& crate::text::fields(#[trigger] file.lines@[i]@, ':').len() >= 3
                &&& crate::text::fields(file.lines@[i]@, ':')[2] == seq!['1', '1', '0', '0']
            },
        r matches Err(msg) ==> (file.read_error is Some ==> msg@ == file.read_error->0@),
{
    reveal_with_fuel(crate::decimal::decimal, 5);
    assert(crate::decimal::decimal(1100) =~= seq!['1', '1', '0', '0']);
    if exists|i: int|
        {
            &&& 0 <= i < file.lines@.len()
            &&& crate::text::fields(#[trigger] file.lines@[i]@, ':').len() >= 3
            &&& crate::text::fields(file.lines@[i]@, ':')[2] == seq!['1', '1', '0', '0']
        } {
        let i = choose|i: int|
            {
                &&& 0 <= i < file.lines@.len()
                &&& crate::text::fields(#[trigger] file.lines@[i]@, ':').len() >= 3
                &&& crate::text::fields(file.lines@[i]@, ':')[2] == seq!['1', '1', '0', '0']
            };
        assert(is_jailer_user(file.lines@[i]@));
    }
}

/// A line `<name>:<password>:1100`, with more fields or without, is that of the jailed user.
pub proof fn user_line_is_recognized(name: Seq<char>, password: Seq<char>, more: Seq<char>)
    requires
        !name.contains(':'),
        !password.contains(':'),
    ensures
        is_jailer_user(name + seq![':'] + (password + seq![':'] + seq!['1', '1', '0', '0'])),
        is_jailer_user(
            name + seq![':'] + (password + seq![':'] + (seq!['1', '1', '0', '0'] + seq![':']
                + more)),
        ),
{
    reveal_with_fuel(crate::decimal::decimal, 5);
    let uid = seq!['1', '1', '0', '0'];
    assert(crate::decimal::decimal(1100) =~= uid);
    assert(!uid.contains(':'));
    let short = password + seq![':'] + uid;
    let long = password + seq![':'] + (uid + seq![':'] + more);
    crate::text::first_field(name, ':', short);
    crate::text::first_field(password, ':', uid);
    crate::text::first_field(uid, ':', more);
    crate::text::first_field(name, ':', long);
    crate::text::first_field(password, ':', uid + seq![':'] + more);
    assert(crate::text::fields(name + seq![':'] + short, ':')[2] == uid);
    assert(crate::text::fields(name + seq![':'] + long, ':')[2] == uid);
}

/// What is reported of a host is what the first check reports that it does not pass, in the
/// order: Firecracker, its version, the jailer, KVM, the user, the file systems, the copies.
pub proof fn first_failed_check_is_reported(
    facts: HostFacts,
    site: HostSite,
    r: Result<JailerConfig, String>,
    fc: Result<(String, String), String>,
    version: Result<crate::firecracker::version::Version, crate::firecracker::version::VersionError>,
    told: String,
    output: &str,
    jailer: Result<String, String>,
    kvm: Result<(), String>,
    user: Result<(), String>,
    filesystem: Result<(), String>,
    images: Result<(), String>,
)
    requires
        call_ensures(preflight_check, (false, &facts, site), r),
        call_ensures(check_firecracker_binary, (&facts.firecracker,), fc),
        fc is Ok ==> output@ == fc->Ok_0.0@,
        call_ensures(parse_and_validate_version, (output,), version),
        version is Err ==> call_ensures(
            crate::firecracker::version::VersionError::message,
            (&version->Err_0,),
            told,
        ),
        call_ensures(check_jailer_binary, (&facts.jailer,), jailer),
        call_ensures(
            check_kvm_available,
            (facts.platform, facts.kvm_exists, &facts.kvm_error),
            kvm,
        ),
        call_ensures(check_jailer_user, (facts.platform, &facts.passwd), user),
        call_ensures(
            check_jailer_filesystem,
            (
                facts.platform,
                facts.assets_exist,
                facts.jailer_dir_exists,
                facts.assets_device,
                facts.jailer_device,
            ),
            filesystem,
        ),
        call_ensures(check_vm_images_dir, (facts.platform, facts.images_dir_exists), images),
    ensures
        fc matches Err(msg) ==> (r matches Err(m) && m@ == msg@),
        fc is Ok && version is Err ==> (r matches Err(m) && m@ == told@),
        fc is Ok && version is Ok ==> (jailer matches Err(msg) ==> (r matches Err(m) && m@ == msg@)),
        fc is Ok && version is Ok && jailer is Ok ==> (kvm matches Err(msg) ==> (r matches Err(m)
            && m@ == msg@)),
        fc is Ok && version is Ok && jailer is Ok && kvm is Ok ==> (user matches Err(msg) ==> (
        r matches Err(m) && m@ == msg@)),
        fc is Ok && version is Ok && jailer is Ok && kvm is Ok && user is Ok ==> (
        filesystem matches Err(msg) ==> (r matches Err(m) && m@ == msg@)),
        fc is Ok && version is Ok && jailer is Ok && kvm is Ok && user is Ok && filesystem is Ok
            ==> (images matches Err(msg) ==> (r matches Err(m) && m@ == msg@)),
        r is Ok <==> fc is Ok && version is Ok && jailer is Ok && kvm is Ok && user is Ok
            && filesystem is Ok && images is Ok,
        r matches Ok(config) ==> {
            &&& config.firecracker_path@ == fc->Ok_0.1@
            &&& config.jailer_path@ == jailer->Ok_0@
            &&& config.kernel_path@ == site.kernel_path@
            &&& config.rootfs_path@ == site.rootfs_path@
            &&& config.vm_images_dir@ == site.vm_images_dir@
            &&& config.host_interface@ == site.host_interface@
        },
{
}

/// The settings of a Linux host are detected: its cgroup version by the list of controllers,
/// and reflinks by the probe. Elsewhere, and in development mode, they are defaults.
pub proof fn settings_are_detected(
    platform: Platform,
    controllers: bool,
    version: usize,
    written: bool,
    copy: CommandOutcome,
    strategy: CopyStrategy,
    facts: HostFacts,
    site: HostSite,
    dev: Result<JailerConfig, String>,
    live: Result<JailerConfig, String>,
)
    requires
        call_ensures(detect_cgroup_version, (platform, controllers), version),
        call_ensures(detect_copy_strategy, (platform, written, &copy), strategy),
        call_ensures(preflight_check, (true, &facts, site), dev),
        call_ensures(preflight_check, (false, &facts, site), live),
    ensures
        version == if platform == Platform::Linux && !controllers {
            1usize
        } else {
            2
        },
        strategy is Reflink <==> platform == Platform::Linux && written && copy.ok(),
        dev matches Ok(config) && config.cgroup_version == 2 && config.firecracker_path@
            == "firecracker"@ && config.jailer_path@ == "jailer"@ && config.copy_strategy is Sparse
            && config.kernel_path@ == site.kernel_path@ && config.rootfs_path@ == site.rootfs_path@
            && config.vm_images_dir@ == site.vm_images_dir@ && config.host_interface@
            == site.host_interface@,
        live matches Ok(config) ==> {
            &&& config.cgroup_version == if facts.platform == Platform::Linux
                && !facts.cgroup_controllers {
                1usize
            } else {
                2
            }
            &&& config.copy_strategy is Reflink <==> facts.platform == Platform::Linux
                && facts.probe_written && facts.probe_copy.ok()
        },
{
}

/// A host that was looked at in part is judged like one that was looked at as a whole, as far
/// as that goes; after the last part nothing is left.
pub proof fn partial_look_agrees(
    facts: HostFacts,
    site: HostSite,
    last: Look,
    part: Result<Option<Look>, String>,
    all: Result<Option<Look>, String>,
    r: Result<JailerConfig, String>,
)
    requires
        call_ensures(check_up_to, (&facts, last), part),
        call_ensures(check_up_to, (&facts, Look::Images), all),
        call_ensures(preflight_check, (false, &facts, site), r),
    ensures
        part is Err ==> all is Err && r is Err,
        all is Ok <==> r is Ok,
        all matches Ok(next) ==> next is None,
        part matches Ok(next) ==> next == match last {
            Look::Firecracker => Some(Look::Jailer),
            Look::Jailer => Some(Look::Kvm),
            Look::Kvm => Some(Look::User),
            Look::User => Some(Look::Filesystem),
            Look::Filesystem => Some(Look::Images),
            Look::Images => None,
        },
{
}

/// On systems other than Linux only the binaries are checked.
pub proof fn other_hosts_pass(
    platform: Platform,
    exists: bool,
    error: Option<String>,
    passwd: Option<PasswdFile>,
    kvm: Result<(), String>,
    user: Result<(), String>,
    filesystem: Result<(), String>,
    images: Result<(), String>,
)
    requires
        platform != Platform::Linux,
        call_ensures(check_kvm_available, (platform, exists, &error), kvm),
        call_ensures(check_jailer_user, (platform, &passwd), user),
        call_ensures(
            check_jailer_filesystem,
            (platform, exists, exists, None::<u64>, None::<u64>),
            filesystem,
        ),
        call_ensures(check_vm_images_dir, (platform, exists), images),
    ensures
        kvm is Ok && user is Ok && filesystem is Ok && images is Ok,
{
}

/// The probe copies a small file by reflink within the directory of the rootfs copies.
pub proof fn probe_copies_beside(paths: (String, String), line: CommandLine)
    requires
        call_ensures(probe_paths, (), paths),
        call_ensures(probe_command, (), line),
    ensures
        line@ == ("cp"@, seq!["--reflink=always"@, paths.0@, paths.1@]),
        VM_IMAGES_DIR@.is_prefix_of(paths.0@) && VM_IMAGES_DIR@.is_prefix_of(paths.1@),
        paths.0@ != paths.1@,
{
    reveal_strlit("/srv/jailer/vm-images");
    reveal_strlit(".warlock-probe");
    reveal_strlit(".warlock-probe.reflink");
    reveal_strlit("/");
    let dir = VM_IMAGES_DIR@;
    assert(dir =~= paths.0@.subrange(0, dir.len() as int));
    assert(dir =~= paths.1@.subrange(0, dir.len() as int));
    assert(paths.0@.len() != paths.1@.len());
}

/// A host that was looked at up to some part passes exactly if it passes the checks of that
/// part and of all parts before it; else the first check that it does not pass is reported.
pub proof fn partial_look_checks_all_before(
    facts: HostFacts,
    last: Look,
    r: Result<Option<Look>, String>,
    fc: Result<(String, String), String>,
    version: Result<crate::firecracker::version::Version, crate::firecracker::version::VersionError>,
    output: &str,
    jailer: Result<String, String>,
    kvm: Result<(), String>,
    user: Result<(), String>,
    filesystem: Result<(), String>,
    images: Result<(), String>,
)
    requires
        call_ensures(check_up_to, (&facts, last), r),
        call_ensures(check_firecracker_binary, (&facts.firecracker,), fc),
        fc is Ok ==> output@ == fc->Ok_0.0@,
        call_ensures(parse_and_validate_version, (output,), version),
        call_ensures(check_jailer_binary, (&facts.jailer,), jailer),
        call_ensures(
            check_kvm_available,
            (facts.platform, facts.kvm_exists, &facts.kvm_error),
            kvm,
        ),
        call_ensures(check_jailer_user, (facts.platform, &facts.passwd), user),
        call_ensures(
            check_jailer_filesystem,
            (
                facts.platform,
                facts.assets_exist,
                facts.jailer_dir_exists,
                facts.assets_device,
                facts.jailer_device,
            ),
            filesystem,
        ),
        call_ensures(check_vm_images_dir, (facts.platform, facts.images_dir_exists), images),
    ensures
        ({
            let tool = fc is Ok && version is Ok;
            let to_jailer = tool && jailer is Ok;
            let to_kvm = to_jailer && kvm is Ok;
            let to_user = to_kvm && user is Ok;
            let to_filesystem = to_user && filesystem is Ok;
            let to_images = to_filesystem && images is Ok;
            &&& r is Ok <==> match last {
                Look::Firecracker => tool,
                Look::Jailer => to_jailer,
                Look::Kvm => to_kvm,
                Look::User => to_user,
                Look::Filesystem => to_filesystem,
                Look::Images => to_images,
            }
            &&& r matches Err(m) ==> (fc matches Err(msg) ==> m@ == msg@)
            &&& r matches Err(m) ==> (tool ==> (jailer matches Err(msg) ==> m@ == msg@))
            &&& r matches Err(m) ==> (to_jailer ==> (kvm matches Err(msg) ==> m@ == msg@))
            &&& r matches Err(m) ==> (to_kvm ==> (user matches Err(msg) ==> m@ == msg@))
            &&& r matches Err(m) ==> (to_user ==> (filesystem matches Err(msg) ==> m@ == msg@))
            &&& r matches Err(m) ==> (to_filesystem ==> (images matches Err(msg) ==> m@ == msg@))
        }),
{
}

/// Each problem of a host is reported in its own words.
pub proof fn problems_are_named(
    b: BinaryFacts,
    fc: Result<(String, String), String>,
    jailer: Result<String, String>,
    exists: bool,
    error: Option<String>,
    kvm: Result<(), String>,
    assets: bool,
    jail: bool,
    assets_device: Option<u64>,
    jail_device: Option<u64>,
    filesystem: Result<(), String>,
    images: Result<(), String>,
    nobody: Result<(), String>,
    file: PasswdFile,
    user: Result<(), String>,
)
    requires
        call_ensures(check_firecracker_binary, (&b,), fc),
        call_ensures(check_jailer_binary, (&b,), jailer),
        call_ensures(check_kvm_available, (Platform::Linux, exists, &error), kvm),
        call_ensures(
            check_jailer_filesystem,
            (Platform::Linux, assets, jail, assets_device, jail_device),
            filesystem,
        ),
        call_ensures(check_vm_images_dir, (Platform::Linux, exists), images),
        call_ensures(check_jailer_user, (Platform::Linux, &None::<PasswdFile>), nobody),
        call_ensures(check_jailer_user, (Platform::Linux, &Some(file)), user),
    ensures
        b.configured is None && b.found is Some && b.version is NotStarted ==> {
            &&& fc matches Err(msg) && msg@ == "Failed to execute Firecracker binary at '"@
                + b.found->0@
                + "'. Install Firecracker from https://github.com/firecracker-microvm/firecracker or set `FIRECRACKER_BIN` environment variable to the correct path."@
            &&& jailer matches Err(msg) && msg@ == "Failed to execute jailer binary at '"@
                + b.found->0@
                + "'. The jailer is included in Firecracker releases. Set `JAILER_BIN` environment variable if it is installed elsewhere."@
        },
        b.configured is None && b.found is Some && b.version.ok() ==> (fc matches Err(msg) ==> msg@
            == "Firecracker version output was empty"@),
        b.configured is None && b.found is None ==> {
            &&& fc matches Err(msg) && msg@ == "Could not find '"@ + "firecracker"@
                + "' in PATH. Set `"@ + "FIRECRACKER_BIN"@
                + "` environment variable to the absolute path."@
            &&& jailer matches Err(msg) && msg@ == "Could not find '"@ + "jailer"@
                + "' in PATH. Set `"@ + "JAILER_BIN"@
                + "` environment variable to the absolute path."@
        },
        !exists ==> (kvm matches Err(msg) && msg@
            == "KVM device not found at /dev/kvm. Ensure KVM is enabled in your kernel and BIOS. On Ubuntu/Debian, try: sudo modprobe kvm kvm_intel (or kvm_amd for AMD CPUs)"@),
        exists && error is Some ==> (kvm matches Err(msg) && msg@ == "Cannot access /dev/kvm: "@
            + error->0@
            + ". You may need to add your user to the kvm group: sudo usermod -aG kvm $USER && newgrp kvm"@),
        !assets ==> (filesystem matches Err(msg) && msg@
            == "/opt/firecracker does not exist. Run install-firecracker.sh to install Firecracker assets."@),
        assets && !jail ==> (filesystem matches Err(msg) && msg@
            == "/srv/jailer does not exist. Run install-firecracker.sh to create the jailer chroot base directory."@),
        assets && jail && assets_device is None ==> (filesystem matches Err(msg) && msg@
            == "Failed to stat /opt/firecracker"@),
        assets && jail && assets_device is Some && jail_device is None ==> (
        filesystem matches Err(msg) && msg@ == "Failed to stat /srv/jailer"@),
        assets && jail && assets_device is Some && jail_device is Some && assets_device
            != jail_device ==> (filesystem matches Err(msg) && msg@
            == "/opt/firecracker and /srv/jailer are on different filesystems. The jailer uses hard links, which cannot cross filesystem boundaries. Move assets to the same filesystem as /srv/jailer."@),
        !exists ==> (images matches Err(msg) && msg@ == "/srv/jailer/vm-images"@
            + " does not exist. Run install-firecracker.sh to create it."@),
        nobody matches Err(msg) && msg@ == "Failed to read /etc/passwd"@,
        user is Err && file.read_error is None ==> (user matches Err(msg) && msg@
            == "No user with uid "@ + seq!['1', '1', '0', '0']
            + " found. Run the install-firecracker.sh script to create the 'firecracker' system user."@),
{
    reveal_with_fuel(crate::decimal::decimal, 5);
    assert(crate::decimal::decimal(1100) =~= seq!['1', '1', '0', '0']);
    reveal_strlit("firecracker");
    reveal_strlit("jailer");
}

/// On systems other than Linux the directories and their devices do not matter.
pub proof fn other_hosts_need_no_jail(
    platform: Platform,
    assets: bool,
    jail: bool,
    assets_device: Option<u64>,
    jail_device: Option<u64>,
    r: Result<(), String>,
)
    requires
        platform != Platform::Linux,
        call_ensures(
            check_jailer_filesystem,
            (platform, assets, jail, assets_device, jail_device),
            r,
        ),
    ensures
        r is Ok,
{
}

} // verus!

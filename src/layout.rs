//! Fixed locations of the boot layout and the small path computations on them.
use vstd::prelude::*;

verus! {

/// The dedicated bin directory, made writable by a tmpfs or found writable.
pub const SCRATCH_BIN: &'static str = "/sbin";
/// The system's own binary directory, made writable by an overlay.
pub const SYSTEM_BIN: &'static str = "/system/bin";
pub const ROOT: &'static str = "/";
pub const PROC: &'static str = "/proc";
pub const DEV: &'static str = "/dev";
pub const SYSTEM: &'static str = "/system";
pub const DATA: &'static str = "/data";
/// The kernel's release string, ending in a newline.
pub const KERNEL_RELEASE_FILE: &'static str = "/proc/sys/kernel/osrelease";
/// Kernel modules live under `MODULES_ROOT<release>KERNEL_FS_DIR`.
pub const MODULES_ROOT: &'static str = "/system/lib/modules/";
pub const KERNEL_FS_DIR: &'static str = "/kernel/fs/";
pub const EXPORTFS_MODULE: &'static str = "exportfs/exportfs.ko";
pub const OVERLAY_MODULE: &'static str = "overlayfs/overlay.ko";
pub const OVERLAY_UPPER: &'static str = "/dev/upper";
pub const OVERLAY_WORK: &'static str = "/dev/work";
/// Where the mode helper is extracted, run and removed.
pub const MODE_HELPER: &'static str = "/dev/chmod";
/// Where the policy tool may have been left by an earlier run.
pub const POLICY_TOOL: &'static str = "/dev/magiskpolicy";
pub const BIN_MODE: u32 = 0o755;
pub const SERVICE_DEF_MODE: u32 = 0o750;
/// The service definition read by the real init.
pub const SERVICE_DEF: &'static str = "/init.superuser.rc";
/// Where the service definition is staged when the root is read-only.
pub const SERVICE_DEF_STAGING: &'static str = "/dev/su.rc";
/// The token in the service definition that stands for the binary's path.
pub const BINARY_PLACEHOLDER: &'static str = "magisk_bin_path";
pub const BINARY_NAME: &'static str = "magisk";
pub const DAEMON_CONFIG: &'static str = ".magisk/config";
pub const MODULES_MIRROR: &'static str = ".magisk/modules";
pub const DATA_MIRROR: &'static str = ".magisk/mirror/data";
pub const SYSTEM_MIRROR: &'static str = ".magisk/mirror/system";
pub const LOCAL_BINARY: &'static str = "/data/.rusty-magisk/magisk";
pub const PACKAGE: &'static str = "/data/magisk.apk";
pub const LOCAL_PACKAGE: &'static str = "/data/.rusty-magisk/magisk.apk";
/// The registry of installed application packages.
pub const PACKAGE_REGISTRY: &'static str = "/data/system/packages.list";
pub const PACKAGE_ID: &'static str = "com.topjohnwu.magisk";
pub const HOOK_MODULES: &'static str = "/data/adb/modules";
pub const HOOK_POST_FS_DATA: &'static str = "/data/adb/post-fs-data.d";
pub const HOOK_SERVICE: &'static str = "/data/adb/service.d";
/// The real init, which takes over the process.
pub const INIT_REAL: &'static str = "/init.real";
pub const FIRST_STAGE_VAR: &'static str = "FIRST_STAGE";
pub const STANDALONE_VAR: &'static str = "ASH_STANDALONE";
pub const MARKER_ON: &'static str = "1";
pub const APPLET_COUNT: usize = 4;
/// The name of the applet that takes over the system's own su binaries.
pub const SU_NAME: &'static str = "su";
pub const SYSTEM_SU: &'static str = "/system/bin/su";
pub const XBIN_SU: &'static str = "/system/xbin/su";

/// The names under which the binary is linked, by index.
pub open spec fn applet_name(i: int) -> Seq<char> {
    if i == 0 {
        "su"@
    } else if i == 1 {
        "resetprop"@
    } else if i == 2 {
        "magiskhide"@
    } else {
        "magiskpolicy"@
    }
}

pub fn applet(i: usize) -> (r: &'static str)
    ensures
        r@ == applet_name(i as int),
{
    if i == 0 {
        "su"
    } else if i == 1 {
        "resetprop"
    } else if i == 2 {
        "magiskhide"
    } else {
        "magiskpolicy"
    }
}

/// The on-disk path of a kernel module for a kernel release.
pub open spec fn module_file(release: Seq<char>, module: Seq<char>) -> Seq<char> {
    MODULES_ROOT@ + release + KERNEL_FS_DIR@ + module
}

pub fn kernel_module_path(release: &str, module: &str) -> (r: String)
    ensures
        r@ == module_file(release@, module@),
{
    let mut r = String::from_str(MODULES_ROOT);
    r.append(release);
    r.append(KERNEL_FS_DIR);
    r.append(module);
    r
}

pub fn owned(s: &str) -> (r: String)
    ensures
        r@ == s@,
{
    String::from_str(s)
}

/// `dir` followed by a separator and `name`.
pub open spec fn child(dir: Seq<char>, name: Seq<char>) -> Seq<char> {
    dir + seq!['/'] + name
}

/// `text` without one trailing newline, if it ends in one.
pub open spec fn strip_newline(text: Seq<char>) -> Seq<char> {
    if text.len() > 0 && text.last() == '\n' {
        text.drop_last()
    } else {
        text
    }
}

/// Builds `dir/name`.
pub fn join(dir: &str, name: &str) -> (r: String)
    ensures
        r@ == child(dir@, name@),
{
    let mut r = String::from_str(dir);
    r.append("/");
    r.append(name);
    proof {
        reveal_strlit("/");
        assert(r@ =~= child(dir@, name@));
    }
    r
}

/// Removes one trailing newline, as the kernel ends its release file with one.
pub fn trim_newline(text: &str) -> (r: String)
    ensures
        r@ == strip_newline(text@),
{
    let n = text.unicode_len();
    if n > 0 && text.get_char(n - 1) == '\n' {
        let s = text.substring_char(0, n - 1);
        let r = String::from_str(s);
        assert(r@ =~= strip_newline(text@));
        r
    } else {
        String::from_str(text)
    }
}

} // verus!

use rusty_magisk::action::Asset;
use rusty_magisk::classify::{
    classify, dir_is_empty, early_mode, BootContext, BootTopology, DirState, Facts, KernelFsMount,
    MountPlan,
};

fn facts() -> Facts {
    Facts {
        marker_present: true,
        late_config_present: false,
        root_writable: true,
        bin_dir: DirState::Absent,
        proc_ready: false,
        dev_ready: false,
        lib64_present: false,
        local_binary_present: false,
        local_package_present: false,
    }
}

#[test]
fn empty_directory_needs_a_readable_listing() {
    assert!(dir_is_empty(true, Some(false)));
    assert!(!dir_is_empty(true, Some(true)));
    assert!(!dir_is_empty(true, None));
    assert!(!dir_is_empty(false, Some(false)));
    assert_eq!(DirState::observe(false, None), DirState::Absent);
    assert_eq!(DirState::observe(true, Some(false)), DirState::Empty);
    assert_eq!(DirState::observe(true, None), DirState::NonEmpty);
    assert_eq!(DirState::observe(true, Some(true)), DirState::NonEmpty);
}

#[test]
fn missing_marker_or_late_config_means_late_boot() {
    let mut f = facts();
    f.marker_present = false;
    assert!(early_mode(&f));
    assert_eq!(classify(&f), BootTopology::LateSystemAsRoot);
    let mut f = facts();
    f.late_config_present = true;
    assert!(early_mode(&f));
    assert_eq!(classify(&f), BootTopology::LateSystemAsRoot);
}

#[test]
fn writable_root_or_empty_bin_dir_is_writable_topology() {
    let f = facts();
    assert!(!early_mode(&f));
    assert_eq!(classify(&f), BootTopology::EarlyRamdiskWritable);
    let mut f = facts();
    f.root_writable = false;
    f.bin_dir = DirState::Empty;
    assert_eq!(classify(&f), BootTopology::EarlyRamdiskWritable);
}

#[test]
fn read_only_root_with_busy_bin_dir_is_read_only_topology() {
    let mut f = facts();
    f.root_writable = false;
    f.bin_dir = DirState::NonEmpty;
    assert_eq!(classify(&f), BootTopology::EarlyRamdiskReadOnly);
    f.bin_dir = DirState::Absent;
    assert_eq!(classify(&f), BootTopology::EarlyRamdiskReadOnly);
}

#[test]
fn kernel_fs_mounts_are_skipped_when_present() {
    let mut f = facts();
    f.proc_ready = true;
    let ctx = BootContext::new(f);
    assert_eq!(ctx.topology, BootTopology::EarlyRamdiskWritable);
    assert_eq!(KernelFsMount::proc(&ctx), MountPlan::Skip);
    assert_eq!(KernelFsMount::dev(&ctx), MountPlan::Required);
    let mut f = facts();
    f.marker_present = false;
    let ctx = BootContext::new(f);
    assert_eq!(ctx.topology, BootTopology::LateSystemAsRoot);
    assert_eq!(KernelFsMount::proc(&ctx), MountPlan::Required);
    assert_eq!(KernelFsMount::dev(&ctx), MountPlan::Required);
    let mut f = facts();
    f.dev_ready = true;
    assert_eq!(KernelFsMount::dev(&BootContext::new(f)), MountPlan::Skip);
}

#[test]
fn binary_follows_the_library_directory() {
    let ctx = BootContext::new(facts());
    assert_eq!(ctx.binary_asset(), Asset::Binary32);
    let mut f = facts();
    f.lib64_present = true;
    assert_eq!(BootContext::new(f).binary_asset(), Asset::Binary64);
}

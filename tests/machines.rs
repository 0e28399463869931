use rusty_magisk::action::{Action, Asset, FsKind, Outcome};
use rusty_magisk::boot::Boot;
use rusty_magisk::classify::{BootContext, BootTopology, DirState, Facts};
use rusty_magisk::install::Install;
use rusty_magisk::provision::{BinDirectory, Provision, Strategy};
use std::collections::{BTreeMap, BTreeSet};

/// A stand-in for the kernel and the filesystem.
struct Sim {
    dirs: BTreeSet<String>,
    files: BTreeMap<String, String>,
    links: BTreeMap<String, String>,
    fails: fn(&Action) -> bool,
}

fn never(_: &Action) -> bool {
    false
}

impl Sim {
    fn new(fails: fn(&Action) -> bool) -> Sim {
        Sim { dirs: BTreeSet::new(), files: BTreeMap::new(), links: BTreeMap::new(), fails }
    }

    fn has(&self, p: &str) -> bool {
        self.dirs.contains(p) || self.files.contains_key(p) || self.links.contains_key(p)
    }

    fn perform(&mut self, a: &Action) -> Outcome {
        if (self.fails)(a) {
            return Outcome::Failed;
        }
        match a {
            Action::CreateDir(p) | Action::CreateDirAll(p) => {
                self.dirs.insert(p.clone());
                Outcome::Done
            }
            Action::Mount(m) if m.kind == FsKind::Bind => {
                if let Some(t) = self.files.get(&m.source).cloned() {
                    self.files.insert(m.target.clone(), t);
                }
                Outcome::Done
            }
            Action::ProbeExists(p) => Outcome::Flag(self.has(p)),
            Action::ReadText(p) => match self.files.get(p) {
                Some(t) => Outcome::Text(t.clone()),
                None => Outcome::Failed,
            },
            Action::WriteText { path, contents } => {
                self.files.insert(path.clone(), contents.clone());
                Outcome::Done
            }
            Action::Extract(spec) => {
                let body = match spec.asset {
                    Asset::ServiceDefinition | Asset::MinimalServiceDefinition => {
                        "service su magisk_bin_path --daemon\n"
                    }
                    _ => "payload",
                };
                self.files.insert(spec.destination.clone(), body.to_string());
                Outcome::Done
            }
            Action::CopyFile { to, .. } => {
                self.files.insert(to.clone(), "copy".to_string());
                Outcome::Done
            }
            Action::Symlink { target, link } => {
                if self.has(link) {
                    Outcome::Failed
                } else {
                    self.links.insert(link.clone(), target.clone());
                    Outcome::Done
                }
            }
            Action::RemoveFile(p) => {
                if self.files.remove(p).is_some() {
                    Outcome::Done
                } else {
                    Outcome::Failed
                }
            }
            _ => Outcome::Done,
        }
    }
}

fn facts() -> Facts {
    Facts {
        marker_present: true,
        late_config_present: false,
        root_writable: true,
        bin_dir: DirState::Absent,
        proc_ready: false,
        dev_ready: false,
        lib64_present: true,
        local_binary_present: false,
        local_package_present: false,
    }
}

/// Runs a whole boot; returns every action issued, the exec or abort last.
fn run_boot(ctx: &BootContext, sim: &mut Sim) -> Vec<Action> {
    let mut log = Vec::new();
    let mut state = Boot::start(ctx);
    for _ in 0..100 {
        let action = state.action(ctx).expect("every boot state issues an action");
        if state.is_done() {
            log.push(action);
            return log;
        }
        let outcome = sim.perform(&action);
        log.push(action);
        state = state.step(ctx, outcome);
    }
    panic!("boot run did not end");
}

/// Runs provisioning alone, answering every action with `answer`.
fn run_provision(ctx: &BootContext, answer: fn(&Action) -> Outcome) -> (Provision, Vec<Action>) {
    let mut log = Vec::new();
    let mut state = Provision::start(ctx);
    while !state.is_done() {
        let action = state.action().expect("a running state issues an action");
        let outcome = answer(&action);
        log.push(action);
        state = state.step(ctx, outcome);
        assert!(log.len() <= 12);
    }
    assert!(state.action().is_none());
    (state, log)
}

fn all_done(a: &Action) -> Outcome {
    match a {
        Action::ReadText(_) => Outcome::Text("4.14.117-perf\n".to_string()),
        _ => Outcome::Done,
    }
}

fn all_failed(_: &Action) -> Outcome {
    Outcome::Failed
}

fn modules_fail(a: &Action) -> Outcome {
    match a {
        Action::LoadModule(_) => Outcome::Failed,
        _ => all_done(a),
    }
}

fn is_load(a: &Action) -> bool {
    matches!(a, Action::LoadModule(_))
}

fn is_overlay(a: &Action) -> bool {
    matches!(a, Action::MountOverlay { .. })
}

#[test]
fn every_topology_ends_provisioning() {
    for (root_writable, bin_dir, marker) in [
        (true, DirState::Absent, true),
        (false, DirState::NonEmpty, true),
        (false, DirState::Empty, false),
        (true, DirState::NonEmpty, false),
    ] {
        let mut f = facts();
        f.root_writable = root_writable;
        f.bin_dir = bin_dir;
        f.marker_present = marker;
        let ctx = BootContext::new(f);
        for answer in [all_done, all_failed, modules_fail] {
            let (end, _) = run_provision(&ctx, answer);
            assert!(matches!(end, Provision::Provisioned(_) | Provision::Failed));
        }
    }
}

#[test]
fn writable_root_and_empty_bin_dir_use_tmpfs() {
    let mut f = facts();
    f.bin_dir = DirState::Empty;
    let ctx = BootContext::new(f);
    for answer in [all_done, all_failed] {
        let (end, log) = run_provision(&ctx, answer);
        assert!(!log.iter().any(is_load));
        assert!(!matches!(end, Provision::Provisioned(Strategy::KernelOverlay)));
    }
    let (end, log) = run_provision(&ctx, all_done);
    assert!(matches!(end, Provision::Provisioned(Strategy::Tmpfs)));
    match log.last() {
        Some(Action::Mount(m)) => {
            assert_eq!(m.source, "/sbin");
            assert_eq!(m.target, "/sbin");
            assert_eq!(m.kind, FsKind::Tmpfs);
        }
        other => panic!("unexpected {:?}", other),
    }
}

#[test]
fn read_only_root_uses_overlay() {
    let mut f = facts();
    f.root_writable = false;
    f.bin_dir = DirState::NonEmpty;
    let ctx = BootContext::new(f);
    assert_eq!(ctx.topology, BootTopology::EarlyRamdiskReadOnly);
    let (end, log) = run_provision(&ctx, all_done);
    assert!(matches!(end, Provision::Provisioned(Strategy::KernelOverlay)));
    let loads: Vec<String> = log
        .iter()
        .filter_map(|a| match a {
            Action::LoadModule(p) => Some(p.clone()),
            _ => None,
        })
        .collect();
    assert_eq!(
        loads,
        vec![
            "/system/lib/modules/4.14.117-perf/kernel/fs/exportfs/exportfs.ko".to_string(),
            "/system/lib/modules/4.14.117-perf/kernel/fs/overlayfs/overlay.ko".to_string(),
        ]
    );
    match log.iter().find(|a| is_overlay(a)) {
        Some(Action::MountOverlay { lower, upper, work, target }) => {
            assert_eq!(lower, "/system/bin");
            assert_eq!(upper, "/dev/upper");
            assert_eq!(work, "/dev/work");
            assert_eq!(target, "/system/bin");
        }
        other => panic!("unexpected {:?}", other),
    }
    assert!(matches!(log.last(), Some(Action::RemoveFile(p)) if p == "/dev/chmod"));
}

#[test]
fn failed_module_load_fails_before_overlay() {
    let mut f = facts();
    f.root_writable = false;
    f.bin_dir = DirState::NonEmpty;
    let ctx = BootContext::new(f);
    let (end, log) = run_provision(&ctx, modules_fail);
    assert!(matches!(end, Provision::Failed));
    assert!(is_load(log.last().unwrap()));
    assert!(!log.iter().any(is_overlay));
}

#[test]
fn proc_mount_failure_fails_in_every_topology() {
    let ctx = BootContext::new(facts());
    let mut state = Provision::start(&ctx);
    assert!(matches!(state.action(), Some(Action::Mount(ref m)) if m.kind == FsKind::Proc));
    state = state.step(&ctx, Outcome::Failed);
    assert!(matches!(state, Provision::Failed));
    let mut f = facts();
    f.marker_present = false;
    let ctx = BootContext::new(f);
    let state = Provision::start(&ctx).step(&ctx, Outcome::Failed);
    assert!(matches!(state, Provision::Failed));
    let state = Provision::start(&ctx).step(&ctx, Outcome::Done);
    assert!(matches!(state, Provision::CreatingBinDir));
}

#[test]
fn handoff_removes_every_scratch_file_first() {
    let mut f = facts();
    f.marker_present = false;
    f.root_writable = false;
    f.bin_dir = DirState::Empty;
    let ctx = BootContext::new(f);
    let mut state = rusty_magisk::handoff::Handoff::start();
    let mut log = Vec::new();
    while !matches!(state, rusty_magisk::handoff::Handoff::ProbingInit) {
        let action = state.action().unwrap();
        log.push(format!("{:?}", action));
        state = state.step(&ctx, Outcome::Failed);
    }
    assert_eq!(
        log,
        vec![
            "RemoveFile(\"/dev/chmod\")",
            "RemoveFile(\"/dev/su.rc\")",
            "RemoveFile(\"/dev/magiskpolicy\")",
            "Unmount(\"/dev\")",
            "Unmount(\"/proc\")",
        ]
    );
}

#[test]
fn scratch_bin_dir_takes_over_system_su() {
    let ctx = BootContext::new(facts());
    let mut sim = Sim::new(never);
    sim.files.insert("/init.real".to_string(), "init".to_string());
    sim.files.insert("/system/xbin/su".to_string(), "old su".to_string());
    let log = run_boot(&ctx, &mut sim);
    let binds: Vec<(String, String)> = log
        .iter()
        .filter_map(|a| match a {
            Action::Mount(m) if m.kind == FsKind::Bind && m.source == "/sbin/su" => {
                Some((m.source.clone(), m.target.clone()))
            }
            _ => None,
        })
        .collect();
    assert_eq!(binds, vec![("/sbin/su".to_string(), "/system/xbin/su".to_string())]);
    let mode = log.iter().position(
        |a| matches!(a, Action::SetMode { path, mode } if path == "/sbin" && *mode == 0o755),
    );
    let cleanup = log.iter().position(|a| matches!(a, Action::RemoveFile(_)));
    assert!(mode.unwrap() < cleanup.unwrap());
}

#[test]
fn overlay_bin_dir_keeps_system_su() {
    let mut f = facts();
    f.root_writable = false;
    f.bin_dir = DirState::NonEmpty;
    let ctx = BootContext::new(f);
    let mut sim = Sim::new(never);
    sim.files.insert("/proc/sys/kernel/osrelease".to_string(), "5.4.0\n".to_string());
    sim.files.insert("/system/bin/su".to_string(), "old su".to_string());
    let log = run_boot(&ctx, &mut sim);
    assert!(!log.iter().any(|a| matches!(a, Action::SetMode { .. })));
    assert!(!log.iter().any(|a| matches!(a, Action::Mount(m)
        if m.kind == FsKind::Bind && m.source.ends_with("/su"))));
    assert!(matches!(log.last(), Some(Action::Abort)));
}

#[test]
fn busy_bin_dir_on_writable_root_is_probed() {
    let mut f = facts();
    f.bin_dir = DirState::NonEmpty;
    f.proc_ready = true;
    let ctx = BootContext::new(f);
    let (end, log) = run_provision(&ctx, all_done);
    assert!(matches!(end, Provision::Provisioned(Strategy::PreexistingWritable)));
    assert!(matches!(log.last(), Some(Action::ProbeWritable(p)) if p == "/sbin"));
    let (end, _) = run_provision(&ctx, |a| match a {
        Action::ProbeWritable(_) => Outcome::Failed,
        _ => Outcome::Done,
    });
    assert!(matches!(end, Provision::Failed));
}

fn link_applets(ctx: &BootContext, bin: &BinDirectory, sim: &mut Sim) -> usize {
    let mut made = 0;
    let mut state = Install::ProbingApplet(0);
    while !matches!(state, Install::CreatingHookDir(_)) {
        let action = state.action(ctx, bin).unwrap();
        if matches!(action, Action::Symlink { .. }) {
            made += 1;
        }
        let outcome = sim.perform(&action);
        state = state.step(ctx, bin.strategy, outcome);
        assert!(!matches!(state, Install::Failed));
    }
    made
}

#[test]
fn linking_applets_twice_changes_nothing() {
    let ctx = BootContext::new(facts());
    let bin = BinDirectory::of(Strategy::Tmpfs);
    let mut sim = Sim::new(never);
    sim.links.insert("/sbin/su".to_string(), "/elsewhere".to_string());
    assert_eq!(link_applets(&ctx, &bin, &mut sim), 3);
    let once = sim.links.clone();
    assert_eq!(link_applets(&ctx, &bin, &mut sim), 0);
    assert_eq!(sim.links, once);
    assert_eq!(once.get("/sbin/su").unwrap(), "/elsewhere");
    assert_eq!(once.get("/sbin/magiskpolicy").unwrap(), "/sbin/magisk");
}

#[test]
fn writable_ramdisk_boot_end_to_end() {
    let ctx = BootContext::new(facts());
    assert_eq!(ctx.topology, BootTopology::EarlyRamdiskWritable);
    let mut sim = Sim::new(never);
    sim.files.insert("/init.real".to_string(), "init".to_string());
    let log = run_boot(&ctx, &mut sim);
    let create = log.iter().position(|a| matches!(a, Action::CreateDir(p) if p == "/sbin"));
    let mount = log.iter().position(
        |a| matches!(a, Action::Mount(m) if m.target == "/sbin" && m.kind == FsKind::Tmpfs),
    );
    assert!(create.unwrap() < mount.unwrap());
    assert!(!log.iter().any(is_load));
    let links: Vec<(String, String)> = log
        .iter()
        .filter_map(|a| match a {
            Action::Symlink { target, link } => Some((link.clone(), target.clone())),
            _ => None,
        })
        .collect();
    assert_eq!(links.len(), 4);
    for (link, name) in links.iter().zip(["su", "resetprop", "magiskhide", "magiskpolicy"]) {
        assert_eq!(link.0, format!("/sbin/{}", name));
        assert_eq!(link.1, "/sbin/magisk");
    }
    assert!(log.iter().any(|a| matches!(a, Action::Extract(s)
        if s.destination == "/init.superuser.rc" && s.mode == 0o750
            && s.asset == Asset::ServiceDefinition)));
    assert!(log.iter().any(|a| matches!(a, Action::Extract(s)
        if s.destination == "/sbin/magisk" && s.mode == 0o755 && s.asset == Asset::Binary64)));
    assert_eq!(
        sim.files.get("/init.superuser.rc").unwrap(),
        "service su /sbin/magisk --daemon\n"
    );
    assert!(log.iter().any(|a| matches!(a, Action::Extract(s)
        if s.destination == "/data/magisk.apk" && s.asset == Asset::CompanionPackage)));
    assert!(!log.iter().any(|a| matches!(a, Action::Unmount(_))));
    assert!(matches!(log.last(), Some(Action::Exec(p)) if p == "/init.real"));
}

#[test]
fn late_boot_without_init_aborts() {
    let mut f = facts();
    f.marker_present = false;
    f.root_writable = false;
    f.bin_dir = DirState::Empty;
    let ctx = BootContext::new(f);
    assert_eq!(ctx.topology, BootTopology::LateSystemAsRoot);
    let mut sim = Sim::new(never);
    let log = run_boot(&ctx, &mut sim);
    assert!(matches!(log.last(), Some(Action::Abort)));
    assert!(!log.iter().any(|a| matches!(a, Action::Exec(_))));
    let unmounts: Vec<String> = log
        .iter()
        .filter_map(|a| match a {
            Action::Unmount(p) => Some(p.clone()),
            _ => None,
        })
        .collect();
    assert_eq!(unmounts, vec!["/dev".to_string(), "/proc".to_string()]);
}

#[test]
fn failures_go_to_cleanup_and_handoff() {
    let ctx = BootContext::new(facts());
    let mut sim = Sim::new(|a| matches!(a, Action::Symlink { .. }));
    sim.files.insert("/init.real".to_string(), "init".to_string());
    let log = run_boot(&ctx, &mut sim);
    let link = log.iter().position(|a| matches!(a, Action::Symlink { .. })).unwrap();
    assert!(matches!(&log[link + 1], Action::RemoveFile(p) if p == "/dev/chmod"));
    assert!(matches!(log.last(), Some(Action::Exec(p)) if p == "/init.real"));

    let mut sim = Sim::new(|a| matches!(a, Action::Mount(m) if m.target == "/sbin"));
    let log = run_boot(&ctx, &mut sim);
    assert!(!log.iter().any(|a| matches!(a, Action::Symlink { .. })));
    assert!(matches!(log.last(), Some(Action::Abort)));
}

#[test]
fn failed_exec_aborts() {
    let ctx = BootContext::new(facts());
    let mut state = Boot::HandingOff(rusty_magisk::handoff::Handoff::Executing);
    state = state.step(&ctx, Outcome::Failed);
    assert!(matches!(state.action(&ctx), Some(Action::Abort)));
}

#[test]
fn read_only_root_stages_and_binds_service_definition() {
    let mut f = facts();
    f.root_writable = false;
    f.bin_dir = DirState::NonEmpty;
    f.local_binary_present = true;
    f.lib64_present = false;
    let ctx = BootContext::new(f);
    let mut sim = Sim::new(never);
    sim.files.insert("/init.real".to_string(), "init".to_string());
    sim.files.insert(
        "/data/system/packages.list".to_string(),
        "com.topjohnwu.magisk 10123 0\n".to_string(),
    );
    sim.files.insert("/proc/sys/kernel/osrelease".to_string(), "5.4.0\n".to_string());
    let log = run_boot(&ctx, &mut sim);
    assert!(log.iter().any(|a| matches!(a, Action::Extract(s)
        if s.destination == "/dev/su.rc" && s.asset == Asset::MinimalServiceDefinition)));
    assert!(log.iter().any(|a| matches!(a, Action::Mount(m)
        if m.source == "/dev/su.rc" && m.target == "/init.superuser.rc" && m.kind == FsKind::Bind)));
    assert!(log.iter().any(|a| matches!(a, Action::CopyFile { from, to }
        if from == "/data/.rusty-magisk/magisk" && to == "/system/bin/magisk")));
    assert!(log.iter().any(|a| matches!(a, Action::Mount(m)
        if m.source == "/system" && m.target == "/system/bin/.magisk/mirror/system")));
    assert!(!log.iter().any(|a| matches!(a, Action::Extract(s)
        if s.asset == Asset::CompanionPackage)));
    assert!(matches!(log.last(), Some(Action::Exec(_))));
}

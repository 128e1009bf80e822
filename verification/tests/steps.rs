//! Single steps of each state machine, with the exact step expected.

use toolchain_install::dispatch::RunState;
use toolchain_install::driver::InstallState;
use toolchain_install::installer::TarGzState;
use toolchain_install::method::InstallMethod;
use toolchain_install::protocol::{
    Action, DownloadCfg, Event, InstallError, Notification, Step,
};
use toolchain_install::toolchain::{Toolchain, UpdateStatus};
use toolchain_install::uninstall::{uninstall, UninstallState};

const PATH: &str = "/t";

fn toolchain() -> Toolchain<'static> {
    Toolchain { name: "tc", path: PATH, distributable: false }
}

fn names(list: &[&str]) -> Vec<String> {
    list.iter().map(|name| name.to_string()).collect()
}

#[test]
fn classify_covers_all_four_cases() {
    assert_eq!(UpdateStatus::classify(true, None), UpdateStatus::Installed);
    assert_eq!(
        UpdateStatus::classify(true, Some("1.2.0".to_string())),
        UpdateStatus::Updated("1.2.0".to_string())
    );
    assert_eq!(UpdateStatus::classify(false, None), UpdateStatus::Unchanged);
    assert_eq!(UpdateStatus::classify(false, Some("1.2.0".to_string())), UpdateStatus::Unchanged);
}

#[test]
fn only_copy_and_link_need_clearing() {
    let tc = toolchain();
    assert!(InstallMethod::Copy("/s", &tc).needs_clear());
    assert!(InstallMethod::Link("/s", &tc).needs_clear());
    assert!(!InstallMethod::Installer("/a.tar.gz", "/tmp", &tc).needs_clear());
    let dist = InstallMethod::Dist {
        desc: "stable",
        profile: "default",
        update_hash: None,
        dl_cfg: DownloadCfg { dist_root: "r", temp_dir: "t", download_dir: "d" },
        force_update: false,
        allow_downgrade: false,
        exists: false,
        old_date: None,
        components: &[],
        targets: &[],
        distributable: &tc,
    };
    assert!(!dist.needs_clear());
}

#[test]
fn uninstall_steps() {
    assert_eq!(
        uninstall(PATH, UninstallState::Start, Event::Begin),
        Step::Request { action: Action::QueryPath { path: PATH }, next: UninstallState::Probing }
    );
    assert_eq!(
        uninstall(PATH, UninstallState::Probing, Event::Exists(true)),
        Step::Request { action: Action::RemoveDir { path: PATH }, next: UninstallState::Removing }
    );
    assert_eq!(uninstall(PATH, UninstallState::Probing, Event::Exists(false)), Step::Finish(Ok(())));
    assert_eq!(uninstall(PATH, UninstallState::Probing, Event::Failed), Step::Finish(Ok(())));
    assert_eq!(uninstall(PATH, UninstallState::Removing, Event::Done), Step::Finish(Ok(())));
    assert_eq!(
        uninstall(PATH, UninstallState::Removing, Event::Failed),
        Step::Finish(Err(InstallError::PathRemovalFailed { path: PATH }))
    );
    assert_eq!(
        uninstall(PATH, UninstallState::Removing, Event::Exists(false)),
        Step::Finish(Err(InstallError::PathRemovalFailed { path: PATH }))
    );
}

#[test]
fn tar_gz_steps() {
    let step = |state: TarGzState, event: Event| {
        InstallMethod::tar_gz("/a.tar.gz", PATH, "/tmp", state, event)
    };
    assert_eq!(
        step(TarGzState::Start, Event::Begin),
        Step::Request {
            action: Action::Notify(Notification::Extracting { src: "/a.tar.gz", path: PATH }),
            next: TarGzState::Announcing,
        }
    );
    assert_eq!(
        step(TarGzState::Announcing, Event::Done),
        Step::Request {
            action: Action::OpenPackage { src: "/a.tar.gz", prefix: PATH, temp_dir: "/tmp" },
            next: TarGzState::Opening,
        }
    );
    assert_eq!(
        step(TarGzState::Opening, Event::Components(names(&["bin", "docs"]))),
        Step::Request {
            action: Action::InstallComponent { name: "bin".to_string() },
            next: TarGzState::Staging {
                current: "bin".to_string(),
                components: names(&["bin", "docs"]),
                next: 1,
            },
        }
    );
    assert_eq!(
        step(TarGzState::Opening, Event::Components(Vec::new())),
        Step::Request { action: Action::Commit, next: TarGzState::Committing }
    );
    assert_eq!(
        step(TarGzState::Opening, Event::Failed),
        Step::Finish(Err(InstallError::ArchiveReadFailed { path: "/a.tar.gz" }))
    );
    let staging = |next: usize| TarGzState::Staging {
        current: names(&["bin", "docs"])[next - 1].clone(),
        components: names(&["bin", "docs"]),
        next,
    };
    assert_eq!(
        step(staging(1), Event::Done),
        Step::Request {
            action: Action::InstallComponent { name: "docs".to_string() },
            next: staging(2),
        }
    );
    assert_eq!(
        step(staging(2), Event::Done),
        Step::Request { action: Action::Commit, next: TarGzState::Committing }
    );
    assert_eq!(
        step(staging(1), Event::Failed),
        Step::Finish(Err(InstallError::ComponentInstallFailed { component: "bin".to_string() }))
    );
    assert_eq!(
        step(staging(2), Event::Failed),
        Step::Finish(Err(InstallError::ComponentInstallFailed { component: "docs".to_string() }))
    );
    assert_eq!(step(TarGzState::Committing, Event::Done), Step::Finish(Ok(())));
    assert_eq!(
        step(TarGzState::Committing, Event::Failed),
        Step::Finish(Err(InstallError::TransactionCommitFailed { path: PATH }))
    );
}

#[test]
fn run_steps_for_copy() {
    let tc = toolchain();
    let method = InstallMethod::Copy("/s", &tc);
    assert_eq!(
        method.run(PATH, RunState::Start, Event::Begin),
        Step::Request {
            action: Action::QueryPath { path: PATH },
            next: RunState::Clearing(UninstallState::Probing),
        }
    );
    assert_eq!(
        method.run(PATH, RunState::Clearing(UninstallState::Probing), Event::Exists(true)),
        Step::Request {
            action: Action::RemoveDir { path: PATH },
            next: RunState::Clearing(UninstallState::Removing),
        }
    );
    assert_eq!(
        method.run(PATH, RunState::Clearing(UninstallState::Probing), Event::Exists(false)),
        Step::Request { action: Action::CopyDir { src: "/s", dst: PATH }, next: RunState::Copying }
    );
    assert_eq!(
        method.run(PATH, RunState::Clearing(UninstallState::Removing), Event::Done),
        Step::Request { action: Action::CopyDir { src: "/s", dst: PATH }, next: RunState::Copying }
    );
    assert_eq!(
        method.run(PATH, RunState::Clearing(UninstallState::Removing), Event::Failed),
        Step::Finish(Err(InstallError::PathRemovalFailed { path: PATH }))
    );
    assert_eq!(method.run(PATH, RunState::Copying, Event::Done), Step::Finish(Ok(true)));
    assert_eq!(
        method.run(PATH, RunState::Copying, Event::Failed),
        Step::Finish(Err(InstallError::CopyFailed { path: PATH }))
    );
}

#[test]
fn run_steps_for_link() {
    let tc = toolchain();
    let method = InstallMethod::Link("/s", &tc);
    assert_eq!(
        method.run(PATH, RunState::Clearing(UninstallState::Probing), Event::Exists(false)),
        Step::Request { action: Action::SymlinkDir { src: "/s", dst: PATH }, next: RunState::Linking }
    );
    assert_eq!(method.run(PATH, RunState::Linking, Event::Done), Step::Finish(Ok(true)));
    assert_eq!(
        method.run(PATH, RunState::Linking, Event::Failed),
        Step::Finish(Err(InstallError::SymlinkFailed { path: PATH }))
    );
}

#[test]
fn run_steps_for_installer() {
    let tc = toolchain();
    let method = InstallMethod::Installer("/a.tar.gz", "/tmp", &tc);
    assert_eq!(
        method.run(PATH, RunState::Start, Event::Begin),
        Step::Request {
            action: Action::Notify(Notification::Extracting { src: "/a.tar.gz", path: PATH }),
            next: RunState::Unpacking {
                src: "/a.tar.gz",
                temp_dir: "/tmp",
                inner: TarGzState::Announcing,
            },
        }
    );
    let committing =
        RunState::Unpacking { src: "/a.tar.gz", temp_dir: "/tmp", inner: TarGzState::Committing };
    assert_eq!(method.run(PATH, committing, Event::Done), Step::Finish(Ok(true)));
}

#[test]
fn run_steps_for_dist() {
    let tc = Toolchain { name: "stable", path: PATH, distributable: true };
    let cfg = DownloadCfg { dist_root: "r", temp_dir: "t", download_dir: "d" };
    let components = ["clippy"];
    let targets = ["wasm32"];
    let method = InstallMethod::Dist {
        desc: "stable",
        profile: "default",
        update_hash: Some("/h"),
        dl_cfg: cfg,
        force_update: true,
        allow_downgrade: false,
        exists: true,
        old_date: Some("2024-01-01"),
        components: &components,
        targets: &targets,
        distributable: &tc,
    };
    assert_eq!(
        method.run(PATH, RunState::Start, Event::Begin),
        Step::Request {
            action: Action::UpdateFromDist {
                dl_cfg: cfg,
                update_hash: Some("/h"),
                desc: "stable",
                profile: None,
                prefix: PATH,
                force_update: true,
                allow_downgrade: false,
                old_date: Some("2024-01-01"),
                components: &components,
                targets: &targets,
            },
            next: RunState::Resolving { update_hash: Some("/h") },
        }
    );
    assert_eq!(
        method.run(
            PATH,
            RunState::Resolving { update_hash: Some("/h") },
            Event::Resolved(Some("abc".to_string()))
        ),
        Step::Request {
            action: Action::WriteHash { file: "/h", hash: "abc".to_string() },
            next: RunState::Persisting { file: "/h" },
        }
    );
    assert_eq!(
        method.run(
            PATH,
            RunState::Resolving { update_hash: None },
            Event::Resolved(Some("abc".to_string()))
        ),
        Step::Finish(Ok(true))
    );
    assert_eq!(
        method.run(PATH, RunState::Resolving { update_hash: Some("/h") }, Event::Resolved(None)),
        Step::Finish(Ok(false))
    );
    assert_eq!(
        method.run(PATH, RunState::Resolving { update_hash: Some("/h") }, Event::Failed),
        Step::Finish(Err(InstallError::DistResolutionFailed { path: PATH }))
    );
    assert_eq!(
        method.run(PATH, RunState::Persisting { file: "/h" }, Event::Done),
        Step::Finish(Ok(true))
    );
    assert_eq!(
        method.run(PATH, RunState::Persisting { file: "/h" }, Event::Failed),
        Step::Finish(Err(InstallError::HashFilePersistFailed { path: "/h" }))
    );
}

#[test]
fn install_steps() {
    let tc = toolchain();
    let method = InstallMethod::Copy("/s", &tc);
    assert_eq!(
        method.install(&tc, InstallState::Start, Event::Begin),
        Step::Request { action: Action::QueryVersion { path: PATH }, next: InstallState::Probing }
    );
    assert_eq!(
        method.install(&tc, InstallState::Probing, Event::Version(None)),
        Step::Request {
            action: Action::Notify(Notification::InstallingToolchain { name: "tc" }),
            next: InstallState::Announcing { previous: None },
        }
    );
    assert_eq!(
        method.install(&tc, InstallState::Probing, Event::Version(Some("1.2.0".to_string()))),
        Step::Request {
            action: Action::Notify(Notification::UpdatingToolchain { name: "tc" }),
            next: InstallState::Announcing { previous: Some("1.2.0".to_string()) },
        }
    );
    assert_eq!(
        method.install(&tc, InstallState::Announcing { previous: None }, Event::Done),
        Step::Request {
            action: Action::Notify(Notification::ToolchainDirectory { path: PATH, name: "tc" }),
            next: InstallState::Locating { previous: None },
        }
    );
    assert_eq!(
        method.install(&tc, InstallState::Locating { previous: None }, Event::Done),
        Step::Request {
            action: Action::QueryPath { path: PATH },
            next: InstallState::Running {
                previous: None,
                inner: RunState::Clearing(UninstallState::Probing),
            },
        }
    );
    assert_eq!(
        method.install(
            &tc,
            InstallState::Running { previous: Some("1.2.0".to_string()), inner: RunState::Copying },
            Event::Done
        ),
        Step::Request {
            action: Action::Notify(Notification::InstalledToolchain { name: "tc" }),
            next: InstallState::Reporting { status: UpdateStatus::Updated("1.2.0".to_string()) },
        }
    );
    assert_eq!(
        method.install(
            &tc,
            InstallState::Running { previous: None, inner: RunState::Copying },
            Event::Failed
        ),
        Step::Finish(Err(InstallError::CopyFailed { path: PATH }))
    );
    assert_eq!(
        method.install(
            &tc,
            InstallState::Running {
                previous: Some("1.2.0".to_string()),
                inner: RunState::Resolving { update_hash: None },
            },
            Event::Resolved(None)
        ),
        Step::Request {
            action: Action::Notify(Notification::UpdateHashMatches),
            next: InstallState::Reporting { status: UpdateStatus::Unchanged },
        }
    );
    assert_eq!(
        method.install(
            &tc,
            InstallState::Reporting { status: UpdateStatus::Installed },
            Event::Done
        ),
        Step::Finish(Ok(UpdateStatus::Installed))
    );
}

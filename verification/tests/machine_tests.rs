use std::collections::BTreeMap;

use updater::application::{update_main, MainPhase, MainStep};
use updater::download::{download_release, DownloadPhase, DownloadRequest, DownloadStep};
use updater::error::UpdateError;
use updater::host::{Action, Location, Reply};
use updater::platform::{ElevationModel, Platform};
use updater::plugin::{update_vencordorion, PluginPhase, PluginStep};
use updater::release::ReleaseDescriptor;
use updater::probe::{needs_to_elevate, probe_name};
use updater::updater::{Args, Phase, Updater};

/// A host that keeps its files in memory and remembers what it was asked.
struct Host {
    files: BTreeMap<(String, String), String>,
    release: Result<ReleaseDescriptor, UpdateError>,
    failing_download: Option<(&'static str, UpdateError)>,
    failing_move: Option<&'static str>,
    marker_fails: bool,
    open_fails: bool,
    kill_fails: bool,
    listable: bool,
    writable: bool,
    writable_once_elevated: bool,
    elevation: Reply,
    elevations: usize,
    asked: Vec<Action>,
}

fn release_of(tag: &str, names: &[&str]) -> ReleaseDescriptor {
    ReleaseDescriptor {
        tag: tag.to_string(),
        asset_names: names.iter().map(|n| n.to_string()).collect(),
    }
}

fn host_with(release: Result<ReleaseDescriptor, UpdateError>) -> Host {
    Host {
        files: BTreeMap::new(),
        release,
        failing_download: None,
        failing_move: None,
        marker_fails: false,
        open_fails: false,
        kill_fails: false,
        listable: true,
        writable: true,
        writable_once_elevated: true,
        elevation: Reply::Done,
        elevations: 0,
        asked: Vec::new(),
    }
}

fn bundle_release() -> ReleaseDescriptor {
    release_of("v2.1.0", &["browser.css", "browser.js", "vencord.version"])
}

fn place(dir: &Location) -> String {
    match dir {
        Location::Path(path) => path.clone(),
        Location::Temp => "<temp>".to_string(),
    }
}

fn file(host: &Host, dir: &str, name: &str) -> Option<String> {
    host.files.get(&(dir.to_string(), name.to_string())).cloned()
}

fn entries_of(host: &Host, dir: &str) -> Vec<String> {
    host.files.keys().filter(|(d, _)| d == dir).map(|(_, name)| name.clone()).collect()
}

fn names_of(names: &[&str]) -> Vec<String> {
    names.iter().map(|n| n.to_string()).collect()
}

fn put(host: &mut Host, dir: &str, name: &str, content: &str) {
    host.files.insert((dir.to_string(), name.to_string()), content.to_string());
}

fn perform(host: &mut Host, action: &Action) -> Reply {
    host.asked.push(action.clone());
    match action {
        Action::ListDirectory { dir } => {
            if host.listable {
                Reply::Entries(entries_of(host, &place(dir)))
            } else {
                Reply::Failed(UpdateError::IOError)
            }
        }
        Action::CreateFile { dir, name } => {
            if host.writable && file(host, &place(dir), name).is_none() {
                put(host, &place(dir), name, "");
                Reply::Done
            } else {
                Reply::Failed(UpdateError::IOError)
            }
        }
        Action::RemoveFile { dir, name } => {
            match host.files.remove(&(place(dir), name.clone())) {
                Some(_) => Reply::Done,
                None => Reply::Failed(UpdateError::IOError),
            }
        }
        Action::Rename { dir, from, to } => {
            if host.failing_move == Some(to.as_str()) {
                return Reply::Failed(UpdateError::IOError);
            }
            match host.files.remove(&(place(dir), from.clone())) {
                Some(content) => {
                    put(host, &place(dir), to, &content);
                    Reply::Done
                }
                None => Reply::Failed(UpdateError::IOError),
            }
        }
        Action::Elevate { .. } => {
            host.elevations += 1;
            if host.elevation == Reply::Done {
                host.writable = host.writable_once_elevated;
            }
            host.elevation.clone()
        }
        Action::FetchRelease { .. } => match &host.release {
            Ok(release) => Reply::Release(release.clone()),
            Err(error) => Reply::Failed(*error),
        },
        Action::Download { tag, asset, dir, file, .. } => match host.failing_download {
            Some((name, error)) if name == asset => {
                put(host, &place(dir), file, "half of it");
                Reply::Failed(error)
            }
            _ => {
                let content = format!("{} of {}", asset, tag);
                put(host, &place(dir), file, &content);
                Reply::Done
            }
        },
        Action::WriteFile { dir, name, content } => {
            if host.marker_fails {
                Reply::Failed(UpdateError::IOError)
            } else {
                put(host, &place(dir), name, content);
                Reply::Done
            }
        }
        Action::Open { .. } => {
            if host.open_fails {
                Reply::Failed(UpdateError::IOError)
            } else {
                Reply::Done
            }
        }
        Action::Kill { .. } => {
            if host.kill_fails {
                Reply::Failed(UpdateError::IOError)
            } else {
                Reply::Done
            }
        }
        Action::Exit { .. } => panic!("nothing answers an exit"),
    }
}

fn plugin_dir() -> Location {
    Location::Path("/plugins".to_string())
}

fn download_of(asset: &str, tag: &str, repo: &'static str, dir: Location) -> Action {
    Action::Download {
        owner: "SpikeHD",
        repo,
        tag: tag.to_string(),
        asset: asset.to_string(),
        dir,
        file: format!("{}.part", asset),
    }
}

fn move_of(asset: &str, dir: Location) -> Action {
    Action::Rename { dir, from: format!("{}.part", asset), to: asset.to_string() }
}

fn discard_of(asset: &str, dir: Location) -> Action {
    Action::RemoveFile { dir, name: format!("{}.part", asset) }
}

fn run_plugin(host: &mut Host, dir: &str) -> PluginStep {
    let mut phase = update_vencordorion(dir.to_string());
    loop {
        let reply = perform(host, &phase.action());
        match phase.advance(reply).expect("the host answers what it was asked") {
            PluginStep::Next(next) => phase = next,
            end => return end,
        }
    }
}

fn run_main(host: &mut Host, platform: Platform) -> MainStep {
    let mut step = update_main(platform);
    loop {
        match step {
            MainStep::Next(phase) => {
                let reply = perform(host, &phase.action());
                step = phase.advance(reply).expect("the host answers what it was asked");
            }
            end => return end,
        }
    }
}

/// Runs an invocation to its end and returns the exit action.
fn run_updater(host: &mut Host, args: Args, platform: Platform, elevated: bool) -> Action {
    let mut updater = Updater::start(args, platform, elevated);
    let mut answers = 0;
    loop {
        let action = updater.action();
        if let Action::Exit { .. } = action {
            assert!(answers <= 18);
            return action;
        }
        let reply = perform(host, &action);
        answers += 1;
        updater = updater.advance(reply).expect("the host answers what it was asked");
    }
}

fn args_of(main: Option<bool>, vencord: Option<&str>) -> Args {
    Args { main, vencord: vencord.map(|v| v.to_string()) }
}

fn success() -> Action {
    Action::Exit { code: 0, message: None }
}

fn failure(error: UpdateError) -> Action {
    Action::Exit { code: error.exit_code(), message: Some(error.message()) }
}

fn asked_for_main(host: &Host) -> bool {
    host.asked.iter().any(|a| match a {
        Action::FetchRelease { repo, .. } => *repo == "Dorion",
        Action::Download { repo, .. } => *repo == "Dorion",
        Action::Open { .. } | Action::Kill { .. } => true,
        _ => false,
    })
}

#[test]
fn bundle_is_applied_to_an_empty_directory() {
    let mut host = host_with(Ok(bundle_release()));
    let end = run_plugin(&mut host, "/plugins");
    assert_eq!(end, PluginStep::Applied("v2.1.0".to_string()));
    assert_eq!(file(&host, "/plugins", "browser.css"), Some("browser.css of v2.1.0".to_string()));
    assert_eq!(file(&host, "/plugins", "browser.js"), Some("browser.js of v2.1.0".to_string()));
    assert_eq!(file(&host, "/plugins", "vencord.version"), Some("v2.1.0".to_string()));
    assert_eq!(host.files.len(), 3);
}

#[test]
fn bundle_actions_come_in_their_order() {
    let mut host = host_with(Ok(bundle_release()));
    run_plugin(&mut host, "/plugins");
    assert_eq!(
        host.asked,
        vec![
            Action::FetchRelease { owner: "SpikeHD", repo: "Vencordorion" },
            download_of("browser.css", "v2.1.0", "Vencordorion", plugin_dir()),
            move_of("browser.css", plugin_dir()),
            download_of("browser.js", "v2.1.0", "Vencordorion", plugin_dir()),
            move_of("browser.js", plugin_dir()),
            Action::WriteFile {
                dir: plugin_dir(),
                name: "vencord.version".to_string(),
                content: "v2.1.0".to_string(),
            },
        ]
    );
    assert_eq!(
        host.asked[1],
        Action::Download {
            owner: "SpikeHD",
            repo: "Vencordorion",
            tag: "v2.1.0".to_string(),
            asset: "browser.css".to_string(),
            dir: Location::Path("/plugins".to_string()),
            file: "browser.css.part".to_string(),
        }
    );
}

#[test]
fn failed_script_download_leaves_the_marker_as_it_was() {
    let mut host = host_with(Ok(bundle_release()));
    put(&mut host, "/plugins", "browser.css", "old css");
    put(&mut host, "/plugins", "browser.js", "old js");
    put(&mut host, "/plugins", "vencord.version", "v2.0.0");
    host.failing_download = Some(("browser.js", UpdateError::NetworkError));
    let end = run_plugin(&mut host, "/plugins");
    assert_eq!(end, PluginStep::Failed(UpdateError::NetworkError));
    assert_eq!(file(&host, "/plugins", "browser.css"), Some("browser.css of v2.1.0".to_string()));
    assert_eq!(file(&host, "/plugins", "browser.js"), Some("old js".to_string()));
    assert_eq!(file(&host, "/plugins", "vencord.version"), Some("v2.0.0".to_string()));
    assert_eq!(host.files.len(), 3);
    assert!(!host.asked.iter().any(|a| matches!(a, Action::WriteFile { .. })));
    assert_eq!(host.asked.len(), 5);
    assert_eq!(host.asked[4], discard_of("browser.js", plugin_dir()));
}

#[test]
fn failed_script_download_reports_the_error_of_the_host() {
    let mut host = host_with(Ok(bundle_release()));
    host.failing_download = Some(("browser.js", UpdateError::IOError));
    assert_eq!(run_plugin(&mut host, "/plugins"), PluginStep::Failed(UpdateError::IOError));
    assert_eq!(file(&host, "/plugins", "vencord.version"), None);
}

#[test]
fn failed_style_download_touches_nothing() {
    let mut host = host_with(Ok(bundle_release()));
    put(&mut host, "/plugins", "vencord.version", "v2.0.0");
    host.failing_download = Some(("browser.css", UpdateError::NetworkError));
    let end = run_plugin(&mut host, "/plugins");
    assert_eq!(end, PluginStep::Failed(UpdateError::NetworkError));
    assert_eq!(host.files.len(), 1);
    assert_eq!(file(&host, "/plugins", "vencord.version"), Some("v2.0.0".to_string()));
    assert_eq!(host.asked.len(), 3);
    assert_eq!(host.asked[2], discard_of("browser.css", plugin_dir()));
}

#[test]
fn release_without_the_style_sheet_is_not_downloaded_from() {
    let mut host = host_with(Ok(release_of("v3", &["browser.js", "browser.css.map"])));
    put(&mut host, "/plugins", "browser.css", "old css");
    let end = run_plugin(&mut host, "/plugins");
    assert_eq!(end, PluginStep::Failed(UpdateError::AssetNotFound));
    assert_eq!(host.asked, vec![Action::FetchRelease { owner: "SpikeHD", repo: "Vencordorion" }]);
    assert_eq!(file(&host, "/plugins", "browser.css"), Some("old css".to_string()));
    assert_eq!(host.files.len(), 1);
}

#[test]
fn release_without_the_script_stops_after_the_style_sheet() {
    let mut host = host_with(Ok(release_of("v3", &["browser.css"])));
    put(&mut host, "/plugins", "vencord.version", "v2");
    let end = run_plugin(&mut host, "/plugins");
    assert_eq!(end, PluginStep::Failed(UpdateError::AssetNotFound));
    assert_eq!(host.asked.len(), 3);
    assert_eq!(file(&host, "/plugins", "browser.css"), Some("browser.css of v3".to_string()));
    assert_eq!(file(&host, "/plugins", "browser.js"), None);
    assert_eq!(file(&host, "/plugins", "vencord.version"), Some("v2".to_string()));
}

#[test]
fn unresolved_release_ends_the_bundle_update() {
    let mut missing = host_with(Err(UpdateError::NotFound));
    assert_eq!(run_plugin(&mut missing, "/plugins"), PluginStep::Failed(UpdateError::NotFound));
    assert_eq!(missing.asked.len(), 1);
    let mut offline = host_with(Err(UpdateError::NetworkError));
    assert_eq!(run_plugin(&mut offline, "/plugins"), PluginStep::Failed(UpdateError::NetworkError));
    assert!(offline.files.is_empty());
}

#[test]
fn failed_marker_write_is_not_an_applied_bundle() {
    let mut host = host_with(Ok(bundle_release()));
    host.marker_fails = true;
    assert_eq!(run_plugin(&mut host, "/plugins"), PluginStep::Failed(UpdateError::IOError));
    assert_eq!(file(&host, "/plugins", "vencord.version"), None);
}

#[test]
fn bundle_update_takes_no_answer_to_another_question() {
    let fetching = update_vencordorion("/plugins".to_string());
    assert_eq!(fetching.clone().advance(Reply::Done), None);
    assert_eq!(fetching.clone().advance(Reply::Delegated(0)), None);
    let downloading = match fetching.advance(Reply::Release(bundle_release())) {
        Some(PluginStep::Next(phase)) => phase,
        other => panic!("unexpected {:?}", other),
    };
    assert_eq!(
        downloading,
        PluginPhase::DownloadingStyle {
            dir: "/plugins".to_string(),
            release: bundle_release(),
            download: DownloadPhase::Fetching {
                request: DownloadRequest {
                    owner: "SpikeHD",
                    repo: "Vencordorion",
                    tag: "v2.1.0".to_string(),
                    asset: "browser.css".to_string(),
                    dir: plugin_dir(),
                },
            },
        }
    );
    assert_eq!(downloading.clone().advance(Reply::Release(bundle_release())), None);
    assert_eq!(downloading.advance(Reply::Delegated(1)), None);
}

#[test]
fn main_update_is_a_no_op_without_a_disk_image() {
    assert_eq!(update_main(Platform::PromptInstall), MainStep::Applied);
    assert_eq!(update_main(Platform::NoManagedPath), MainStep::Applied);
    assert_eq!(update_main(Platform::DiskImage), MainStep::Next(MainPhase::FetchingRelease));
    let mut host = host_with(Err(UpdateError::NetworkError));
    assert_eq!(run_main(&mut host, Platform::PromptInstall), MainStep::Applied);
    assert_eq!(run_main(&mut host, Platform::NoManagedPath), MainStep::Applied);
    assert!(host.asked.is_empty());
}

#[test]
fn disk_image_is_downloaded_opened_and_the_old_instance_ended() {
    let mut host = host_with(Ok(release_of(
        "v4.1.0",
        &["Dorion_4.1.0_x64-setup.exe", "Dorion_4.1.0_x64.dmg", "Dorion_4.1.0_aarch64.dmg"],
    )));
    assert_eq!(run_main(&mut host, Platform::DiskImage), MainStep::Applied);
    assert_eq!(
        host.asked,
        vec![
            Action::FetchRelease { owner: "SpikeHD", repo: "Dorion" },
            download_of("Dorion_4.1.0_x64.dmg", "v4.1.0", "Dorion", Location::Temp),
            move_of("Dorion_4.1.0_x64.dmg", Location::Temp),
            Action::Open { dir: Location::Temp, name: "Dorion_4.1.0_x64.dmg".to_string() },
            Action::Kill { process: "Dorion" },
        ]
    );
    assert_eq!(
        file(&host, "<temp>", "Dorion_4.1.0_x64.dmg"),
        Some("Dorion_4.1.0_x64.dmg of v4.1.0".to_string())
    );
    assert_eq!(host.files.len(), 1);
}

#[test]
fn release_without_an_image_fails_the_main_update() {
    let mut host = host_with(Ok(release_of("v4.1.0", &["Dorion.msi", "Dorion.AppImage"])));
    assert_eq!(run_main(&mut host, Platform::DiskImage), MainStep::Failed(UpdateError::AssetNotFound));
    assert_eq!(host.asked.len(), 1);
    assert!(host.files.is_empty());
}

#[test]
fn old_instance_that_cannot_be_ended_does_not_fail_the_update() {
    let mut host = host_with(Ok(release_of("v4.1.0", &["Dorion.dmg"])));
    host.kill_fails = true;
    assert_eq!(run_main(&mut host, Platform::DiskImage), MainStep::Applied);
    assert_eq!(host.asked.len(), 5);
}

#[test]
fn image_that_cannot_be_opened_fails_the_update() {
    let mut host = host_with(Ok(release_of("v4.1.0", &["Dorion.dmg"])));
    host.open_fails = true;
    assert_eq!(run_main(&mut host, Platform::DiskImage), MainStep::Failed(UpdateError::IOError));
    assert!(!host.asked.iter().any(|a| matches!(a, Action::Kill { .. })));
}

#[test]
fn image_that_does_not_arrive_is_not_opened() {
    let mut host = host_with(Ok(release_of("v4.1.0", &["Dorion.dmg"])));
    host.failing_download = Some(("Dorion.dmg", UpdateError::NetworkError));
    assert_eq!(run_main(&mut host, Platform::DiskImage), MainStep::Failed(UpdateError::NetworkError));
    assert!(!host.asked.iter().any(|a| matches!(a, Action::Open { .. })));
    assert!(host.files.is_empty());
    assert_eq!(run_main(&mut host_with(Err(UpdateError::NotFound)), Platform::DiskImage),
        MainStep::Failed(UpdateError::NotFound));
}

#[test]
fn main_update_takes_no_answer_to_another_question() {
    assert_eq!(MainPhase::FetchingRelease.advance(Reply::Done), None);
    assert_eq!(MainPhase::EndingOld.advance(Reply::Release(bundle_release())), None);
    assert_eq!(MainPhase::EndingOld.advance(Reply::Delegated(0)), None);
    let opening = MainPhase::OpeningImage { asset: "a.dmg".to_string() };
    assert_eq!(opening.advance(Reply::Done), Some(MainStep::Next(MainPhase::EndingOld)));
}

#[test]
fn probe_decides_on_both_of_its_steps() {
    assert!(!needs_to_elevate(true, true));
    assert!(needs_to_elevate(true, false));
    assert!(needs_to_elevate(false, true));
    assert!(needs_to_elevate(false, false));
}

#[test]
fn probe_leaves_the_directory_as_it_was() {
    let mut host = host_with(Ok(bundle_release()));
    put(&mut host, "/plugins", "keep.txt", "kept");
    let mut updater = Updater::start(args_of(None, Some("/plugins")), Platform::DiskImage, false);
    assert_eq!(updater.action(), Action::ListDirectory { dir: plugin_dir() });
    let reply = perform(&mut host, &updater.action());
    assert_eq!(reply, Reply::Entries(names_of(&["keep.txt"])));
    updater = updater.advance(reply).unwrap();
    assert_eq!(updater.action(), Action::CreateFile { dir: plugin_dir(), name: "test".to_string() });
    let reply = perform(&mut host, &updater.action());
    updater = updater.advance(reply).unwrap();
    assert_eq!(updater.action(), Action::RemoveFile { dir: plugin_dir(), name: "test".to_string() });
    let reply = perform(&mut host, &updater.action());
    updater = updater.advance(reply).unwrap();
    assert_eq!(host.files.len(), 1);
    assert_eq!(file(&host, "/plugins", "keep.txt"), Some("kept".to_string()));
    assert_eq!(updater.phase, Phase::Plugin(update_vencordorion("/plugins".to_string())));
    assert!(!updater.elevated);
}

#[test]
fn probe_passes_beside_a_file_named_like_the_probe() {
    let mut host = host_with(Ok(bundle_release()));
    put(&mut host, "/plugins", "test", "somebody's file");
    let end = run_updater(&mut host, args_of(None, Some("/plugins")), Platform::DiskImage, false);
    assert_eq!(end, success());
    assert_eq!(host.elevations, 0);
    assert_eq!(host.asked[1], Action::CreateFile { dir: plugin_dir(), name: "test_".to_string() });
    assert_eq!(host.asked[2], Action::RemoveFile { dir: plugin_dir(), name: "test_".to_string() });
    assert_eq!(file(&host, "/plugins", "test"), Some("somebody's file".to_string()));
    assert_eq!(file(&host, "/plugins", "test_"), None);
    assert_eq!(file(&host, "/plugins", "vencord.version"), Some("v2.1.0".to_string()));
    assert_eq!(host.files.len(), 4);
}

#[test]
fn probe_file_gets_the_first_name_that_is_free() {
    assert_eq!(probe_name(&names_of(&[])), "test");
    assert_eq!(probe_name(&names_of(&["browser.css", "Test", "test.txt", " test"])), "test");
    assert_eq!(probe_name(&names_of(&["test"])), "test_");
    assert_eq!(probe_name(&names_of(&["test_"])), "test");
    assert_eq!(probe_name(&names_of(&["test__", "a", "test", "test_"])), "test___");
    assert_eq!(probe_name(&names_of(&["test", "test", "test__"])), "test_");
    let full = names_of(&["test_", "test", "test___", "test__"]);
    let name = probe_name(&full);
    assert_eq!(name, "test____");
    assert!(!full.contains(&name));
}

#[test]
fn directory_that_cannot_be_listed_counts_as_not_writable() {
    let mut host = host_with(Ok(bundle_release()));
    host.listable = false;
    let end = run_updater(&mut host, args_of(None, Some("/plugins")), Platform::DiskImage, true);
    assert_eq!(end, failure(UpdateError::PermissionDenied));
    assert_eq!(host.asked, vec![Action::ListDirectory { dir: plugin_dir() }]);
    assert!(host.files.is_empty());
}

#[test]
fn plugin_flag_alone_never_updates_the_main_application() {
    for platform in [Platform::PromptInstall, Platform::DiskImage, Platform::NoManagedPath] {
        let mut host = host_with(Ok(bundle_release()));
        let end = run_updater(&mut host, args_of(None, Some("/plugins")), platform, false);
        assert_eq!(end, success());
        assert!(!asked_for_main(&host));
        assert_eq!(file(&host, "/plugins", "vencord.version"), Some("v2.1.0".to_string()));
        assert_eq!(host.asked.len(), 9);
    }
}

#[test]
fn both_flags_update_the_bundle_first() {
    let mut host = host_with(Ok(release_of("v5", &["browser.css", "browser.js", "Dorion.dmg"])));
    let end = run_updater(&mut host, args_of(Some(true), Some("/plugins")), Platform::DiskImage, false);
    assert_eq!(end, success());
    let marker = host.asked.iter().position(|a| matches!(a, Action::WriteFile { .. })).unwrap();
    let main = host
        .asked
        .iter()
        .position(|a| *a == Action::FetchRelease { owner: "SpikeHD", repo: "Dorion" })
        .unwrap();
    assert_eq!(marker, 8);
    assert_eq!(main, 9);
    assert_eq!(host.asked.len(), 14);
    assert_eq!(host.asked[13], Action::Kill { process: "Dorion" });
}

#[test]
fn main_flag_alone_skips_probe_and_bundle() {
    let mut host = host_with(Ok(release_of("v5", &["Dorion.dmg"])));
    let end = run_updater(&mut host, args_of(Some(true), None), Platform::DiskImage, false);
    assert_eq!(end, success());
    assert_eq!(host.asked.len(), 5);
    assert_eq!(host.asked[0], Action::FetchRelease { owner: "SpikeHD", repo: "Dorion" });
    assert_eq!(file(&host, "<temp>", "Dorion.dmg"), Some("Dorion.dmg of v5".to_string()));
}

#[test]
fn main_flag_counts_whatever_its_value() {
    let updater = Updater::start(args_of(Some(false), None), Platform::DiskImage, false);
    assert!(updater.wants_main);
    assert_eq!(updater.phase, Phase::Main(MainPhase::FetchingRelease));
}

#[test]
fn no_flag_ends_at_once_with_success() {
    for platform in [Platform::PromptInstall, Platform::DiskImage, Platform::NoManagedPath] {
        let updater = Updater::start(args_of(None, None), platform, false);
        assert_eq!(updater.phase, Phase::Finished { failure: None });
        assert_eq!(updater.action(), success());
        assert_eq!(updater.advance(Reply::Done), None);
    }
    let windows = Updater::start(args_of(Some(true), None), Platform::PromptInstall, false);
    assert_eq!(windows.action(), success());
    let linux = Updater::start(args_of(Some(true), None), Platform::NoManagedPath, true);
    assert_eq!(linux.action(), success());
}

#[test]
fn unwritable_directory_asks_for_elevation_in_the_way_of_the_platform() {
    for (platform, model) in [
        (Platform::PromptInstall, ElevationModel::Relaunch),
        (Platform::DiskImage, ElevationModel::InPlace),
        (Platform::NoManagedPath, ElevationModel::InPlace),
    ] {
        let updater = Updater::start(args_of(None, Some("/plugins")), platform, false);
        let creating = updater.advance(Reply::Entries(names_of(&["browser.css"]))).unwrap();
        let waiting = creating.advance(Reply::Failed(UpdateError::IOError)).unwrap();
        assert_eq!(waiting.phase, Phase::Elevating { dir: "/plugins".to_string() });
        assert_eq!(waiting.action(), Action::Elevate { model });
    }
}

#[test]
fn probe_file_that_cannot_be_removed_asks_for_elevation() {
    let updater = Updater::start(args_of(None, Some("/plugins")), Platform::DiskImage, false);
    let creating = updater.advance(Reply::Entries(names_of(&[]))).unwrap();
    let removing = creating.advance(Reply::Done).unwrap();
    assert_eq!(
        removing.phase,
        Phase::RemovingProbe { dir: "/plugins".to_string(), name: "test".to_string() }
    );
    let waiting = removing.advance(Reply::Failed(UpdateError::IOError)).unwrap();
    assert_eq!(waiting.phase, Phase::Elevating { dir: "/plugins".to_string() });
}

#[test]
fn raised_process_probes_again_and_goes_on() {
    let mut host = host_with(Ok(bundle_release()));
    host.writable = false;
    let end = run_updater(&mut host, args_of(None, Some("/plugins")), Platform::NoManagedPath, false);
    assert_eq!(end, success());
    assert_eq!(host.elevations, 1);
    assert_eq!(file(&host, "/plugins", "vencord.version"), Some("v2.1.0".to_string()));
    assert_eq!(host.asked.len(), 12);
}

#[test]
fn raised_process_that_still_cannot_write_fails_without_asking_again() {
    let mut host = host_with(Ok(bundle_release()));
    host.writable = false;
    host.writable_once_elevated = false;
    let end = run_updater(&mut host, args_of(Some(true), Some("/plugins")), Platform::DiskImage, false);
    assert_eq!(end, failure(UpdateError::PermissionDenied));
    assert_eq!(end, Action::Exit { code: 2, message: Some("the target directory is not writable") });
    assert_eq!(host.elevations, 1);
    assert_eq!(host.asked.len(), 5);
    assert!(host.files.is_empty());
}

#[test]
fn elevated_start_never_asks_for_elevation() {
    let mut host = host_with(Ok(bundle_release()));
    host.writable = false;
    let end = run_updater(&mut host, args_of(None, Some("/plugins")), Platform::PromptInstall, true);
    assert_eq!(end, failure(UpdateError::PermissionDenied));
    assert_eq!(host.elevations, 0);
    assert_eq!(host.asked.len(), 2);
}

#[test]
fn refused_elevation_is_fatal() {
    let mut host = host_with(Ok(bundle_release()));
    host.writable = false;
    host.elevation = Reply::Failed(UpdateError::IOError);
    let end = run_updater(&mut host, args_of(Some(true), Some("/plugins")), Platform::DiskImage, false);
    assert_eq!(end, failure(UpdateError::ElevationRefused));
    assert_eq!(end, Action::Exit {
        code: 3,
        message: Some("the request for elevated privileges was refused"),
    });
    assert!(host.files.is_empty());
    assert!(!asked_for_main(&host));
}

#[test]
fn parent_of_a_relaunch_ends_with_success_whatever_the_child_did() {
    for status in [0, 1, -1, 255] {
        let mut host = host_with(Ok(bundle_release()));
        host.writable = false;
        host.elevation = Reply::Delegated(status);
        let end =
            run_updater(&mut host, args_of(Some(true), Some("C:\\inj")), Platform::PromptInstall, false);
        assert_eq!(end, success());
        assert_eq!(host.asked.len(), 3);
        assert!(host.files.is_empty());
    }
}

#[test]
fn failed_bundle_update_keeps_the_main_application_untouched() {
    let mut host = host_with(Ok(release_of("v5", &["browser.css", "browser.js", "Dorion.dmg"])));
    host.failing_download = Some(("browser.js", UpdateError::NetworkError));
    let end = run_updater(&mut host, args_of(Some(true), Some("/plugins")), Platform::DiskImage, false);
    assert_eq!(end, failure(UpdateError::NetworkError));
    assert_eq!(end, Action::Exit { code: 4, message: Some("the release host could not be reached") });
    assert!(!asked_for_main(&host));
    assert_eq!(file(&host, "/plugins", "vencord.version"), None);
}

#[test]
fn failed_main_update_is_reported_after_an_applied_bundle() {
    let mut host = host_with(Ok(bundle_release()));
    let end = run_updater(&mut host, args_of(Some(true), Some("/plugins")), Platform::DiskImage, false);
    assert_eq!(end, failure(UpdateError::AssetNotFound));
    assert_eq!(end, Action::Exit { code: 6, message: Some("the release holds no asset of that name") });
    assert_eq!(file(&host, "/plugins", "vencord.version"), Some("v2.1.0".to_string()));
}

#[test]
fn longest_invocation_takes_eighteen_answers() {
    let mut host = host_with(Ok(release_of("v5", &["browser.css", "browser.js", "Dorion.dmg"])));
    let mut updater =
        Updater::start(args_of(Some(true), Some("/plugins")), Platform::DiskImage, false);
    // The first probe gets as far as the removal before it fails.
    updater = updater.advance(Reply::Entries(names_of(&[]))).unwrap();
    updater = updater.advance(Reply::Done).unwrap();
    updater = updater.advance(Reply::Failed(UpdateError::IOError)).unwrap();
    updater = updater.advance(Reply::Done).unwrap();
    assert!(updater.elevated);
    let mut answers = 4;
    loop {
        let action = updater.action();
        if action == success() {
            break;
        }
        let reply = perform(&mut host, &action);
        updater = updater.advance(reply).unwrap();
        answers += 1;
    }
    assert_eq!(answers, 18);
}

#[test]
fn download_begins_only_for_an_asset_of_the_release() {
    let release = bundle_release();
    let begun =
        download_release(&release, "SpikeHD", "Vencordorion", "browser.js".to_string(), plugin_dir());
    let request = DownloadRequest {
        owner: "SpikeHD",
        repo: "Vencordorion",
        tag: "v2.1.0".to_string(),
        asset: "browser.js".to_string(),
        dir: plugin_dir(),
    };
    assert_eq!(begun, Ok(DownloadPhase::Fetching { request: request.clone() }));
    assert_eq!(request.staging(), "browser.js.part");
    let missing =
        download_release(&release, "SpikeHD", "Vencordorion", "browser.jsx".to_string(), plugin_dir());
    assert_eq!(missing, Err(UpdateError::AssetNotFound));
}

#[test]
fn download_moves_a_whole_file_into_place() {
    let release = bundle_release();
    let mut host = host_with(Ok(release.clone()));
    put(&mut host, "/plugins", "browser.css", "old css");
    let fetching =
        download_release(&release, "SpikeHD", "Vencordorion", "browser.css".to_string(), plugin_dir())
            .unwrap();
    assert_eq!(fetching.action(), download_of("browser.css", "v2.1.0", "Vencordorion", plugin_dir()));
    let reply = perform(&mut host, &fetching.action());
    assert_eq!(file(&host, "/plugins", "browser.css"), Some("old css".to_string()));
    let placing = match fetching.advance(reply) {
        Some(DownloadStep::Next(phase)) => phase,
        other => panic!("unexpected {:?}", other),
    };
    assert_eq!(placing.action(), move_of("browser.css", plugin_dir()));
    let reply = perform(&mut host, &placing.action());
    assert_eq!(placing.advance(reply), Some(DownloadStep::Stored));
    assert_eq!(file(&host, "/plugins", "browser.css"), Some("browser.css of v2.1.0".to_string()));
    assert_eq!(host.files.len(), 1);
}

#[test]
fn download_that_fails_leaves_the_destination_and_no_staging_file() {
    let release = bundle_release();
    let mut host = host_with(Ok(release.clone()));
    put(&mut host, "/plugins", "browser.css", "old css");
    host.failing_download = Some(("browser.css", UpdateError::NetworkError));
    let mut phase =
        download_release(&release, "SpikeHD", "Vencordorion", "browser.css".to_string(), plugin_dir())
            .unwrap();
    let end = loop {
        let reply = perform(&mut host, &phase.action());
        match phase.advance(reply).unwrap() {
            DownloadStep::Next(next) => phase = next,
            end => break end,
        }
    };
    assert_eq!(end, DownloadStep::Failed(UpdateError::NetworkError));
    assert_eq!(file(&host, "/plugins", "browser.css"), Some("old css".to_string()));
    assert_eq!(host.files.len(), 1);
}

#[test]
fn move_that_fails_leaves_the_destination_and_reports_its_error() {
    let mut host = host_with(Ok(bundle_release()));
    put(&mut host, "/plugins", "browser.js", "old js");
    put(&mut host, "/plugins", "vencord.version", "v2.0.0");
    host.failing_move = Some("browser.js");
    let end = run_plugin(&mut host, "/plugins");
    assert_eq!(end, PluginStep::Failed(UpdateError::IOError));
    assert_eq!(file(&host, "/plugins", "browser.js"), Some("old js".to_string()));
    assert_eq!(file(&host, "/plugins", "browser.js.part"), None);
    assert_eq!(file(&host, "/plugins", "vencord.version"), Some("v2.0.0".to_string()));
    assert_eq!(file(&host, "/plugins", "browser.css"), Some("browser.css of v2.1.0".to_string()));
}

#[test]
fn discard_that_fails_does_not_change_the_error() {
    let request = DownloadRequest {
        owner: "SpikeHD",
        repo: "Dorion",
        tag: "v1".to_string(),
        asset: "Dorion.dmg".to_string(),
        dir: Location::Temp,
    };
    let discarding = DownloadPhase::Discarding { request, error: UpdateError::NetworkError };
    assert_eq!(discarding.action(), discard_of("Dorion.dmg", Location::Temp));
    assert_eq!(
        discarding.clone().advance(Reply::Failed(UpdateError::IOError)),
        Some(DownloadStep::Failed(UpdateError::NetworkError))
    );
    assert_eq!(
        discarding.clone().advance(Reply::Done),
        Some(DownloadStep::Failed(UpdateError::NetworkError))
    );
    assert_eq!(discarding.advance(Reply::Delegated(0)), None);
}

#[test]
fn updater_takes_no_answer_to_another_question() {
    let probing = Updater::start(args_of(None, Some("/plugins")), Platform::DiskImage, false);
    assert_eq!(probing.advance(Reply::Release(bundle_release())), None);
    let probing = Updater::start(args_of(None, Some("/plugins")), Platform::DiskImage, false);
    assert_eq!(probing.advance(Reply::Delegated(0)), None);
    let probing = Updater::start(args_of(None, Some("/plugins")), Platform::DiskImage, false);
    assert_eq!(probing.advance(Reply::Done), None);
    let creating = Updater::start(args_of(None, Some("/plugins")), Platform::DiskImage, false)
        .advance(Reply::Entries(names_of(&[])))
        .unwrap();
    assert_eq!(creating.advance(Reply::Entries(names_of(&[]))), None);
    let waiting = Updater::start(args_of(None, Some("/plugins")), Platform::DiskImage, false)
        .advance(Reply::Failed(UpdateError::IOError))
        .unwrap();
    assert_eq!(waiting.advance(Reply::Release(bundle_release())), None);
}

use tychecker::install::{
    ArchiveKind, InstallState, cache_hit, download_needed, entries_to_remove, plan_install,
    record_install, version_dir,
};
use tychecker::platform::{Arch, Os};
use tychecker::release::{Asset, Release, find_asset};
use tychecker::resolve::{BinarySource, choose_binary_source, command_for};

fn linux_release() -> Release {
    Release {
        version: String::from("v1.2.3"),
        assets: vec![
            Asset {
                name: String::from("ty-aarch64-apple-darwin.tar.gz"),
                download_url: String::from("https://example.invalid/mac-arm"),
            },
            Asset {
                name: String::from("ty-x86_64-unknown-linux-gnu.tar.gz"),
                download_url: String::from("https://example.invalid/linux-x64"),
            },
        ],
    }
}

#[test]
fn fresh_state_has_no_cached_path() {
    let state = InstallState::new();
    assert!(state.cached_binary_path.is_none());
}

#[test]
fn cache_hit_needs_both_a_cached_path_and_an_intact_file() {
    let empty = InstallState::new();
    assert!(cache_hit(&empty, true).is_none());
    let mut state = InstallState::new();
    record_install(&mut state, &String::from("ty-v1.2.3/ty-x86_64-unknown-linux-gnu/ty"));
    assert_eq!(
        cache_hit(&state, true).as_deref(),
        Some("ty-v1.2.3/ty-x86_64-unknown-linux-gnu/ty"),
    );
    assert!(cache_hit(&state, false).is_none());
}

#[test]
fn second_install_is_answered_from_memory() {
    let mut state = InstallState::new();
    let installed = String::from("ty-v1.2.3/ty-x86_64-unknown-linux-gnu/ty");
    record_install(&mut state, &installed);
    let first = cache_hit(&state, true).expect("the recorded path must be served back");
    let second = cache_hit(&state, true).expect("a repeat run must also skip the network");
    assert_eq!(first, installed);
    assert_eq!(second, installed);
}

#[test]
fn plan_picks_the_exactly_named_asset() {
    let plan = plan_install(Os::Linux, Arch::X8664, &linux_release()).expect("an asset matches");
    assert_eq!(plan.asset_url, "https://example.invalid/linux-x64");
    assert_eq!(plan.version_dir, "ty-v1.2.3");
    assert_eq!(plan.binary_path, "ty-v1.2.3/ty-x86_64-unknown-linux-gnu/ty");
    assert_eq!(plan.archive, ArchiveKind::GzipTar);
}

#[test]
fn plan_on_windows_uses_a_flat_exe_and_zip() {
    let release = Release {
        version: String::from("v2.0.0"),
        assets: vec![Asset {
            name: String::from("ty-x86_64-pc-windows-msvc.zip"),
            download_url: String::from("https://example.invalid/win-x64"),
        }],
    };
    let plan = plan_install(Os::Windows, Arch::X8664, &release).expect("an asset matches");
    assert_eq!(plan.asset_url, "https://example.invalid/win-x64");
    assert_eq!(plan.version_dir, "ty-v2.0.0");
    assert_eq!(plan.binary_path, "ty-v2.0.0/ty.exe");
    assert_eq!(plan.archive, ArchiveKind::Zip);
}

#[test]
fn plan_fails_with_a_descriptive_error_when_no_asset_matches() {
    let err = plan_install(Os::Windows, Arch::Aarch64, &linux_release())
        .expect_err("no windows asset is attached");
    assert_eq!(err, "no asset found matching \"ty-aarch64-pc-windows-msvc.zip\"");
}

#[test]
fn first_of_two_equally_named_assets_is_taken() {
    let assets = vec![
        Asset {
            name: String::from("ty-x86_64-unknown-linux-gnu.tar.gz"),
            download_url: String::from("https://example.invalid/first"),
        },
        Asset {
            name: String::from("ty-x86_64-unknown-linux-gnu.tar.gz"),
            download_url: String::from("https://example.invalid/second"),
        },
    ];
    let found = find_asset(&assets, &String::from("ty-x86_64-unknown-linux-gnu.tar.gz"))
        .expect("a match exists");
    assert_eq!(found.download_url, "https://example.invalid/first");
}

#[test]
fn download_decision_ignores_the_directory_and_trusts_only_the_binary() {
    // A version directory left by an interrupted extraction must not be
    // mistaken for a complete install.
    assert!(download_needed(true, false));
    assert!(download_needed(false, false));
    assert!(!download_needed(true, true));
    assert!(!download_needed(false, true));
}

#[test]
fn pruning_removes_every_entry_but_the_new_version() {
    let entries = vec![
        String::from("ty-v1.0.0"),
        String::from("ty-v1.2.3"),
        String::from("stray-download.partial"),
    ];
    let keep = String::from("ty-v1.2.3");
    let removed = entries_to_remove(&entries, &keep);
    assert_eq!(
        removed,
        vec![String::from("ty-v1.0.0"), String::from("stray-download.partial")],
    );
}

#[test]
fn pruning_an_empty_listing_removes_nothing() {
    let removed = entries_to_remove(&Vec::new(), &String::from("ty-v1.2.3"));
    assert!(removed.is_empty());
}

#[test]
fn managed_install_end_to_end() {
    // No configuration and nothing on the search path: the installer runs.
    let source = choose_binary_source(&None, &None);
    assert!(matches!(source, BinarySource::Managed));

    // Fresh session: no cached path, so the release index is consulted.
    let mut state = InstallState::new();
    assert!(cache_hit(&state, false).is_none());

    let plan = plan_install(Os::Linux, Arch::X8664, &linux_release()).expect("an asset matches");
    assert_eq!(plan.binary_path, "ty-v1.2.3/ty-x86_64-unknown-linux-gnu/ty");

    // The binary is not on disk yet: download, then prune the old version.
    assert!(download_needed(false, false));
    let listing = vec![String::from("ty-v1.0.0"), String::from("ty-v1.2.3")];
    let removed = entries_to_remove(&listing, &plan.version_dir);
    assert_eq!(removed, vec![String::from("ty-v1.0.0")]);

    record_install(&mut state, &plan.binary_path);
    let cmd = command_for(plan.binary_path.clone(), None);
    assert_eq!(cmd.command, "ty-v1.2.3/ty-x86_64-unknown-linux-gnu/ty");
    assert_eq!(cmd.args, vec![String::from("server")]);

    // A restart within the session is served from memory.
    assert_eq!(cache_hit(&state, true), Some(plan.binary_path));
}

#[test]
fn constants_name_the_tool_and_its_repository() {
    assert_eq!(tychecker::install::release_repository(), "astral-sh/ty");
    assert_eq!(tychecker::resolve::searched_binary_name(), "ty");
}

#[test]
fn version_directory_is_named_for_the_release() {
    assert_eq!(version_dir(&String::from("v1.2.3")), "ty-v1.2.3");
    assert_eq!(version_dir(&String::from("0.0.1-alpha.5")), "ty-0.0.1-alpha.5");
}

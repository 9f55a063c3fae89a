use shopware_lsp_resolver::errors::ExtensionError;
use shopware_lsp_resolver::platform::{Architecture, Os};
use shopware_lsp_resolver::release::{select_asset, Release, ReleaseAsset};
use shopware_lsp_resolver::resolver::{Action, Attempt, Event, Resolver};

fn asset(name: &str, url: &str) -> ReleaseAsset {
    ReleaseAsset {
        name: name.to_string(),
        download_url: url.to_string(),
    }
}

fn probed_path(action: &Action) -> String {
    match action {
        Action::ProbePath { path } => path.clone(),
        _ => panic!("expected a path probe"),
    }
}

fn finished(action: Action) -> Result<String, ExtensionError> {
    match action {
        Action::Finish { result } => result,
        _ => panic!("expected the attempt to finish"),
    }
}

#[test]
fn dev_binary_in_root_is_found_without_network() {
    let mut resolver = Resolver::new();
    let (attempt, action) = resolver.begin("/work/project");
    assert_eq!(probed_path(&action), "/work/project/shopware-lsp");

    let (_, action) = resolver.step(attempt, Event::Probed { exists_as_file: true });
    let path = finished(action).unwrap();
    assert_eq!(path, "/work/project/shopware-lsp");
    assert_eq!(
        resolver.cached_binary_path.as_deref(),
        Some("/work/project/shopware-lsp")
    );
}

#[test]
fn sibling_dev_binary_is_probed_second() {
    let mut resolver = Resolver::new();
    let (attempt, action) = resolver.begin("/work/project");
    assert_eq!(probed_path(&action), "/work/project/shopware-lsp");

    let (attempt, action) = resolver.step(attempt, Event::Probed { exists_as_file: false });
    assert_eq!(
        probed_path(&action),
        "/work/project/../shopware-lsp/shopware-lsp"
    );

    let (_, action) = resolver.step(attempt, Event::Probed { exists_as_file: true });
    let path = finished(action).unwrap();
    assert_eq!(path, "/work/project/../shopware-lsp/shopware-lsp");
}

#[test]
fn cached_path_is_returned_after_single_probe() {
    let mut resolver = Resolver::new();
    let (attempt, _) = resolver.begin("/work/project");
    let (_, action) = resolver.step(attempt, Event::Probed { exists_as_file: true });
    let first = finished(action).unwrap();

    // A second resolution probes the cached path once and returns it.
    let (attempt, action) = resolver.begin("/work/project");
    assert_eq!(probed_path(&action), first);
    let (_, action) = resolver.step(attempt, Event::Probed { exists_as_file: true });
    let second = finished(action).unwrap();
    assert_eq!(second, first);
}

#[test]
fn stale_cache_falls_back_to_dev_probes() {
    let mut resolver = Resolver {
        cached_binary_path: Some("/stale/shopware-lsp".to_string()),
    };
    let (attempt, action) = resolver.begin("/work/project");
    assert_eq!(probed_path(&action), "/stale/shopware-lsp");

    // The file is gone: the cache is dropped and the dev candidates are next.
    let (_, action) = resolver.step(attempt, Event::Probed { exists_as_file: false });
    assert_eq!(probed_path(&action), "/work/project/shopware-lsp");
    assert_eq!(resolver.cached_binary_path, None);
}

fn advance_to_platform_query(resolver: &mut Resolver) -> Attempt {
    let (attempt, _) = resolver.begin("/work/project");
    let (attempt, _) = resolver.step(attempt, Event::Probed { exists_as_file: false });
    let (attempt, action) = resolver.step(attempt, Event::Probed { exists_as_file: false });
    assert!(matches!(action, Action::QueryPlatform));
    attempt
}

#[test]
fn download_path_runs_to_completion() {
    let mut resolver = Resolver::new();
    let attempt = advance_to_platform_query(&mut resolver);

    let (attempt, action) = resolver.step(
        attempt,
        Event::PlatformIs {
            os: Os::Linux,
            arch: Architecture::X8664,
        },
    );
    match &action {
        Action::FetchRelease { repo } => assert_eq!(repo, "shopwareLabs/shopware-lsp"),
        _ => panic!("expected a release fetch"),
    }

    let release = Release {
        version: "v1.2.3".to_string(),
        assets: vec![
            asset("shopware-lsp_darwin_amd64.zip", "https://example.com/mac"),
            asset("shopware-lsp_linux_amd64.zip", "https://example.com/linux"),
            asset("shopware-lsp_linux_arm64.zip", "https://example.com/linux-arm"),
        ],
    };
    let (attempt, action) = resolver.step(attempt, Event::ReleaseFetched { release });
    match &action {
        Action::DownloadAsset { url, file_name } => {
            assert_eq!(url, "https://example.com/linux");
            assert_eq!(file_name, "shopware-lsp_linux_amd64.zip");
        }
        _ => panic!("expected a download"),
    }

    let (attempt, action) = resolver.step(attempt, Event::Downloaded);
    match &action {
        Action::MakeExecutable { path } => assert_eq!(path, "shopware-lsp"),
        _ => panic!("expected the binary to be marked executable"),
    }

    let (_, action) = resolver.step(attempt, Event::MadeExecutable);
    let path = finished(action).unwrap();
    assert_eq!(path, "shopware-lsp");
    assert_eq!(resolver.cached_binary_path.as_deref(), Some("shopware-lsp"));
}

#[test]
fn unsupported_platform_fails_resolution() {
    let mut resolver = Resolver::new();
    let attempt = advance_to_platform_query(&mut resolver);

    let (_, action) = resolver.step(
        attempt,
        Event::PlatformIs {
            os: Os::Windows,
            arch: Architecture::X8664,
        },
    );
    let err = finished(action).unwrap_err();
    match &err {
        ExtensionError::UnsupportedPlatform { os, arch } => {
            assert_eq!(*os, Os::Windows);
            assert_eq!(*arch, Architecture::X8664);
        }
        _ => panic!("expected an unsupported-platform error"),
    }
    assert_eq!(err.message(), "Shopware LSP does not support Windows / X8664");
    assert_eq!(resolver.cached_binary_path, None);
}

fn advance_to_release_query(resolver: &mut Resolver) -> Attempt {
    let attempt = advance_to_platform_query(resolver);
    let (attempt, _) = resolver.step(
        attempt,
        Event::PlatformIs {
            os: Os::Mac,
            arch: Architecture::Aarch64,
        },
    );
    attempt
}

#[test]
fn release_without_matching_asset_names_suffix_and_version() {
    let mut resolver = Resolver::new();
    let attempt = advance_to_release_query(&mut resolver);

    let release = Release {
        version: "v9.9.9".to_string(),
        assets: vec![
            asset("shopware-lsp_linux_amd64.zip", "https://example.com/linux"),
            asset("shopware-lsp_windows_amd64.zip", "https://example.com/win"),
        ],
    };
    let (_, action) = resolver.step(attempt, Event::ReleaseFetched { release });
    let err = finished(action).unwrap_err();
    match &err {
        ExtensionError::NoMatchingAsset { suffix, version } => {
            assert_eq!(suffix, "darwin_arm64.zip");
            assert_eq!(version, "v9.9.9");
        }
        _ => panic!("expected a no-matching-asset error"),
    }
    assert_eq!(
        err.message(),
        "No asset for darwin_arm64.zip in release v9.9.9"
    );
    assert_eq!(resolver.cached_binary_path, None);
}

#[test]
fn release_fetch_failure_is_wrapped() {
    let mut resolver = Resolver::new();
    let attempt = advance_to_release_query(&mut resolver);

    let (_, action) = resolver.step(
        attempt,
        Event::ReleaseFetchFailed {
            message: "http timeout".to_string(),
        },
    );
    let err = finished(action).unwrap_err();
    assert_eq!(err.message(), "Failed to fetch release: http timeout");
}

#[test]
fn download_failure_is_wrapped() {
    let mut resolver = Resolver::new();
    let attempt = advance_to_release_query(&mut resolver);

    let release = Release {
        version: "v1.0.0".to_string(),
        assets: vec![asset("lsp_darwin_arm64.zip", "https://example.com/mac-arm")],
    };
    let (attempt, _) = resolver.step(attempt, Event::ReleaseFetched { release });
    let (_, action) = resolver.step(
        attempt,
        Event::DownloadFailed {
            message: "disk full".to_string(),
        },
    );
    let err = finished(action).unwrap_err();
    assert_eq!(err.message(), "Failed to download: disk full");
    assert_eq!(resolver.cached_binary_path, None);
}

#[test]
fn chmod_failure_passes_host_message_through() {
    let mut resolver = Resolver::new();
    let attempt = advance_to_release_query(&mut resolver);

    let release = Release {
        version: "v1.0.0".to_string(),
        assets: vec![asset("lsp_darwin_arm64.zip", "https://example.com/mac-arm")],
    };
    let (attempt, _) = resolver.step(attempt, Event::ReleaseFetched { release });
    let (attempt, _) = resolver.step(attempt, Event::Downloaded);
    let (_, action) = resolver.step(
        attempt,
        Event::MakeExecutableFailed {
            message: "permission denied".to_string(),
        },
    );
    let err = finished(action).unwrap_err();
    match &err {
        ExtensionError::PermissionSetFailed { message } => {
            assert_eq!(message, "permission denied")
        }
        _ => panic!("expected a permission error"),
    }
    assert_eq!(err.message(), "permission denied");
}

#[test]
fn select_asset_picks_first_match() {
    let assets = vec![
        asset("a_linux_arm64.zip", "u0"),
        asset("b_linux_amd64.zip", "u1"),
        asset("c_linux_amd64.zip", "u2"),
    ];
    assert_eq!(select_asset(&assets, "linux_amd64.zip"), Some(1));
}

#[test]
fn select_asset_without_match_returns_none() {
    let assets = vec![asset("a_linux_arm64.zip", "u0")];
    assert_eq!(select_asset(&assets, "darwin_amd64.zip"), None);
    assert_eq!(select_asset(&assets, ""), Some(0));
    assert_eq!(select_asset(&Vec::new(), "linux_amd64.zip"), None);
}

#[test]
fn select_asset_needs_full_suffix() {
    // The name must end with the whole suffix; a shorter name never matches.
    let assets = vec![asset("amd64.zip", "u0"), asset("linux_amd64.zip", "u1")];
    assert_eq!(select_asset(&assets, "linux_amd64.zip"), Some(1));
}

use ledger_extension::error::ResolveError;
use ledger_extension::platform::{Architecture, Os};
use ledger_extension::release::{Asset, Release};
use ledger_extension::resolver::{
    plan_installation, Action, Event, InstallationStatus, LedgerExtension, Plan,
};

const ASSET: &str = "ledger-language-server-2.0.0-linux-x86_64";
const URL: &str = "https://example.invalid/linux-x86_64";
const VERSION_DIR: &str = "ledger-language-server-v2.0.0";

fn release() -> Release {
    Release {
        version: "v2.0.0".to_string(),
        assets: vec![
            Asset {
                name: "ledger-language-server-2.0.0-apple-aarch64".to_string(),
                download_url: "https://example.invalid/apple-aarch64".to_string(),
            },
            Asset { name: ASSET.to_string(), download_url: URL.to_string() },
        ],
    }
}

fn lookup() -> Action {
    Action::LookupRelease {
        status: InstallationStatus::CheckingForUpdate,
        repository: "claytonrcarter/ledger-language-server".to_string(),
        require_assets: true,
        pre_release: true,
    }
}

fn step(resolver: &mut LedgerExtension, event: Event) -> Action {
    resolver.language_server_binary_path(event)
}

/// Takes a fresh resolver up to the probe of the asset's path.
fn until_probe(resolver: &mut LedgerExtension) {
    assert_eq!(step(resolver, Event::Requested), lookup());
    assert_eq!(step(resolver, Event::ReleaseFetched(Ok(release()))), Action::QueryPlatform);
    assert_eq!(
        step(resolver, Event::PlatformKnown(Os::Linux, Architecture::X8664)),
        Action::CreateDirectory(VERSION_DIR.to_string())
    );
    assert_eq!(
        step(resolver, Event::DirectoryCreated(Ok(()))),
        Action::ProbeFile(ASSET.to_string())
    );
}

/// Takes a fresh resolver up to the listing after a download.
fn until_listing(resolver: &mut LedgerExtension) {
    until_probe(resolver);
    assert_eq!(
        step(resolver, Event::FileProbed(false)),
        Action::Download {
            status: InstallationStatus::Downloading,
            url: URL.to_string(),
            target: ASSET.to_string(),
        }
    );
    assert_eq!(step(resolver, Event::Downloaded(Ok(()))), Action::MakeExecutable(ASSET.to_string()));
    assert_eq!(step(resolver, Event::MadeExecutable(Ok(()))), Action::ListWorkingDirectory);
}

#[test]
fn new_resolver_is_idle_with_empty_cache() {
    let resolver = LedgerExtension::new();
    assert!(resolver.is_idle());
    assert_eq!(resolver.cached_binary_path(), None);
}

#[test]
fn present_asset_is_adopted_without_download() {
    let mut resolver = LedgerExtension::new();
    until_probe(&mut resolver);
    assert!(!resolver.is_idle());
    assert_eq!(resolver.cached_binary_path(), None);
    assert_eq!(step(&mut resolver, Event::FileProbed(true)), Action::Finish(Ok(ASSET.to_string())));
    assert!(resolver.is_idle());
    assert_eq!(resolver.cached_binary_path(), Some(&ASSET.to_string()));
}

#[test]
fn fresh_download_cleans_up_and_caches() {
    let mut resolver = LedgerExtension::new();
    until_listing(&mut resolver);
    let listing = vec![
        "ledger-language-server-v1.9.0".to_string(),
        VERSION_DIR.to_string(),
        ASSET.to_string(),
        "ledger-language-server-1.9.0-linux-x86_64".to_string(),
    ];
    assert_eq!(
        step(&mut resolver, Event::Listed(Ok(listing))),
        Action::Remove(vec![
            "ledger-language-server-v1.9.0".to_string(),
            ASSET.to_string(),
            "ledger-language-server-1.9.0-linux-x86_64".to_string(),
        ])
    );
    assert_eq!(resolver.cached_binary_path(), None);
    assert_eq!(step(&mut resolver, Event::Removed), Action::Finish(Ok(ASSET.to_string())));
    assert!(resolver.is_idle());
    assert_eq!(resolver.cached_binary_path(), Some(&ASSET.to_string()));
}

#[test]
fn cached_file_is_returned_without_lookup() {
    let mut resolver = LedgerExtension::new();
    until_probe(&mut resolver);
    step(&mut resolver, Event::FileProbed(true));
    assert_eq!(step(&mut resolver, Event::Requested), Action::ProbeFile(ASSET.to_string()));
    assert_eq!(step(&mut resolver, Event::FileProbed(true)), Action::Finish(Ok(ASSET.to_string())));
    assert!(resolver.is_idle());
    assert_eq!(resolver.cached_binary_path(), Some(&ASSET.to_string()));
}

#[test]
fn vanished_cached_file_starts_a_lookup() {
    let mut resolver = LedgerExtension::new();
    until_probe(&mut resolver);
    step(&mut resolver, Event::FileProbed(true));
    assert_eq!(step(&mut resolver, Event::Requested), Action::ProbeFile(ASSET.to_string()));
    assert_eq!(step(&mut resolver, Event::FileProbed(false)), lookup());
    assert_eq!(
        step(&mut resolver, Event::ReleaseFetched(Err("offline".to_string()))),
        Action::Finish(Err(ResolveError::Lookup("offline".to_string())))
    );
    assert!(resolver.is_idle());
    assert_eq!(resolver.cached_binary_path(), Some(&ASSET.to_string()));
}

#[test]
fn lookup_failure_ends_the_resolution() {
    let mut resolver = LedgerExtension::new();
    assert_eq!(step(&mut resolver, Event::Requested), lookup());
    assert_eq!(
        step(&mut resolver, Event::ReleaseFetched(Err("rate limited".to_string()))),
        Action::Finish(Err(ResolveError::Lookup("rate limited".to_string())))
    );
    assert!(resolver.is_idle());
    assert_eq!(resolver.cached_binary_path(), None);
}

#[test]
fn windows_fails_before_anything_is_installed() {
    let mut resolver = LedgerExtension::new();
    step(&mut resolver, Event::Requested);
    step(&mut resolver, Event::ReleaseFetched(Ok(release())));
    assert_eq!(
        step(&mut resolver, Event::PlatformKnown(Os::Windows, Architecture::X86)),
        Action::Finish(Err(ResolveError::UnsupportedPlatform))
    );
    assert!(resolver.is_idle());
}

#[test]
fn x86_fails_before_anything_is_installed() {
    let mut resolver = LedgerExtension::new();
    step(&mut resolver, Event::Requested);
    step(&mut resolver, Event::ReleaseFetched(Ok(release())));
    assert_eq!(
        step(&mut resolver, Event::PlatformKnown(Os::Linux, Architecture::X86)),
        Action::Finish(Err(ResolveError::UnsupportedArchitecture))
    );
    assert!(resolver.is_idle());
}

#[test]
fn release_without_the_platforms_asset() {
    let mut resolver = LedgerExtension::new();
    step(&mut resolver, Event::Requested);
    step(&mut resolver, Event::ReleaseFetched(Ok(release())));
    assert_eq!(
        step(&mut resolver, Event::PlatformKnown(Os::Mac, Architecture::X8664)),
        Action::Finish(Err(ResolveError::AssetNotFound(
            "ledger-language-server-2.0.0-apple-x86_64".to_string()
        )))
    );
    assert!(resolver.is_idle());
}

#[test]
fn directory_failure_names_path_and_cause() {
    let mut resolver = LedgerExtension::new();
    step(&mut resolver, Event::Requested);
    step(&mut resolver, Event::ReleaseFetched(Ok(release())));
    step(&mut resolver, Event::PlatformKnown(Os::Linux, Architecture::X8664));
    assert_eq!(
        step(&mut resolver, Event::DirectoryCreated(Err("denied".to_string()))),
        Action::Finish(Err(ResolveError::Directory {
            path: VERSION_DIR.to_string(),
            cause: "denied".to_string(),
        }))
    );
    assert!(resolver.is_idle());
}

#[test]
fn download_failure_ends_the_resolution() {
    let mut resolver = LedgerExtension::new();
    until_probe(&mut resolver);
    step(&mut resolver, Event::FileProbed(false));
    assert_eq!(
        step(&mut resolver, Event::Downloaded(Err("reset".to_string()))),
        Action::Finish(Err(ResolveError::Download("reset".to_string())))
    );
    assert!(resolver.is_idle());
    assert_eq!(resolver.cached_binary_path(), None);
}

#[test]
fn permission_failure_ends_the_resolution() {
    let mut resolver = LedgerExtension::new();
    until_probe(&mut resolver);
    step(&mut resolver, Event::FileProbed(false));
    step(&mut resolver, Event::Downloaded(Ok(())));
    assert_eq!(
        step(&mut resolver, Event::MadeExecutable(Err("read-only".to_string()))),
        Action::Finish(Err(ResolveError::Permission("read-only".to_string())))
    );
    assert_eq!(resolver.cached_binary_path(), None);
}

#[test]
fn listing_failure_is_fatal() {
    let mut resolver = LedgerExtension::new();
    until_listing(&mut resolver);
    assert_eq!(
        step(&mut resolver, Event::Listed(Err("gone".to_string()))),
        Action::Finish(Err(ResolveError::List("gone".to_string())))
    );
    assert!(resolver.is_idle());
    assert_eq!(resolver.cached_binary_path(), None);
}

#[test]
fn event_out_of_turn_ends_the_resolution() {
    let mut resolver = LedgerExtension::new();
    assert_eq!(
        step(&mut resolver, Event::Removed),
        Action::Finish(Err(ResolveError::UnexpectedEvent))
    );
    assert!(resolver.is_idle());
    until_probe(&mut resolver);
    assert_eq!(
        step(&mut resolver, Event::Downloaded(Ok(()))),
        Action::Finish(Err(ResolveError::UnexpectedEvent))
    );
    assert!(resolver.is_idle());
    assert_eq!(resolver.cached_binary_path(), None);
}

#[test]
fn plan_names_asset_url_and_directory() {
    assert_eq!(
        plan_installation(&release(), Os::Mac, Architecture::Aarch64),
        Ok(Plan {
            asset_name: "ledger-language-server-2.0.0-apple-aarch64".to_string(),
            download_url: "https://example.invalid/apple-aarch64".to_string(),
            version_dir: VERSION_DIR.to_string(),
        })
    );
    assert_eq!(
        plan_installation(&release(), Os::Windows, Architecture::Aarch64),
        Err(ResolveError::UnsupportedPlatform)
    );
}

#[test]
fn longest_resolution_takes_ten_moves() {
    let mut resolver = LedgerExtension::new();
    until_probe(&mut resolver);
    step(&mut resolver, Event::FileProbed(true));
    let events = vec![
        Event::Requested,
        Event::FileProbed(false),
        Event::ReleaseFetched(Ok(release())),
        Event::PlatformKnown(Os::Linux, Architecture::X8664),
        Event::DirectoryCreated(Ok(())),
        Event::FileProbed(false),
        Event::Downloaded(Ok(())),
        Event::MadeExecutable(Ok(())),
        Event::Listed(Ok(vec![VERSION_DIR.to_string()])),
        Event::Removed,
    ];
    let mut moves = 0;
    let mut last = None;
    for event in events {
        assert!(!matches!(last, Some(Action::Finish(_))));
        last = Some(step(&mut resolver, event));
        moves += 1;
    }
    assert_eq!(moves, 10);
    assert_eq!(last, Some(Action::Finish(Ok(ASSET.to_string()))));
    assert!(resolver.is_idle());
}

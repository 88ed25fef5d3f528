use ghi::commands::{display_name, visible_releases};
use ghi::errors::InstallError;
use ghi::release::{is_archive_asset, Action, Asset, Event, Installer, Phase, ReleaseMeta};
use ghi::repo::parse;

fn asset(name: &str) -> Asset {
    Asset {
        name: name.to_string(),
        url: format!("https://example.test/assets/{}", name),
        content_type: "application/gzip".to_string(),
    }
}

fn release(assets: Vec<Asset>) -> ReleaseMeta {
    ReleaseMeta {
        tag_name: "v1".to_string(),
        name: Some("v1".to_string()),
        assets,
        draft: false,
    }
}

fn installer(spec: &str, os: &str) -> Installer {
    Installer::new(parse(spec).unwrap(), "/home/u".to_string(), os.to_string())
}

#[test]
fn archive_suffix_decides_eligibility() {
    assert!(!is_archive_asset("readme.txt"));
    assert!(is_archive_asset("tool-linux-x86.tar.gz"));
    assert!(is_archive_asset("tool-darwin-arm64.tar.gz"));
    assert!(!is_archive_asset("tool.zip"));
    assert!(!is_archive_asset("gz"));
}

#[test]
fn non_unix_family_fails_at_once() {
    let mut ins = installer("owner/name@v1", "linux");
    let act = ins.step(Event::Begin { family: "windows".to_string() });
    match act {
        Action::Fail { error: InstallError::UnsupportedPlatform { detail } } => {
            assert_eq!(detail, "Non-unix systems are not supported.");
        }
        _ => panic!("expected an unsupported-platform failure"),
    }
    assert_eq!(ins.phase, Phase::Failed);
}

#[test]
fn explicit_tag_skips_tag_listing() {
    let mut ins = installer("owner/name@v1", "linux");
    let act = ins.step(Event::Begin { family: "unix".to_string() });
    match act {
        Action::FetchRelease { tag } => assert_eq!(tag, "v1"),
        _ => panic!("expected a release fetch"),
    }
}

#[test]
fn latest_tag_lists_tags_first() {
    let mut ins = installer("owner/name", "linux");
    let act = ins.step(Event::Begin { family: "unix".to_string() });
    assert!(matches!(act, Action::FetchLatestTag));
    let act = ins.step(Event::TagsFetched { first: Some("v2.0".to_string()) });
    match act {
        Action::FetchRelease { tag } => assert_eq!(tag, "v2.0"),
        _ => panic!("expected a release fetch"),
    }
}

#[test]
fn no_tags_fails_the_install() {
    let mut ins = installer("owner/name", "linux");
    ins.step(Event::Begin { family: "unix".to_string() });
    let act = ins.step(Event::TagsFetched { first: None });
    match act {
        Action::Fail { error: InstallError::ReleaseNotFound { detail } } => {
            assert_eq!(detail, "No tags found");
        }
        _ => panic!("expected a release-not-found failure"),
    }
}

#[test]
fn release_lookup_error_is_passed_on() {
    let mut ins = installer("owner/name@v9", "linux");
    ins.step(Event::Begin { family: "unix".to_string() });
    let act = ins.step(Event::ReleaseFetched { outcome: Err("HTTP 404".to_string()) });
    match act {
        Action::Fail { error: InstallError::ReleaseNotFound { detail } } => {
            assert_eq!(detail, "HTTP 404");
        }
        _ => panic!("expected a release-not-found failure"),
    }
}

#[test]
fn only_archive_assets_are_tried_in_order() {
    let mut ins = installer("owner/name@v1", "linux");
    ins.step(Event::Begin { family: "unix".to_string() });
    let rel = release(vec![
        asset("readme.txt"),
        asset("tool-linux-x86.tar.gz"),
        asset("tool-darwin-arm64.tar.gz"),
    ]);
    let act = ins.step(Event::ReleaseFetched { outcome: Ok(rel) });
    match act {
        Action::Download { url, dest, .. } => {
            assert_eq!(url, "https://example.test/assets/tool-linux-x86.tar.gz");
            assert_eq!(dest, "/home/u/.ghi/owner/name/v1/tool-linux-x86.tar.gz");
        }
        _ => panic!("expected the first archive asset to be downloaded"),
    }
    // First archive unpacks but yields nothing: the second one is tried.
    ins.step(Event::Downloaded { error: None });
    ins.step(Event::Unpacked { ok: true });
    let act = ins.step(Event::Probed { found: None });
    match act {
        Action::Download { url, .. } => {
            assert_eq!(url, "https://example.test/assets/tool-darwin-arm64.tar.gz");
        }
        _ => panic!("expected the second archive asset to be downloaded"),
    }
}

#[test]
fn exhausting_all_assets_names_the_repo() {
    let mut ins = installer("owner/name@v1", "linux");
    ins.step(Event::Begin { family: "unix".to_string() });
    let rel = release(vec![
        asset("readme.txt"),
        asset("tool-linux-x86.tar.gz"),
        asset("tool-darwin-arm64.tar.gz"),
    ]);
    ins.step(Event::ReleaseFetched { outcome: Ok(rel) });
    ins.step(Event::Downloaded { error: None });
    ins.step(Event::Unpacked { ok: true });
    ins.step(Event::Probed { found: None });
    ins.step(Event::Downloaded { error: None });
    ins.step(Event::Unpacked { ok: true });
    let act = ins.step(Event::Probed { found: None });
    match act {
        Action::Fail { error: InstallError::NoExecutableFound { full_name } } => {
            assert_eq!(full_name, "owner/name/v1");
            assert_eq!(
                InstallError::NoExecutableFound { full_name }.message(),
                "Failed to find a valid executable for 'owner/name/v1'"
            );
        }
        _ => panic!("expected exhaustion to fail the install"),
    }
    assert_eq!(ins.phase, Phase::Failed);
}

#[test]
fn no_archive_asset_at_all_fails() {
    let mut ins = installer("owner/name@v1", "linux");
    ins.step(Event::Begin { family: "unix".to_string() });
    let rel = release(vec![asset("readme.txt"), asset("notes.md")]);
    let act = ins.step(Event::ReleaseFetched { outcome: Ok(rel) });
    assert!(matches!(
        act,
        Action::Fail { error: InstallError::NoExecutableFound { .. } }
    ));
}

#[test]
fn failed_unpack_moves_to_next_asset() {
    let mut ins = installer("owner/name@v1", "linux");
    ins.step(Event::Begin { family: "unix".to_string() });
    let rel = release(vec![asset("a.tar.gz"), asset("b.tar.gz")]);
    ins.step(Event::ReleaseFetched { outcome: Ok(rel) });
    ins.step(Event::Downloaded { error: None });
    let act = ins.step(Event::Unpacked { ok: false });
    match act {
        Action::Download { url, .. } => {
            assert_eq!(url, "https://example.test/assets/b.tar.gz");
        }
        _ => panic!("expected the next asset after a failed unpack"),
    }
}

#[test]
fn download_error_is_terminal() {
    let mut ins = installer("owner/name@v1", "linux");
    ins.step(Event::Begin { family: "unix".to_string() });
    let rel = release(vec![asset("a.tar.gz"), asset("b.tar.gz")]);
    ins.step(Event::ReleaseFetched { outcome: Ok(rel) });
    let act = ins.step(Event::Downloaded {
        error: Some("failed to download file https://example.test/assets/a.tar.gz".to_string()),
    });
    match act {
        Action::Fail { error: InstallError::Transfer { detail } } => {
            assert_eq!(detail, "failed to download file https://example.test/assets/a.tar.gz");
        }
        _ => panic!("expected a transfer failure"),
    }
    assert_eq!(ins.phase, Phase::Failed);
}

#[test]
fn end_to_end_single_asset_install() {
    let mut ins = installer("owner/name", "linux");
    let act = ins.step(Event::Begin { family: "unix".to_string() });
    assert!(matches!(act, Action::FetchLatestTag));
    let act = ins.step(Event::TagsFetched { first: Some("v1.0.0".to_string()) });
    assert!(matches!(act, Action::FetchRelease { .. }));
    let rel = release(vec![asset("mytool-1.0.0-linux.tar.gz")]);
    let act = ins.step(Event::ReleaseFetched { outcome: Ok(rel) });
    match act {
        Action::Download { dest, .. } => {
            assert_eq!(dest, "/home/u/.ghi/owner/name/latest/mytool-1.0.0-linux.tar.gz");
        }
        _ => panic!("expected a download"),
    }
    let act = ins.step(Event::Downloaded { error: None });
    match act {
        Action::Unpack { archive, target } => {
            assert_eq!(archive, "/home/u/.ghi/owner/name/latest/mytool-1.0.0-linux.tar.gz");
            assert_eq!(target, "/home/u/.ghi/owner/name/latest/unpacked");
        }
        _ => panic!("expected an unpack"),
    }
    let act = ins.step(Event::Unpacked { ok: true });
    match act {
        Action::Probe { dir } => assert_eq!(dir, "/home/u/.ghi/owner/name/latest/unpacked"),
        _ => panic!("expected a probe"),
    }
    let exec = "/home/u/.ghi/owner/name/latest/unpacked/mytool".to_string();
    let act = ins.step(Event::Probed { found: Some(exec.clone()) });
    match act {
        Action::Link { source, dest } => {
            assert_eq!(source, exec);
            assert_eq!(dest, "/home/u/.local/bin/mytool");
        }
        _ => panic!("expected a link"),
    }
    let act = ins.step(Event::Linked { error: None });
    assert!(matches!(act, Action::Done));
    assert_eq!(ins.phase, Phase::Finished);
    assert_eq!(ins.exec_path, Some(exec));
}

#[test]
fn rerunning_the_same_install_gives_the_same_paths() {
    // The working directory is a cache keyed by owner, name and tag: a second
    // run downloads to the same destination instead of failing on it.
    let mut first: Vec<String> = Vec::new();
    let mut second: Vec<String> = Vec::new();
    for run in [&mut first, &mut second] {
        let mut ins = installer("owner/name@v1", "linux");
        ins.step(Event::Begin { family: "unix".to_string() });
        let rel = release(vec![asset("tool.tar.gz")]);
        if let Action::Download { dest, .. } = ins.step(Event::ReleaseFetched { outcome: Ok(rel) })
        {
            run.push(dest);
        }
        if let Action::Unpack { archive, target } = ins.step(Event::Downloaded { error: None }) {
            run.push(archive);
            run.push(target);
        }
    }
    assert_eq!(first, second);
    assert!(!first.is_empty());
}

#[test]
fn unsupported_os_fails_at_link_time() {
    let mut ins = installer("owner/name@v1", "freebsd");
    ins.step(Event::Begin { family: "unix".to_string() });
    let rel = release(vec![asset("tool.tar.gz")]);
    ins.step(Event::ReleaseFetched { outcome: Ok(rel) });
    ins.step(Event::Downloaded { error: None });
    ins.step(Event::Unpacked { ok: true });
    let act = ins.step(Event::Probed { found: Some("/home/u/.ghi/owner/name/v1/unpacked/t".to_string()) });
    match act {
        Action::Fail { error: InstallError::UnsupportedPlatform { detail } } => {
            assert_eq!(detail, "OS 'freebsd' is not supported right now.");
        }
        _ => panic!("expected an unsupported-platform failure"),
    }
}

#[test]
fn link_failure_is_reported() {
    let mut ins = installer("owner/name@v1", "macos");
    ins.step(Event::Begin { family: "unix".to_string() });
    let rel = release(vec![asset("tool.tar.gz")]);
    ins.step(Event::ReleaseFetched { outcome: Ok(rel) });
    ins.step(Event::Downloaded { error: None });
    ins.step(Event::Unpacked { ok: true });
    ins.step(Event::Probed { found: Some("/home/u/.ghi/owner/name/v1/unpacked/t".to_string()) });
    let act = ins.step(Event::Linked { error: Some("File exists (os error 17)".to_string()) });
    match act {
        Action::Fail { error } => {
            assert_eq!(
                error.message(),
                "Failed to create symlink - File exists (os error 17)"
            );
        }
        _ => panic!("expected a link failure"),
    }
}

#[test]
fn unpack_error_message_names_the_archive() {
    let e = InstallError::Unpack { archive: "/home/u/.ghi/o/n/v1/tool.tar.gz".to_string() };
    assert_eq!(e.message(), "Failed to unzip: /home/u/.ghi/o/n/v1/tool.tar.gz");
}

#[test]
fn listing_skips_drafts_unless_asked() {
    let rels = vec![
        ReleaseMeta { tag_name: "v3".to_string(), name: None, assets: vec![], draft: true },
        ReleaseMeta { tag_name: "v2".to_string(), name: Some("two".to_string()), assets: vec![], draft: false },
        ReleaseMeta { tag_name: "v1".to_string(), name: Some("one".to_string()), assets: vec![], draft: false },
    ];
    let shown = visible_releases(rels, false);
    assert_eq!(shown.len(), 2);
    assert_eq!(shown[0].tag_name, "v2");
    assert_eq!(shown[1].tag_name, "v1");

    let rels = vec![
        ReleaseMeta { tag_name: "v3".to_string(), name: None, assets: vec![], draft: true },
        ReleaseMeta { tag_name: "v2".to_string(), name: Some("two".to_string()), assets: vec![], draft: false },
    ];
    let all = visible_releases(rels, true);
    assert_eq!(all.len(), 2);
    assert_eq!(all[0].tag_name, "v3");
}

#[test]
fn listing_name_falls_back_to_placeholder() {
    assert_eq!(display_name(&Some("one".to_string())), "one");
    assert_eq!(display_name(&None), "n/a");
}

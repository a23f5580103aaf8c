use space_craft::release::{
    args_for_platform_package, display_version, finalize_release_version, gh_release_args, icon_file, iconset,
    next_dev_patch, package_file_name, package_step, PackageStep, Release, ReleaseNewVersion, ReleaseVersionError,
    SemVersion,
};
use space_craft::text::{last_segment_of, parse_u64};

fn request(version: Option<&str>, dev_patch: bool) -> ReleaseNewVersion {
    ReleaseNewVersion { version: version.map(|s| s.to_owned()), dev_patch, force_rebuild: false }
}

#[test]
fn release_platforms() {
    assert!(Release::All.release_windows() && Release::All.release_macos());
    assert!(Release::Windows.release_windows() && !Release::Windows.release_macos());
    assert!(!Release::Macos.release_windows() && Release::Macos.release_macos());
}

#[test]
fn keeps_current_version() {
    assert_eq!(finalize_release_version("0.2.3", &request(None, false)), Ok("0.2.3".to_owned()));
    assert_eq!(finalize_release_version("1.0.0-rc.1", &request(None, false)), Ok("1.0.0-rc.1".to_owned()));
}

#[test]
fn explicit_version() {
    assert_eq!(finalize_release_version("0.2.3", &request(Some("0.3.0"), false)), Ok("0.3.0".to_owned()));
    // not newer: still used
    assert_eq!(finalize_release_version("0.2.3", &request(Some("0.1.0"), false)), Ok("0.1.0".to_owned()));
    assert_eq!(
        finalize_release_version("0.2.3", &request(Some("not a version"), false)),
        Err(ReleaseVersionError::InvalidRequestedVersion)
    );
    assert_eq!(
        finalize_release_version("0.2.3", &request(Some("0.3.0"), true)),
        Err(ReleaseVersionError::BothVersionAndDevPatch)
    );
}

#[test]
fn dev_patches() {
    assert_eq!(finalize_release_version("0.2.3", &request(None, true)), Ok("0.2.3-dev.1".to_owned()));
    assert_eq!(finalize_release_version("0.2.3-dev.1", &request(None, true)), Ok("0.2.3-dev.2".to_owned()));
    assert_eq!(finalize_release_version("0.2.3-alpha.9", &request(None, true)), Ok("0.2.3-dev.10".to_owned()));
    assert_eq!(
        finalize_release_version("0.2.3-alpha", &request(None, true)),
        Err(ReleaseVersionError::PrereleaseNotNumbered)
    );
    assert_eq!(
        finalize_release_version("0.2.3+build5", &request(None, true)),
        Err(ReleaseVersionError::BuildMetadataPresent)
    );
    assert_eq!(
        finalize_release_version("0.2.3-dev.18446744073709551615", &request(None, true)),
        Err(ReleaseVersionError::DevNumberOverflow)
    );
}

#[test]
fn invalid_current_version() {
    assert_eq!(finalize_release_version("banana", &request(None, false)), Err(ReleaseVersionError::InvalidCurrentVersion));
    assert_eq!(finalize_release_version("1.2", &request(None, true)), Err(ReleaseVersionError::InvalidCurrentVersion));
}

#[test]
fn version_text() {
    let v = SemVersion { major: 1, minor: 20, patch: 300, pre: "beta.2".to_owned(), build: "sha.5".to_owned() };
    assert_eq!(display_version(&v), "1.20.300-beta.2+sha.5");
    let v = SemVersion { major: 0, minor: 0, patch: 7, pre: String::new(), build: String::new() };
    assert_eq!(display_version(&v), "0.0.7");
}

#[test]
fn numbers_and_segments() {
    assert_eq!(parse_u64("42"), Some(42));
    assert_eq!(parse_u64("+7"), Some(7));
    assert_eq!(parse_u64("007"), Some(7));
    assert_eq!(parse_u64(""), None);
    assert_eq!(parse_u64("+"), None);
    assert_eq!(parse_u64("-1"), None);
    assert_eq!(parse_u64("1a"), None);
    assert_eq!(parse_u64("18446744073709551615"), Some(u64::MAX));
    assert_eq!(parse_u64("18446744073709551616"), None);
    assert_eq!(last_segment_of("dev.12"), "12");
    assert_eq!(last_segment_of("dev."), "");
    assert_eq!(last_segment_of("alpha"), "alpha");
}

#[test]
fn package_arguments() {
    assert_eq!(
        args_for_platform_package(false, "windows"),
        vec!["package", "--can-skip-build", "--output-final-path", "windows"]
    );
    assert_eq!(args_for_platform_package(true, "macos"), vec!["package", "--output-final-path", "macos"]);
}

fn version(major: u64, minor: u64, patch: u64, pre: &str, build: &str) -> SemVersion {
    SemVersion { major, minor, patch, pre: pre.to_owned(), build: build.to_owned() }
}

#[test]
fn dev_patch_of_versions() {
    assert_eq!(next_dev_patch(&version(0, 1, 2, "", "")), Ok("0.1.2-dev.1".to_owned()));
    assert_eq!(next_dev_patch(&version(0, 1, 2, "dev.3", "")), Ok("0.1.2-dev.4".to_owned()));
    assert_eq!(next_dev_patch(&version(1, 0, 0, "alpha.9", "")), Ok("1.0.0-dev.10".to_owned()));
    assert_eq!(next_dev_patch(&version(1, 0, 0, "alpha", "")), Err(ReleaseVersionError::PrereleaseNotNumbered));
    assert_eq!(next_dev_patch(&version(1, 0, 0, "", "abc")), Err(ReleaseVersionError::BuildMetadataPresent));
    assert_eq!(
        next_dev_patch(&version(1, 0, 0, "dev.18446744073709551615", "")),
        Err(ReleaseVersionError::DevNumberOverflow)
    );
}

#[test]
fn package_steps() {
    assert_eq!(package_step(false, true), PackageStep::Build);
    assert_eq!(package_step(false, false), PackageStep::Build);
    assert_eq!(package_step(true, true), PackageStep::SkipBuild);
    assert_eq!(package_step(true, false), PackageStep::RemoveOldAndBuild);
}

#[test]
fn package_file_names() {
    assert_eq!(package_file_name("Space Craft", "0.1.2", "dmg"), "Space Craft v0.1.2.dmg");
    assert_eq!(package_file_name("Space Craft", "0.1.2-dev.1", "zip"), "Space Craft v0.1.2-dev.1.zip");
}

#[test]
fn github_release_arguments() {
    let files = vec!["a.zip".to_owned(), "b.dmg".to_owned()];
    assert_eq!(
        gh_release_args("0.2.0", "notes", "Title", false, &files),
        vec!["release", "create", "v0.2.0", "--notes", "notes", "--title", "Title", "--prerelease", "a.zip", "b.dmg"]
    );
    assert_eq!(
        gh_release_args("0.2.0", "n", "t", true, &vec![]),
        vec!["release", "create", "v0.2.0", "--notes", "n", "--title", "t"]
    );
}

#[test]
fn icon_set_files() {
    assert_eq!(icon_file(16, false), "icon_16x16.png");
    assert_eq!(icon_file(64, true), "icon_32x32@2x.png");
    let names: Vec<String> = iconset().into_iter().map(|(_, _, name)| name).collect();
    assert_eq!(
        names,
        vec![
            "icon_16x16.png",
            "icon_32x32.png",
            "icon_128x128.png",
            "icon_256x256.png",
            "icon_512x512.png",
            "icon_16x16@2x.png",
            "icon_32x32@2x.png",
            "icon_128x128@2x.png",
            "icon_256x256@2x.png",
        ]
    );
}

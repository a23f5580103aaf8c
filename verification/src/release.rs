//! Packaging and releasing the game: which platforms a release covers and the
//! version number a release gets.

use vstd::prelude::*;

use crate::text::{
    append_decimal, decimal, last_segment, last_segment_of, lemma_decimal_all_digits, lemma_decimal_round_trip,
    lemma_last_segment_after_dot, parse_u64, parsed_u64,
};

verus! {

/// The platforms a release is made for.
#[derive(Debug, Clone, Copy, PartialEq, Eq, Structural)]
pub enum Release {
    All,
    Windows,
    Macos,
}

impl Release {
    /// Whether a Windows package is made.
    pub fn release_windows(&self) -> (res: bool)
        ensures
            res == (*self is All || *self is Windows),
    {
        match self {
            Release::All | Release::Windows => true,
            Release::Macos => false,
        }
    }

    /// Whether a macOS package is made.
    pub fn release_macos(&self) -> (res: bool)
        ensures
            res == (*self is All || *self is Macos),
    {
        match self {
            Release::All | Release::Macos => true,
            Release::Windows => false,
        }
    }
}

/// A semantic version, with its pre-release and build parts as text.
#[derive(Debug)]
pub struct SemVersion {
    pub major: u64,
    pub minor: u64,
    pub patch: u64,
    pub pre: String,
    pub build: String,
}

/// What a [SemVersion] holds.
pub struct SemVersionView {
    pub major: u64,
    pub minor: u64,
    pub patch: u64,
    pub pre: Seq<char>,
    pub build: Seq<char>,
}

impl View for SemVersion {
    type V = SemVersionView;

    open spec fn view(&self) -> SemVersionView {
        SemVersionView {
            major: self.major,
            minor: self.minor,
            patch: self.patch,
            pre: self.pre@,
            build: self.build@,
        }
    }
}

/// What `semver` parses the text `text` into, if it is a valid version.
pub uninterp spec fn spec_semver_parse(text: Seq<char>) -> Option<SemVersionView>;

/// Parses `text` with `semver::Version::parse`, keeping the numeric parts and
/// the text of the pre-release and build parts. The result is named
/// [spec_semver_parse]; nothing more of semver's grammar is stated.
#[verifier::external_body]
fn parse_version(text: &str) -> (res: Option<SemVersion>)
    ensures
        match res {
            Some(v) => spec_semver_parse(text@) == Some(v@),
            None => spec_semver_parse(text@) is None,
        },
{
    match semver::Version::parse(text) {
        Ok(v) => Some(
            SemVersion {
                major: v.major,
                minor: v.minor,
                patch: v.patch,
                pre: v.pre.as_str().to_owned(),
                build: v.build.as_str().to_owned(),
            },
        ),
        Err(_) => None,
    }
}

/// How a version is written: `major.minor.patch`, then `-` and the
/// pre-release part when there is one, then `+` and the build part when there
/// is one.
pub open spec fn version_text(v: SemVersionView) -> Seq<char> {
    decimal(v.major as nat) + "."@ + decimal(v.minor as nat) + "."@ + decimal(v.patch as nat) + (if v.pre.len()
        > 0 {
        "-"@ + v.pre
    } else {
        Seq::empty()
    }) + (if v.build.len() > 0 {
        "+"@ + v.build
    } else {
        Seq::empty()
    })
}

/// The text of a version.
pub fn display_version(v: &SemVersion) -> (res: String)
    ensures
        res@ == version_text(v@),
{
    let mut out = String::new();
    append_decimal(&mut out, v.major);
    out.append(".");
    append_decimal(&mut out, v.minor);
    out.append(".");
    append_decimal(&mut out, v.patch);
    let ghost core = out@;
    if !v.pre.as_str().is_empty() {
        out.append("-");
        out.append(v.pre.as_str());
    }
    let ghost with_pre = out@;
    if !v.build.as_str().is_empty() {
        out.append("+");
        out.append(v.build.as_str());
    }
    proof {
        let pre_part = if v.pre@.len() > 0 {
            "-"@ + v.pre@
        } else {
            Seq::<char>::empty()
        };
        let build_part = if v.build@.len() > 0 {
            "+"@ + v.build@
        } else {
            Seq::<char>::empty()
        };
        assert(with_pre =~= core + pre_part);
        assert(out@ =~= with_pre + build_part);
        assert(out@ =~= version_text(v@));
    }
    out
}

/// Why no version could be settled on for a release.
#[derive(Debug, Clone, Copy, PartialEq, Eq, Structural)]
pub enum ReleaseVersionError {
    /// The version in the manifest is not a valid version.
    InvalidCurrentVersion,
    /// Both an explicit version and a development patch were asked for.
    BothVersionAndDevPatch,
    /// The explicitly asked for version is not a valid version.
    InvalidRequestedVersion,
    /// A development patch was asked for, but the current version carries build metadata.
    BuildMetadataPresent,
    /// A development patch was asked for, but the last part of the current
    /// pre-release is not a number.
    PrereleaseNotNumbered,
    /// A development patch was asked for, but its number would not fit.
    DevNumberOverflow,
    /// The version settled on does not parse as a version.
    InvalidFinalVersion,
}

/// What version a release asks for.
#[derive(Debug)]
pub struct ReleaseNewVersion {
    /// An explicit version.
    pub version: Option<String>,
    /// Whether to bump the development patch of the current version.
    pub dev_patch: bool,
    /// Whether to rebuild packages that already exist.
    pub force_rebuild: bool,
}

/// The version a development patch of `cur` gets: `-dev.1` after a version
/// without pre-release part, else the pre-release part replaced by `dev.`
/// and one more than the number its last dot-separated part holds.
pub open spec fn dev_patch_version(cur: SemVersionView) -> Result<Seq<char>, ReleaseVersionError> {
    if cur.build.len() > 0 {
        Err(ReleaseVersionError::BuildMetadataPresent)
    } else if cur.pre.len() == 0 {
        Ok(version_text(cur) + "-dev.1"@)
    } else {
        match parsed_u64(last_segment(cur.pre)) {
            None => Err(ReleaseVersionError::PrereleaseNotNumbered),
            Some(n) => if n == u64::MAX {
                Err(ReleaseVersionError::DevNumberOverflow)
            } else {
                Ok(
                    version_text(SemVersionView { pre: Seq::empty(), ..cur }) + "-dev."@ + decimal(
                        (n + 1) as nat,
                    ),
                )
            },
        }
    }
}

/// The version settled on before it is checked to parse.
pub open spec fn candidate_version(cur: SemVersionView, version: Option<Seq<char>>, dev_patch: bool) -> Result<
    Seq<char>,
    ReleaseVersionError,
> {
    match version {
        None => if dev_patch {
            dev_patch_version(cur)
        } else {
            Ok(version_text(cur))
        },
        Some(text) => if dev_patch {
            Err(ReleaseVersionError::BothVersionAndDevPatch)
        } else {
            match spec_semver_parse(text) {
                None => Err(ReleaseVersionError::InvalidRequestedVersion),
                Some(v) => Ok(version_text(v)),
            }
        },
    }
}

/// The version a release gets, from the current version's text and what was
/// asked for.
pub open spec fn release_version(current: Seq<char>, version: Option<Seq<char>>, dev_patch: bool) -> Result<
    Seq<char>,
    ReleaseVersionError,
> {
    match spec_semver_parse(current) {
        None => Err(ReleaseVersionError::InvalidCurrentVersion),
        Some(cur) => match candidate_version(cur, version, dev_patch) {
            Ok(text) => if spec_semver_parse(text) is None {
                Err(ReleaseVersionError::InvalidFinalVersion)
            } else {
                Ok(text)
            },
            Err(e) => Err(e),
        },
    }
}

/// The text of a requested version, if any.
pub open spec fn requested_text(request: &ReleaseNewVersion) -> Option<Seq<char>> {
    match request.version {
        Some(v) => Some(v@),
        None => None,
    }
}

/// The next development patch of the version `cur` (see [dev_patch_version]).
pub fn next_dev_patch(cur: &SemVersion) -> (res: Result<String, ReleaseVersionError>)
    ensures
        match res {
            Ok(s) => dev_patch_version(cur@) == Ok::<Seq<char>, ReleaseVersionError>(s@),
            Err(e) => dev_patch_version(cur@) == Err::<Seq<char>, ReleaseVersionError>(e),
        },
{
    if !cur.build.as_str().is_empty() {
        return Err(ReleaseVersionError::BuildMetadataPresent);
    }
    if cur.pre.as_str().is_empty() {
        let mut text = display_version(cur);
        text.append("-dev.1");
        return Ok(text);
    }
    // extract last number after decimal place, increment by one
    let last = last_segment_of(cur.pre.as_str());
    match parse_u64(last) {
        None => Err(ReleaseVersionError::PrereleaseNotNumbered),
        Some(num) => {
            if num == u64::MAX {
                return Err(ReleaseVersionError::DevNumberOverflow);
            }
            let core = SemVersion {
                major: cur.major,
                minor: cur.minor,
                patch: cur.patch,
                pre: String::new(),
                build: String::new(),
            };
            let mut text = display_version(&core);
            text.append("-dev.");
            append_decimal(&mut text, num + 1);
            proof {
                assert(core.build@ =~= cur.build@);
                assert(core.pre@ =~= Seq::<char>::empty());
                assert(core@ == (SemVersionView { pre: Seq::empty(), ..cur@ }));
            }
            Ok(text)
        },
    }
}

/// Settles on the version of a release: the current version (the text of the
/// manifest's version) when nothing is asked for, the asked for version, or
/// the next development patch of the current version; each checked to be a
/// valid version.
pub fn finalize_release_version(current: &str, request: &ReleaseNewVersion) -> (res: Result<String, ReleaseVersionError>)
    ensures
        match res {
            Ok(s) => release_version(current@, requested_text(request), request.dev_patch) == Ok::<
                Seq<char>,
                ReleaseVersionError,
            >(s@),
            Err(e) => release_version(current@, requested_text(request), request.dev_patch) == Err::<
                Seq<char>,
                ReleaseVersionError,
            >(e),
        },
{
    let current_version = match parse_version(current) {
        Some(v) => v,
        None => {
            return Err(ReleaseVersionError::InvalidCurrentVersion);
        },
    };
    let candidate: Result<String, ReleaseVersionError> = match &request.version {
        None => {
            if request.dev_patch {
                next_dev_patch(&current_version)
            } else {
                Ok(display_version(&current_version))
            }
        },
        Some(ver) => {
            if request.dev_patch {
                Err(ReleaseVersionError::BothVersionAndDevPatch)
            } else {
                match parse_version(ver.as_str()) {
                    None => Err(ReleaseVersionError::InvalidRequestedVersion),
                    Some(new_version) => Ok(display_version(&new_version)),
                }
            }
        },
    };
    match candidate {
        Ok(text) => {
            if parse_version(text.as_str()).is_none() {
                Err(ReleaseVersionError::InvalidFinalVersion)
            } else {
                Ok(text)
            }
        },
        Err(e) => Err(e),
    }
}

/// The arguments of the packaging command run for `platform` during a
/// release: skipping builds that exist unless rebuilding is forced, and
/// printing where the package ends up.
pub fn args_for_platform_package(force_rebuild: bool, platform: &str) -> (args: Vec<String>)
    ensures
        !force_rebuild ==> args@.len() == 4 && args@[0]@ == "package"@ && args@[1]@
            == "--can-skip-build"@ && args@[2]@ == "--output-final-path"@ && args@[3]@ == platform@,
        force_rebuild ==> args@.len() == 3 && args@[0]@ == "package"@ && args@[1]@
            == "--output-final-path"@ && args@[2]@ == platform@,
{
    let mut args: Vec<String> = Vec::new();
    args.push("package".to_owned());
    if !force_rebuild {
        args.push("--can-skip-build".to_owned());
    }
    args.push("--output-final-path".to_owned());
    args.push(platform.to_owned());
    args
}

/// What packaging does about a package that may already have been built.
#[derive(Debug, Clone, Copy, PartialEq, Eq, Structural)]
pub enum PackageStep {
    /// The package exists and may be kept: building is skipped.
    SkipBuild,
    /// The package exists but is rebuilt: the old one is removed first.
    RemoveOldAndBuild,
    /// No package exists yet: it is built.
    Build,
}

/// Whether to build a package, given whether its final file exists and
/// whether an existing one may be kept.
pub fn package_step(final_exists: bool, can_skip_build: bool) -> (step: PackageStep)
    ensures
        step == if !final_exists {
            PackageStep::Build
        } else if can_skip_build {
            PackageStep::SkipBuild
        } else {
            PackageStep::RemoveOldAndBuild
        },
{
    if !final_exists {
        PackageStep::Build
    } else if can_skip_build {
        PackageStep::SkipBuild
    } else {
        PackageStep::RemoveOldAndBuild
    }
}

/// The file name of a package of the application `app_name` at `version`,
/// with the extension `extension`: `<app> v<version>.<extension>`.
pub fn package_file_name(app_name: &str, version: &str, extension: &str) -> (name: String)
    ensures
        name@ == app_name@ + " v"@ + version@ + "."@ + extension@,
{
    let mut name = app_name.to_owned();
    name.append(" v");
    name.append(version);
    name.append(".");
    name.append(extension);
    name
}

/// The arguments of the GitHub command that publishes a release: the tag is
/// `v` and the version; a release that is not a proper release is marked as a
/// prerelease; then the packaged files, in order.
pub open spec fn gh_release_args_spec(
    version: Seq<char>,
    notes: Seq<char>,
    title: Seq<char>,
    proper_release: bool,
    files: Seq<Seq<char>>,
) -> Seq<Seq<char>> {
    seq!["release"@, "create"@, "v"@ + version, "--notes"@, notes, "--title"@, title] + (if proper_release {
        Seq::empty()
    } else {
        seq!["--prerelease"@]
    }) + files
}

/// The arguments of the GitHub command that publishes a release (see
/// [gh_release_args_spec]).
pub fn gh_release_args(version: &str, notes: &str, title: &str, proper_release: bool, files: &Vec<String>) -> (args:
    Vec<String>)
    ensures
        args@.map_values(|a: String| a@) == gh_release_args_spec(
            version@,
            notes@,
            title@,
            proper_release,
            files@.map_values(|f: String| f@),
        ),
{
    let mut tag = "v".to_owned();
    tag.append(version);
    let mut args: Vec<String> = Vec::new();
    args.push("release".to_owned());
    args.push("create".to_owned());
    args.push(tag);
    args.push("--notes".to_owned());
    args.push(notes.to_owned());
    args.push("--title".to_owned());
    args.push(title.to_owned());
    if !proper_release {
        args.push("--prerelease".to_owned());
    }
    let ghost head = args@.map_values(|a: String| a@);
    let mut i: usize = 0;
    while i < files.len()
        invariant
            i <= files.len(),
            args@.map_values(|a: String| a@) == head + files@.take(i as int).map_values(|f: String| f@),
        decreases files.len() - i,
    {
        let ghost before = args@;
        let file = files[i].clone();
        args.push(file);
        proof {
            assert(args@ =~= before.push(files@[i as int]));
            assert(files@.take(i as int + 1) =~= files@.take(i as int).push(files@[i as int]));
            assert(args@.map_values(|a: String| a@) =~= before.map_values(|a: String| a@).push(files@[i as int]@));
            assert(files@.take(i as int + 1).map_values(|f: String| f@) =~= files@.take(i as int).map_values(
                |f: String| f@,
            ).push(files@[i as int]@));
        }
        i = i + 1;
    }
    proof {
        assert(files@.take(files.len() as int) =~= files@);
        assert(args@.map_values(|a: String| a@) =~= gh_release_args_spec(
            version@,
            notes@,
            title@,
            proper_release,
            files@.map_values(|f: String| f@),
        ));
    }
    args
}

/// The name of the icon file of an icon set for an icon of `size` pixels:
/// `icon_<n>x<n>.png`, or `icon_<n>x<n>@2x.png` for a double-density icon,
/// which is listed under half its size.
pub open spec fn icon_file_name(size: nat, double_density: bool) -> Seq<char> {
    let n = if double_density {
        size / 2
    } else {
        size
    };
    "icon_"@ + decimal(n) + "x"@ + decimal(n) + if double_density {
        "@2x.png"@
    } else {
        ".png"@
    }
}

/// The icons of the macOS icon set, each as its size in pixels, whether it is
/// a double-density icon, and its file name.
pub open spec fn iconset_spec() -> Seq<(u16, bool)> {
    seq![
        (16u16, false),
        (32u16, false),
        (128u16, false),
        (256u16, false),
        (512u16, false),
        (32u16, true),
        (64u16, true),
        (256u16, true),
        (512u16, true),
    ]
}

/// The name of the icon file for an icon of `size` pixels (see
/// [icon_file_name]).
pub fn icon_file(size: u16, double_density: bool) -> (name: String)
    ensures
        name@ == icon_file_name(size as nat, double_density),
{
    let n: u16 = if double_density {
        size / 2
    } else {
        size
    };
    let mut name = "icon_".to_owned();
    append_decimal(&mut name, n as u64);
    name.append("x");
    append_decimal(&mut name, n as u64);
    if double_density {
        name.append("@2x.png");
    } else {
        name.append(".png");
    }
    name
}

/// The icons the macOS icon set is made of: plain icons of 16, 32, 128, 256
/// and 512 pixels, then double-density icons of 32, 64, 256 and 512 pixels;
/// each with the name of its file.
pub fn iconset() -> (icons: Vec<(u16, bool, String)>)
    ensures
        icons.len() == iconset_spec().len(),
        forall|i: int|
            0 <= i < icons.len() ==> (#[trigger] icons@[i]).0 == iconset_spec()[i].0 && icons@[i].1
                == iconset_spec()[i].1 && icons@[i].2@ == icon_file_name(
                iconset_spec()[i].0 as nat,
                iconset_spec()[i].1,
            ),
{
    let sizes: Vec<(u16, bool)> = vec![
        (16u16, false),
        (32u16, false),
        (128u16, false),
        (256u16, false),
        (512u16, false),
        (32u16, true),
        (64u16, true),
        (256u16, true),
        (512u16, true),
    ];
    assert(sizes@ =~= iconset_spec());
    let mut icons: Vec<(u16, bool, String)> = Vec::new();
    let mut i: usize = 0;
    while i < sizes.len()
        invariant
            i <= sizes.len(),
            sizes@ == iconset_spec(),
            icons.len() == i,
            forall|k: int|
                0 <= k < i ==> (#[trigger] icons@[k]).0 == iconset_spec()[k].0 && icons@[k].1
                    == iconset_spec()[k].1 && icons@[k].2@ == icon_file_name(
                    iconset_spec()[k].0 as nat,
                    iconset_spec()[k].1,
                ),
        decreases sizes.len() - i,
    {
        let (size, double_density) = sizes[i];
        icons.push((size, double_density, icon_file(size, double_density)));
        i = i + 1;
    }
    icons
}

/// The text of a version is the text of its numeric core, then `-` and the
/// pre-release part when there is one, then `+` and the build part when there
/// is one: neither part is dropped or changed.
pub proof fn lemma_version_text_keeps_parts(v: SemVersionView)
    ensures
        ({
            let core = version_text(SemVersionView { pre: Seq::empty(), build: Seq::empty(), ..v });
            &&& v.pre.len() > 0 && v.build.len() > 0 ==> version_text(v) == core + "-"@ + v.pre + "+"@ + v.build
            &&& v.pre.len() > 0 && v.build.len() == 0 ==> version_text(v) == core + "-"@ + v.pre
            &&& v.pre.len() == 0 && v.build.len() > 0 ==> version_text(v) == core + "+"@ + v.build
            &&& v.pre.len() == 0 && v.build.len() == 0 ==> version_text(v) == core
        }),
{
    let core = version_text(SemVersionView { pre: Seq::empty(), build: Seq::empty(), ..v });
    let digits = decimal(v.major as nat) + "."@ + decimal(v.minor as nat) + "."@ + decimal(v.patch as nat);
    assert(core =~= digits);
    if v.pre.len() > 0 && v.build.len() > 0 {
        assert(version_text(v) =~= core + "-"@ + v.pre + "+"@ + v.build);
    } else if v.pre.len() > 0 {
        assert(version_text(v) =~= core + "-"@ + v.pre);
    } else if v.build.len() > 0 {
        assert(version_text(v) =~= core + "+"@ + v.build);
    } else {
        assert(version_text(v) =~= core);
    }
}

/// How a release settles its version, for a current version `cur` that the
/// manifest holds as `current`:
/// - with nothing asked for, the current version's own text;
/// - with an explicit valid version `v` asked for, that version's own text,
///   its pre-release and build parts kept;
/// - with an explicit version that is not valid, an error saying so;
/// - with a development patch asked for, on a version without pre-release or
///   build part, that version followed by `-dev.1`;
/// - with both an explicit version and a development patch, an error;
/// each result being refused if it does not read back as a version.
pub proof fn lemma_release_version_cases(
    current: Seq<char>,
    cur: SemVersionView,
    requested: Seq<char>,
)
    requires
        spec_semver_parse(current) == Some(cur),
    ensures
        release_version(current, None, false) == if spec_semver_parse(version_text(cur)) is None {
            Err(ReleaseVersionError::InvalidFinalVersion)
        } else {
            Ok::<Seq<char>, ReleaseVersionError>(version_text(cur))
        },
        forall|v: SemVersionView|
            spec_semver_parse(requested) == Some(v) ==> release_version(current, Some(requested), false) == if spec_semver_parse(
                version_text(v),
            ) is None {
                Err(ReleaseVersionError::InvalidFinalVersion)
            } else {
                Ok::<Seq<char>, ReleaseVersionError>(version_text(v))
            },
        spec_semver_parse(requested) is None ==> release_version(current, Some(requested), false) == Err::<
            Seq<char>,
            ReleaseVersionError,
        >(ReleaseVersionError::InvalidRequestedVersion),
        cur.pre.len() == 0 && cur.build.len() == 0 ==> release_version(current, None, true) == if spec_semver_parse(
            version_text(cur) + "-dev.1"@,
        ) is None {
            Err(ReleaseVersionError::InvalidFinalVersion)
        } else {
            Ok::<Seq<char>, ReleaseVersionError>(version_text(cur) + "-dev.1"@)
        },
        release_version(current, Some(requested), true) == Err::<Seq<char>, ReleaseVersionError>(
            ReleaseVersionError::BothVersionAndDevPatch,
        ),
{
}

/// A manifest whose version is not valid settles no release version, whatever
/// is asked for.
pub proof fn lemma_invalid_current_version(current: Seq<char>, version: Option<Seq<char>>, dev_patch: bool)
    requires
        spec_semver_parse(current) is None,
    ensures
        release_version(current, version, dev_patch) == Err::<Seq<char>, ReleaseVersionError>(
            ReleaseVersionError::InvalidCurrentVersion,
        ),
{
}

/// A development patch of a version without pre-release or build part is
/// that version with the pre-release part `dev.1`; one of a version whose
/// pre-release part ends in the number `n` is that version with the
/// pre-release part `dev.` and `n + 1`, so that patching again counts on
/// from there.
pub proof fn lemma_dev_patch_increments(cur: SemVersionView, n: u64)
    ensures
        cur.pre.len() == 0 && cur.build.len() == 0 ==> dev_patch_version(cur) == Ok::<
            Seq<char>,
            ReleaseVersionError,
        >(version_text(SemVersionView { pre: "dev.1"@, ..cur })),
        cur.pre.len() > 0 && cur.build.len() == 0 && parsed_u64(last_segment(cur.pre)) == Some(n) && n + 2
            <= u64::MAX ==> ({
            let next = SemVersionView { pre: "dev."@ + decimal((n + 1) as nat), build: Seq::empty(), ..cur };
            let after = SemVersionView { pre: "dev."@ + decimal((n + 2) as nat), ..next };
            &&& dev_patch_version(cur) == Ok::<Seq<char>, ReleaseVersionError>(version_text(next))
            &&& dev_patch_version(next) == Ok::<Seq<char>, ReleaseVersionError>(version_text(after))
        }),
{
    reveal_strlit("-dev.1");
    reveal_strlit("dev.1");
    reveal_strlit("-dev.");
    reveal_strlit("dev.");
    reveal_strlit("-");
    if cur.pre.len() == 0 && cur.build.len() == 0 {
        let with_pre = SemVersionView { pre: "dev.1"@, ..cur };
        assert(cur.pre =~= Seq::<char>::empty());
        assert(cur.build =~= Seq::<char>::empty());
        assert(SemVersionView { pre: Seq::empty(), build: Seq::empty(), ..with_pre } == cur);
        lemma_version_text_keeps_parts(with_pre);
        assert(version_text(with_pre) =~= version_text(cur) + "-dev.1"@);
    }
    if cur.pre.len() > 0 && cur.build.len() == 0 && parsed_u64(last_segment(cur.pre)) == Some(n) && n + 2
        <= u64::MAX {
        let core = SemVersionView { pre: Seq::empty(), ..cur };
        assert(cur.build =~= Seq::<char>::empty());
        let next = SemVersionView { pre: "dev."@ + decimal((n + 1) as nat), build: Seq::empty(), ..cur };
        let after = SemVersionView { pre: "dev."@ + decimal((n + 2) as nat), ..next };
        assert(SemVersionView { pre: Seq::empty(), build: Seq::empty(), ..next } == core);
        assert(SemVersionView { pre: Seq::empty(), build: Seq::empty(), ..after } == core);
        assert(SemVersionView { pre: Seq::empty(), ..next } == core);
        lemma_version_text_keeps_parts(next);
        lemma_version_text_keeps_parts(after);
        assert(version_text(next) =~= version_text(core) + "-dev."@ + decimal((n + 1) as nat));
        assert(version_text(after) =~= version_text(core) + "-dev."@ + decimal((n + 2) as nat));
        lemma_decimal_all_digits((n + 1) as nat);
        lemma_last_segment_after_dot("dev."@, decimal((n + 1) as nat));
        lemma_decimal_round_trip((n + 1) as u64);
    }
}

} // verus!

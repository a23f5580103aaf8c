//! Reading and updating the game's package manifest (`Cargo.toml`): its
//! package name and version, and the application name derived from them.

use vstd::prelude::*;

use convert_case::{Case, Casing};

verus! {

/// What `toml` reads as the string at `package.<key>` of the manifest text
/// `manifest`: `None` where the text is no TOML document, or that entry is
/// missing or is not a string.
pub uninterp spec fn spec_manifest_package_entry(manifest: Seq<char>, key: Seq<char>) -> Option<Seq<char>>;

/// What `toml_edit` writes out for the manifest text `manifest` with its
/// `package.version` set to the string `version`: `None` where the text is no
/// TOML document or `package` is neither missing nor a table (plain or
/// inline).
pub uninterp spec fn spec_manifest_with_version(manifest: Seq<char>, version: Seq<char>) -> Option<Seq<char>>;

/// What `convert_case` makes of `text` in title case.
pub uninterp spec fn spec_title_case(text: Seq<char>) -> Seq<char>;

/// Parses `manifest` with `toml::from_str` into a table and reads the string
/// at `package.<key>`. The result is named [spec_manifest_package_entry].
#[verifier::external_body]
fn package_entry(manifest: &str, key: &str) -> (res: Option<String>)
    ensures
        match res {
            Some(s) => spec_manifest_package_entry(manifest@, key@) == Some(s@),
            None => spec_manifest_package_entry(manifest@, key@) is None,
        },
{
    let table: toml::Table = toml::from_str(manifest).ok()?;
    table.get("package")?.get(key)?.as_str().map(str::to_owned)
}

/// Parses `manifest` as a `toml_edit::DocumentMut`, sets
/// `package.version` to `toml_edit::value(version)` and writes the document
/// out. The result is named [spec_manifest_with_version].
#[verifier::external_body]
fn with_package_version(manifest: &str, version: &str) -> (res: Option<String>)
    ensures
        match res {
            Some(s) => spec_manifest_with_version(manifest@, version@) == Some(s@),
            None => spec_manifest_with_version(manifest@, version@) is None,
        },
{
    let mut doc: toml_edit::DocumentMut = manifest.parse().ok()?;
    *doc.as_item_mut().get_mut("package")?.get_mut("version")? = toml_edit::value(version);
    Some(doc.to_string())
}

/// `text.to_case(Case::Title)` of `convert_case`. The result is named
/// [spec_title_case].
#[verifier::external_body]
fn title_case(text: &str) -> (res: String)
    ensures
        res@ == spec_title_case(text@),
{
    text.to_case(Case::Title)
}

/// The package name in the manifest text `manifest`, if it has one.
pub fn get_bin_name(manifest: &str) -> (res: Option<String>)
    ensures
        match res {
            Some(s) => spec_manifest_package_entry(manifest@, "name"@) == Some(s@),
            None => spec_manifest_package_entry(manifest@, "name"@) is None,
        },
{
    package_entry(manifest, "name")
}

/// The package version in the manifest text `manifest`, if it has one.
pub fn get_current_version(manifest: &str) -> (res: Option<String>)
    ensures
        match res {
            Some(s) => spec_manifest_package_entry(manifest@, "version"@) == Some(s@),
            None => spec_manifest_package_entry(manifest@, "version"@) is None,
        },
{
    package_entry(manifest, "version")
}

/// The manifest text `manifest` with its package version set to
/// `new_version`, or `None` where the text cannot be edited so.
pub fn set_current_version(manifest: &str, new_version: &str) -> (res: Option<String>)
    ensures
        match res {
            Some(s) => spec_manifest_with_version(manifest@, new_version@) == Some(s@),
            None => spec_manifest_with_version(manifest@, new_version@) is None,
        },
{
    with_package_version(manifest, new_version)
}

/// The name of the macOS application: the package name in title case, if
/// the manifest names the package.
pub fn get_osx_app_name(manifest: &str) -> (res: Option<String>)
    ensures
        match spec_manifest_package_entry(manifest@, "name"@) {
            Some(name) => res matches Some(s) && s@ == spec_title_case(name),
            None => res is None,
        },
{
    match get_bin_name(manifest) {
        Some(name) => Some(title_case(name.as_str())),
        None => None,
    }
}

} // verus!

//! The entry for the installer itself, made from the latest published release.

use vstd::prelude::*;
use vstd::string::*;
use crate::text::{
    ends_with, eq_ignore_ascii_case, eq_ignoring_ascii_case, has_suffix, join2, join3,
};
use crate::updates::{opt_text, Timestamp, UpdateInfo};
use crate::version::{
    parsed_version, precedence, tag_version, Precedence, ReleaseVersion, VersionView,
};

verus! {

/// A file published with a release.
pub struct ReleaseAsset {
    pub name: String,
    pub download_url: String,
}

/// A published release of the installer.
pub struct Release {
    pub tag_name: String,
    pub published_at: Option<Timestamp>,
    pub assets: Vec<ReleaseAsset>,
}

/// The ending by which the installer package is told from the other assets.
pub open spec fn package_suffix() -> Seq<char> {
    "_amd64.deb"@
}

/// The name of the checksum manifest, in any mix of upper and lower case.
pub open spec fn manifest_name() -> Seq<char> {
    "SHA256SUMS"@
}

/// Whether an asset of this name is an installer package.
pub open spec fn is_package(name: Seq<char>) -> bool {
    has_suffix(name, package_suffix())
}

/// Whether an asset of this name is the checksum manifest.
pub open spec fn is_manifest(name: Seq<char>) -> bool {
    eq_ignoring_ascii_case(name, manifest_name())
}

/// The address of the installer package: that of the last asset that is one.
pub open spec fn package_url(assets: Seq<ReleaseAsset>) -> Option<Seq<char>>
    decreases assets.len(),
{
    if assets.len() == 0 {
        None
    } else if is_package(assets.last().name@) {
        Some(assets.last().download_url@)
    } else {
        package_url(assets.drop_last())
    }
}

/// The address of the checksum manifest: that of the last asset that is one.
pub open spec fn manifest_url(assets: Seq<ReleaseAsset>) -> Option<Seq<char>>
    decreases assets.len(),
{
    if assets.len() == 0 {
        None
    } else if is_manifest(assets.last().name@) {
        Some(assets.last().download_url@)
    } else {
        manifest_url(assets.drop_last())
    }
}

/// The version that the running installer has: the one its version text
/// writes or, where that is no semantic version, `0.0.0`.
pub open spec fn running_version(running: Seq<char>) -> VersionView {
    match parsed_version(running) {
        Some(v) => v,
        None => VersionView { major: 0, minor: 0, patch: 0, pre: Seq::empty() },
    }
}

/// Whether the release tagged `tag` is newer than the running installer: the
/// tag must stand for a version, and that version must outrank the running one.
pub open spec fn release_is_newer(tag: Seq<char>, running: Seq<char>) -> bool {
    match tag_version(tag) {
        Some(remote) => precedence(remote, running_version(running)) == Precedence::Higher,
        None => false,
    }
}

/// Whether the release tagged `tag` is newer than the installer of version `running`.
pub fn installer_has_update(tag: &str, running: &str) -> (r: bool)
    ensures
        r == release_is_newer(tag@, running@),
{
    let current = match ReleaseVersion::parse(running) {
        Some(v) => v,
        None => ReleaseVersion::zero(),
    };
    match ReleaseVersion::of_tag(tag) {
        Some(remote) => remote.outranks(&current),
        None => false,
    }
}

/// The addresses of the installer package and of the checksum manifest among `assets`.
pub fn pick_assets(assets: &Vec<ReleaseAsset>) -> (urls: (Option<String>, Option<String>))
    ensures
        opt_text(urls.0) == package_url(assets@),
        opt_text(urls.1) == manifest_url(assets@),
{
    let mut package: Option<String> = None;
    let mut manifest: Option<String> = None;
    let mut i: usize = 0;
    while i < assets.len()
        invariant
            i <= assets.len(),
            opt_text(package) == package_url(assets@.take(i as int)),
            opt_text(manifest) == manifest_url(assets@.take(i as int)),
        decreases assets.len() - i,
    {
        proof {
            let longer = assets@.take(i + 1);
            assert(longer.drop_last() =~= assets@.take(i as int));
        }
        let asset = &assets[i];
        if ends_with(asset.name.as_str(), "_amd64.deb") {
            package = Some(asset.download_url.clone());
        }
        if eq_ignore_ascii_case(asset.name.as_str(), "SHA256SUMS") {
            manifest = Some(asset.download_url.clone());
        }
        i += 1;
    }
    assert(assets@.take(i as int) =~= assets@);
    (package, manifest)
}

/// `info` is the entry for the installer of version `running`, made from `release`.
pub open spec fn is_installer_entry(release: Release, running: Seq<char>, info: UpdateInfo) -> bool {
    &&& info.wf()
    &&& info.is_self
    &&& info.display_name@ == "Installer (self-update)"@
    &&& info.image@ == "installer"@
    &&& info.current_tag@ == "v"@ + running
    &&& info.available_tags@.len() == 0
    &&& opt_text(info.latest_release_tag) == Some(release.tag_name@)
    &&& info.latest_release_published == release.published_at
    &&& info.remote_latest_updated == release.published_at
    &&& info.local_created is None
    &&& info.status_note is None
    &&& info.has_update == release_is_newer(release.tag_name@, running)
    &&& opt_text(info.download_url) == package_url(release.assets@)
    &&& opt_text(info.checksum_url) == manifest_url(release.assets@)
}

/// The entry for the installer itself. A release that publishes no installer
/// package gives no entry. The entry reports an update exactly if the
/// release's version outranks the running one.
pub fn installer_entry(release: &Release, running: &str) -> (entry: Option<UpdateInfo>)
    ensures
        entry is Some <==> package_url(release.assets@) is Some,
        entry matches Some(info) ==> is_installer_entry(*release, running@, info),
{
    let (download_url, checksum_url) = pick_assets(&release.assets);
    if download_url.is_none() {
        return None;
    }
    let has_update = installer_has_update(release.tag_name.as_str(), running);
    Some(
        UpdateInfo {
            display_name: String::from_str("Installer (self-update)"),
            image: String::from_str("installer"),
            current_tag: join2("v", running),
            available_tags: Vec::new(),
            latest_release_tag: Some(release.tag_name.clone()),
            latest_release_published: release.published_at,
            remote_latest_updated: release.published_at,
            local_created: None,
            status_note: None,
            has_update,
            is_self: true,
            download_url,
            checksum_url,
        },
    )
}

/// The address at which the latest release of the installer is asked for.
pub fn latest_release_url(owner: &str) -> (url: String)
    ensures
        url@ == "https://api.github.com/repos/"@ + owner@
            + "/installer-NQRust-Identity/releases/latest"@,
{
    join3("https://api.github.com/repos/", owner, "/installer-NQRust-Identity/releases/latest")
}

/// What to do with the answer to the request for the latest release.
pub enum ReleaseStep {
    /// The answer holds the release: read it.
    Read,
    /// No release is published: there is no entry for the installer.
    Skip,
    /// The whole resolution fails with this message.
    Fail(String),
}

/// The message for an answer that is neither a success nor "not found".
pub open spec fn release_failure(status: Seq<char>, body: Seq<char>) -> Seq<char> {
    "GitHub API error "@ + status + " for the installer release: "@ + body
}

/// Decides what the answer to the request for the latest release calls for:
/// "not found" means no entry, any status from 200 to 299 is read, and every
/// other status fails the resolution with the text of the answer.
pub fn after_release_response(code: u16, status: &str, body: &str) -> (step: ReleaseStep)
    ensures
        code == 404 ==> step is Skip,
        200 <= code < 300 ==> step is Read,
        code != 404 && !(200 <= code < 300) ==> (step matches ReleaseStep::Fail(message)
            && message@ == release_failure(status@, body@)),
{
    if code == 404 {
        ReleaseStep::Skip
    } else if 200 <= code && code < 300 {
        ReleaseStep::Read
    } else {
        let mut message = String::from_str("GitHub API error ");
        message.append(status);
        message.append(" for the installer release: ");
        message.append(body);
        ReleaseStep::Fail(message)
    }
}

} // verus!

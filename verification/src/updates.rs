//! What is known about one tracked artifact, and whether an update is due.

use vstd::prelude::*;
use vstd::string::*;
use crate::text::{contains, join3, occurs_in};

verus! {

/// Number of nanoseconds in a second.
pub const NANOS_PER_SECOND: i128 = 1_000_000_000;

/// A remote artifact counts as newer only if it is more than this many seconds
/// younger than the local one; smaller differences are put down to clock skew.
pub const TOLERANCE_SECONDS: i128 = 5;

/// A point in time: whole seconds since the Unix epoch and the nanoseconds past them.
#[derive(Clone, Copy, Debug, PartialEq, Eq, Structural)]
pub struct Timestamp {
    pub secs: i64,
    pub nanos: u32,
}

impl Timestamp {
    /// The point in time as nanoseconds since the Unix epoch.
    pub open spec fn instant(&self) -> int {
        self.secs * NANOS_PER_SECOND + self.nanos
    }

    /// Whether `self` lies more than the tolerance after `other`.
    pub fn is_newer_than(&self, other: &Timestamp) -> (r: bool)
        ensures
            r == newer(*self, *other),
    {
        let seconds: i128 = (self.secs as i128) - (other.secs as i128);
        let nanos: i128 = (self.nanos as i128) - (other.nanos as i128);
        seconds * NANOS_PER_SECOND + nanos > TOLERANCE_SECONDS * NANOS_PER_SECOND
    }
}

/// `remote` lies more than the tolerance after `local`.
pub open spec fn newer(remote: Timestamp, local: Timestamp) -> bool {
    remote.instant() - local.instant() > TOLERANCE_SECONDS * NANOS_PER_SECOND
}

/// Whether an update is due, given when the remote artifact was last published
/// and when the local one was created: never without a remote time, always
/// with a remote time and no local one, and otherwise only if the remote time
/// is newer beyond the tolerance.
pub open spec fn update_due(remote: Option<Timestamp>, local: Option<Timestamp>) -> bool {
    match remote {
        None => false,
        Some(r) => match local {
            None => true,
            Some(l) => newer(r, l),
        },
    }
}

/// The status note after `message` is added to it: notes are joined by `"; "`.
pub open spec fn noted(previous: Option<Seq<char>>, message: Seq<char>) -> Seq<char> {
    match previous {
        Some(existing) => existing + "; "@ + message,
        None => message,
    }
}

/// The text of an optional string.
pub open spec fn opt_text(s: Option<String>) -> Option<Seq<char>> {
    match s {
        Some(t) => Some(t@),
        None => None,
    }
}

/// Adds `message` to a status note.
pub fn append_status(target: &mut Option<String>, message: &str)
    ensures
        opt_text(*final(target)) == Some(noted(opt_text(*old(target)), message@)),
{
    let next = match target {
        Some(existing) => join3(existing.as_str(), "; ", message),
        None => String::from_str(message),
    };
    *target = Some(next);
}

/// A container image that is tracked for updates.
pub struct ServiceConfig {
    pub display_name: &'static str,
    pub image: &'static str,
    pub package: &'static str,
    pub current_tag: &'static str,
}

/// The organisation that owns the tracked packages.
pub const OWNER: &'static str = "NexusQuantum";

/// The images that are tracked for updates.
pub fn service_configs() -> (list: Vec<ServiceConfig>)
    ensures
        list@.len() == 2,
        list@[0].display_name@ == "PostgreSQL Database"@,
        list@[0].image@ == "postgres"@,
        list@[0].package@ == "postgres"@,
        list@[0].current_tag@ == "16-alpine"@,
        list@[1].display_name@ == "NQRust Identity (Keycloak)"@,
        list@[1].image@ == "ghcr.io/nexusquantum/nqrust-identity"@,
        list@[1].package@ == "nqrust-identity"@,
        list@[1].current_tag@ == "latest"@,
{
    let mut list: Vec<ServiceConfig> = Vec::new();
    list.push(
        ServiceConfig {
            display_name: "PostgreSQL Database",
            image: "postgres",
            package: "postgres",
            current_tag: "16-alpine",
        },
    );
    list.push(
        ServiceConfig {
            display_name: "NQRust Identity (Keycloak)",
            image: "ghcr.io/nexusquantum/nqrust-identity",
            package: "nqrust-identity",
            current_tag: "latest",
        },
    );
    list
}

/// What is known about one artifact: what is installed, what the registry
/// offers, and whether an update is due.
pub struct UpdateInfo {
    pub display_name: String,
    pub image: String,
    pub current_tag: String,
    pub available_tags: Vec<String>,
    pub latest_release_tag: Option<String>,
    pub latest_release_published: Option<Timestamp>,
    pub remote_latest_updated: Option<Timestamp>,
    pub local_created: Option<Timestamp>,
    pub status_note: Option<String>,
    pub has_update: bool,
    pub is_self: bool,
    pub download_url: Option<String>,
    pub checksum_url: Option<String>,
}

/// The note that a failed inspection of the local image leaves.
pub open spec fn inspection_note() -> Seq<char> {
    "Failed to inspect local image"@
}

impl UpdateInfo {
    /// For a tracked image, `has_update` is never anything but what the two
    /// timestamps say. The entry for the installer itself is judged by its
    /// version and has no local timestamp.
    pub open spec fn wf(&self) -> bool {
        if self.is_self {
            self.local_created is None
        } else {
            self.has_update == update_due(self.remote_latest_updated, self.local_created)
        }
    }

    /// Whether the entry is sound; see [`UpdateInfo::wf`].
    pub fn is_sound(&self) -> (r: bool)
        ensures
            r == self.wf(),
    {
        if self.is_self {
            self.local_created.is_none()
        } else {
            self.has_update == self.timestamps_say_update()
        }
    }

    /// An entry for a tracked image of which nothing is known yet.
    pub fn new(config: &ServiceConfig) -> (info: UpdateInfo)
        ensures
            info.wf(),
            info.display_name@ == config.display_name@,
            info.image@ == config.image@,
            info.current_tag@ == config.current_tag@,
            info.available_tags@.len() == 0,
            info.latest_release_tag is None,
            info.latest_release_published is None,
            info.remote_latest_updated is None,
            info.local_created is None,
            info.status_note is None,
            !info.has_update,
            !info.is_self,
            info.download_url is None,
            info.checksum_url is None,
    {
        UpdateInfo {
            display_name: String::from_str(config.display_name),
            image: String::from_str(config.image),
            current_tag: String::from_str(config.current_tag),
            available_tags: Vec::new(),
            latest_release_tag: None,
            latest_release_published: None,
            remote_latest_updated: None,
            local_created: None,
            status_note: None,
            has_update: false,
            is_self: false,
            download_url: None,
            checksum_url: None,
        }
    }

    /// Whether the two timestamps say that an update is due.
    pub fn timestamps_say_update(&self) -> (r: bool)
        ensures
            r == update_due(self.remote_latest_updated, self.local_created),
    {
        match &self.remote_latest_updated {
            None => false,
            Some(remote) => match &self.local_created {
                None => true,
                Some(local) => remote.is_newer_than(local),
            },
        }
    }

    /// Sets `has_update` from the two timestamps. The entry for the installer
    /// itself is left as it is: its verdict comes from its version.
    pub fn recompute_status(&mut self)
        ensures
            !old(self).is_self ==> final(self).has_update == update_due(
                old(self).remote_latest_updated,
                old(self).local_created,
            ),
            !old(self).is_self ==> final(self).wf(),
            old(self).is_self ==> final(self).has_update == old(self).has_update,
            final(self).only_verdict_differs(*old(self)),
    {
        if !self.is_self {
            self.has_update = self.timestamps_say_update();
        }
    }

    /// Every field but `has_update` is the same in `self` and `other`.
    pub open spec fn only_verdict_differs(&self, other: UpdateInfo) -> bool {
        &&& self.display_name == other.display_name
        &&& self.image == other.image
        &&& self.current_tag == other.current_tag
        &&& self.available_tags == other.available_tags
        &&& self.latest_release_tag == other.latest_release_tag
        &&& self.latest_release_published == other.latest_release_published
        &&& self.remote_latest_updated == other.remote_latest_updated
        &&& self.local_created == other.local_created
        &&& self.status_note == other.status_note
        &&& self.is_self == other.is_self
        &&& self.download_url == other.download_url
        &&& self.checksum_url == other.checksum_url
    }

    /// Records when the local image was created and judges anew whether an
    /// update is due. The entry for the installer itself has no local image
    /// and is left as it is.
    pub fn apply_local_created(&mut self, created: Option<Timestamp>)
        ensures
            !old(self).is_self ==> final(self).local_created == created,
            !old(self).is_self ==> final(self).has_update == update_due(
                old(self).remote_latest_updated,
                created,
            ),
            !old(self).is_self ==> final(self).wf(),
            old(self).is_self ==> *final(self) == *old(self),
            final(self).display_name == old(self).display_name,
            final(self).image == old(self).image,
            final(self).current_tag == old(self).current_tag,
            final(self).available_tags == old(self).available_tags,
            final(self).latest_release_tag == old(self).latest_release_tag,
            final(self).latest_release_published == old(self).latest_release_published,
            final(self).remote_latest_updated == old(self).remote_latest_updated,
            final(self).status_note == old(self).status_note,
            final(self).is_self == old(self).is_self,
            final(self).download_url == old(self).download_url,
            final(self).checksum_url == old(self).checksum_url,
    {
        if !self.is_self {
            self.local_created = created;
            self.recompute_status();
        }
    }

    /// The reference by which the image is pulled: `image:tag`.
    pub fn pull_reference(&self) -> (reference: String)
        ensures
            reference@ == self.image@ + ":"@ + self.current_tag@,
    {
        join3(self.image.as_str(), ":", self.current_tag.as_str())
    }

    /// Adds `message` to the status note.
    pub fn append_status(&mut self, message: &str)
        ensures
            opt_text(final(self).status_note) == Some(
                noted(opt_text(old(self).status_note), message@),
            ),
            final(self).wf() == old(self).wf(),
            final(self).has_update == old(self).has_update,
            final(self).display_name == old(self).display_name,
            final(self).image == old(self).image,
            final(self).current_tag == old(self).current_tag,
            final(self).available_tags == old(self).available_tags,
            final(self).latest_release_tag == old(self).latest_release_tag,
            final(self).latest_release_published == old(self).latest_release_published,
            final(self).remote_latest_updated == old(self).remote_latest_updated,
            final(self).local_created == old(self).local_created,
            final(self).is_self == old(self).is_self,
            final(self).download_url == old(self).download_url,
            final(self).checksum_url == old(self).checksum_url,
    {
        append_status(&mut self.status_note, message);
    }

    /// Drops the status note if it reports a failed inspection of the local image.
    pub fn clear_local_error(&mut self)
        ensures
            final(self).status_note == (if old(self).status_note matches Some(note) && occurs_in(
                note@,
                inspection_note(),
            ) {
                None
            } else {
                old(self).status_note
            }),
            final(self).wf() == old(self).wf(),
            final(self).has_update == old(self).has_update,
            final(self).display_name == old(self).display_name,
            final(self).image == old(self).image,
            final(self).current_tag == old(self).current_tag,
            final(self).available_tags == old(self).available_tags,
            final(self).latest_release_tag == old(self).latest_release_tag,
            final(self).latest_release_published == old(self).latest_release_published,
            final(self).remote_latest_updated == old(self).remote_latest_updated,
            final(self).local_created == old(self).local_created,
            final(self).is_self == old(self).is_self,
            final(self).download_url == old(self).download_url,
            final(self).checksum_url == old(self).checksum_url,
    {
        let stale = match &self.status_note {
            Some(note) => contains(note.as_str(), "Failed to inspect local image"),
            None => false,
        };
        if stale {
            self.status_note = None;
        }
    }

    /// The status shown for the entry: its note if it has one, else the verdict.
    pub fn status_text(&self) -> (text: String)
        ensures
            text@ == (match self.status_note {
                Some(note) => note@,
                None => if self.has_update {
                    "Update available"@
                } else {
                    "Up to date"@
                },
            }),
    {
        match &self.status_note {
            Some(note) => note.clone(),
            None => if self.has_update {
                String::from_str("Update available")
            } else {
                String::from_str("Up to date")
            },
        }
    }
}

/// With a remote time and no local one, an update is due.
pub proof fn lemma_update_due_without_local(remote: Timestamp)
    ensures
        update_due(Some(remote), None),
{
}

/// Without a remote time no update is due, whatever is installed.
pub proof fn lemma_no_update_without_remote(local: Option<Timestamp>)
    ensures
        !update_due(None, local),
{
}

/// With both times an update is due exactly if the remote one is more than
/// five seconds after the local one.
pub proof fn lemma_update_due_beyond_tolerance(remote: Timestamp, local: Timestamp)
    ensures
        remote.instant() <= local.instant() + 5 * 1_000_000_000 ==> !update_due(
            Some(remote),
            Some(local),
        ),
        remote.instant() > local.instant() + 5 * 1_000_000_000 ==> update_due(
            Some(remote),
            Some(local),
        ),
{
}

} // verus!

//! Replacing the installer by a newer release: the download, the check
//! against the published checksums and the hand-over to the package installer.
//!
//! The caller downloads, hashes and runs the package installer. The functions
//! here read the checksum manifest, judge the digest and decide, event by
//! event, what is to be done next.

use vstd::prelude::*;
use vstd::string::*;
use crate::text::{
    eq_ignore_ascii_case, eq_ignoring_ascii_case, from_chars, has_suffix, is_whitespace, join2,
    line_end, matches_at, scan_line, to_chars, trim, trimmed, white_space,
};
use crate::updates::opt_text;

verus! {

/// Where the word that starts at `from` ends: at the next white space or at the end of the text.
pub open spec fn word_end(s: Seq<char>, from: int) -> int
    decreases s.len() - from,
{
    if 0 <= from < s.len() && !white_space(s[from]) {
        word_end(s, from + 1)
    } else {
        from
    }
}

/// The first word of a text, white space around the text set aside.
pub open spec fn first_word(s: Seq<char>) -> Seq<char> {
    trimmed(s).take(word_end(trimmed(s), 0))
}

/// The digest that a line of the manifest gives for the file `name`: the line,
/// trimmed, must end with the name and begin with a word that stops before the
/// name starts. That word is the digest.
pub open spec fn entry_digest(line: Seq<char>, name: Seq<char>) -> Option<Seq<char>> {
    let t = trimmed(line);
    let w = word_end(t, 0);
    if name.len() > 0 && has_suffix(t, name) && 0 < w && w + name.len() <= t.len() {
        Some(t.take(w))
    } else {
        None
    }
}

/// The digest that the first matching line at or after offset `from` gives for `name`.
pub open spec fn digest_from(manifest: Seq<char>, from: int, name: Seq<char>) -> Option<Seq<char>>
    decreases manifest.len() - from,
{
    let end = line_end(manifest, from);
    if from < 0 || end < from || end > manifest.len() {
        None
    } else {
        match entry_digest(manifest.subrange(from, end), name) {
            Some(digest) => Some(digest),
            None => if end >= manifest.len() {
                None
            } else {
                digest_from(manifest, end + 1, name)
            },
        }
    }
}

/// The digest that the manifest publishes for the file `name`: that of the
/// first line that ends with the name.
pub open spec fn published_digest(manifest: Seq<char>, name: Seq<char>) -> Option<Seq<char>> {
    digest_from(manifest, 0, name)
}

/// Finds the end of the word that starts at `from`.
fn scan_word(chars: &Vec<char>, from: usize) -> (end: usize)
    requires
        from <= chars.len(),
    ensures
        end == word_end(chars@, from as int),
        from <= end <= chars.len(),
{
    let mut i: usize = from;
    while i < chars.len() && !is_whitespace(chars[i])
        invariant
            from <= i <= chars.len(),
            word_end(chars@, from as int) == word_end(chars@, i as int),
        decreases chars.len() - i,
    {
        i += 1;
    }
    i
}

/// The first word of `text`.
pub fn leading_word(text: &str) -> (word: String)
    ensures
        word@ == first_word(text@),
{
    let t = trim(text);
    let chars = to_chars(t.as_str());
    let w = scan_word(&chars, 0);
    let word = from_chars(&chars, 0, w);
    word
}

/// The digest that one line of the manifest gives for the file `name`.
fn digest_of_line(line: &str, name: &Vec<char>) -> (digest: Option<String>)
    ensures
        opt_text(digest) == entry_digest(line@, name@),
{
    let t = trim(line);
    let chars = to_chars(t.as_str());
    if name.len() == 0 || name.len() > chars.len() {
        return None;
    }
    let at: usize = chars.len() - name.len();
    if !matches_at(&chars, name, at) {
        return None;
    }
    let w = scan_word(&chars, 0);
    if w == 0 || w > at {
        return None;
    }
    let digest = from_chars(&chars, 0, w);
    Some(digest)
}

/// The digest that the manifest publishes for the file `file_name`, if it names the file.
pub fn expected_digest(manifest: &str, file_name: &str) -> (digest: Option<String>)
    ensures
        opt_text(digest) == published_digest(manifest@, file_name@),
{
    let chars = to_chars(manifest);
    let name = to_chars(file_name);
    let mut from: usize = 0;
    loop
        invariant
            from <= chars.len(),
            chars@ == manifest@,
            name@ == file_name@,
            published_digest(manifest@, file_name@) == digest_from(chars@, from as int, name@),
        decreases chars.len() - from,
    {
        let end = scan_line(&chars, from);
        let line = from_chars(&chars, from, end);
        match digest_of_line(line.as_str(), &name) {
            Some(digest) => {
                return Some(digest);
            },
            None => {},
        }
        if end >= chars.len() {
            return None;
        }
        from = end + 1;
    }
}

/// What the check of a downloaded file against the manifest came to.
pub enum Verification {
    /// The manifest names the file, and the digests agree.
    Verified,
    /// The manifest does not name the file: nothing to check against.
    NoEntry,
    /// The manifest names the file, and the digests differ.
    Mismatch { expected: String, actual: String },
}

/// Whether a computed digest is the published one. Digests are written in
/// hexadecimal, so the case of the letters does not count.
pub open spec fn digests_agree(expected: Seq<char>, actual: Seq<char>) -> bool {
    eq_ignoring_ascii_case(expected, actual)
}

/// Checks a downloaded file against the manifest. `computed` is what the
/// checksum command printed for the file: its first word is the digest.
pub fn verify_checksum(manifest: &str, file_name: &str, computed: &str) -> (v: Verification)
    ensures
        published_digest(manifest@, file_name@) is None <==> v is NoEntry,
        published_digest(manifest@, file_name@) matches Some(expected) ==> {
            &&& digests_agree(expected, first_word(computed@)) <==> v is Verified
            &&& v matches Verification::Mismatch { expected: e, actual: a } ==> e@ == expected
                && a@ == first_word(computed@)
        },
{
    match expected_digest(manifest, file_name) {
        None => Verification::NoEntry,
        Some(expected) => {
            let actual = leading_word(computed);
            if eq_ignore_ascii_case(expected.as_str(), actual.as_str()) {
                Verification::Verified
            } else {
                Verification::Mismatch { expected, actual }
            }
        },
    }
}

/// The program that computes the digest of a file.
pub const CHECKSUM_PROGRAM: &'static str = "sha256sum";

/// The program through which the package installer gets its privileges.
pub const PRIVILEGE_PROGRAM: &'static str = "sudo";

/// The arguments with which the privileged package installer is run on the package at `path`.
pub fn installer_arguments(path: &str) -> (arguments: Vec<String>)
    ensures
        arguments@.len() == 3,
        arguments@[0]@ == "dpkg"@,
        arguments@[1]@ == "-i"@,
        arguments@[2]@ == path@,
{
    let mut arguments: Vec<String> = Vec::new();
    arguments.push(String::from_str("dpkg"));
    arguments.push(String::from_str("-i"));
    arguments.push(String::from_str(path));
    arguments
}

/// Where the last segment of a path begins: after its last slash, or at its start.
pub open spec fn segment_start(s: Seq<char>) -> int
    decreases s.len(),
{
    if s.len() == 0 || s.last() == '/' {
        s.len() as int
    } else {
        segment_start(s.drop_last())
    }
}

/// The name under which the package at `url` is saved and looked up in the
/// manifest: the last segment of the address.
pub open spec fn file_name_of(url: Seq<char>) -> Seq<char> {
    url.subrange(segment_start(url), url.len() as int)
}

/// The name under which the package at `url` is saved.
pub fn package_file_name(url: &str) -> (name: String)
    ensures
        name@ == file_name_of(url@),
{
    let chars = to_chars(url);
    let mut start: usize = chars.len();
    assert(chars@.take(chars@.len() as int) =~= chars@);
    while start > 0 && chars[start - 1] != '/'
        invariant
            start <= chars.len(),
            segment_start(chars@) == segment_start(chars@.take(start as int)),
        decreases start,
    {
        assert(chars@.take(start as int).drop_last() =~= chars@.take(start - 1));
        start -= 1;
    }
    from_chars(&chars, start, chars.len())
}

/// Seconds after which a download is given up.
pub const DOWNLOAD_TIMEOUT_SECONDS: u64 = 60;

/// Number of bytes in the unit in which a download of unknown size is reported.
pub const MEGABYTE: u64 = 1_048_576;

/// Width, in percent, of the steps in which a download of known size is reported.
pub const PERCENT_STEP: u64 = 5;

/// The mark that a download has reached: with a known, positive total the
/// percentage received, rounded down to a multiple of five and never above
/// 100; without one the number of whole megabytes received.
pub open spec fn download_mark(total: Option<u64>, received: nat) -> nat {
    match total {
        Some(t) => if t == 0 {
            received / (MEGABYTE as nat)
        } else if received >= t {
            100
        } else {
            (((received * 100) / (t as nat)) / (PERCENT_STEP as nat)) * (PERCENT_STEP as nat)
        },
        None => received / (MEGABYTE as nat),
    }
}

/// What is shown of a download when it reaches a new mark.
#[derive(Clone, Copy, Debug, PartialEq, Eq, Structural)]
pub enum ProgressReport {
    /// So many percent of the total have arrived.
    Percent(u64),
    /// So many megabytes have arrived; the total is not known.
    Megabytes(u64),
}

/// How far a download has come and what was last shown of it.
pub struct DownloadProgress {
    pub total: Option<u64>,
    pub received: u64,
    pub reported: u64,
}

impl DownloadProgress {
    /// A download of which nothing has arrived yet.
    pub fn new(total: Option<u64>) -> (p: DownloadProgress)
        ensures
            p.total == total,
            p.received == 0,
            p.reported == 0,
    {
        DownloadProgress { total, received: 0, reported: 0 }
    }

    /// Whether the total is known and positive, so that progress is shown in percent.
    pub open spec fn in_percent(&self) -> bool {
        self.total matches Some(t) && t > 0
    }

    /// The mark reached.
    pub fn mark(&self) -> (m: u64)
        ensures
            m == download_mark(self.total, self.received as nat),
    {
        match self.total {
            Some(t) => {
                if t == 0 {
                    self.received / MEGABYTE
                } else if self.received >= t {
                    100
                } else {
                    let scaled: u128 = (self.received as u128) * 100;
                    let percent: u128 = scaled / (t as u128);
                    assert(percent < 100) by (nonlinear_arith)
                        requires
                            percent == (self.received * 100) / (t as int),
                            0 <= self.received < t,
                    ;
                    let percent: u64 = percent as u64;
                    (percent / PERCENT_STEP) * PERCENT_STEP
                }
            },
            None => self.received / MEGABYTE,
        }
    }

    /// Counts `bytes` more as received. Returns what is to be shown if the
    /// download has thereby passed its last mark, and nothing otherwise.
    pub fn advance(&mut self, bytes: u64) -> (report: Option<ProgressReport>)
        ensures
            final(self).total == old(self).total,
            final(self).received == (if old(self).received + bytes > u64::MAX {
                u64::MAX
            } else {
                (old(self).received + bytes) as u64
            }),
            ({
                let mark = download_mark(final(self).total, final(self).received as nat);
                if mark > old(self).reported {
                    &&& final(self).reported == mark
                    &&& report == Some(
                        if final(self).in_percent() {
                            ProgressReport::Percent(mark as u64)
                        } else {
                            ProgressReport::Megabytes(mark as u64)
                        },
                    )
                } else {
                    &&& final(self).reported == old(self).reported
                    &&& report is None
                }
            }),
    {
        self.received = if bytes > u64::MAX - self.received {
            u64::MAX
        } else {
            self.received + bytes
        };
        let mark = self.mark();
        if mark > self.reported {
            self.reported = mark;
            match self.total {
                Some(t) => if t > 0 {
                    Some(ProgressReport::Percent(mark))
                } else {
                    Some(ProgressReport::Megabytes(mark))
                },
                None => Some(ProgressReport::Megabytes(mark)),
            }
        } else {
            None
        }
    }
}

/// How far a self-update has come.
#[derive(Clone, Copy, Debug, PartialEq, Eq, Structural)]
pub enum UpdateStage {
    /// The package is being downloaded.
    Downloading,
    /// The checksum manifest is being downloaded.
    FetchingManifest,
    /// The digest of the package is being computed.
    Hashing,
    /// The package installer runs.
    Installing,
    /// The new installer is in place; the running one goes on until restarted.
    Installed,
    /// The update was given up.
    Failed,
}

/// What the caller reports back to a self-update.
pub enum UpdateEvent {
    /// The package is on disk.
    Downloaded,
    /// The package could not be downloaded.
    DownloadFailed(String),
    /// The manifest was downloaded; this is its text.
    ManifestFetched(String),
    /// The manifest could not be downloaded.
    ManifestFailed(String),
    /// The checksum command printed this for the package.
    DigestComputed(String),
    /// The checksum command could not be run or failed.
    DigestFailed(String),
    /// The package installer exited; `diagnostics` is what it printed.
    InstallerExited { success: bool, diagnostics: String },
}

/// What the caller is to do next.
#[derive(Clone, Copy, Debug, PartialEq, Eq, Structural)]
pub enum UpdateAction {
    /// Download the checksum manifest.
    FetchManifest,
    /// Compute the digest of the package.
    ComputeDigest,
    /// Run the package installer, with elevated privileges, on the package.
    RunInstaller,
    /// Tell the operator that the update is installed and a restart is required.
    ReportInstalled,
    /// Tell the operator that the update failed.
    ReportFailure,
    /// Nothing: the event does not belong to the current stage.
    Nothing,
}

/// A self-update under way.
pub struct SelfUpdate {
    pub stage: UpdateStage,
    /// Name of the package file, as the manifest lists it.
    pub file_name: String,
    /// Whether the release publishes a checksum manifest.
    pub has_manifest: bool,
    /// The digest that the manifest publishes for the package, once known.
    pub expected: Option<String>,
    /// Why verification was passed over, where it was.
    pub warning: Option<String>,
    /// The outcome, once there is one.
    pub message: Option<String>,
}

/// What is reported when the update is in place.
pub open spec fn installed_message() -> Seq<char> {
    "Update installed. Restart the installer to run the new version."@
}

/// The warning left when the manifest does not name the package.
pub open spec fn no_entry_warning(file_name: Seq<char>) -> Seq<char> {
    "No checksum published for "@ + file_name + "; verification skipped"@
}

/// The failure reported when the digests differ.
pub open spec fn mismatch_message(file_name: Seq<char>, expected: Seq<char>, actual: Seq<char>) -> Seq<
    char,
> {
    "Checksum mismatch for "@ + file_name + ": expected "@ + expected + ", got "@ + actual
}

/// The stage and the action that follow when `event` arrives.
pub open spec fn update_step(update: SelfUpdate, event: UpdateEvent) -> (UpdateStage, UpdateAction) {
    match (update.stage, event) {
        (UpdateStage::Downloading, UpdateEvent::Downloaded) => if update.has_manifest {
            (UpdateStage::FetchingManifest, UpdateAction::FetchManifest)
        } else {
            (UpdateStage::Installing, UpdateAction::RunInstaller)
        },
        (UpdateStage::Downloading, UpdateEvent::DownloadFailed(_)) => (
            UpdateStage::Failed,
            UpdateAction::ReportFailure,
        ),
        (UpdateStage::FetchingManifest, UpdateEvent::ManifestFetched(text)) => if published_digest(
            text@,
            update.file_name@,
        ) is Some {
            (UpdateStage::Hashing, UpdateAction::ComputeDigest)
        } else {
            (UpdateStage::Installing, UpdateAction::RunInstaller)
        },
        (UpdateStage::FetchingManifest, UpdateEvent::ManifestFailed(_)) => (
            UpdateStage::Failed,
            UpdateAction::ReportFailure,
        ),
        (UpdateStage::Hashing, UpdateEvent::DigestComputed(output)) => if update.expected matches Some(
            expected,
        ) && digests_agree(expected@, first_word(output@)) {
            (UpdateStage::Installing, UpdateAction::RunInstaller)
        } else {
            (UpdateStage::Failed, UpdateAction::ReportFailure)
        },
        (UpdateStage::Hashing, UpdateEvent::DigestFailed(_)) => (
            UpdateStage::Failed,
            UpdateAction::ReportFailure,
        ),
        (UpdateStage::Installing, UpdateEvent::InstallerExited { success, diagnostics }) => if success {
            (UpdateStage::Installed, UpdateAction::ReportInstalled)
        } else {
            (UpdateStage::Failed, UpdateAction::ReportFailure)
        },
        _ => (update.stage, UpdateAction::Nothing),
    }
}

/// The message that the update carries once `event` has been taken in; it is
/// set when the update ends, well or badly.
pub open spec fn update_message(update: SelfUpdate, event: UpdateEvent) -> Option<Seq<char>> {
    match (update.stage, event) {
        (UpdateStage::Downloading, UpdateEvent::DownloadFailed(why)) => Some(
            "Failed to download the installer package: "@ + why@,
        ),
        (UpdateStage::FetchingManifest, UpdateEvent::ManifestFailed(why)) => Some(
            "Failed to download the checksum manifest: "@ + why@,
        ),
        (UpdateStage::Hashing, UpdateEvent::DigestComputed(output)) => match update.expected {
            Some(expected) => if digests_agree(expected@, first_word(output@)) {
                opt_text(update.message)
            } else {
                Some(mismatch_message(update.file_name@, expected@, first_word(output@)))
            },
            None => Some("No published checksum to compare with"@),
        },
        (UpdateStage::Hashing, UpdateEvent::DigestFailed(why)) => Some(
            "Failed to compute the checksum: "@ + why@,
        ),
        (UpdateStage::Installing, UpdateEvent::InstallerExited { success, diagnostics }) => if success {
            Some(installed_message())
        } else {
            Some("Package installation failed: "@ + diagnostics@)
        },
        _ => opt_text(update.message),
    }
}

impl SelfUpdate {
    /// Begins the update of the installer from a package that will be saved
    /// under `file_name`. The caller starts the download.
    pub fn begin(file_name: &str, has_manifest: bool) -> (update: SelfUpdate)
        ensures
            update.stage == UpdateStage::Downloading,
            update.file_name@ == file_name@,
            update.has_manifest == has_manifest,
            update.expected is None,
            update.warning is None,
            update.message is None,
    {
        SelfUpdate {
            stage: UpdateStage::Downloading,
            file_name: String::from_str(file_name),
            has_manifest,
            expected: None,
            warning: None,
            message: None,
        }
    }

    /// Whether the update has come to its end, well or badly.
    pub fn is_over(&self) -> (r: bool)
        ensures
            r == (self.stage == UpdateStage::Installed || self.stage == UpdateStage::Failed),
    {
        match self.stage {
            UpdateStage::Installed => true,
            UpdateStage::Failed => true,
            _ => false,
        }
    }

    /// Takes in what the caller reports and says what is to be done next.
    ///
    /// The package installer is run only after the package was checked against
    /// the manifest, or where there is nothing to check against: no manifest,
    /// or none that names the package (which leaves a warning). A digest that
    /// differs from the published one ends the update.
    pub fn on_event(&mut self, event: &UpdateEvent) -> (action: UpdateAction)
        ensures
            (final(self).stage, action) == update_step(*old(self), *event),
            opt_text(final(self).message) == update_message(*old(self), *event),
            final(self).file_name == old(self).file_name,
            final(self).has_manifest == old(self).has_manifest,
            (old(self).stage == UpdateStage::FetchingManifest && event is ManifestFetched) ==> {
                let text = event->ManifestFetched_0@;
                &&& opt_text(final(self).expected) == published_digest(text, old(self).file_name@)
                &&& opt_text(final(self).warning) == (if published_digest(
                    text,
                    old(self).file_name@,
                ) is Some {
                    opt_text(old(self).warning)
                } else {
                    Some(no_entry_warning(old(self).file_name@))
                })
            },
            !(old(self).stage == UpdateStage::FetchingManifest && event is ManifestFetched) ==> {
                &&& final(self).expected == old(self).expected
                &&& final(self).warning == old(self).warning
            },
    {
        match (self.stage, event) {
            (UpdateStage::Downloading, UpdateEvent::Downloaded) => {
                if self.has_manifest {
                    self.stage = UpdateStage::FetchingManifest;
                    UpdateAction::FetchManifest
                } else {
                    self.stage = UpdateStage::Installing;
                    UpdateAction::RunInstaller
                }
            },
            (UpdateStage::Downloading, UpdateEvent::DownloadFailed(why)) => {
                self.stage = UpdateStage::Failed;
                self.message = Some(join2("Failed to download the installer package: ", why.as_str()));
                UpdateAction::ReportFailure
            },
            (UpdateStage::FetchingManifest, UpdateEvent::ManifestFetched(text)) => {
                match expected_digest(text.as_str(), self.file_name.as_str()) {
                    Some(digest) => {
                        self.expected = Some(digest);
                        self.stage = UpdateStage::Hashing;
                        UpdateAction::ComputeDigest
                    },
                    None => {
                        let mut warning = String::from_str("No checksum published for ");
                        warning.append(self.file_name.as_str());
                        warning.append("; verification skipped");
                        self.warning = Some(warning);
                        self.expected = None;
                        self.stage = UpdateStage::Installing;
                        UpdateAction::RunInstaller
                    },
                }
            },
            (UpdateStage::FetchingManifest, UpdateEvent::ManifestFailed(why)) => {
                self.stage = UpdateStage::Failed;
                self.message = Some(join2("Failed to download the checksum manifest: ", why.as_str()));
                UpdateAction::ReportFailure
            },
            (UpdateStage::Hashing, UpdateEvent::DigestComputed(output)) => {
                let actual = leading_word(output.as_str());
                let verdict: Option<String> = match &self.expected {
                    Some(expected) => {
                        if eq_ignore_ascii_case(expected.as_str(), actual.as_str()) {
                            None
                        } else {
                            let mut message = String::from_str("Checksum mismatch for ");
                            message.append(self.file_name.as_str());
                            message.append(": expected ");
                            message.append(expected.as_str());
                            message.append(", got ");
                            message.append(actual.as_str());
                            Some(message)
                        }
                    },
                    None => Some(String::from_str("No published checksum to compare with")),
                };
                match verdict {
                    None => {
                        self.stage = UpdateStage::Installing;
                        UpdateAction::RunInstaller
                    },
                    Some(message) => {
                        self.stage = UpdateStage::Failed;
                        self.message = Some(message);
                        UpdateAction::ReportFailure
                    },
                }
            },
            (UpdateStage::Hashing, UpdateEvent::DigestFailed(why)) => {
                self.stage = UpdateStage::Failed;
                self.message = Some(join2("Failed to compute the checksum: ", why.as_str()));
                UpdateAction::ReportFailure
            },
            (UpdateStage::Installing, UpdateEvent::InstallerExited { success, diagnostics }) => {
                if *success {
                    self.stage = UpdateStage::Installed;
                    self.message = Some(
                        String::from_str(
                            "Update installed. Restart the installer to run the new version.",
                        ),
                    );
                    UpdateAction::ReportInstalled
                } else {
                    self.stage = UpdateStage::Failed;
                    self.message = Some(join2("Package installation failed: ", diagnostics.as_str()));
                    UpdateAction::ReportFailure
                }
            },
            _ => UpdateAction::Nothing,
        }
    }
}

/// A digest that differs from the published one ends the update on the spot:
/// the update fails and the package installer is not run.
pub proof fn lemma_mismatch_never_installs(update: SelfUpdate, output: String)
    requires
        update.stage == UpdateStage::Hashing,
        update.expected matches Some(expected) ==> !digests_agree(expected@, first_word(output@)),
    ensures
        update_step(update, UpdateEvent::DigestComputed(output)) == (
            UpdateStage::Failed,
            UpdateAction::ReportFailure,
        ),
{
}

/// The package installer is run in three cases only: the release publishes no
/// manifest, the manifest does not name the package, or the computed digest
/// is the published one.
pub proof fn lemma_installer_runs_only_after_check(update: SelfUpdate, event: UpdateEvent)
    requires
        update_step(update, event).1 == UpdateAction::RunInstaller,
    ensures
        ({
            ||| (update.stage == UpdateStage::Downloading && event is Downloaded
                && !update.has_manifest)
            ||| (update.stage == UpdateStage::FetchingManifest && event is ManifestFetched
                && published_digest(event->ManifestFetched_0@, update.file_name@) is None)
            ||| (update.stage == UpdateStage::Hashing && event is DigestComputed
                && update.expected is Some && digests_agree(
                update.expected->0@,
                first_word(event->DigestComputed_0@),
            ))
        }),
{
}

/// Once the update is over, no event moves it or asks for anything.
pub proof fn lemma_finished_update_stays(update: SelfUpdate, event: UpdateEvent)
    requires
        update.stage == UpdateStage::Installed || update.stage == UpdateStage::Failed,
    ensures
        update_step(update, event) == (update.stage, UpdateAction::Nothing),
{
}

} // verus!

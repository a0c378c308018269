//! Release versions and the choice of the latest release among a set of tags.
//!
//! Parsing and ranking of semantic versions is the work of the `semver` crate.
//! The library keeps, beside the parsed value, the parts of a version that the
//! ranking looks at, so that contracts can speak of them.

use vstd::prelude::*;
use vstd::string::*;
use crate::text::{from_chars, texts, to_chars};

verus! {

/// `semver::Version`, carried along as it was parsed; nothing is read from it here.
#[verifier::external_type_specification]
#[verifier::external_body]
pub struct ExSemverVersion(semver::Version);

/// How one version ranks against another.
#[derive(Clone, Copy, Debug, PartialEq, Eq, Structural)]
pub enum Precedence {
    /// The first version is the older one.
    Lower,
    /// Neither version is newer (they may still differ in build metadata).
    Same,
    /// The first version is the newer one.
    Higher,
}

/// The parts of a version that decide its rank.
pub struct VersionView {
    pub major: nat,
    pub minor: nat,
    pub patch: nat,
    /// The pre-release identifiers, dots included; empty for a release.
    pub pre: Seq<char>,
}

/// The version that `semver::Version::parse` reads from `text`, if it accepts the text.
pub uninterp spec fn parsed_version(text: Seq<char>) -> Option<VersionView>;

/// The rank of `a` against `b` that `semver::Version::cmp_precedence` reports.
pub uninterp spec fn precedence(a: VersionView, b: VersionView) -> Precedence;

/// The rank that the three numbers alone give, or `Same` where they agree.
pub open spec fn numeric_precedence(a: VersionView, b: VersionView) -> Precedence {
    if a.major != b.major {
        if a.major < b.major {
            Precedence::Lower
        } else {
            Precedence::Higher
        }
    } else if a.minor != b.minor {
        if a.minor < b.minor {
            Precedence::Lower
        } else {
            Precedence::Higher
        }
    } else if a.patch != b.patch {
        if a.patch < b.patch {
            Precedence::Lower
        } else {
            Precedence::Higher
        }
    } else {
        Precedence::Same
    }
}

/// A parsed semantic version.
pub struct ReleaseVersion {
    major: u64,
    minor: u64,
    patch: u64,
    pre: String,
    parsed: semver::Version,
}

impl View for ReleaseVersion {
    type V = VersionView;

    open spec fn view(&self) -> VersionView {
        VersionView {
            major: self.major() as nat,
            minor: self.minor() as nat,
            patch: self.patch() as nat,
            pre: self.pre_release(),
        }
    }
}

impl ReleaseVersion {
    /// The major number.
    pub closed spec fn major(&self) -> u64 {
        self.major
    }

    /// The minor number.
    pub closed spec fn minor(&self) -> u64 {
        self.minor
    }

    /// The patch number.
    pub closed spec fn patch(&self) -> u64 {
        self.patch
    }

    /// The pre-release identifiers; empty for a release.
    pub closed spec fn pre_release(&self) -> Seq<char> {
        self.pre@
    }

    /// The major number.
    pub fn major_number(&self) -> (n: u64)
        ensures
            n == self.major(),
    {
        self.major
    }

    /// The minor number.
    pub fn minor_number(&self) -> (n: u64)
        ensures
            n == self.minor(),
    {
        self.minor
    }

    /// The patch number.
    pub fn patch_number(&self) -> (n: u64)
        ensures
            n == self.patch(),
    {
        self.patch
    }

    /// The pre-release identifiers; empty for a release.
    pub fn pre_release_text(&self) -> (s: &String)
        ensures
            s@ == self.pre_release(),
    {
        &self.pre
    }

    /// Reads a text as a version.
    pub fn parse(text: &str) -> (r: Option<ReleaseVersion>)
        ensures
            r is Some <==> parsed_version(text@) is Some,
            r matches Some(v) ==> parsed_version(text@) == Some(v@) && precedence(v@, v@)
                == Precedence::Same,
    {
        parse_version(text)
    }

    /// Reads a tag as a version: one leading `v`, if there is one, is set
    /// aside, and the rest must be a semantic version.
    pub fn of_tag(tag: &str) -> (r: Option<ReleaseVersion>)
        ensures
            r is Some <==> tag_version(tag@) is Some,
            r matches Some(v) ==> tag_version(tag@) == Some(v@) && precedence(v@, v@)
                == Precedence::Same,
    {
        let chars = to_chars(tag);
        if chars.len() > 0 && chars[0] == 'v' {
            let rest = from_chars(&chars, 1, chars.len());
            parse_version(rest.as_str())
        } else {
            parse_version(tag)
        }
    }

    /// The version `0.0.0`, which every release outranks or equals.
    pub fn zero() -> (v: ReleaseVersion)
        ensures
            v@ == (VersionView { major: 0, minor: 0, patch: 0, pre: Seq::empty() }),
            precedence(v@, v@) == Precedence::Same,
    {
        version_of_numbers(0, 0, 0)
    }

    /// How `self` ranks against `other`.
    pub fn rank_against(&self, other: &ReleaseVersion) -> (r: Precedence)
        ensures
            r == precedence(self@, other@),
            numeric_precedence(self@, other@) != Precedence::Same ==> r == numeric_precedence(
                self@,
                other@,
            ),
    {
        rank(self, other)
    }

    /// Whether `self` is the newer of the two.
    pub fn outranks(&self, other: &ReleaseVersion) -> (r: bool)
        ensures
            r == (precedence(self@, other@) == Precedence::Higher),
    {
        match rank(self, other) {
            Precedence::Higher => true,
            _ => false,
        }
    }
}

/// `semver::Version::parse`. Which texts it accepts and what it reads from them
/// is not restated: the result is given the name [`parsed_version`]. The one
/// fact added is that a version ranks the same as itself.
#[verifier::external_body]
fn parse_version(text: &str) -> (r: Option<ReleaseVersion>)
    ensures
        r is Some <==> parsed_version(text@) is Some,
        r matches Some(v) ==> parsed_version(text@) == Some(v@) && precedence(v@, v@)
            == Precedence::Same,
{
    match semver::Version::parse(text) {
        Ok(v) => Some(
            ReleaseVersion {
                major: v.major,
                minor: v.minor,
                patch: v.patch,
                pre: v.pre.as_str().to_string(),
                parsed: v,
            },
        ),
        Err(_) => None,
    }
}

/// `semver::Version::new`: the release with the given three numbers.
#[verifier::external_body]
fn version_of_numbers(major: u64, minor: u64, patch: u64) -> (v: ReleaseVersion)
    ensures
        v@ == (VersionView {
            major: major as nat,
            minor: minor as nat,
            patch: patch as nat,
            pre: Seq::empty(),
        }),
        precedence(v@, v@) == Precedence::Same,
{
    ReleaseVersion {
        major,
        minor,
        patch,
        pre: String::new(),
        parsed: semver::Version::new(major, minor, patch),
    }
}

/// `semver::Version::cmp_precedence`: the rank by major, minor, patch and
/// pre-release, build metadata set aside. The rule for pre-release identifiers
/// is not restated; the result is given the name [`precedence`]. Two facts are
/// stated of it. Where the three numbers differ, they alone decide. And the
/// rank is that of an order: a version that outranks `b` also outranks every
/// parsed version that does not outrank `b`.
#[verifier::external_body]
fn rank(a: &ReleaseVersion, b: &ReleaseVersion) -> (r: Precedence)
    ensures
        r == precedence(a@, b@),
        numeric_precedence(a@, b@) != Precedence::Same ==> r == numeric_precedence(a@, b@),
        forall|text: Seq<char>|
            r == Precedence::Higher && parsed_version(text) is Some && #[trigger] precedence(
                parsed_version(text)->0,
                b@,
            ) != Precedence::Higher ==> precedence(parsed_version(text)->0, a@)
                == Precedence::Lower,
{
    match a.parsed.cmp_precedence(&b.parsed) {
        core::cmp::Ordering::Less => Precedence::Lower,
        core::cmp::Ordering::Equal => Precedence::Same,
        core::cmp::Ordering::Greater => Precedence::Higher,
    }
}

/// `tag` without one leading `v`.
pub open spec fn without_v(tag: Seq<char>) -> Seq<char> {
    if tag.len() > 0 && tag[0] == 'v' {
        tag.drop_first()
    } else {
        tag
    }
}

/// The version that a tag stands for, if it stands for one.
pub open spec fn tag_version(tag: Seq<char>) -> Option<VersionView> {
    parsed_version(without_v(tag))
}

/// The tag at `i` is a release that no tag of the list outranks, and the first such tag.
pub open spec fn is_latest_release(tags: Seq<Seq<char>>, i: int) -> bool {
    &&& 0 <= i < tags.len()
    &&& tag_version(tags[i]) is Some
    &&& forall|j: int|
        0 <= j < tags.len() && (#[trigger] tag_version(tags[j])) is Some ==> precedence(
            tag_version(tags[j])->0,
            tag_version(tags[i])->0,
        ) != Precedence::Higher
    &&& forall|j: int|
        0 <= j < i && (#[trigger] tag_version(tags[j])) is Some ==> precedence(
            tag_version(tags[j])->0,
            tag_version(tags[i])->0,
        ) == Precedence::Lower
}

/// No tag of the list stands for a version.
pub open spec fn no_release(tags: Seq<Seq<char>>) -> bool {
    forall|j: int| 0 <= j < tags.len() ==> (#[trigger] tag_version(tags[j])) is None
}

/// The index of the latest release among `tags`: tags that are no semantic
/// version are passed over; of the others the one of highest precedence is
/// chosen, the first of them where several rank the same.
pub fn latest_release_index(tags: &Vec<String>) -> (r: Option<usize>)
    ensures
        r is None <==> no_release(texts(tags@)),
        r matches Some(i) ==> is_latest_release(texts(tags@), i as int),
{
    let ghost all = texts(tags@);
    let mut best: Option<(usize, ReleaseVersion)> = None;
    let mut i: usize = 0;
    while i < tags.len()
        invariant
            i <= tags.len(),
            all == texts(tags@),
            all.len() == tags.len(),
            best is None ==> forall|j: int| 0 <= j < i ==> (#[trigger] tag_version(all[j])) is None,
            best matches Some((at, top)) ==> {
                &&& at < i
                &&& tag_version(all[at as int]) == Some(top@)
                &&& forall|j: int|
                    0 <= j < i && (#[trigger] tag_version(all[j])) is Some ==> precedence(
                        tag_version(all[j])->0,
                        top@,
                    ) != Precedence::Higher
                &&& forall|j: int|
                    0 <= j < at && (#[trigger] tag_version(all[j])) is Some ==> precedence(
                        tag_version(all[j])->0,
                        top@,
                    ) == Precedence::Lower
            },
        decreases tags.len() - i,
    {
        match ReleaseVersion::of_tag(tags[i].as_str()) {
            Some(candidate) => {
                best = match best {
                    None => Some((i, candidate)),
                    Some((at, top)) => {
                        match rank(&candidate, &top) {
                            Precedence::Higher => {
                                assert forall|j: int|
                                    0 <= j < i && (#[trigger] tag_version(all[j])) is Some implies precedence(
                                    tag_version(all[j])->0,
                                    candidate@,
                                ) == Precedence::Lower by {}
                                Some((i, candidate))
                            },
                            _ => Some((at, top)),
                        }
                    },
                };
            },
            None => {},
        }
        i += 1;
    }
    match best {
        Some((at, _)) => Some(at),
        None => None,
    }
}

/// The latest release among `tags`, as the tag itself.
pub fn determine_latest_release_tag(tags: &Vec<String>) -> (r: Option<String>)
    ensures
        r is None <==> no_release(texts(tags@)),
        r matches Some(tag) ==> exists|i: int|
            is_latest_release(texts(tags@), i) && tag@ == #[trigger] texts(tags@)[i],
{
    match latest_release_index(tags) {
        Some(i) => {
            let tag = tags[i].clone();
            Some(tag)
        },
        None => None,
    }
}

/// The order in which the tags are listed does not decide which version is
/// chosen: for two lists that hold the same tags, neither chosen version
/// outranks the other.
pub proof fn lemma_latest_release_ignores_order(
    a: Seq<Seq<char>>,
    b: Seq<Seq<char>>,
    i: int,
    j: int,
)
    requires
        a.to_set() == b.to_set(),
        is_latest_release(a, i),
        is_latest_release(b, j),
    ensures
        precedence(tag_version(a[i])->0, tag_version(b[j])->0) != Precedence::Higher,
        precedence(tag_version(b[j])->0, tag_version(a[i])->0) != Precedence::Higher,
{
    assert(b.to_set().contains(a[i]));
    assert(a.to_set().contains(b[j]));
}

} // verus!

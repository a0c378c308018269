//! Resolution of a tracked image against the registry's version listing.
//!
//! The caller performs the requests and the inspection of the local image; the
//! functions here decide what each answer means and assemble the entry.

use vstd::prelude::*;
use vstd::string::*;
use crate::text::{
    blank, join2, join3, lemma_lex_less_transitive, lex_less, same_text, text_order, texts, trim,
    trimmed, TextOrder,
};
use crate::updates::{noted, opt_text, update_due, ServiceConfig, Timestamp, UpdateInfo};
use crate::version::{is_latest_release, latest_release_index, no_release};

verus! {

/// One version of a package, as the registry lists it.
pub struct PackageVersion {
    /// The container tags of the version, if it has container metadata.
    pub tags: Option<Vec<String>>,
    pub created_at: Option<Timestamp>,
    pub updated_at: Option<Timestamp>,
}

impl PackageVersion {
    /// The time of the version: when it was last updated or, failing that, when it was created.
    pub open spec fn stamp(&self) -> Option<Timestamp> {
        if self.updated_at is Some {
            self.updated_at
        } else {
            self.created_at
        }
    }

    /// The tags of the version; none if it has no container metadata.
    pub open spec fn tag_texts(&self) -> Seq<Seq<char>> {
        match self.tags {
            Some(tags) => texts(tags@),
            None => Seq::empty(),
        }
    }

    /// The time of the version.
    pub fn timestamp(&self) -> (t: Option<Timestamp>)
        ensures
            t == self.stamp(),
    {
        match self.updated_at {
            Some(t) => Some(t),
            None => self.created_at,
        }
    }

    /// Whether the version carries `tag`.
    pub fn has_tag(&self, tag: &str) -> (r: bool)
        ensures
            r == self.tag_texts().contains(tag@),
    {
        match &self.tags {
            None => false,
            Some(tags) => {
                let mut i: usize = 0;
                while i < tags.len()
                    invariant
                        i <= tags.len(),
                        self.tags == Some(*tags),
                        forall|k: int| 0 <= k < i ==> texts(tags@)[k] != tag@,
                    decreases tags.len() - i,
                {
                    if same_text(tags[i].as_str(), tag) {
                        assert(texts(tags@)[i as int] == tag@);
                        return true;
                    }
                    i += 1;
                }
                false
            },
        }
    }
}

/// Every tag that some version of the listing carries.
pub open spec fn observed_tags(versions: Seq<PackageVersion>) -> Set<Seq<char>>
    decreases versions.len(),
{
    if versions.len() == 0 {
        Set::empty()
    } else {
        observed_tags(versions.drop_last()).union(versions.last().tag_texts().to_set())
    }
}

/// The time of the first version of the listing that carries `tag` and has a time.
pub open spec fn first_stamp(versions: Seq<PackageVersion>, tag: Seq<char>) -> Option<Timestamp>
    decreases versions.len(),
{
    if versions.len() == 0 {
        None
    } else if versions[0].tag_texts().contains(tag) && versions[0].stamp() is Some {
        versions[0].stamp()
    } else {
        first_stamp(versions.drop_first(), tag)
    }
}

/// The tags stand in dictionary order and none stands twice.
pub open spec fn strictly_sorted(tags: Seq<Seq<char>>) -> bool {
    forall|i: int, j: int| 0 <= i < j < tags.len() ==> lex_less(tags[i], tags[j])
}

/// Puts `tag` at its place in a sorted list of tags, unless it is there already.
pub fn insert_tag(tags: &mut Vec<String>, tag: &str)
    requires
        strictly_sorted(texts(old(tags)@)),
    ensures
        strictly_sorted(texts(final(tags)@)),
        texts(final(tags)@).to_set() == texts(old(tags)@).to_set().insert(tag@),
{
    let ghost before = texts(tags@);
    let mut p: usize = 0;
    while p < tags.len() && is_before(tags[p].as_str(), tag)
        invariant
            p <= tags.len(),
            before == texts(tags@),
            forall|k: int| 0 <= k < p ==> lex_less(before[k], tag@),
        decreases tags.len() - p,
    {
        p += 1;
    }
    if p < tags.len() {
        assert(before[p as int] == tags@[p as int]@);
        match text_order(tags[p].as_str(), tag) {
            TextOrder::Equal => {
                return ;
            },
            _ => {},
        }
    }
    tags.insert(p, String::from_str(tag));
    proof {
        let after = texts(tags@);
        assert forall|i: int, j: int| 0 <= i < j < after.len() implies lex_less(
            after[i],
            after[j],
        ) by {
            if j < p {
                assert(after[i] == before[i] && after[j] == before[j]);
            } else if j == p {
                assert(after[i] == before[i]);
            } else if i == p {
                if j - 1 > p {
                    lemma_lex_less_transitive(tag@, before[p as int], before[j - 1]);
                }
            } else if i < p {
                assert(after[i] == before[i] && after[j] == before[j - 1]);
            } else {
                assert(after[i] == before[i - 1] && after[j] == before[j - 1]);
            }
        }
        assert forall|t: Seq<char>| after.to_set().contains(t) <==> before.to_set().insert(
            tag@,
        ).contains(t) by {
            if after.contains(t) {
                let k = choose|k: int| 0 <= k < after.len() && after[k] == t;
                if k < p {
                    assert(before[k] == t);
                } else if k > p {
                    assert(before[k - 1] == t);
                }
            }
            if before.contains(t) {
                let k = choose|k: int| 0 <= k < before.len() && before[k] == t;
                if k < p {
                    assert(after[k] == t);
                } else {
                    assert(after[k + 1] == t);
                }
            }
            if t == tag@ {
                assert(after[p as int] == t);
            }
        }
    }
}

/// Whether `a` comes before `b` in dictionary order.
fn is_before(a: &str, b: &str) -> (r: bool)
    ensures
        r == lex_less(a@, b@),
{
    match text_order(a, b) {
        TextOrder::Before => true,
        _ => false,
    }
}

/// The first `n + 1` elements hold what the first `n` hold, and the element at `n`.
proof fn lemma_take_one_more(list: Seq<Seq<char>>, n: int)
    requires
        0 <= n < list.len(),
    ensures
        list.take(n + 1).to_set() == list.take(n).to_set().insert(list[n]),
{
    let longer = list.take(n + 1);
    let shorter = list.take(n);
    assert forall|t: Seq<char>| longer.to_set().contains(t) <==> shorter.to_set().insert(
        list[n],
    ).contains(t) by {
        if t == list[n] {
            assert(longer[n] == t);
        }
    }
}

/// Every tag of the listing, each once, in dictionary order.
pub fn collect_tags(versions: &Vec<PackageVersion>) -> (tags: Vec<String>)
    ensures
        strictly_sorted(texts(tags@)),
        texts(tags@).to_set() == observed_tags(versions@),
{
    let mut tags: Vec<String> = Vec::new();
    let mut n: usize = 0;
    while n < versions.len()
        invariant
            n <= versions.len(),
            strictly_sorted(texts(tags@)),
            texts(tags@).to_set() == observed_tags(versions@.take(n as int)),
        decreases versions.len() - n,
    {
        let ghost seen = observed_tags(versions@.take(n as int));
        let ghost carried = versions@[n as int].tag_texts();
        match &versions[n].tags {
            Some(list) => {
                let mut m: usize = 0;
                while m < list.len()
                    invariant
                        m <= list.len(),
                        carried == texts(list@),
                        strictly_sorted(texts(tags@)),
                        texts(tags@).to_set() == seen.union(carried.take(m as int).to_set()),
                    decreases list.len() - m,
                {
                    insert_tag(&mut tags, list[m].as_str());
                    proof {
                        lemma_take_one_more(carried, m as int);
                    }
                    m += 1;
                }
                assert(carried.take(m as int) =~= carried);
            },
            None => {},
        }
        proof {
            let longer = versions@.take(n + 1);
            assert(longer.drop_last() =~= versions@.take(n as int));
        }
        n += 1;
    }
    assert(versions@.take(n as int) =~= versions@);
    tags
}

/// The time of the first version of the listing that carries `tag` and has a time.
pub fn first_timestamp(versions: &Vec<PackageVersion>, tag: &str) -> (t: Option<Timestamp>)
    ensures
        t == first_stamp(versions@, tag@),
{
    let mut n: usize = 0;
    assert(versions@.skip(0) =~= versions@);
    while n < versions.len()
        invariant
            n <= versions.len(),
            first_stamp(versions@, tag@) == first_stamp(versions@.skip(n as int), tag@),
        decreases versions.len() - n,
    {
        let ghost rest = versions@.skip(n as int);
        assert(rest.drop_first() =~= versions@.skip(n + 1));
        if versions[n].has_tag(tag) {
            match versions[n].timestamp() {
                Some(t) => {
                    return Some(t);
                },
                None => {},
            }
        }
        n += 1;
    }
    None
}

/// The note left when the registry lists no tag for an image.
pub open spec fn no_tags_note() -> Seq<char> {
    "No tags found for this image yet"@
}

/// The note left when the registry does not know the package.
pub open spec fn not_found_note() -> Seq<char> {
    "Package not found in GitHub Container Registry"@
}

/// `after` is `before` with the listing `versions` taken in: the tags, the
/// latest release and its time, the time of the tag `latest`, the verdict and,
/// where the listing holds no tag, a note saying so. What is installed locally
/// is not touched.
pub open spec fn listing_applied(
    before: UpdateInfo,
    versions: Seq<PackageVersion>,
    after: UpdateInfo,
) -> bool {
    let tags = texts(after.available_tags@);
    &&& strictly_sorted(tags)
    &&& tags.to_set() == observed_tags(versions)
    &&& if no_release(tags) {
        &&& after.latest_release_tag == before.latest_release_tag
        &&& after.latest_release_published == before.latest_release_published
    } else {
        exists|i: int|
            {
                &&& #[trigger] is_latest_release(tags, i)
                &&& opt_text(after.latest_release_tag) == Some(tags[i])
                &&& after.latest_release_published == first_stamp(versions, tags[i])
            }
    }
    &&& after.remote_latest_updated == first_stamp(versions, "latest"@)
    &&& after.has_update == (if before.is_self {
        before.has_update
    } else {
        update_due(after.remote_latest_updated, before.local_created)
    })
    &&& opt_text(after.status_note) == (if tags.len() == 0 {
        Some(noted(opt_text(before.status_note), no_tags_note()))
    } else {
        opt_text(before.status_note)
    })
    &&& after.display_name == before.display_name
    &&& after.image == before.image
    &&& after.current_tag == before.current_tag
    &&& after.local_created == before.local_created
    &&& after.is_self == before.is_self
    &&& after.download_url == before.download_url
    &&& after.checksum_url == before.checksum_url
}

/// Takes the registry's listing into the entry.
pub fn apply_remote_versions(info: &mut UpdateInfo, versions: &Vec<PackageVersion>)
    ensures
        listing_applied(*old(info), versions@, *final(info)),
        !old(info).is_self ==> final(info).wf(),
{
    let tags = collect_tags(versions);
    match latest_release_index(&tags) {
        Some(i) => {
            let latest = tags[i].clone();
            info.latest_release_published = first_timestamp(versions, latest.as_str());
            info.latest_release_tag = Some(latest);
        },
        None => {},
    }
    let none_listed = tags.len() == 0;
    info.available_tags = tags;
    info.remote_latest_updated = first_timestamp(versions, "latest");
    info.recompute_status();
    if none_listed {
        info.append_status("No tags found for this image yet");
    }
}

/// What asking the registry for the versions of a package came to.
pub enum Listing {
    /// The registry listed these versions.
    Found(Vec<PackageVersion>),
    /// The registry knows the package neither under the organisation nor under the user.
    NotFound,
}

/// What inspecting the local image came to.
pub enum LocalInspection {
    /// The inspection ran; the image has this creation time, or none could be read.
    Created(Option<Timestamp>),
    /// The inspection could not be run; the text says why.
    Failed(String),
}

/// The status note of an entry after the local inspection is taken in.
pub open spec fn note_after_inspection(
    previous: Option<Seq<char>>,
    local: LocalInspection,
) -> Option<Seq<char>> {
    match local {
        LocalInspection::Created(_) => previous,
        LocalInspection::Failed(why) => Some(
            noted(previous, "Failed to inspect local image: "@ + why@),
        ),
    }
}

/// The creation time that the local inspection gives; none where it failed.
pub open spec fn inspected_time(local: LocalInspection) -> Option<Timestamp> {
    match local {
        LocalInspection::Created(t) => t,
        LocalInspection::Failed(_) => None,
    }
}

/// `info` is the entry for the image `config`, given the registry's answer and
/// the outcome of the local inspection.
pub open spec fn assembled(
    config: ServiceConfig,
    listing: Listing,
    local: LocalInspection,
    info: UpdateInfo,
) -> bool {
    &&& info.wf()
    &&& !info.is_self
    &&& info.display_name@ == config.display_name@
    &&& info.image@ == config.image@
    &&& info.current_tag@ == config.current_tag@
    &&& info.download_url is None
    &&& info.checksum_url is None
    &&& info.local_created == inspected_time(local)
    &&& info.has_update == update_due(info.remote_latest_updated, info.local_created)
    &&& match listing {
        Listing::NotFound => {
            &&& info.available_tags@.len() == 0
            &&& info.latest_release_tag is None
            &&& info.latest_release_published is None
            &&& info.remote_latest_updated is None
            &&& opt_text(info.status_note) == note_after_inspection(Some(not_found_note()), local)
        },
        Listing::Found(versions) => {
            let tags = texts(info.available_tags@);
            &&& strictly_sorted(tags)
            &&& tags.to_set() == observed_tags(versions@)
            &&& if no_release(tags) {
                info.latest_release_tag is None && info.latest_release_published is None
            } else {
                exists|i: int|
                    {
                        &&& #[trigger] is_latest_release(tags, i)
                        &&& opt_text(info.latest_release_tag) == Some(tags[i])
                        &&& info.latest_release_published == first_stamp(versions@, tags[i])
                    }
            }
            &&& info.remote_latest_updated == first_stamp(versions@, "latest"@)
            &&& opt_text(info.status_note) == note_after_inspection(
                if tags.len() == 0 {
                    Some(no_tags_note())
                } else {
                    None
                },
                local,
            )
        },
    }
}

/// Assembles the entry for one tracked image from the registry's answer and
/// the outcome of the local inspection. An image that the registry does not
/// know, or that cannot be inspected, still gets its entry, with a note; with
/// no local creation time an update is reported as due whenever the registry
/// gives a time for the tag `latest`.
pub fn resolve_service(config: &ServiceConfig, listing: &Listing, local: &LocalInspection) -> (info:
    UpdateInfo)
    ensures
        assembled(*config, *listing, *local, info),
{
    let mut info = UpdateInfo::new(config);
    match listing {
        Listing::Found(versions) => {
            apply_remote_versions(&mut info, versions);
        },
        Listing::NotFound => {
            info.append_status("Package not found in GitHub Container Registry");
        },
    }
    match local {
        LocalInspection::Created(created) => {
            info.apply_local_created(*created);
        },
        LocalInspection::Failed(why) => {
            let note = join2("Failed to inspect local image: ", why.as_str());
            info.append_status(note.as_str());
            info.apply_local_created(None);
        },
    }
    info
}

/// Assembles the entries of all tracked images, in the order of `services`,
/// followed by the entry for the installer itself where there is one.
pub fn collect_update_infos(
    services: &Vec<ServiceConfig>,
    listings: &Vec<Listing>,
    locals: &Vec<LocalInspection>,
    installer: Option<UpdateInfo>,
) -> (infos: Vec<UpdateInfo>)
    requires
        listings@.len() == services@.len(),
        locals@.len() == services@.len(),
    ensures
        infos@.len() == services@.len() + (if installer is Some {
            1int
        } else {
            0int
        }),
        forall|i: int|
            0 <= i < services@.len() ==> assembled(
                services@[i],
                listings@[i],
                locals@[i],
                #[trigger] infos@[i],
            ),
        installer matches Some(entry) ==> infos@[services@.len() as int] == entry,
{
    let mut infos: Vec<UpdateInfo> = Vec::new();
    let mut i: usize = 0;
    while i < services.len()
        invariant
            i <= services.len(),
            listings@.len() == services@.len(),
            locals@.len() == services@.len(),
            infos@.len() == i,
            forall|k: int|
                0 <= k < i ==> assembled(services@[k], listings@[k], locals@[k], #[trigger] infos@[k]),
        decreases services.len() - i,
    {
        let info = resolve_service(&services[i], &listings[i], &locals[i]);
        infos.push(info);
        i += 1;
    }
    match installer {
        Some(entry) => {
            infos.push(entry);
        },
        None => {},
    }
    infos
}

/// Seconds after which a request for a listing or for the latest release is given up.
pub const LISTING_TIMEOUT_SECONDS: u64 = 20;

/// Under which owner kind the registry is asked for a package.
#[derive(Clone, Copy, Debug, PartialEq, Eq, Structural)]
pub enum Scope {
    /// The owner is an organisation: asked first.
    Organization,
    /// The owner is a user: asked when the organisation path is not found.
    User,
}

/// The path segment that stands for the scope.
pub open spec fn scope_segment(scope: Scope) -> Seq<char> {
    match scope {
        Scope::Organization => "orgs"@,
        Scope::User => "users"@,
    }
}

/// The address of the version listing of `package` under `owner`.
pub fn versions_url(scope: Scope, owner: &str, package: &str) -> (url: String)
    ensures
        url@ == "https://api.github.com/"@ + scope_segment(scope) + "/"@ + owner@
            + "/packages/container/"@ + package@ + "/versions?per_page=100"@,
{
    let mut url = String::from_str("https://api.github.com/");
    match scope {
        Scope::Organization => url.append("orgs"),
        Scope::User => url.append("users"),
    }
    url.append("/");
    url.append(owner);
    url.append("/packages/container/");
    url.append(package);
    url.append("/versions?per_page=100");
    url
}

/// What to do with the registry's answer to a listing request.
pub enum ListingStep {
    /// The answer holds the listing: read it.
    Read,
    /// Not found under this scope: ask again under the given one.
    Retry(Scope),
    /// Not found under any scope: the package gets an entry with a note.
    NotFound,
    /// The whole resolution fails with this message.
    Fail(String),
}

/// The message for an answer that demands authentication.
pub open spec fn auth_failure(package: Seq<char>, body: Seq<char>) -> Seq<char> {
    "GitHub API request for package "@ + package + " requires authentication: "@ + body
}

/// The message for a server error.
pub open spec fn server_failure(package: Seq<char>, status: Seq<char>, body: Seq<char>) -> Seq<
    char,
> {
    "GitHub API error "@ + status + " for package "@ + package + ": "@ + body
}

/// The message for any other answer that is no success.
pub open spec fn other_failure(package: Seq<char>, status: Seq<char>, body: Seq<char>) -> Seq<
    char,
> {
    "Failed to fetch package "@ + package + ": "@ + status + " "@ + body
}

/// What the answer with status `code` to a listing request under `scope` calls for.
pub open spec fn listing_step(
    scope: Scope,
    package: Seq<char>,
    code: u16,
    status: Seq<char>,
    body: Seq<char>,
) -> (ListingStepView) {
    if code == 200 {
        ListingStepView::Read
    } else if code == 404 {
        match scope {
            Scope::Organization => ListingStepView::Retry(Scope::User),
            Scope::User => ListingStepView::NotFound,
        }
    } else if code == 401 || code == 403 {
        ListingStepView::Fail(auth_failure(package, body))
    } else if 500 <= code < 600 {
        ListingStepView::Fail(server_failure(package, status, body))
    } else {
        ListingStepView::Fail(other_failure(package, status, body))
    }
}

/// A [`ListingStep`] with its message as plain text.
pub enum ListingStepView {
    Read,
    Retry(Scope),
    NotFound,
    Fail(Seq<char>),
}

impl View for ListingStep {
    type V = ListingStepView;

    open spec fn view(&self) -> ListingStepView {
        match self {
            ListingStep::Read => ListingStepView::Read,
            ListingStep::Retry(scope) => ListingStepView::Retry(*scope),
            ListingStep::NotFound => ListingStepView::NotFound,
            ListingStep::Fail(message) => ListingStepView::Fail(message@),
        }
    }
}

/// Decides what the registry's answer to a listing request calls for. `code`
/// is the numeric status, `status` the status as it is shown to the operator
/// and `body` the text of the answer.
pub fn after_listing_response(scope: Scope, package: &str, code: u16, status: &str, body: &str) -> (step:
    ListingStep)
    ensures
        step@ == listing_step(scope, package@, code, status@, body@),
{
    if code == 200 {
        ListingStep::Read
    } else if code == 404 {
        match scope {
            Scope::Organization => ListingStep::Retry(Scope::User),
            Scope::User => ListingStep::NotFound,
        }
    } else if code == 401 || code == 403 {
        let mut message = String::from_str("GitHub API request for package ");
        message.append(package);
        message.append(" requires authentication: ");
        message.append(body);
        ListingStep::Fail(message)
    } else if 500 <= code && code < 600 {
        let mut message = String::from_str("GitHub API error ");
        message.append(status);
        message.append(" for package ");
        message.append(package);
        message.append(": ");
        message.append(body);
        ListingStep::Fail(message)
    } else {
        let mut message = String::from_str("Failed to fetch package ");
        message.append(package);
        message.append(": ");
        message.append(status);
        message.append(" ");
        message.append(body);
        ListingStep::Fail(message)
    }
}

/// The instant that `chrono::DateTime::parse_from_rfc3339` reads from `text`,
/// as seconds since the Unix epoch and nanoseconds past them, if it accepts the text.
pub uninterp spec fn rfc3339_instant(text: Seq<char>) -> Option<Timestamp>;

/// `chrono::DateTime::parse_from_rfc3339`, with the instant taken out by
/// `timestamp` and `timestamp_subsec_nanos`. The grammar of RFC 3339 is not
/// restated: the result is given the name [`rfc3339_instant`].
#[verifier::external_body]
fn parse_rfc3339(text: &str) -> (r: Option<Timestamp>)
    ensures
        r == rfc3339_instant(text@),
{
    match chrono::DateTime::parse_from_rfc3339(text) {
        Ok(at) => Some(Timestamp { secs: at.timestamp(), nanos: at.timestamp_subsec_nanos() }),
        Err(_) => None,
    }
}

/// The arguments of the command that inspects the local image `image:tag`
/// and prints nothing but its creation time.
pub fn inspect_arguments(image: &str, tag: &str) -> (arguments: Vec<String>)
    ensures
        arguments@.len() == 5,
        arguments@[0]@ == "image"@,
        arguments@[1]@ == "inspect"@,
        arguments@[2]@ == image@ + ":"@ + tag@,
        arguments@[3]@ == "--format"@,
        arguments@[4]@ == "{{.Created}}"@,
{
    let mut arguments: Vec<String> = Vec::new();
    arguments.push(String::from_str("image"));
    arguments.push(String::from_str("inspect"));
    arguments.push(join3(image, ":", tag));
    arguments.push(String::from_str("--format"));
    arguments.push(String::from_str("{{.Created}}"));
    arguments
}

/// The creation time that the output of an image inspection gives.
pub open spec fn created_from_output(success: bool, output: Seq<char>) -> Option<Timestamp> {
    if !success || trimmed(output).len() == 0 {
        None
    } else {
        rfc3339_instant(trimmed(output))
    }
}

/// Reads the creation time of the local image from the outcome of its
/// inspection: `success` says whether the inspection exited with status zero,
/// `output` is what it printed. An image that is absent, an empty answer and
/// an answer that is no RFC 3339 time all give no creation time.
pub fn get_local_image_created(success: bool, output: &str) -> (created: Option<Timestamp>)
    ensures
        created == created_from_output(success, output@),
{
    if !success || blank(output) {
        return None;
    }
    let value = trim(output);
    parse_rfc3339(value.as_str())
}

} // verus!

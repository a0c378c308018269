//! Interpretation of the output of the build and deploy commands.
//!
//! Each raw line is classified by the first keyword of a fixed, ordered
//! vocabulary that its lowercase form contains. The classification decides the
//! line shown in the transcript and how the progress estimate moves.
//!
//! Progress is kept in hundredths of a percent (`10_000` is 100 %), rounded
//! down. The build phase owns the first half of the scale, the deploy phase the
//! second half.

use vstd::prelude::*;
use vstd::string::*;
use crate::text::{
    blank, decimal_digits, find, has_prefix, is_blank, join2, join3, lowercase, matches_at, occurs_in,
    push_decimal, to_chars, to_lowercase,
};
use crate::updates::opt_text;

verus! {

/// Progress shown before the first build step is reported: 5 %.
pub const BUILD_BASE: u64 = 500;

/// Share of the scale that the build steps fill: 45 %.
pub const BUILD_SPAN: u64 = 4500;

/// Progress at which the build phase ends and the deploy phase starts: 50 %.
pub const DEPLOY_BASE: u64 = 5000;

/// Share of the scale that the started services fill: 50 %.
pub const DEPLOY_SPAN: u64 = 5000;

/// Progress of a finished installation: 100 %.
pub const COMPLETE: u64 = 10000;

/// What a line of output was recognised as.
#[derive(Clone, Copy, Debug, PartialEq, Eq, Structural)]
pub enum LineKind {
    /// An image pull begins ("pulling").
    PullStart,
    /// An image pull is complete ("pulled").
    PullDone,
    /// A container is being created ("creating").
    Creating,
    /// A container was created ("created").
    Created,
    /// A service is starting ("starting").
    Starting,
    /// A service has started ("started").
    Started,
    /// A service reports that it runs ("running").
    Running,
    /// The line reports a failure ("error" or "failed").
    Failure,
    /// Any other line that is not blank.
    Info,
    /// A line of white space only.
    Blank,
}

/// The two halves of an installation.
#[derive(Clone, Copy, Debug, PartialEq, Eq, Structural)]
pub enum Phase {
    /// Images are being built.
    Build,
    /// Services are being started.
    Deploy,
    /// Both commands have succeeded.
    Done,
}

/// The classification of `line`: the first keyword, in the order below, that
/// the lowercase form of the line contains decides.
pub open spec fn line_kind(line: Seq<char>) -> LineKind {
    let lower = lowercase(line);
    if occurs_in(lower, "pulling"@) {
        LineKind::PullStart
    } else if occurs_in(lower, "pulled"@) {
        LineKind::PullDone
    } else if occurs_in(lower, "creating"@) {
        LineKind::Creating
    } else if occurs_in(lower, "created"@) {
        LineKind::Created
    } else if occurs_in(lower, "starting"@) {
        LineKind::Starting
    } else if occurs_in(lower, "started"@) {
        LineKind::Started
    } else if occurs_in(lower, "running"@) {
        LineKind::Running
    } else if occurs_in(lower, "error"@) || occurs_in(lower, "failed"@) {
        LineKind::Failure
    } else if !is_blank(line) {
        LineKind::Info
    } else {
        LineKind::Blank
    }
}

/// The first known service, in the fixed order of the service list, whose name
/// the lowercase form of `line` contains.
pub open spec fn service_in(line: Seq<char>) -> Option<Seq<char>> {
    let lower = lowercase(line);
    if occurs_in(lower, "analytics-service"@) {
        Some("analytics-service"@)
    } else if occurs_in(lower, "qdrant"@) {
        Some("qdrant"@)
    } else if occurs_in(lower, "northwind-db"@) {
        Some("northwind-db"@)
    } else if occurs_in(lower, "analytics-ui"@) {
        Some("analytics-ui"@)
    } else {
        None
    }
}

/// Whether `word` stands somewhere in `hay`.
fn mentions(hay: &Vec<char>, word: &str) -> (r: bool)
    ensures
        r == occurs_in(hay@, word@),
{
    let w = to_chars(word);
    find(hay, &w).is_some()
}

/// Classifies one raw line of output.
pub fn classify(line: &str) -> (kind: LineKind)
    ensures
        kind == line_kind(line@),
{
    let lowered = to_lowercase(line);
    let lower = to_chars(lowered.as_str());
    if mentions(&lower, "pulling") {
        LineKind::PullStart
    } else if mentions(&lower, "pulled") {
        LineKind::PullDone
    } else if mentions(&lower, "creating") {
        LineKind::Creating
    } else if mentions(&lower, "created") {
        LineKind::Created
    } else if mentions(&lower, "starting") {
        LineKind::Starting
    } else if mentions(&lower, "started") {
        LineKind::Started
    } else if mentions(&lower, "running") {
        LineKind::Running
    } else if mentions(&lower, "error") || mentions(&lower, "failed") {
        LineKind::Failure
    } else if !blank(line) {
        LineKind::Info
    } else {
        LineKind::Blank
    }
}

/// The known service that `line` names, if it names one.
pub fn extract_service_name(line: &str) -> (service: Option<String>)
    ensures
        service is Some <==> service_in(line@) is Some,
        service matches Some(name) ==> service_in(line@) == Some(name@),
{
    let lowered = to_lowercase(line);
    let lower = to_chars(lowered.as_str());
    if mentions(&lower, "analytics-service") {
        Some(String::from_str("analytics-service"))
    } else if mentions(&lower, "qdrant") {
        Some(String::from_str("qdrant"))
    } else if mentions(&lower, "northwind-db") {
        Some(String::from_str("northwind-db"))
    } else if mentions(&lower, "analytics-ui") {
        Some(String::from_str("analytics-ui"))
    } else {
        None
    }
}

/// Whether `c` is one of the ten ASCII digits.
pub open spec fn is_digit(c: char) -> bool {
    '0' <= c && c <= '9'
}

/// Where the run of digits that starts at `from` ends (`from` itself if no digit stands there).
pub open spec fn digit_end(s: Seq<char>, from: int) -> int
    decreases s.len() - from,
{
    if 0 <= from < s.len() && is_digit(s[from]) {
        digit_end(s, from + 1)
    } else {
        from
    }
}

/// The number that a run of digits writes in decimal notation.
pub open spec fn digits_value(s: Seq<char>) -> nat
    decreases s.len(),
{
    if s.len() == 0 {
        0
    } else {
        digits_value(s.drop_last()) * 10 + ((s.last() as u32) - 48) as nat
    }
}

/// The step report `Step X/Y` that `line` begins with, as `(X, Y)`: the literal
/// prefix `Step `, a run of digits, a slash and a second run of digits. What
/// follows the second number is not looked at.
pub open spec fn step_of(line: Seq<char>) -> Option<(nat, nat)> {
    if !has_prefix(line, "Step "@) {
        None
    } else {
        let a = "Step "@.len() as int;
        let b = digit_end(line, a);
        let c = digit_end(line, b + 1);
        if b == a || b >= line.len() || line[b] != '/' || c == b + 1 {
            None
        } else {
            Some((digits_value(line.subrange(a, b)), digits_value(line.subrange(b + 1, c))))
        }
    }
}

/// Progress that the report "step `x` of `y`" stands for: `5 % + x/y * 45 %`,
/// never more than 50 %.
pub open spec fn step_progress(x: nat, y: nat) -> nat
    recommends
        y > 0,
{
    let raw = BUILD_BASE + (x * BUILD_SPAN) / (y as int);
    if raw > DEPLOY_BASE {
        DEPLOY_BASE as nat
    } else {
        raw as nat
    }
}

/// Progress after a step report arrives while progress stands at `current`:
/// the report can raise the progress, never lower it. A report with a zero
/// total says nothing and is ignored.
pub open spec fn after_step(current: nat, x: nat, y: nat) -> nat {
    if y == 0 || step_progress(x, y) <= current {
        current
    } else {
        step_progress(x, y)
    }
}

/// Progress once `completed` of `total` services have started:
/// `50 % + completed/total * 50 %`.
pub open spec fn deploy_progress(completed: nat, total: nat) -> nat
    recommends
        total > 0,
{
    (DEPLOY_BASE + (completed * DEPLOY_SPAN) / (total as int)) as nat
}

/// Reads the run of digits of `chars` that starts at `from`. Returns where the
/// run ends and the number it writes, or no number if that does not fit in 64 bits.
fn scan_number(chars: &Vec<char>, from: usize) -> (r: (usize, Option<u64>))
    requires
        from <= chars.len(),
    ensures
        r.0 == digit_end(chars@, from as int),
        from <= r.0 <= chars.len(),
        r.1 matches Some(n) ==> n == digits_value(chars@.subrange(from as int, r.0 as int)),
        r.1 is None ==> digits_value(chars@.subrange(from as int, r.0 as int)) > u64::MAX,
{
    let mut i: usize = from;
    let mut value: Option<u64> = Some(0);
    while i < chars.len() && '0' <= chars[i] && chars[i] <= '9'
        invariant
            from <= i <= chars.len(),
            digit_end(chars@, from as int) == digit_end(chars@, i as int),
            value matches Some(n) ==> n == digits_value(chars@.subrange(from as int, i as int)),
            value is None ==> digits_value(chars@.subrange(from as int, i as int)) > u64::MAX,
        decreases chars.len() - i,
    {
        let d: u64 = (chars[i] as u32 - 48) as u64;
        proof {
            let before = chars@.subrange(from as int, i as int);
            let after = chars@.subrange(from as int, i + 1);
            assert(after.drop_last() =~= before);
        }
        value = match value {
            Some(n) => {
                if n > (u64::MAX - d) / 10 {
                    None
                } else {
                    Some(n * 10 + d)
                }
            },
            None => None,
        };
        i += 1;
    }
    (i, value)
}

/// Reads the step report that `line` begins with, if it begins with one.
/// A report whose numbers do not fit in 64 bits is not read.
pub fn parse_step(line: &str) -> (step: Option<(u64, u64)>)
    ensures
        step matches Some((x, y)) ==> step_of(line@) == Some((x as nat, y as nat)),
        step is None ==> (step_of(line@) matches Some((x, y)) ==> x > u64::MAX || y > u64::MAX),
{
    let chars = to_chars(line);
    let prefix = to_chars("Step ");
    if !matches_at(&chars, &prefix, 0) {
        return None;
    }
    let a: usize = prefix.len();
    let (b, x) = scan_number(&chars, a);
    if b == a || b >= chars.len() || chars[b] != '/' {
        return None;
    }
    let (c, y) = scan_number(&chars, b + 1);
    if c == b + 1 {
        return None;
    }
    match (x, y) {
        (Some(x), Some(y)) => Some((x, y)),
        _ => None,
    }
}

/// Progress for the report "step `x` of `y`".
pub fn progress_of_step(x: u64, y: u64) -> (p: u64)
    requires
        y > 0,
    ensures
        p == step_progress(x as nat, y as nat),
        BUILD_BASE <= p <= DEPLOY_BASE,
{
    if x >= y {
        assert((x * BUILD_SPAN) / (y as int) >= BUILD_SPAN) by (nonlinear_arith)
            requires
                x >= y,
                y > 0,
                BUILD_SPAN == 4500,
        ;
        DEPLOY_BASE
    } else {
        assert(x * BUILD_SPAN <= 0xFFFF_FFFF_FFFF_FFFF * 4500) by (nonlinear_arith)
            requires
                x <= 0xFFFF_FFFF_FFFF_FFFF,
                BUILD_SPAN == 4500,
        ;
        let scaled: u128 = (x as u128) * (BUILD_SPAN as u128);
        let share: u128 = scaled / (y as u128);
        assert(0 <= (x * BUILD_SPAN) / (y as int) < BUILD_SPAN) by (nonlinear_arith)
            requires
                0 <= x < y,
                BUILD_SPAN == 4500,
        ;
        BUILD_BASE + (share as u64)
    }
}

/// Progress once `completed` of `total` services have started.
pub fn progress_of_deploy(completed: u32, total: u32) -> (p: u64)
    requires
        total > 0,
    ensures
        p == deploy_progress(completed as nat, total as nat),
        p >= DEPLOY_BASE,
{
    let scaled: u64 = (completed as u64) * DEPLOY_SPAN;
    assert((completed * DEPLOY_SPAN) / (total as int) <= completed * DEPLOY_SPAN) by (nonlinear_arith)
        requires
            total > 0,
            completed >= 0,
            DEPLOY_SPAN == 5000,
    ;
    DEPLOY_BASE + scaled / (total as u64)
}

/// A step report never lowers the progress, whatever it says and whenever it arrives.
pub proof fn lemma_step_never_lowers(current: nat, x: nat, y: nat)
    ensures
        after_step(current, x, y) >= current,
        y > 0 ==> after_step(current, x, y) >= step_progress(x, y),
{
}

/// Step reports that arrive out of order cannot take back what an earlier
/// report has reached: after "step `x1` of `y1`" and then "step `x2` of `y2`",
/// progress is at least what the first report stands for.
pub proof fn lemma_stale_step_keeps_progress(current: nat, x1: nat, y1: nat, x2: nat, y2: nat)
    requires
        y1 > 0,
    ensures
        after_step(after_step(current, x1, y1), x2, y2) >= step_progress(x1, y1),
        after_step(after_step(current, x1, y1), x2, y2) >= after_step(current, x1, y1),
{
}

/// More started services never mean less progress.
pub proof fn lemma_deploy_progress_grows(c1: nat, c2: nat, total: nat)
    requires
        c1 <= c2,
        total > 0,
    ensures
        deploy_progress(c1, total) <= deploy_progress(c2, total),
        deploy_progress(c1, total) >= DEPLOY_BASE,
{
    assert((c1 * DEPLOY_SPAN) / (total as int) <= (c2 * DEPLOY_SPAN) / (total as int))
        by (nonlinear_arith)
        requires
            c1 <= c2,
            total > 0,
            DEPLOY_SPAN == 5000,
    ;
    assert((c1 * DEPLOY_SPAN) / (total as int) >= 0) by (nonlinear_arith)
        requires
            c1 >= 0,
            total > 0,
            DEPLOY_SPAN == 5000,
    ;
}

/// The step report of `line`, where its two numbers fit in 64 bits.
pub open spec fn step_read(line: Seq<char>) -> Option<(nat, nat)> {
    match step_of(line) {
        Some((x, y)) => if x <= u64::MAX && y <= u64::MAX {
            Some((x, y))
        } else {
            None
        },
        None => None,
    }
}

/// How far the installation has come.
pub struct InstallProgress {
    pub phase: Phase,
    /// Progress in hundredths of a percent.
    pub progress: u64,
    /// The service that the output last spoke of.
    pub current_service: String,
    pub total_services: u32,
    pub completed_services: u32,
}

/// Number of services that the stack starts.
pub const SERVICE_COUNT: u32 = 4;

/// The count of started services after one more has started.
pub open spec fn one_more(completed: u32) -> u32 {
    if completed < u32::MAX {
        (completed + 1) as u32
    } else {
        completed
    }
}

/// The line shown for a raw line of kind `kind`, given the service that the
/// line names and the count of started services after the line.
pub open spec fn display_line(
    kind: LineKind,
    line: Seq<char>,
    completed: u32,
    total: u32,
) -> Option<Seq<char>> {
    match kind {
        LineKind::PullStart => match service_in(line) {
            Some(service) => Some("⬇️  Pulling image for "@ + service + "..."@),
            None => None,
        },
        LineKind::PullDone => Some("✓ Image pulled"@),
        LineKind::Creating => match service_in(line) {
            Some(service) => Some("🔨 Creating container "@ + service + "..."@),
            None => None,
        },
        LineKind::Created => Some("✓ Container created"@),
        LineKind::Starting => match service_in(line) {
            Some(service) => Some("▶️  Starting service "@ + service + "..."@),
            None => None,
        },
        LineKind::Started => Some(
            "✅ Service started ("@ + decimal_digits(completed as nat) + "/"@ + decimal_digits(
                total as nat,
            ) + ")"@,
        ),
        LineKind::Running => Some("🟢 Service is running"@),
        LineKind::Failure => Some("❌ "@ + line),
        LineKind::Info => Some("ℹ️  "@ + line),
        LineKind::Blank => None,
    }
}

/// Whether a line of this kind names the service that is being worked on.
pub open spec fn names_service(kind: LineKind) -> bool {
    kind == LineKind::PullStart || kind == LineKind::Creating || kind == LineKind::Starting
}

impl InstallProgress {
    /// There is at least one service to start, and until the installation is
    /// done the progress shown is never ahead of what the started services
    /// stand for.
    pub open spec fn wf(&self) -> bool {
        &&& self.total_services > 0
        &&& self.phase != Phase::Done ==> self.progress <= deploy_progress(
            self.completed_services as nat,
            self.total_services as nat,
        )
    }

    /// Whether the record is sound; see [`InstallProgress::wf`].
    pub fn is_sound(&self) -> (r: bool)
        ensures
            r == self.wf(),
    {
        if self.total_services == 0 {
            return false;
        }
        match self.phase {
            Phase::Done => true,
            _ => self.progress <= progress_of_deploy(self.completed_services, self.total_services),
        }
    }

    /// An installation that has not begun: the build phase, no progress, no service started.
    pub fn new() -> (p: InstallProgress)
        ensures
            p.wf(),
            p.phase == Phase::Build,
            p.progress == 0,
            p.current_service@.len() == 0,
            p.total_services == SERVICE_COUNT,
            p.completed_services == 0,
    {
        let p = InstallProgress {
            phase: Phase::Build,
            progress: 0,
            current_service: String::new(),
            total_services: SERVICE_COUNT,
            completed_services: 0,
        };
        proof {
            lemma_deploy_progress_grows(0, 0, SERVICE_COUNT as nat);
        }
        p
    }

    /// The progress after `line`, but for what a started service adds: in the
    /// build phase a step report on the line may raise it.
    pub open spec fn progress_after_step(&self, line: Seq<char>) -> nat {
        match step_read(line) {
            Some((x, y)) => if self.phase == Phase::Build {
                after_step(self.progress as nat, x, y)
            } else {
                self.progress as nat
            },
            None => self.progress as nat,
        }
    }

    /// `after` is what `self` becomes when it takes in `line`.
    pub open spec fn observed(&self, line: Seq<char>, after: InstallProgress) -> bool {
        let kind = line_kind(line);
        &&& after.phase == self.phase
        &&& after.total_services == self.total_services
        &&& after.completed_services == (if kind == LineKind::Started {
            one_more(self.completed_services)
        } else {
            self.completed_services
        })
        &&& after.progress == (if kind == LineKind::Started && self.phase != Phase::Done {
            deploy_progress(after.completed_services as nat, self.total_services as nat)
        } else {
            self.progress_after_step(line)
        })
        &&& after.current_service@ == (if names_service(kind) && service_in(line) is Some {
            service_in(line)->0
        } else {
            self.current_service@
        })
    }

    /// Takes in one raw line of output: moves the progress, notes the service
    /// spoken of, and returns the line to show, if one is to be shown.
    ///
    /// Progress never goes back. In the build phase a step report raises it
    /// to what the report stands for, unless it is there already or beyond. A
    /// started service sets it to the share of services started.
    pub fn observe(&mut self, line: &str) -> (shown: Option<String>)
        requires
            old(self).wf(),
        ensures
            final(self).wf(),
            old(self).observed(line@, *final(self)),
            final(self).progress >= old(self).progress,
            opt_text(shown) == display_line(
                line_kind(line@),
                line@,
                final(self).completed_services,
                final(self).total_services,
            ),
    {
        proof {
            lemma_deploy_progress_grows(
                self.completed_services as nat,
                one_more(self.completed_services) as nat,
                self.total_services as nat,
            );
        }
        match self.phase {
            Phase::Build => {
                match parse_step(line) {
                    Some((x, y)) => {
                        if y > 0 {
                            let reported = progress_of_step(x, y);
                            if reported > self.progress {
                                self.progress = reported;
                            }
                        }
                    },
                    None => {},
                }
            },
            _ => {},
        }
        match classify(line) {
            LineKind::PullStart => match extract_service_name(line) {
                Some(service) => {
                    let shown = join3("⬇️  Pulling image for ", service.as_str(), "...");
                    self.current_service = service;
                    Some(shown)
                },
                None => None,
            },
            LineKind::PullDone => Some(String::from_str("✓ Image pulled")),
            LineKind::Creating => match extract_service_name(line) {
                Some(service) => {
                    let shown = join3("🔨 Creating container ", service.as_str(), "...");
                    self.current_service = service;
                    Some(shown)
                },
                None => None,
            },
            LineKind::Created => Some(String::from_str("✓ Container created")),
            LineKind::Starting => match extract_service_name(line) {
                Some(service) => {
                    let shown = join3("▶️  Starting service ", service.as_str(), "...");
                    self.current_service = service;
                    Some(shown)
                },
                None => None,
            },
            LineKind::Started => {
                if self.completed_services < u32::MAX {
                    self.completed_services = self.completed_services + 1;
                }
                match self.phase {
                    Phase::Done => {},
                    _ => {
                        self.progress = progress_of_deploy(
                            self.completed_services,
                            self.total_services,
                        );
                    },
                }
                let mut shown = String::from_str("✅ Service started (");
                push_decimal(&mut shown, self.completed_services as u64);
                shown.append("/");
                push_decimal(&mut shown, self.total_services as u64);
                shown.append(")");
                Some(shown)
            },
            LineKind::Running => Some(String::from_str("🟢 Service is running")),
            LineKind::Failure => Some(join2("❌ ", line)),
            LineKind::Info => Some(join2("ℹ️  ", line)),
            LineKind::Blank => None,
        }
    }

    /// Ends the build phase: progress stands at one half, and the deploy phase begins.
    pub fn begin_deploy(&mut self)
        requires
            old(self).wf(),
        ensures
            final(self).wf(),
            final(self).phase == Phase::Deploy,
            final(self).progress == DEPLOY_BASE,
            final(self).current_service == old(self).current_service,
            final(self).total_services == old(self).total_services,
            final(self).completed_services == old(self).completed_services,
    {
        proof {
            lemma_deploy_progress_grows(
                0,
                self.completed_services as nat,
                self.total_services as nat,
            );
        }
        self.phase = Phase::Deploy;
        self.progress = DEPLOY_BASE;
    }

    /// Ends the installation: progress stands at the full scale.
    pub fn finish(&mut self)
        requires
            old(self).wf(),
        ensures
            final(self).wf(),
            final(self).phase == Phase::Done,
            final(self).progress == COMPLETE,
            final(self).current_service == old(self).current_service,
            final(self).total_services == old(self).total_services,
            final(self).completed_services == old(self).completed_services,
    {
        self.phase = Phase::Done;
        self.progress = COMPLETE;
    }
}

/// Within the build phase no line lowers the progress, in whatever order step
/// reports arrive: a line taken in after another leaves progress at least
/// where the first one put it.
pub proof fn lemma_build_progress_is_monotonic(
    start: InstallProgress,
    first: Seq<char>,
    middle: InstallProgress,
    second: Seq<char>,
    end: InstallProgress,
)
    requires
        start.wf(),
        start.phase == Phase::Build,
        start.observed(first, middle),
        middle.observed(second, end),
    ensures
        middle.phase == Phase::Build,
        end.phase == Phase::Build,
        start.progress <= middle.progress <= end.progress,
        step_read(first) matches Some(step) ==> (step.1 > 0 ==> end.progress >= step_progress(
            step.0,
            step.1,
        )),
{
    lemma_deploy_progress_grows(
        start.completed_services as nat,
        middle.completed_services as nat,
        start.total_services as nat,
    );
    lemma_deploy_progress_grows(
        middle.completed_services as nat,
        end.completed_services as nat,
        start.total_services as nat,
    );
    lemma_deploy_progress_grows(0, middle.completed_services as nat, start.total_services as nat);
    lemma_deploy_progress_grows(0, end.completed_services as nat, start.total_services as nat);
    lemma_deploy_progress_grows(0, start.completed_services as nat, start.total_services as nat);
}

} // verus!

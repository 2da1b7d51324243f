//! Release checking: version comparison and the pacing of update checks
//! against the GitHub rate limit.
use vstd::prelude::*;
use crate::text::{
    chars_of, parse_bounded, parse_unsigned, split, split_on, strip_leading, trim_start_char,
    views,
};

verus! {

/// A published release.
#[derive(Debug)]
pub struct GitHubRelease {
    pub tag_name: String,
    pub html_url: String,
}

/// The rate-limit window that the GitHub API reports.
#[derive(Debug)]
pub struct RateLimit {
    pub remaining: u32,
    pub reset: u64,
}

impl Clone for RateLimit {
    fn clone(&self) -> (r: Self)
        ensures
            r == *self,
    {
        RateLimit { remaining: self.remaining, reset: self.reset }
    }
}

// ---------------------------------------------------------------------------
// Versions
// ---------------------------------------------------------------------------

/// A dotted component read as a number, 0 when it is not one.
pub open spec fn component_value(p: Seq<char>) -> u32 {
    match parse_unsigned(p, u32::MAX as nat) {
        Some(v) => v as u32,
        None => 0,
    }
}

/// The numeric components of a version tag: leading `v`s dropped, split at
/// `.`, each component read as a `u32` (0 when it does not read as one).
pub open spec fn version_parts(v: Seq<char>) -> Seq<u32> {
    split_on(strip_leading(v, 'v'), '.').map_values(|p: Seq<char>| component_value(p))
}

/// Lexicographic order on component lists, a proper prefix coming first
/// (the order of `Vec<u32>`).
pub open spec fn lex_less(a: Seq<u32>, b: Seq<u32>) -> bool
    decreases a.len(),
{
    if a.len() == 0 {
        b.len() > 0
    } else if b.len() == 0 {
        false
    } else if a[0] < b[0] {
        true
    } else if a[0] > b[0] {
        false
    } else {
        lex_less(a.skip(1), b.skip(1))
    }
}

/// `latest` names a newer version than `current`.
pub open spec fn newer(current: Seq<char>, latest: Seq<char>) -> bool {
    lex_less(version_parts(current), version_parts(latest))
}

fn version_components(v: &str) -> (parts: Vec<u32>)
    ensures
        parts@ == version_parts(v@),
{
    let cs = chars_of(v);
    let stripped = trim_start_char(&cs, 'v');
    let pieces = split(&stripped, '.');
    let mut parts: Vec<u32> = Vec::new();
    let n = pieces.len();
    let mut i: usize = 0;
    while i < n
        invariant
            n == pieces.len(),
            i <= n,
            views(pieces@) == split_on(strip_leading(v@, 'v'), '.'),
            parts@ == views(pieces@).take(i as int).map_values(
                |p: Seq<char>| component_value(p),
            ),
        decreases n - i,
    {
        let value: u32 = match parse_bounded(&pieces[i], 0xffff_ffffu64) {
            Some(x) => x as u32,
            None => 0,
        };
        proof {
            assert(views(pieces@)[i as int] == pieces@[i as int]@);
        }
        parts.push(value);
        proof {
            assert(parts@ =~= views(pieces@).take(i + 1).map_values(
                |p: Seq<char>| component_value(p),
            ));
        }
        i = i + 1;
    }
    proof {
        assert(views(pieces@).take(n as int) =~= views(pieces@));
    }
    parts
}

fn lex_less_exec(a: &Vec<u32>, b: &Vec<u32>) -> (r: bool)
    ensures
        r == lex_less(a@, b@),
{
    let mut i: usize = 0;
    proof {
        assert(a@.skip(0) =~= a@);
        assert(b@.skip(0) =~= b@);
    }
    while i < a.len() && i < b.len() && a[i] == b[i]
        invariant
            i <= a.len(),
            i <= b.len(),
            lex_less(a@.skip(i as int), b@.skip(i as int)) == lex_less(a@, b@),
        decreases a.len() - i,
    {
        proof {
            assert(a@.skip(i as int).skip(1) =~= a@.skip(i + 1));
            assert(b@.skip(i as int).skip(1) =~= b@.skip(i + 1));
        }
        i = i + 1;
    }
    if i == a.len() {
        i < b.len()
    } else if i == b.len() {
        false
    } else {
        a[i] < b[i]
    }
}

/// Whether `latest` names a newer version than `current`: both are read as
/// lists of numbers (leading `v` dropped, split at `.`, a component that is
/// not a number counting as 0) and compared lexicographically.
pub fn is_newer(current: &str, latest: &str) -> (r: bool)
    ensures
        r == newer(current@, latest@),
{
    let c = version_components(current);
    let l = version_components(latest);
    lex_less_exec(&c, &l)
}

/// No list comes before itself.
pub proof fn lemma_lex_irreflexive(a: Seq<u32>)
    ensures
        !lex_less(a, a),
    decreases a.len(),
{
    if a.len() > 0 {
        lemma_lex_irreflexive(a.skip(1));
    }
}

/// Of two lists, at most one comes before the other.
pub proof fn lemma_lex_asymmetric(a: Seq<u32>, b: Seq<u32>)
    ensures
        !(lex_less(a, b) && lex_less(b, a)),
    decreases a.len(),
{
    if a.len() > 0 && b.len() > 0 {
        lemma_lex_asymmetric(a.skip(1), b.skip(1));
    }
}

/// The order is transitive.
pub proof fn lemma_lex_transitive(a: Seq<u32>, b: Seq<u32>, c: Seq<u32>)
    requires
        lex_less(a, b),
        lex_less(b, c),
    ensures
        lex_less(a, c),
    decreases a.len(),
{
    if a.len() > 0 && b.len() > 0 && c.len() > 0 && a[0] == b[0] && b[0] == c[0] {
        lemma_lex_transitive(a.skip(1), b.skip(1), c.skip(1));
    }
}

/// A version is never newer than itself.
pub proof fn law_version_not_newer_than_itself(v: Seq<char>)
    ensures
        !newer(v, v),
{
    lemma_lex_irreflexive(version_parts(v));
}

/// Of two versions, at most one is newer than the other.
pub proof fn law_newer_is_asymmetric(a: Seq<char>, b: Seq<char>)
    ensures
        !(newer(a, b) && newer(b, a)),
{
    lemma_lex_asymmetric(version_parts(a), version_parts(b));
}

/// A version newer than one that is newer than a third is newer than the
/// third.
pub proof fn law_newer_is_transitive(a: Seq<char>, b: Seq<char>, c: Seq<char>)
    requires
        newer(a, b),
        newer(b, c),
    ensures
        newer(a, c),
{
    lemma_lex_transitive(version_parts(a), version_parts(b), version_parts(c));
}

// ---------------------------------------------------------------------------
// Pacing of checks
// ---------------------------------------------------------------------------

/// `a - b`, or 0 when `b` is larger.
pub open spec fn saturating_diff(a: nat, b: nat) -> nat {
    if a >= b {
        (a - b) as nat
    } else {
        0
    }
}

/// Seconds to wait before the next check, at time `now` (Unix seconds): the
/// time left until the window resets plus 5 seconds, spread over the
/// requests left bar one that is held in reserve, and never less than a
/// minute; with no request to spare, the whole wait until the reset.
pub open spec fn delay_for(remaining: nat, reset: nat, now: nat) -> nat {
    let wait = saturating_diff(reset, now) + 5;
    let spare = saturating_diff(remaining, 1);
    if spare == 0 {
        wait
    } else if wait / spare >= 60 {
        wait / spare
    } else {
        60
    }
}

/// The delay before the next check at time `now`; see [`delay_for`].
pub fn calculate_delay_at(rate_limit: RateLimit, now: u64) -> (d: u64)
    requires
        saturating_diff(rate_limit.reset as nat, now as nat) + 5 <= u64::MAX,
    ensures
        d as nat == delay_for(rate_limit.remaining as nat, rate_limit.reset as nat, now as nat),
{
    let seconds_to_reset = rate_limit.reset.saturating_sub(now);
    let seconds_with_buffer = seconds_to_reset + 5;
    let safe_remaining = rate_limit.remaining.saturating_sub(1);
    if safe_remaining == 0 {
        return seconds_with_buffer;
    }
    let interval = seconds_with_buffer / (safe_remaining as u64);
    if interval >= 60 {
        interval
    } else {
        60
    }
}

/// `SystemTime::now` measured from the Unix epoch, in whole seconds; none
/// when the clock reads earlier than the epoch. Nothing is stated of the
/// value: it is whatever the clock reads.
#[verifier::external_body]
fn unix_time_secs() -> Option<u64> {
    std::time::SystemTime::now().duration_since(std::time::UNIX_EPOCH).ok().map(|d| d.as_secs())
}

/// The current Unix time in seconds, counting a clock that reads earlier
/// than the epoch as 0.
pub(crate) fn unix_now_secs() -> u64 {
    match unix_time_secs() {
        Some(s) => s,
        None => 0,
    }
}

/// The delay before the next check, measured from the clock's current
/// reading; see [`delay_for`]. The result is at least a minute whenever a
/// request is left to spare.
pub fn calculate_delay(rate_limit: RateLimit) -> (d: u64)
    requires
        rate_limit.reset <= u64::MAX - 5,
    ensures
        exists|now: nat|
            d as nat == delay_for(rate_limit.remaining as nat, rate_limit.reset as nat, now),
        rate_limit.remaining > 1 ==> d >= 60,
        rate_limit.remaining <= 1 ==> d >= 5 && d <= rate_limit.reset + 5,
{
    let now = unix_now_secs();
    let r = rate_limit.clone();
    let d = calculate_delay_at(rate_limit, now);
    proof {
        assert(d as nat == delay_for(r.remaining as nat, r.reset as nat, now as nat));
    }
    d
}

/// The rate limit that the response headers announce: the remaining count
/// (60 when absent or unreadable) and the reset time (`now` plus an hour
/// when absent or unreadable).
pub open spec fn rate_limit_from(
    remaining: Option<Seq<char>>,
    reset: Option<Seq<char>>,
    now: nat,
) -> (nat, nat) {
    let rem = match remaining {
        Some(r) => match parse_unsigned(r, u32::MAX as nat) {
            Some(v) => v,
            None => 60,
        },
        None => 60,
    };
    let rst = match reset {
        Some(r) => match parse_unsigned(r, u64::MAX as nat) {
            Some(v) => v,
            None => now + 3600,
        },
        None => now + 3600,
    };
    (rem, rst)
}

/// The optional text of a header.
pub open spec fn opt_view(s: Option<String>) -> Option<Seq<char>> {
    match s {
        Some(x) => Some(x@),
        None => None,
    }
}

/// Reads the rate limit from the `x-ratelimit-remaining` and
/// `x-ratelimit-reset` header texts, at time `now`.
pub fn rate_limit_at(remaining: Option<String>, reset: Option<String>, now: u64) -> (rl: RateLimit)
    requires
        now <= u64::MAX - 3600,
    ensures
        (rl.remaining as nat, rl.reset as nat) == rate_limit_from(
            opt_view(remaining),
            opt_view(reset),
            now as nat,
        ),
{
    let rem: u32 = match remaining {
        Some(r) => match parse_bounded(&chars_of(r.as_str()), 0xffff_ffffu64) {
            Some(v) => v as u32,
            None => 60,
        },
        None => 60,
    };
    let rst: u64 = match reset {
        Some(r) => match parse_bounded(&chars_of(r.as_str()), 0xffff_ffff_ffff_ffffu64) {
            Some(v) => v,
            None => now + 3600,
        },
        None => now + 3600,
    };
    RateLimit { remaining: rem, reset: rst }
}

/// Reads the rate limit from the header texts, taking the reset time as an
/// hour from the clock's current reading when it is not given.
pub fn parse_rate_limit(remaining: Option<String>, reset: Option<String>) -> (rl: RateLimit)
    ensures
        exists|now: nat|
            (rl.remaining as nat, rl.reset as nat) == rate_limit_from(
                opt_view(remaining),
                opt_view(reset),
                now,
            ),
{
    let now = unix_now_secs();
    let ghost rem_v = opt_view(remaining);
    let ghost rst_v = opt_view(reset);
    let clock = if now <= 0xffff_ffff_ffff_ffffu64 - 3600 {
        now
    } else {
        0xffff_ffff_ffff_ffffu64 - 3600
    };
    rate_limit_at(remaining, reset, clock)
}

// ---------------------------------------------------------------------------
// One round of the update checker
// ---------------------------------------------------------------------------

/// What a release check came back with.
pub enum CheckOutcome {
    /// The latest release, and the rate limit of the response.
    Found { release: GitHubRelease, rate_limit: RateLimit },
    /// The check failed; the rate limit is known when a response arrived.
    Failed { limit: Option<RateLimit> },
}

/// What the checker does after one check.
pub struct UpdateDecision {
    /// The release to remember as available, when it is newer.
    pub available: Option<GitHubRelease>,
    /// Whether to add the menu entry and announce the release.
    pub announce: bool,
    /// Seconds until the next check.
    pub delay_secs: u64,
}

/// What one round decides at time `now`: for a release found, its delay
/// is that of [`delay_for`] and a newer release is remembered (and
/// announced unless its tag was remembered already); after a failure
/// nothing is remembered and the delay follows the limit, or is 300 seconds
/// without one.
pub open spec fn update_round(
    current_version: Seq<char>,
    remembered_tag: Option<String>,
    outcome: CheckOutcome,
    now: u64,
    dec: UpdateDecision,
) -> bool {
    match outcome {
        CheckOutcome::Found { release, rate_limit } => {
            &&& dec.delay_secs as nat == delay_for(
                rate_limit.remaining as nat,
                rate_limit.reset as nat,
                now as nat,
            )
            &&& if newer(current_version, release.tag_name@) {
                &&& dec.available == Some(release)
                &&& dec.announce == match remembered_tag {
                    Some(t) => t@ != release.tag_name@,
                    None => true,
                }
            } else {
                dec.available is None && !dec.announce
            }
        },
        CheckOutcome::Failed { limit } => {
            &&& dec.available is None
            &&& !dec.announce
            &&& dec.delay_secs as nat == match limit {
                Some(rl) => delay_for(rl.remaining as nat, rl.reset as nat, now as nat),
                None => 300,
            }
        },
    }
}

/// Decides one round of the update checker at time `now`: a newer release is
/// remembered and announced unless the same tag was already remembered; the
/// next check waits as [`delay_for`] says, or 300 seconds when the check
/// failed before any response.
pub fn update_check_step(
    current_version: &str,
    remembered_tag: Option<String>,
    outcome: CheckOutcome,
    now: u64,
) -> (dec: UpdateDecision)
    requires
        match outcome {
            CheckOutcome::Found { rate_limit, .. } => saturating_diff(
                rate_limit.reset as nat,
                now as nat,
            ) + 5 <= u64::MAX,
            CheckOutcome::Failed { limit: Some(rl) } => saturating_diff(
                rl.reset as nat,
                now as nat,
            ) + 5 <= u64::MAX,
            _ => true,
        },
    ensures
        update_round(current_version@, remembered_tag, outcome, now, dec),
{
    match outcome {
        CheckOutcome::Found { release, rate_limit } => {
            let delay = calculate_delay_at(rate_limit, now);
            if is_newer(current_version, release.tag_name.as_str()) {
                let announce = match remembered_tag {
                    Some(t) => !(t == release.tag_name),
                    None => true,
                };
                UpdateDecision { available: Some(release), announce, delay_secs: delay }
            } else {
                UpdateDecision { available: None, announce: false, delay_secs: delay }
            }
        },
        CheckOutcome::Failed { limit } => {
            let delay = match limit {
                Some(rl) => calculate_delay_at(rl, now),
                None => 300,
            };
            UpdateDecision { available: None, announce: false, delay_secs: delay }
        },
    }
}

/// The limit a check outcome reports, when it has one.
pub open spec fn outcome_limit(o: CheckOutcome) -> Option<RateLimit> {
    match o {
        CheckOutcome::Found { rate_limit, .. } => Some(rate_limit),
        CheckOutcome::Failed { limit } => limit,
    }
}

/// The wait until the reset of a limit, plus the 5-second buffer, fits in
/// a `u64` at time `now` (true without a limit).
pub open spec fn wait_fits(limit: Option<RateLimit>, now: u64) -> bool {
    limit matches Some(rl) ==> saturating_diff(rl.reset as nat, now as nat) + 5 <= u64::MAX
}

/// One round of the update checker at the clock's current reading (see
/// `update_check_step`); which reading was used is not fixed. When the
/// wait until the limit's reset, plus the buffer, does not fit in a `u64`
/// at that reading, there is no decision.
pub fn update_check_round(current_version: &str, remembered_tag: Option<String>, outcome: CheckOutcome) -> (dec:
    Option<UpdateDecision>)
    ensures
        exists|now: u64|
            match dec {
                Some(d) => wait_fits(outcome_limit(outcome), now) && update_round(
                    current_version@,
                    remembered_tag,
                    outcome,
                    now,
                    d,
                ),
                None => !wait_fits(outcome_limit(outcome), now),
            },
{
    let now = unix_now_secs();
    let ghost o = outcome;
    let ghost t = remembered_tag;
    let fits = match &outcome {
        CheckOutcome::Found { rate_limit, .. } => rate_limit.reset.saturating_sub(now) <= u64::MAX - 5,
        CheckOutcome::Failed { limit: Some(rl) } => rl.reset.saturating_sub(now) <= u64::MAX - 5,
        CheckOutcome::Failed { limit: None } => true,
    };
    if !fits {
        proof {
            assert(!wait_fits(outcome_limit(o), now));
        }
        return None;
    }
    let dec = update_check_step(current_version, remembered_tag, outcome, now);
    proof {
        assert(wait_fits(outcome_limit(o), now));
        assert(update_round(current_version@, t, o, now, dec));
    }
    Some(dec)
}

/// The release offered to the user: the newest one found that is newer
/// than the running version.
#[derive(Debug)]
pub struct UpdateStatus {
    pub latest: Option<GitHubRelease>,
}

impl UpdateStatus {
    /// Nothing found yet.
    pub fn new() -> (s: Self)
        ensures
            s.latest is None,
    {
        UpdateStatus { latest: None }
    }

    /// Takes in a round's decision: a release it made available replaces
    /// the one offered.
    pub fn apply(&mut self, dec: UpdateDecision)
        ensures
            match dec.available {
                Some(r) => final(self).latest == Some(r),
                None => final(self).latest == old(self).latest,
            },
    {
        match dec.available {
            Some(r) => {
                self.latest = Some(r);
            },
            None => {},
        }
    }

    /// The tag of the release offered, when there is one.
    pub fn remembered_tag(&self) -> (t: Option<String>)
        ensures
            match self.latest {
                Some(r) => t matches Some(x) && x@ == r.tag_name@,
                None => t is None,
            },
    {
        match &self.latest {
            Some(r) => Some(crate::text::string_of(&chars_of(r.tag_name.as_str()))),
            None => None,
        }
    }
}


/// While more than one request of the window remains, checks are at least
/// a minute apart.
pub proof fn law_checks_at_most_once_a_minute(remaining: nat, reset: nat, now: nat)
    requires
        remaining >= 2,
    ensures
        delay_for(remaining, reset, now) >= 60,
{
}

/// With at most one request left, the next check waits for the window to
/// reset, plus five seconds.
pub proof fn law_last_request_waits_for_reset(remaining: nat, reset: nat, now: nat)
    requires
        remaining <= 1,
    ensures
        delay_for(remaining, reset, now) == saturating_diff(reset, now) + 5,
{
}

/// With requests to spare, the checks spread the spare requests over the
/// time left until the window resets (plus five seconds), as evenly as whole
/// seconds allow: the spare requests, spaced by the delay, fit in that time
/// and one second more would not; only when they would come more often than
/// once a minute is the delay a minute instead.
pub proof fn law_delay_spreads_spare_requests(remaining: nat, reset: nat, now: nat)
    requires
        remaining >= 2,
    ensures
        ({
            let spare: int = remaining - 1;
            let wait: int = if reset >= now {
                reset - now + 5
            } else {
                5
            };
            let d: int = delay_for(remaining, reset, now) as int;
            &&& 60 * spare <= wait ==> d * spare <= wait && wait < (d + 1) * spare
            &&& wait < 60 * spare ==> d == 60
        }),
{
    let spare: int = remaining - 1;
    let wait: int = if reset >= now {
        reset - now + 5
    } else {
        5
    };
    assert(wait == saturating_diff(reset, now) + 5);
    assert(saturating_diff(remaining, 1) == spare);
    let q: int = wait / spare;
    assert(q * spare <= wait && wait < (q + 1) * spare) by (nonlinear_arith)
        requires
            spare >= 1,
            q == wait / spare,
    ;
    if 60 * spare <= wait {
        assert(q >= 60) by (nonlinear_arith)
            requires
                spare >= 1,
                60 * spare <= wait,
                wait < (q + 1) * spare,
        ;
    } else {
        assert(q < 60) by (nonlinear_arith)
            requires
                spare >= 1,
                wait < 60 * spare,
                q * spare <= wait,
        ;
    }
}

} // verus!

//! What the GitHub client decides: the records it returns, the routes it
//! requests, how repository counts are read, how a refused request is
//! classified as rate limiting, and how long to wait for the limit to reset.
//! The network calls themselves are made by the application around this
//! library.

use vstd::prelude::*;
use crate::errors::GhrrError;
use crate::text::{decimal, push_decimal};

verus! {

broadcast use vstd::string::group_string_axioms;

/// Seconds to wait after a failure that is not rate limiting, and after a
/// rate limit whose reset time cannot be read.
pub const RATE_LIMIT_BACKOFF: u64 = 10;

/// Seconds added to the reset time so that the wait ends after the limit
/// has reset.
pub const RATE_LIMIT_BUFFER: u64 = 3;

/// Results requested per page of a listing.
pub const PER_PAGE: u8 = 100;

/// HTTP status GitHub answers a rate-limited request with.
pub const FORBIDDEN: u16 = 403;

/// A user as listed by the stargazers, subscribers and contributors
/// endpoints: only the login is kept.
#[derive(Debug, Clone)]
pub struct SimpleUser {
    /// GitHub login handle.
    pub login: String,
}

/// A resolved repository: its three user listings and the two counts that
/// its metadata gives.
#[derive(Debug)]
pub struct RepoData {
    /// Users who starred the repository.
    pub stargazers: Vec<SimpleUser>,
    /// Stargazer count from the repository metadata.
    pub stargazers_count: u64,
    /// Users watching the repository.
    pub subscribers: Vec<SimpleUser>,
    /// Subscriber count from the repository metadata.
    pub subscribers_count: u64,
    /// Users who committed to the repository.
    pub contributors: Vec<SimpleUser>,
}

/// Query parameters of a paginated listing request.
#[derive(Debug, Clone, Copy)]
pub struct ListParams {
    /// Results per page.
    pub per_page: u8,
}

impl Default for ListParams {
    /// The largest page GitHub serves, to keep round trips few.
    fn default() -> (p: ListParams)
        ensures
            p.per_page == PER_PAGE,
    {
        ListParams { per_page: PER_PAGE }
    }
}

/// The three ways a user can be related to a repository, in the order the
/// tool processes them.
#[derive(Debug, Clone, Copy, PartialEq, Eq, Structural)]
pub enum UserInteraction {
    /// Starred the repository.
    Stargazer,
    /// Watches the repository.
    Subscriber,
    /// Committed to the repository.
    Contributor,
}

impl UserInteraction {
    /// The name written in the `user_interaction` column.
    pub open spec fn label(self) -> Seq<char> {
        match self {
            UserInteraction::Stargazer => "stargazer"@,
            UserInteraction::Subscriber => "subscriber"@,
            UserInteraction::Contributor => "contributor"@,
        }
    }

    /// The last segment of the listing route.
    pub open spec fn endpoint(self) -> Seq<char> {
        match self {
            UserInteraction::Stargazer => "stargazers"@,
            UserInteraction::Subscriber => "subscribers"@,
            UserInteraction::Contributor => "contributors"@,
        }
    }

    /// The name written in the `user_interaction` column.
    pub fn as_str(&self) -> (s: &'static str)
        ensures
            s@ == self.label(),
    {
        match self {
            UserInteraction::Stargazer => "stargazer",
            UserInteraction::Subscriber => "subscriber",
            UserInteraction::Contributor => "contributor",
        }
    }

    /// The last segment of the listing route.
    pub fn endpoint_name(&self) -> (s: &'static str)
        ensures
            s@ == self.endpoint(),
    {
        match self {
            UserInteraction::Stargazer => "stargazers",
            UserInteraction::Subscriber => "subscribers",
            UserInteraction::Contributor => "contributors",
        }
    }
}

/// The listing route `/repos/{org}/{repo}/{endpoint}`.
pub open spec fn listing_route_spec(org: Seq<char>, repo: Seq<char>, kind: UserInteraction) -> Seq<
    char,
> {
    "/repos/"@ + org + "/"@ + repo + "/"@ + kind.endpoint()
}

/// The route that lists the users of one kind of a repository.
pub fn listing_route(org: &str, repo: &str, kind: UserInteraction) -> (route: String)
    ensures
        route@ == listing_route_spec(org@, repo@, kind),
{
    let mut route = String::from_str("/repos/");
    route.append(org);
    route.append("/");
    route.append(repo);
    route.append("/");
    route.append(kind.endpoint_name());
    route
}

/// The route that lists the organizations of a user.
pub fn organizations_route(username: &str) -> (route: String)
    ensures
        route@ == "/users/"@ + username@ + "/orgs"@,
{
    let mut route = String::from_str("/users/");
    route.append(username);
    route.append("/orgs");
    route
}

/// The stargazer count as read from the metadata: absent counts as zero.
pub open spec fn stargazers_count_spec(raw: Option<u32>) -> u64 {
    match raw {
        Some(c) => c as u64,
        None => 0,
    }
}

/// The subscriber count as read from the metadata: absent or negative
/// counts as zero.
pub open spec fn subscribers_count_spec(raw: Option<i64>) -> u64 {
    match raw {
        Some(c) => if c < 0 {
            0
        } else {
            c as u64
        },
        None => 0,
    }
}

impl RepoData {
    /// Assembles the resolved repository from its three listings and the
    /// raw counts of its metadata.
    pub fn from_listings(
        stargazers: Vec<SimpleUser>,
        raw_stargazers_count: Option<u32>,
        subscribers: Vec<SimpleUser>,
        raw_subscribers_count: Option<i64>,
        contributors: Vec<SimpleUser>,
    ) -> (data: RepoData)
        ensures
            data.stargazers@ == stargazers@,
            data.subscribers@ == subscribers@,
            data.contributors@ == contributors@,
            data.stargazers_count == stargazers_count_spec(raw_stargazers_count),
            data.subscribers_count == subscribers_count_spec(raw_subscribers_count),
    {
        let stargazers_count: u64 = match raw_stargazers_count {
            Some(c) => c as u64,
            None => 0,
        };
        let subscribers_count: u64 = match raw_subscribers_count {
            Some(c) => if c < 0 {
                0
            } else {
                c as u64
            },
            None => 0,
        };
        RepoData { stargazers, stargazers_count, subscribers, subscribers_count, contributors }
    }
}

/// The message prefix by which GitHub marks a rate-limit refusal.
pub open spec fn rate_limit_message_prefix() -> Seq<char> {
    "API rate limit exceeded"@
}

/// Whether `message` begins with `prefix`.
pub open spec fn starts_with(message: Seq<char>, prefix: Seq<char>) -> bool {
    message.len() >= prefix.len() && message.take(prefix.len() as int) == prefix
}

/// Whether a refused request is GitHub's rate limiting: status 403 and a
/// message beginning with `API rate limit exceeded` (case-sensitive).
pub open spec fn is_rate_limit_spec(status_code: u16, message: Seq<char>) -> bool {
    status_code == FORBIDDEN && starts_with(message, rate_limit_message_prefix())
}

/// Whether an HTTP status and error message describe GitHub's rate
/// limiting.
pub fn is_rate_limit_response(status_code: u16, message: &str) -> (res: bool)
    ensures
        res == is_rate_limit_spec(status_code, message@),
{
    if status_code != 403 {
        return false;
    }
    let prefix = "API rate limit exceeded";
    proof {
        reveal_strlit("API rate limit exceeded");
    }
    let n = prefix.unicode_len();
    let m = message.unicode_len();
    if m < n {
        return false;
    }
    let mut i: usize = 0;
    while i < n
        invariant
            n == prefix@.len(),
            m == message@.len(),
            n <= m,
            i <= n,
            prefix@ == rate_limit_message_prefix(),
            forall|j: int| 0 <= j < i ==> message@[j] == prefix@[j],
        decreases n - i,
    {
        if message.get_char(i) != prefix.get_char(i) {
            assert(message@.take(n as int)[i as int] != prefix@[i as int]);
            return false;
        }
        i = i + 1;
    }
    assert(message@.take(n as int) =~= prefix@);
    true
}

/// Rate limiting is exactly a 403 whose message begins with the 23
/// characters `API rate limit exceeded`: any other 403 (a permission
/// refusal, say) is not, whatever its length.
pub proof fn lemma_rate_limit_exactly(status_code: u16, message: Seq<char>)
    ensures
        is_rate_limit_spec(status_code, message) <==> (status_code == 403 && message.len() >= 23
            && message.take(23) == "API rate limit exceeded"@),
{
    reveal_strlit("API rate limit exceeded");
}

/// Only status 403 is ever rate limiting.
pub proof fn lemma_rate_limit_needs_forbidden(status_code: u16, message: Seq<char>)
    requires
        status_code != FORBIDDEN,
    ensures
        !is_rate_limit_spec(status_code, message),
{
}

/// Whatever follows the rate-limit prefix in the message, a 403 with it is
/// rate limiting.
pub proof fn lemma_rate_limit_prefix_extends(message: Seq<char>, rest: Seq<char>)
    requires
        is_rate_limit_spec(FORBIDDEN, message),
    ensures
        is_rate_limit_spec(FORBIDDEN, message + rest),
{
    let n = rate_limit_message_prefix().len() as int;
    assert((message + rest).take(n) =~= message.take(n));
}

/// The error a refused request becomes: a rate-limit error when the status
/// and GitHub's message show rate limiting, else an API error; either way
/// carrying `description`.
pub open spec fn classify_spec(
    github_status: Option<(u16, Seq<char>)>,
    description: Seq<char>,
) -> (bool, Seq<char>) {
    match github_status {
        Some((status, message)) => (is_rate_limit_spec(status, message), description),
        None => (false, description),
    }
}

/// Classifies a failed request from what GitHub answered (its status and
/// message, when GitHub answered at all) and the failure's description.
pub fn classify_response(github_status: Option<(u16, String)>, description: String) -> (e:
    GhrrError)
    ensures
        (match github_status {
            Some((status, message)) => is_rate_limit_spec(status, message@),
            None => false,
        }) ==> (e is RateLimit && e.detail() == description@),
        !(match github_status {
            Some((status, message)) => is_rate_limit_spec(status, message@),
            None => false,
        }) ==> (e is Api && e.detail() == description@),
{
    let limited = match &github_status {
        Some((status, message)) => is_rate_limit_response(*status, message.as_str()),
        None => false,
    };
    if limited {
        GhrrError::RateLimit(description)
    } else {
        GhrrError::Api(description)
    }
}

/// Nanoseconds per second.
pub open spec fn nanos_per_second() -> int {
    1_000_000_000
}

/// The whole seconds of a span of nanoseconds, rounded toward zero.
pub open spec fn whole_seconds_toward_zero(nanos: int) -> int {
    if nanos >= 0 {
        nanos / nanos_per_second()
    } else {
        -((-nanos) / nanos_per_second())
    }
}

/// Seconds to sleep before retrying after rate limiting: from the current
/// instant (`now_secs` seconds and `now_nanos` nanoseconds since the epoch)
/// to the reset time `reset_secs`, in whole seconds rounded toward zero,
/// plus the buffer; never negative.
pub open spec fn pause_seconds_spec(reset_secs: i64, now_secs: i64, now_nanos: u32) -> int {
    let span = (reset_secs - now_secs) * nanos_per_second() - now_nanos;
    let secs = whole_seconds_toward_zero(span) + RATE_LIMIT_BUFFER;
    if secs < 0 {
        0
    } else if secs > u64::MAX {
        u64::MAX as int
    } else {
        secs
    }
}

/// Seconds to sleep until the rate limit resets at `reset_secs`, seen from
/// the instant `now_secs` seconds plus `now_nanos` nanoseconds past the
/// epoch, with the buffer added (saturated at `u64::MAX`, which no reset
/// time that GitHub can report comes near).
pub fn pause_seconds(reset_secs: i64, now_secs: i64, now_nanos: u32) -> (secs: u64)
    requires
        now_nanos < 2_000_000_000,
    ensures
        secs == pause_seconds_spec(reset_secs, now_secs, now_nanos),
{
    let diff: i128 = reset_secs as i128 - now_secs as i128;
    let span: i128 = diff * 1_000_000_000i128 - now_nanos as i128;
    let whole: i128 = if span >= 0 {
        span / 1_000_000_000i128
    } else {
        -((-span) / 1_000_000_000i128)
    };
    let secs: i128 = whole + 3;
    if secs < 0 {
        0
    } else if secs > u64::MAX as i128 {
        u64::MAX
    } else {
        secs as u64
    }
}

/// A later reset time never shortens the wait.
pub proof fn lemma_pause_monotonic_in_reset(r1: i64, r2: i64, now_secs: i64, now_nanos: u32)
    requires
        r1 <= r2,
        now_nanos < 2_000_000_000,
    ensures
        pause_seconds_spec(r1, now_secs, now_nanos) <= pause_seconds_spec(r2, now_secs, now_nanos),
{
    let s1 = (r1 - now_secs) * nanos_per_second() - now_nanos;
    let s2 = (r2 - now_secs) * nanos_per_second() - now_nanos;
    assert(s1 <= s2) by (nonlinear_arith)
        requires
            r1 <= r2,
            s1 == (r1 - now_secs) * 1_000_000_000 - now_nanos,
            s2 == (r2 - now_secs) * 1_000_000_000 - now_nanos,
    ;
    lemma_whole_seconds_monotonic(s1, s2);
}

/// Rounding a span of nanoseconds toward zero keeps the order of spans.
proof fn lemma_whole_seconds_monotonic(a: int, b: int)
    requires
        a <= b,
    ensures
        whole_seconds_toward_zero(a) <= whole_seconds_toward_zero(b),
{
    if a >= 0 {
        vstd::arithmetic::div_mod::lemma_div_is_ordered(a, b, 1_000_000_000int);
    } else if b >= 0 {
        vstd::arithmetic::div_mod::lemma_div_pos_is_pos(-a, 1_000_000_000int);
        vstd::arithmetic::div_mod::lemma_div_pos_is_pos(b, 1_000_000_000int);
    } else {
        vstd::arithmetic::div_mod::lemma_div_is_ordered(-b, -a, 1_000_000_000int);
    }
}

/// Seen from a whole second, a reset still ahead is waited for exactly,
/// plus the buffer.
pub proof fn lemma_pause_exact_from_whole_second(reset_secs: i64, now_secs: i64)
    requires
        reset_secs >= now_secs,
        reset_secs - now_secs + RATE_LIMIT_BUFFER <= u64::MAX,
    ensures
        pause_seconds_spec(reset_secs, now_secs, 0) == (reset_secs - now_secs) + RATE_LIMIT_BUFFER,
{
    let d = reset_secs - now_secs;
    assert((d * 1_000_000_000) / 1_000_000_000 == d) by (nonlinear_arith)
        requires
            d >= 0,
    ;
}

/// A reset already past by more than the buffer means no wait at all.
pub proof fn lemma_pause_zero_when_long_past(reset_secs: i64, now_secs: i64, now_nanos: u32)
    requires
        reset_secs + RATE_LIMIT_BUFFER < now_secs,
        now_nanos < 2_000_000_000,
    ensures
        pause_seconds_spec(reset_secs, now_secs, now_nanos) == 0,
{
    let d = reset_secs - now_secs;
    let span = d * nanos_per_second() - now_nanos;
    assert(span <= -4 * 1_000_000_000) by (nonlinear_arith)
        requires
            d <= -4,
            span == d * 1_000_000_000 - now_nanos,
            now_nanos >= 0,
    ;
    vstd::arithmetic::div_mod::lemma_div_is_ordered(4_000_000_000int, -span, 1_000_000_000int);
}

/// The notice printed before sleeping until a known reset time.
pub open spec fn reset_notice_spec(pretty_reset: Seq<char>) -> Seq<char> {
    "Rate limited. sleeping until \""@ + pretty_reset + "\" due to rate limit..."@
}

/// The notice printed before sleeping until the reset time, shown as
/// `pretty_reset`.
pub fn reset_notice(pretty_reset: &str) -> (s: String)
    ensures
        s@ == reset_notice_spec(pretty_reset@),
{
    let mut s = String::from_str("Rate limited. sleeping until \"");
    s.append(pretty_reset);
    s.append("\" due to rate limit...");
    s
}

/// The notice printed before the fixed backoff, when the reset time cannot
/// be read.
pub open spec fn backoff_notice_spec() -> Seq<char> {
    "Rate limited. sleeping for "@ + decimal(RATE_LIMIT_BACKOFF as nat) + " seconds due to rate limit..."@
}

/// The notice printed before the fixed backoff.
pub fn backoff_notice() -> (s: String)
    ensures
        s@ == backoff_notice_spec(),
{
    let mut s = String::from_str("Rate limited. sleeping for ");
    push_decimal(&mut s, RATE_LIMIT_BACKOFF);
    s.append(" seconds due to rate limit...");
    s
}

/// `octocrab::Error`, the failure of a GitHub request.
#[verifier::external_type_specification]
#[verifier::external_body]
pub struct ExOctocrabError(octocrab::Error);

/// What GitHub answered to a failed request: the HTTP status and GitHub's
/// message, carried by the `GitHub` variant of `octocrab::Error`; `None`
/// for every other variant (transport, parsing and similar failures).
pub uninterp spec fn github_answer_of(err: octocrab::Error) -> Option<(u16, Seq<char>)>;

/// Whether GitHub's answer, if any, is a rate-limit refusal.
pub open spec fn is_rate_limit_answer(answer: Option<(u16, Seq<char>)>) -> bool {
    match answer {
        Some((status, message)) => is_rate_limit_spec(status, message),
        None => false,
    }
}

/// Reads what GitHub answered out of a request error.
///
/// Trusted: the body matches the `GitHub` variant and reads the public
/// `status_code` and `message` fields of its `GitHubError` source, so the
/// result is a function of the error value alone; it is named
/// `github_answer_of`. Also claimed, from octocrab's source: the `GitHub`
/// variant carries no display attribute and no doc comment, so the `snafu`
/// derive displays it as its variant name, `GitHub`.
#[verifier::external_body]
fn github_answer(err: &octocrab::Error) -> (answer: Option<(u16, String)>)
    ensures
        match answer {
            Some((status, message)) => github_answer_of(*err) == Some((status, message@)),
            None => github_answer_of(*err) is None,
        },
        answer is Some ==> displays_as_github_answer(err),
{
    match err {
        octocrab::Error::GitHub { source, .. } => Some(
            (source.status_code.as_u16(), source.message.clone()),
        ),
        _ => None,
    }
}

/// Whether a request error is GitHub's own answer, which octocrab displays
/// as `GitHub` (its description then carries no detail of the answer).
pub open spec fn displays_as_github_answer(err: &octocrab::Error) -> bool {
    forall|description: String|
        vstd::string::to_string_from_display_ensures::<octocrab::Error>(err, description)
            ==> description@ == "GitHub"@
}

/// Whether a failed GitHub request was refused for rate limiting: GitHub
/// answered with status 403 and a message beginning with `API rate limit
/// exceeded`. Only GitHub's own answers can be refusals, so a request error
/// of any other kind (transport, parsing and the like) is never one.
pub fn is_rate_limit_error(err: &octocrab::Error) -> (res: bool)
    ensures
        res == is_rate_limit_answer(github_answer_of(*err)),
        res ==> displays_as_github_answer(err),
{
    match github_answer(err) {
        Some((status, message)) => is_rate_limit_response(status, message.as_str()),
        None => false,
    }
}

/// The error a failed GitHub request becomes: a rate-limit error when
/// GitHub refused it for rate limiting, else an API error; either way
/// carrying the request error's description.
pub fn classify_error(err: octocrab::Error) -> (e: GhrrError)
    ensures
        e is RateLimit || e is Api,
        (e is RateLimit) == is_rate_limit_answer(github_answer_of(err)),
        exists|description: String|
            vstd::string::to_string_from_display_ensures::<octocrab::Error>(&err, description)
                && e.detail() == description@,
        e is RateLimit ==> displays_as_github_answer(&err) && e.detail() == "GitHub"@,
{
    let answer = github_answer(&err);
    let description = err.to_string();
    let ghost witness = description;
    let e = classify_response(answer, description);
    assert(vstd::string::to_string_from_display_ensures::<octocrab::Error>(&err, witness));
    e
}

/// The error a failed request of a given purpose becomes: `prefix` (what
/// was being done) followed by `: ` and the request error's description.
pub open spec fn with_cause(prefix: Seq<char>, description: Seq<char>) -> Seq<char> {
    prefix + ": "@ + description
}

/// `prefix`, `: ` and the description of `err`.
fn describe_failure(prefix: String, err: &octocrab::Error) -> (text: String)
    ensures
        exists|description: String|
            vstd::string::to_string_from_display_ensures::<octocrab::Error>(err, description)
                && text@ == with_cause(prefix@, description@),
{
    let description = err.to_string();
    let mut text = prefix;
    text.append(": ");
    text.append(description.as_str());
    assert(vstd::string::to_string_from_display_ensures::<octocrab::Error>(err, description));
    text
}

/// The error for a failed request described by `text`: a rate-limit error
/// when GitHub refused the request for rate limiting, otherwise an error
/// of the kind `other_is_repository` selects (repository or API).
fn classified_failure(text: String, err: &octocrab::Error, other_is_repository: bool) -> (e:
    GhrrError)
    ensures
        (e is RateLimit) == is_rate_limit_answer(github_answer_of(*err)),
        !is_rate_limit_answer(github_answer_of(*err)) ==> (if other_is_repository {
            e is Repository
        } else {
            e is Api
        }),
        e.detail() == text@,
{
    if is_rate_limit_error(err) {
        GhrrError::RateLimit(text)
    } else if other_is_repository {
        GhrrError::Repository(text)
    } else {
        GhrrError::Api(text)
    }
}

/// The error reported when the repository cannot be resolved, with the
/// detail `Failed to resolve {org}/{repo}: {cause}`: a rate-limit error when
/// GitHub refused the request for rate limiting, else a repository error.
pub fn resolve_failure(org: &str, repo: &str, err: &octocrab::Error) -> (e: GhrrError)
    ensures
        (e is RateLimit) == is_rate_limit_answer(github_answer_of(*err)),
        !is_rate_limit_answer(github_answer_of(*err)) ==> e is Repository,
        exists|description: String|
            vstd::string::to_string_from_display_ensures::<octocrab::Error>(err, description)
                && e.detail() == with_cause(
                "Failed to resolve "@ + org@ + "/"@ + repo@,
                description@,
            ),
{
    let mut prefix = String::from_str("Failed to resolve ");
    prefix.append(org);
    prefix.append("/");
    prefix.append(repo);
    classified_failure(describe_failure(prefix, err), err, true)
}

/// The error reported when the first page of a listing cannot be fetched,
/// with the detail `Failed to list {endpoint}: {cause}`: a rate-limit error
/// when GitHub refused the request for rate limiting, else an API error.
pub fn list_failure(kind: UserInteraction, err: &octocrab::Error) -> (e: GhrrError)
    ensures
        (e is RateLimit) == is_rate_limit_answer(github_answer_of(*err)),
        !is_rate_limit_answer(github_answer_of(*err)) ==> e is Api,
        exists|description: String|
            vstd::string::to_string_from_display_ensures::<octocrab::Error>(err, description)
                && e.detail() == with_cause("Failed to list "@ + kind.endpoint(), description@),
{
    let mut prefix = String::from_str("Failed to list ");
    prefix.append(kind.endpoint_name());
    classified_failure(describe_failure(prefix, err), err, false)
}

/// The error reported when a later page of a listing cannot be fetched,
/// with the detail `Failed to paginate {endpoint}: {cause}`: a rate-limit
/// error when GitHub refused the request for rate limiting, else an API
/// error.
pub fn paginate_failure(kind: UserInteraction, err: &octocrab::Error) -> (e: GhrrError)
    ensures
        (e is RateLimit) == is_rate_limit_answer(github_answer_of(*err)),
        !is_rate_limit_answer(github_answer_of(*err)) ==> e is Api,
        exists|description: String|
            vstd::string::to_string_from_display_ensures::<octocrab::Error>(err, description)
                && e.detail() == with_cause("Failed to paginate "@ + kind.endpoint(), description@),
{
    let mut prefix = String::from_str("Failed to paginate ");
    prefix.append(kind.endpoint_name());
    classified_failure(describe_failure(prefix, err), err, false)
}

/// The error reported when a user's profile cannot be fetched, with the
/// detail `Failed to get profile for {username}: {cause}`: a rate-limit
/// error when GitHub refused the request for rate limiting, else an API
/// error.
pub fn profile_failure(username: &str, err: &octocrab::Error) -> (e: GhrrError)
    ensures
        (e is RateLimit) == is_rate_limit_answer(github_answer_of(*err)),
        !is_rate_limit_answer(github_answer_of(*err)) ==> e is Api,
        exists|description: String|
            vstd::string::to_string_from_display_ensures::<octocrab::Error>(err, description)
                && e.detail() == with_cause("Failed to get profile for "@ + username@, description@),
{
    let mut prefix = String::from_str("Failed to get profile for ");
    prefix.append(username);
    classified_failure(describe_failure(prefix, err), err, false)
}

/// The message reported when the repository's metadata cannot be fetched
/// at startup: `Failed to resolve repository {org}/{repo}: {cause}`.
pub fn repository_resolution_message(org: &str, repo: &str, err: &octocrab::Error) -> (text:
    String)
    ensures
        exists|description: String|
            vstd::string::to_string_from_display_ensures::<octocrab::Error>(err, description)
                && text@ == with_cause(
                "Failed to resolve repository "@ + org@ + "/"@ + repo@,
                description@,
            ),
{
    let mut prefix = String::from_str("Failed to resolve repository ");
    prefix.append(org);
    prefix.append("/");
    prefix.append(repo);
    describe_failure(prefix, err)
}

/// The organizations recorded for a user: those listed, or none when the
/// listing failed.
pub fn organizations_or_none(listed: Option<Vec<String>>) -> (orgs: Vec<String>)
    ensures
        match listed {
            Some(v) => orgs@ == v@,
            None => orgs@.len() == 0,
        },
{
    match listed {
        Some(v) => v,
        None => Vec::new(),
    }
}

impl From<octocrab::Error> for GhrrError {
    /// Every request failure becomes an API error carrying its description;
    /// rate limiting is told apart by `classify_error` instead.
    fn from(err: octocrab::Error) -> (e: GhrrError)
        ensures
            e is Api,
            exists|description: String|
                vstd::string::to_string_from_display_ensures::<octocrab::Error>(&err, description)
                    && e.detail() == description@,
    {
        let description = err.to_string();
        let ghost witness = description;
        let e = GhrrError::Api(description);
        assert(vstd::string::to_string_from_display_ensures::<octocrab::Error>(&err, witness));
        assert(e.detail() == witness@);
        e
    }
}

impl vstd::std_specs::convert::FromSpecImpl<octocrab::Error> for GhrrError {
    /// The description of a request failure is not modelled; `from` states
    /// the variant of every result.
    open spec fn obeys_from_spec() -> bool {
        false
    }

    open spec fn from_spec(v: octocrab::Error) -> GhrrError {
        arbitrary()
    }
}

/// `chrono`'s rendering, with the format `pattern`, of the UTC instant
/// `ts` seconds after the epoch; `None` when `ts` is outside the range of
/// instants `chrono` represents.
pub uninterp spec fn utc_formatted(ts: int, pattern: Seq<char>) -> Option<Seq<char>>;

/// Renders a timestamp with `chrono` (`DateTime::<Utc>::from_timestamp`,
/// then `format(pattern)`).
///
/// Trusted: the result is named, as a function of the timestamp and the
/// pattern alone (the instant is taken in UTC, so the machine's time zone
/// does not enter). Rendering with a malformed pattern panics, so only the
/// pattern this module uses, made of numeric fields, is admitted.
#[verifier::external_body]
fn format_utc_timestamp(ts: i64, pattern: &str) -> (pretty: Option<String>)
    requires
        pattern@ == reset_time_pattern(),
    ensures
        pretty matches Some(p) ==> utc_formatted(ts as int, pattern@) == Some(p@),
        pretty is None ==> utc_formatted(ts as int, pattern@) is None,
{
    match chrono::DateTime::from_timestamp(ts, 0) {
        Some(d) => Some(d.format(pattern).to_string()),
        None => None,
    }
}

/// How reset times are shown: `MM/DD/YYYY, HH:MM:SS`.
pub open spec fn reset_time_pattern() -> Seq<char> {
    "%m/%d/%Y, %H:%M:%S"@
}

/// The current UTC instant from `chrono` (`Utc::now()`), as whole seconds
/// since the epoch and the nanoseconds past that second.
///
/// Trusted: the instant depends on the clock, so only the range that
/// `chrono` documents for the nanoseconds is claimed (below two seconds'
/// worth, a leap second included).
#[verifier::external_body]
fn utc_now() -> (now: (i64, u32))
    ensures
        now.1 < 2_000_000_000,
{
    let now = chrono::Utc::now();
    (now.timestamp(), now.timestamp_subsec_nanos())
}

/// How to wait out rate limiting: the seconds to sleep and the notice to
/// print first.
#[derive(Debug)]
pub struct RateLimitPause {
    /// Seconds to sleep.
    pub seconds: u64,
    /// Notice to print before sleeping.
    pub notice: String,
}

/// The pause for a rate limit resetting at `reset_secs`, seen from the
/// instant `now_secs` seconds and `now_nanos` nanoseconds after the epoch,
/// given how the reset time and the current time are rendered. When the
/// reset time cannot be represented, the wait is measured to the current
/// instant instead, which leaves the buffer alone.
pub open spec fn pause_plan_spec(
    reset_secs: i64,
    now_secs: i64,
    now_nanos: u32,
    reset_pretty: Option<Seq<char>>,
    now_pretty: Option<Seq<char>>,
) -> (int, Seq<char>) {
    match reset_pretty {
        Some(p) => (pause_seconds_spec(reset_secs, now_secs, now_nanos), reset_notice_spec(p)),
        None => (
            RATE_LIMIT_BUFFER as int,
            reset_notice_spec(
                match now_pretty {
                    Some(q) => q,
                    None => Seq::empty(),
                },
            ),
        ),
    }
}

/// Plans the wait for a rate limit from the reset time, the current
/// instant and their renderings.
pub fn plan_rate_limit_pause(
    reset_secs: i64,
    now_secs: i64,
    now_nanos: u32,
    reset_pretty: Option<String>,
    now_pretty: Option<String>,
) -> (pause: RateLimitPause)
    requires
        now_nanos < 2_000_000_000,
    ensures
        (pause.seconds as int, pause.notice@) == pause_plan_spec(
            reset_secs,
            now_secs,
            now_nanos,
            match reset_pretty {
                Some(p) => Some(p@),
                None => None,
            },
            match now_pretty {
                Some(q) => Some(q@),
                None => None,
            },
        ),
{
    match reset_pretty {
        Some(p) => RateLimitPause {
            seconds: pause_seconds(reset_secs, now_secs, now_nanos),
            notice: reset_notice(p.as_str()),
        },
        None => {
            let shown = match now_pretty {
                Some(q) => q,
                None => String::new(),
            };
            RateLimitPause { seconds: RATE_LIMIT_BUFFER, notice: reset_notice(shown.as_str()) }
        },
    }
}

/// The wait for a rate limit that resets at `reset_secs` (seconds since
/// the epoch, as GitHub's rate-limit endpoint reports it), measured from
/// now.
pub fn rate_limit_pause(reset_secs: i64) -> (pause: RateLimitPause)
    ensures
        exists|now_secs: i64, now_nanos: u32|
            now_nanos < 2_000_000_000 && (pause.seconds as int, pause.notice@) == pause_plan_spec(
                reset_secs,
                now_secs,
                now_nanos,
                utc_formatted(reset_secs as int, reset_time_pattern()),
                utc_formatted(now_secs as int, reset_time_pattern()),
            ),
{
    let pattern = "%m/%d/%Y, %H:%M:%S";
    let reset_pretty = format_utc_timestamp(reset_secs, pattern);
    let (now_secs, now_nanos) = utc_now();
    let now_pretty = format_utc_timestamp(now_secs, pattern);
    plan_rate_limit_pause(reset_secs, now_secs, now_nanos, reset_pretty, now_pretty)
}

/// How to wait out rate limiting given what the rate-limit endpoint
/// reported: until the reported reset time (see `rate_limit_pause`), or,
/// when the endpoint could not be read (`None`), the fixed backoff.
pub fn rate_limit_wait(reset_secs: Option<i64>) -> (pause: RateLimitPause)
    ensures
        reset_secs is None ==> pause.seconds == RATE_LIMIT_BACKOFF && pause.notice@
            == backoff_notice_spec(),
        reset_secs matches Some(r) ==> exists|now_secs: i64, now_nanos: u32|
            now_nanos < 2_000_000_000 && (pause.seconds as int, pause.notice@) == pause_plan_spec(
                r,
                now_secs,
                now_nanos,
                utc_formatted(r as int, reset_time_pattern()),
                utc_formatted(now_secs as int, reset_time_pattern()),
            ),
{
    match reset_secs {
        Some(r) => rate_limit_pause(r),
        None => RateLimitPause { seconds: RATE_LIMIT_BACKOFF, notice: backoff_notice() },
    }
}

} // verus!

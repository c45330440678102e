//! The decisions of Miasma's request handler: whether a request is admitted,
//! whether its response is gzipped, how deep the scraper is, which user
//! agent to count, and which links to serve.
use vstd::prelude::*;

use crate::config::MiasmaConfig;
use crate::poison::link_settings::{at_max_depth, LinkSettings};
use crate::text::{ascii_lower, chars_of, eq_ignore_ascii_case, range_eq_ignore_ascii_case};

verus! {

/// The query parameter that carries the scraper's current depth.
/// We use 'page' instead of depth to look more convincing to scrapers.
pub const CURRENT_DEPTH_QUERY_PARAM: &'static str = "page";

/// The depth of a request that names none.
pub const DEFAULT_DEPTH: u32 = 1;

/// Seconds after which a refused client may retry.
pub const RETRY_AFTER_SECONDS: u32 = 5;

/// The user agent counted for a request without a User-Agent header.
pub const NO_USER_AGENT: &'static str = "NO-USER-AGENT";

/// The user agent counted for a request whose User-Agent header is not text.
pub const INVALID_USER_AGENT: &'static str = "INVALID-USER-AGENT-STRING";

/// The Accept-Encoding token that asks for gzip.
pub const GZIP_TOKEN: &'static str = "gzip";

/// Query parameters of a poison request.
#[derive(Debug, Clone, Copy, PartialEq, Eq, Structural)]
pub struct QueryParams {
    /// The scraper's current depth.
    pub page: Option<u32>,
}

// ---------------------------------------------------------------------------
// Accept-Encoding

/// A white space character (`char::is_whitespace`: the Unicode White_Space property).
pub open spec fn is_whitespace(c: char) -> bool {
    let v = c as u32;
    (0x9 <= v && v <= 0xD) || v == 0x20 || v == 0x85 || v == 0xA0 || v == 0x1680
        || (0x2000 <= v && v <= 0x200A) || v == 0x2028 || v == 0x2029 || v == 0x202F
        || v == 0x205F || v == 0x3000
}

/// A text without its leading white space.
pub open spec fn trim_start(s: Seq<char>) -> Seq<char>
    decreases s.len(),
{
    if s.len() > 0 && is_whitespace(s[0]) {
        trim_start(s.drop_first())
    } else {
        s
    }
}

/// A text without its trailing white space.
pub open spec fn trim_end(s: Seq<char>) -> Seq<char>
    decreases s.len(),
{
    if s.len() > 0 && is_whitespace(s.last()) {
        trim_end(s.drop_last())
    } else {
        s
    }
}

/// A text without its leading and trailing white space (`str::trim`).
pub open spec fn trim(s: Seq<char>) -> Seq<char> {
    trim_end(trim_start(s))
}

/// `h[i..j]` is one of the comma-separated fields of `h`.
pub open spec fn is_field(h: Seq<char>, i: int, j: int) -> bool {
    &&& 0 <= i <= j <= h.len()
    &&& (i == 0 || h[i - 1] == ',')
    &&& (j == h.len() || h[j] == ',')
    &&& forall|k: int| i <= k < j ==> h[k] != ','
}

/// An Accept-Encoding value names gzip: one of its comma-separated fields,
/// trimmed, is "gzip" in any ASCII case.
pub open spec fn names_gzip(h: Seq<char>) -> bool {
    exists|i: int, j: int|
        is_field(h, i, j) && eq_ignore_ascii_case(trim(#[trigger] h.subrange(i, j)), GZIP_TOKEN@)
}

/// Skipping white space at the front of a text.
proof fn lemma_trim_start(s: Seq<char>, a: int)
    requires
        0 <= a <= s.len(),
        forall|k: int| 0 <= k < a ==> is_whitespace(s[k]),
        a == s.len() || !is_whitespace(s[a]),
    ensures
        trim_start(s) == s.subrange(a, s.len() as int),
    decreases a,
{
    if a == 0 {
        assert(s.subrange(0, s.len() as int) =~= s);
    } else {
        lemma_trim_start(s.drop_first(), a - 1);
        assert(s.drop_first().subrange(a - 1, s.len() - 1) =~= s.subrange(a, s.len() as int));
    }
}

/// Skipping white space at the back of a text.
proof fn lemma_trim_end(s: Seq<char>, b: int)
    requires
        0 <= b <= s.len(),
        forall|k: int| b <= k < s.len() ==> is_whitespace(s[k]),
        b == 0 || !is_whitespace(s[b - 1]),
    ensures
        trim_end(s) == s.subrange(0, b),
    decreases s.len() - b,
{
    if b == s.len() {
        assert(s.subrange(0, b) =~= s);
    } else {
        lemma_trim_end(s.drop_last(), b);
        assert(s.drop_last().subrange(0, b) =~= s.subrange(0, b));
    }
}

/// Whether a character is white space (`char::is_whitespace`).
fn char_is_whitespace(c: char) -> (r: bool)
    ensures
        r == is_whitespace(c),
{
    let v = c as u32;
    (0x9 <= v && v <= 0xD) || v == 0x20 || v == 0x85 || v == 0xA0 || v == 0x1680
        || (0x2000 <= v && v <= 0x200A) || v == 0x2028 || v == 0x2029 || v == 0x202F
        || v == 0x205F || v == 0x3000
}

/// Whether an Accept-Encoding value names gzip, case aside, among its
/// comma-separated fields.
pub fn accepts_gzip(header: &str) -> (r: bool)
    ensures
        r == names_gzip(header@),
{
    let h = chars_of(header);
    let gzip = chars_of(GZIP_TOKEN);
    let n = h.len();
    let mut start: usize = 0;
    loop
        invariant
            h@ == header@,
            gzip@ == GZIP_TOKEN@,
            n == h@.len(),
            start <= n,
            start == 0 || h@[start - 1] == ',',
            forall|i: int, j: int|
                is_field(h@, i, j) && i < start ==> !eq_ignore_ascii_case(
                    trim(#[trigger] h@.subrange(i, j)),
                    GZIP_TOKEN@,
                ),
        decreases n - start,
    {
        // The field runs from `start` to the next ',' or the end.
        let mut end = start;
        while end < n && h[end] != ','
            invariant
                start <= end <= n,
                n == h@.len(),
                forall|k: int| start <= k < end ==> h@[k] != ',',
            decreases n - end,
        {
            end = end + 1;
        }
        // Trim it.
        let mut a = start;
        while a < end && char_is_whitespace(h[a])
            invariant
                start <= a <= end <= n,
                n == h@.len(),
                forall|k: int| start <= k < a ==> is_whitespace(h@[k]),
            decreases end - a,
        {
            a = a + 1;
        }
        let mut b = end;
        while b > a && char_is_whitespace(h[b - 1])
            invariant
                start <= a <= b <= end <= n,
                n == h@.len(),
                forall|k: int| b <= k < end ==> is_whitespace(h@[k]),
            decreases b - a,
        {
            b = b - 1;
        }
        let found = range_eq_ignore_ascii_case(&h, a, b, &gzip);
        proof {
            let f = h@.subrange(start as int, end as int);
            lemma_trim_start(f, a - start);
            let g = trim_start(f);
            assert(g =~= h@.subrange(a as int, end as int));
            lemma_trim_end(g, b - a);
            assert(trim(f) =~= h@.subrange(a as int, b as int));
            assert(is_field(h@, start as int, end as int));
            assert forall|i: int, j: int|
                is_field(h@, i, j) && i < end + 1 && !(i < start) implies i == start && j == end by {
                if i > start {
                    assert(h@[i - 1] == ',');
                }
                if j < end {
                    assert(h@[j] == ',');
                }
                if j > end {
                    assert(h@[end as int] == ',');
                }
            }
        }
        if found {
            return true;
        }
        if end == n {
            proof {
                assert forall|i: int, j: int| is_field(h@, i, j) implies !eq_ignore_ascii_case(
                    trim(#[trigger] h@.subrange(i, j)),
                    GZIP_TOKEN@,
                ) by {
                    if i >= start {
                        if i > start {
                            assert(h@[i - 1] == ',');
                        }
                        if j < end {
                            assert(h@[j] == ',');
                        }
                    }
                }
            }
            return false;
        }
        start = end + 1;
    }
}

// ---------------------------------------------------------------------------
// The request plan

/// The outcome of trying to take one of the in-flight permits.
#[derive(Debug, Clone, Copy, PartialEq, Eq, Structural)]
pub enum PermitOutcome {
    /// A permit was taken.
    Acquired,
    /// All permits are taken.
    NoPermits,
    /// The permits are gone for good.
    Closed,
}

/// How the response to one poison request is served.
#[derive(Debug)]
pub struct ServePlan {
    /// Gzip the response.
    pub gzip: bool,
    /// The links of the response.
    pub link_settings: LinkSettings,
    /// The user agent to count, when metrics are enabled.
    pub count_user_agent: Option<String>,
}

/// What the handler does with a poison request.
#[derive(Debug)]
pub enum RequestPlan {
    /// Refuse it with 429 Too Many Requests and a Retry-After of
    /// `RETRY_AFTER_SECONDS` seconds.
    TooManyRequests,
    /// Answer it with 500 Internal Server Error.
    InternalError,
    /// Serve poison.
    Serve(ServePlan),
}

/// The depth of a request: its 'page' query parameter, or `DEFAULT_DEPTH`
/// when it has none or the query does not parse.
pub open spec fn current_depth_spec(query: Option<QueryParams>) -> u32 {
    match query {
        Some(QueryParams { page: Some(p) }) => p,
        _ => DEFAULT_DEPTH,
    }
}

/// The depth of a request.
pub fn current_depth(query: Option<QueryParams>) -> (r: u32)
    ensures
        r == current_depth_spec(query),
{
    match query {
        Some(QueryParams { page: Some(p) }) => p,
        _ => DEFAULT_DEPTH,
    }
}

/// The user agent counted for a request: the header's text; a fixed label
/// when the header is absent (`None`) or is not text (`Some(None)`).
pub open spec fn user_agent_spec(header: Option<Option<&str>>) -> Seq<char> {
    match header {
        None => NO_USER_AGENT@,
        Some(None) => INVALID_USER_AGENT@,
        Some(Some(t)) => t@,
    }
}

/// The user agent counted for a request.
pub fn user_agent_label<'a>(header: Option<Option<&'a str>>) -> (r: &'a str)
    ensures
        r@ == user_agent_spec(header),
{
    match header {
        None => NO_USER_AGENT,
        Some(None) => INVALID_USER_AGENT,
        Some(Some(t)) => t,
    }
}

/// Whether a response is gzipped: always when forced, otherwise when the
/// request's Accept-Encoding names gzip.
pub open spec fn gzip_spec(force_gzip: bool, accept_encoding: Option<&str>) -> bool {
    force_gzip || (accept_encoding matches Some(h) && names_gzip(h@))
}

/// Plans the handling of one poison request: refuse it when no in-flight
/// permit is left (429) or the permits are closed (500); otherwise serve
/// poison, gzipped as `gzip_spec` says, with the links of the request's depth,
/// counting its user agent when metrics are enabled.
///
/// `accept_encoding` is the Accept-Encoding header as text (empty when it is
/// not text); `user_agent` is the User-Agent header as `user_agent_spec` reads it.
pub fn plan_request(
    config: &MiasmaConfig,
    permit: PermitOutcome,
    accept_encoding: Option<&str>,
    query: Option<QueryParams>,
    user_agent: Option<Option<&str>>,
    metrics_enabled: bool,
) -> (r: RequestPlan)
    ensures
        permit == PermitOutcome::NoPermits ==> r is TooManyRequests,
        permit == PermitOutcome::Closed ==> r is InternalError,
        permit == PermitOutcome::Acquired ==> (r matches RequestPlan::Serve(plan) && {
            let depth = current_depth_spec(query);
            &&& plan.gzip == gzip_spec(config.force_gzip, accept_encoding)
            &&& (plan.link_settings is NoLinks <==> at_max_depth(config.max_depth, depth))
            &&& (plan.link_settings matches LinkSettings::Links(l) ==> {
                &&& l.count == config.link_count
                &&& l.prefix.value() == config.link_prefix.value()
                &&& l.next_depth == match config.max_depth {
                    Some(_) => Some((depth + 1) as u32),
                    None => None::<u32>,
                }
            })
            &&& (plan.count_user_agent is Some <==> metrics_enabled)
            &&& (metrics_enabled ==> plan.count_user_agent->0@ == user_agent_spec(user_agent))
        }),
{
    match permit {
        PermitOutcome::NoPermits => RequestPlan::TooManyRequests,
        PermitOutcome::Closed => RequestPlan::InternalError,
        PermitOutcome::Acquired => {
            let gzip = config.force_gzip || match accept_encoding {
                Some(h) => accepts_gzip(h),
                None => false,
            };
            let depth = current_depth(query);
            let count_user_agent = if metrics_enabled {
                Some(<String as StringExecFns>::from_str(user_agent_label(user_agent)))
            } else {
                None
            };
            let link_settings = LinkSettings::next(config, depth);
            RequestPlan::Serve(ServePlan { gzip, link_settings, count_user_agent })
        },
    }
}

/// Forced gzip ignores the request: with `force_gzip` every response is
/// gzipped, whatever the Accept-Encoding header holds or whether it is there.
/// Without it, a request with no Accept-Encoding header is never gzipped, and
/// one whose header is exactly "gzip" always is.
pub proof fn lemma_gzip_decision(force_gzip: bool, accept_encoding: Option<&str>, h: &str)
    ensures
        force_gzip ==> gzip_spec(force_gzip, accept_encoding),
        !gzip_spec(false, None),
        h@ == GZIP_TOKEN@ ==> gzip_spec(false, Some(h)),
{
    if h@ == GZIP_TOKEN@ {
        reveal_strlit("gzip");
        let s = h@;
        assert(is_field(s, 0, s.len() as int));
        assert(s.subrange(0, s.len() as int) =~= s);
        assert(!is_whitespace(s[0]));
        assert(!is_whitespace(s.last()));
        assert(trim_start(s) == s);
        assert(trim_end(s) == s);
        assert(eq_ignore_ascii_case(trim(s.subrange(0, s.len() as int)), GZIP_TOKEN@));
    }
}

} // verus!

//! The command line arguments of the server, and the configuration they give.
use vstd::prelude::*;

use crate::poison::link_settings::at_max_depth;

use crate::config::{
    address_spec, host_port, normalize_prefix, LinkPrefix, MaxDepth, MetricsConfig as Metrics,
    MetricsCredentials, MiasmaConfig,
};

verus! {

/// Metrics arguments.  When this value is given, its database path and
/// credentials are given too.
#[derive(Debug, Clone)]
pub struct MetricsConfig {
    /// Path to SQLite database file (e.g. 'miasma.db').
    pub metrics_db_path: Option<String>,
    /// Basic auth credentials required to access request metrics.
    pub metrics_credentials: Option<MetricsCredentials>,
    /// Endpoint at which request metrics will be served.
    pub metrics_endpoint: String,
}

/// The server's command line arguments.
#[derive(Debug, Clone)]
pub struct AppArgs {
    /// Port to listen for requests.
    pub port: u16,
    /// Host to listen for requests.
    pub host: String,
    /// Bind to the specified Unix socket rather than a TCP address.
    pub unix_socket: Option<String>,
    /// Maximum number of in-flight requests.
    pub max_in_flight: u32,
    /// Prefix for embedded links.
    pub link_prefix: String,
    /// Number of links to include in each response.
    pub link_count: u8,
    /// Stop generating links after the scraper reaches the specified depth.
    pub max_depth: MaxDepth,
    /// Always gzip responses regardless of client's Accept-Encoding header.
    pub force_gzip: bool,
    /// Don't escape HTML characters in the poison source's responses.
    pub unsafe_allow_html: bool,
    /// Poisoned training data source.
    pub poison_source: url::Url,
    /// Metrics options, when given.
    pub metrics: Option<MetricsConfig>,
}

/// The metrics arguments are complete: a database path and credentials.
pub open spec fn metrics_args_complete(m: Option<MetricsConfig>) -> bool {
    m matches Some(c) ==> c.metrics_db_path is Some && c.metrics_credentials is Some
}

/// A copy of an optional string.
fn copy_opt_string(s: &Option<String>) -> (r: Option<String>)
    ensures
        r is Some <==> s is Some,
        r is Some ==> r->0@ == s->0@,
{
    match s {
        Some(v) => Some(v.clone()),
        None => None,
    }
}

impl AppArgs {
    /// The configuration these arguments give: the same settings, the link
    /// prefix made to start and end with '/', and the metrics settings taken
    /// from the metrics arguments.
    pub fn to_miasma_config(&self) -> (r: MiasmaConfig)
        requires
            metrics_args_complete(self.metrics),
        ensures
            r.port == self.port,
            r.host@ == self.host@,
            r.unix_socket is Some <==> self.unix_socket is Some,
            r.unix_socket is Some ==> r.unix_socket->0@ == self.unix_socket->0@,
            r.max_in_flight == self.max_in_flight,
            r.link_prefix.value() == normalize_prefix(self.link_prefix@),
            r.link_count == self.link_count,
            r.max_depth == self.max_depth.0,
            r.force_gzip == self.force_gzip,
            r.unsafe_allow_html == self.unsafe_allow_html,
            r.poison_source == self.poison_source,
            r.metrics is Some <==> self.metrics is Some,
            self.metrics matches Some(m) ==> {
                &&& r.metrics->0.db_path@ == m.metrics_db_path->0@
                &&& r.metrics->0.endpoint@ == m.metrics_endpoint@
                &&& r.metrics->0.credentials.username_spec() == m.metrics_credentials->0.username_spec()
                &&& r.metrics->0.credentials.password_spec() == m.metrics_credentials->0.password_spec()
            },
    {
        let metrics = match &self.metrics {
            Some(m) => match (&m.metrics_db_path, &m.metrics_credentials) {
                (Some(db_path), Some(credentials)) => Some(
                    Metrics {
                        db_path: db_path.clone(),
                        endpoint: m.metrics_endpoint.clone(),
                        credentials: credentials.duplicate(),
                    },
                ),
                _ => None,
            },
            None => None,
        };
        MiasmaConfig {
            port: self.port,
            host: self.host.clone(),
            unix_socket: copy_opt_string(&self.unix_socket),
            max_in_flight: self.max_in_flight,
            link_prefix: LinkPrefix::new(self.link_prefix.as_str()),
            link_count: self.link_count,
            max_depth: self.max_depth.0,
            force_gzip: self.force_gzip,
            unsafe_allow_html: self.unsafe_allow_html,
            poison_source: self.poison_source.clone(),
            metrics,
        }
    }

    /// Get the full 'host:port' address.
    pub fn address(&self) -> (r: String)
        ensures
            r@ == address_spec(self.host@, self.port),
    {
        host_port(&self.host, self.port)
    }
}

/// The pages a scraper that follows every link reads from a page at depth
/// `depth` on: the page itself and, below the maximum depth, the pages behind
/// its `link_count` links, one level deeper (as `LinkSettings::next` serves them).
pub open spec fn pages_from(link_count: nat, depth: nat, max_depth: nat) -> nat
    decreases max_depth - depth,
{
    if depth >= max_depth {
        1
    } else {
        1 + link_count * pages_from(link_count, depth + 1, max_depth)
    }
}

/// The pages each scraper consumes when it follows every link, from a first
/// page at depth 1 down to the maximum depth.
pub open spec fn pages_per_bot(link_count: u8, max_depth: u32) -> nat {
    pages_from(link_count as nat, 1, max_depth as nat)
}

/// The count follows the links that `LinkSettings::next` serves: a page at
/// or past the maximum depth has no links, and any other page has
/// `link_count` links to pages one level deeper.
pub proof fn lemma_pages_follow_link_settings(link_count: u8, depth: u32, max_depth: u32)
    ensures
        pages_from(link_count as nat, depth as nat, max_depth as nat) == if at_max_depth(Some(max_depth), depth) {
            1
        } else {
            1 + link_count * pages_from(link_count as nat, (depth + 1) as nat, max_depth as nat)
        },
{
}

/// With one link per page, a scraper reads one page per level.
proof fn lemma_pages_one_link(depth: nat, max_depth: nat)
    requires
        depth <= max_depth,
    ensures
        pages_from(1, depth, max_depth) == max_depth - depth + 1,
    decreases max_depth - depth,
{
    if depth < max_depth {
        lemma_pages_one_link(depth + 1, max_depth);
    }
}

/// With at least one link per page, starting higher reads no fewer pages.
proof fn lemma_pages_grow_upward(link_count: nat, depth: nat, max_depth: nat)
    requires
        link_count >= 1,
        1 <= depth <= max_depth,
    ensures
        pages_from(link_count, 1, max_depth) >= pages_from(link_count, depth, max_depth),
    decreases depth,
{
    if depth > 1 {
        lemma_pages_grow_upward(link_count, (depth - 1) as nat, max_depth);
        let below = pages_from(link_count, depth, max_depth);
        assert(link_count * below >= below) by (nonlinear_arith)
            requires
                link_count >= 1,
        ;
    }
}

/// The pages each scraper consumes when it follows every link, or `None`
/// when that number does not fit in a `u64`.
pub fn page_count_per_bot(link_count: u8, max_depth: u32) -> (r: Option<u64>)
    ensures
        match r {
            Some(n) => n == pages_per_bot(link_count, max_depth),
            None => pages_per_bot(link_count, max_depth) > u64::MAX,
        },
{
    if max_depth <= 1 {
        return Some(1);
    }
    if link_count == 0 {
        return Some(1);
    }
    if link_count == 1 {
        proof {
            lemma_pages_one_link(1, max_depth as nat);
        }
        return Some(max_depth as u64);
    }
    let links: u64 = link_count as u64;
    let mut pages: u64 = 1;
    let mut depth: u32 = max_depth;
    while depth > 1
        invariant
            1 <= depth <= max_depth,
            links == link_count,
            links >= 2,
            pages == pages_from(links as nat, depth as nat, max_depth as nat),
        decreases depth,
    {
        depth = depth - 1;
        let next = match links.checked_mul(pages) {
            Some(p) => p.checked_add(1),
            None => None,
        };
        match next {
            Some(n) => {
                pages = n;
            },
            None => {
                proof {
                    lemma_pages_grow_upward(links as nat, depth as nat, max_depth as nat);
                }
                return None;
            },
        }
    }
    Some(pages)
}

} // verus!

//! The configuration report shown at startup: which lines it has and what
//! they say.  Each line is a list of pieces, each piece with the colour it is
//! shown in; printing it is left to the caller.
use vstd::prelude::*;

use crate::cli::{metrics_args_complete, page_count_per_bot, pages_per_bot, AppArgs};
use crate::config::{address_spec, MaxDepth, MASKED_PASSWORD, NO_MAX_DEPTH};
use crate::text::{decimal, write_decimal};

verus! {

/// How a piece of the report is shown.
#[derive(Debug, Clone, Copy, PartialEq, Eq, Structural)]
pub enum Tint {
    /// As it is.
    Plain,
    /// In blue: a configured value.
    Blue,
    /// In red: a warning.
    Red,
    /// In green: a figure that came out well.
    Green,
}

/// A piece of a report line.
#[derive(Debug)]
pub struct Piece {
    /// The text of the piece.
    pub text: String,
    /// How it is shown.
    pub tint: Tint,
}

/// The text and tint of each piece of a line.
pub open spec fn piece_views(line: Seq<Piece>) -> Seq<(Seq<char>, Tint)> {
    line.map_values(|p: Piece| (p.text@, p.tint))
}

/// The pieces of each line of a report.
pub open spec fn report_views(lines: Seq<Vec<Piece>>) -> Seq<Seq<(Seq<char>, Tint)>> {
    lines.map_values(|l: Vec<Piece>| piece_views(l@))
}

/// A plain piece.
pub open spec fn plain(s: Seq<char>) -> (Seq<char>, Tint) {
    (s, Tint::Plain)
}

/// A blue piece.
pub open spec fn blue(s: Seq<char>) -> (Seq<char>, Tint) {
    (s, Tint::Blue)
}

/// A green piece.
pub open spec fn green(s: Seq<char>) -> (Seq<char>, Tint) {
    (s, Tint::Green)
}

/// A red piece.
pub open spec fn red(s: Seq<char>) -> (Seq<char>, Tint) {
    (s, Tint::Red)
}

/// Opens the listening line.
pub const LISTENING_ON: &'static str = "Listening on ";

/// Between a place and what it holds, in the listening and serving lines.
pub const WITH: &'static str = " with ";

/// After the in-flight limit.
pub const MAX_IN_FLIGHT_REQUESTS: &'static str = " max in-flight requests";

/// Before forced gzip.
pub const AND: &'static str = " and ";

/// Forced gzip, when it is on.
pub const FORCED_GZIP: &'static str = "forced gzip compression";

/// Closes the listening and serving lines.
pub const ELLIPSIS: &'static str = "...";

/// Opens the serving line.
pub const SERVING_FROM: &'static str = "Serving poisoned training data from ";

/// Between the poison source and the link prefix.
pub const AT: &'static str = " at ";

/// Between the link count and the maximum depth.
pub const LINKS_AND_MAX_DEPTH: &'static str = " links per response and a max depth of ";

/// Opens the estimate line.
pub const ESTIMATE_START: &'static str = "Assuming all links are explored, each scraper will consume ";

/// The estimate when there is no maximum depth.
pub const INFINITE: &'static str = "infinite";

/// The estimate when the page count does not fit in a `u64`.
pub const TOO_BIG: &'static str = "too big!";

/// Closes the estimate line.
pub const ESTIMATE_END: &'static str = " poison pages.";

/// Opens the escaping warning.
pub const WARNING: &'static str = "Warning:";

/// The rest of the escaping warning.
pub const ESCAPING_DISABLED: &'static str = " HTML escaping is disabled...";

/// Opens the metrics endpoint line.
pub const METRICS_AT: &'static str = "Request metrics are available at ";

/// Between the metrics endpoint and the credentials.
pub const WITH_CREDENTIALS: &'static str = " with credentials ";

/// Closes the metrics lines.
pub const PERIOD: &'static str = ".";

/// Opens the metrics database line.
pub const METRICS_DB_AT: &'static str = "Metrics will be written to the SQLite database at ";

/// The line when metrics are off.
pub const METRICS_DISABLED: &'static str = "Metrics are disabled and will not be collected...";

/// Where the server listens, the number of in-flight requests it admits, and
/// forced gzip when it is on.
pub open spec fn listening_line(binding: Seq<char>, max_in_flight: u32, force_gzip: bool) -> Seq<(Seq<char>, Tint)> {
    seq![plain(LISTENING_ON@), blue(binding), plain(WITH@), blue(decimal(max_in_flight as nat)), plain(MAX_IN_FLIGHT_REQUESTS@)]
        + (if force_gzip { seq![plain(AND@), blue(FORCED_GZIP@)] } else { Seq::empty() })
        + seq![plain(ELLIPSIS@)]
}

/// The text of a maximum depth: its decimal value, or "none".
pub open spec fn max_depth_text(d: MaxDepth) -> Seq<char> {
    match d.0 {
        Some(v) => decimal(v as nat),
        None => NO_MAX_DEPTH@,
    }
}

/// The poison source, the link prefix, the links per response and the maximum depth.
pub open spec fn serving_line(poison_source: Seq<char>, link_prefix: Seq<char>, link_count: u8, max_depth: MaxDepth) -> Seq<(Seq<char>, Tint)> {
    seq![
        plain(SERVING_FROM@),
        blue(poison_source),
        plain(AT@),
        blue(link_prefix),
        plain(WITH@),
        blue(decimal(link_count as nat)),
        plain(LINKS_AND_MAX_DEPTH@),
        blue(max_depth_text(max_depth)),
        plain(ELLIPSIS@),
    ]
}

/// The estimate of the pages each scraper consumes: "infinite" without a
/// maximum depth; otherwise the page count, or "too big!" when it does not
/// fit in a `u64`.
pub open spec fn estimate_piece(link_count: u8, max_depth: MaxDepth) -> (Seq<char>, Tint) {
    match max_depth.0 {
        None => blue(INFINITE@),
        Some(d) => if pages_per_bot(link_count, d) <= u64::MAX {
            green(decimal(pages_per_bot(link_count, d)))
        } else {
            red(TOO_BIG@)
        },
    }
}

/// The pages each scraper consumes when it follows every link.
pub open spec fn estimate_line(link_count: u8, max_depth: MaxDepth) -> Seq<(Seq<char>, Tint)> {
    seq![plain(ESTIMATE_START@), estimate_piece(link_count, max_depth), plain(ESTIMATE_END@)]
}

/// The warning that HTML escaping is off.
pub open spec fn escaping_warning_line() -> Seq<(Seq<char>, Tint)> {
    seq![red(WARNING@), plain(ESCAPING_DISABLED@)]
}

/// Where the metrics are served, with the credentials' password masked.
pub open spec fn metrics_at_line(endpoint: Seq<char>, username: Seq<char>) -> Seq<(Seq<char>, Tint)> {
    seq![
        plain(METRICS_AT@),
        blue(endpoint),
        plain(WITH_CREDENTIALS@),
        blue(username + seq![':'] + MASKED_PASSWORD@),
        plain(PERIOD@),
    ]
}

/// Where the metrics are stored.
pub open spec fn metrics_db_line(db_path: Seq<char>) -> Seq<(Seq<char>, Tint)> {
    seq![plain(METRICS_DB_AT@), blue(db_path), plain(PERIOD@)]
}

/// The report of a configuration: where it listens (the Unix socket, or
/// 'host:port'); what it serves; the estimate of pages per scraper; the
/// warning when HTML escaping is off; and the
/// metrics settings, or that metrics are disabled.
pub open spec fn report_spec(args: AppArgs, poison_source: Seq<char>) -> Seq<Seq<(Seq<char>, Tint)>> {
    let binding = match args.unix_socket {
        Some(s) => s@,
        None => address_spec(args.host@, args.port),
    };
    seq![
        listening_line(binding, args.max_in_flight, args.force_gzip),
        serving_line(poison_source, args.link_prefix@, args.link_count, args.max_depth),
        estimate_line(args.link_count, args.max_depth),
    ] + (
    if args.unsafe_allow_html {
        seq![escaping_warning_line()]
    } else {
        Seq::empty()
    }) + match args.metrics {
        Some(m) => seq![
            metrics_at_line(m.metrics_endpoint@, m.metrics_credentials->0.username_spec()),
            metrics_db_line(m.metrics_db_path->0@),
        ],
        None => seq![seq![plain(METRICS_DISABLED@)]],
    }
}

/// A piece with the given text.
fn piece(text: &str, tint: Tint) -> (r: Piece)
    ensures
        r.text@ == text@,
        r.tint == tint,
{
    Piece { text: <String as StringExecFns>::from_str(text), tint }
}

/// The decimal notation of `n`.
fn decimal_text(n: u32) -> (r: String)
    ensures
        r@ == decimal(n as nat),
{
    let mut r = String::new();
    write_decimal(&mut r, n as u128);
    assert(r@ =~= decimal(n as nat));
    r
}

impl AppArgs {
    /// The configuration report, line by line; `poison_source` is the poison
    /// source's URL as text.
    pub fn config_report(&self, poison_source: &str) -> (r: Vec<Vec<Piece>>)
        requires
            metrics_args_complete(self.metrics),
        ensures
            report_views(r@) == report_spec(*self, poison_source@),
    {
        let binding = match &self.unix_socket {
            Some(s) => s.clone(),
            None => self.address(),
        };
        let mut listening: Vec<Piece> = Vec::new();
        listening.push(piece(LISTENING_ON, Tint::Plain));
        listening.push(Piece { text: binding, tint: Tint::Blue });
        listening.push(piece(WITH, Tint::Plain));
        listening.push(Piece { text: decimal_text(self.max_in_flight), tint: Tint::Blue });
        listening.push(piece(MAX_IN_FLIGHT_REQUESTS, Tint::Plain));
        if self.force_gzip {
            listening.push(piece(AND, Tint::Plain));
            listening.push(piece(FORCED_GZIP, Tint::Blue));
        }
        listening.push(piece(ELLIPSIS, Tint::Plain));
        let ghost binding_view = if self.unix_socket is Some {
            self.unix_socket->0@
        } else {
            address_spec(self.host@, self.port)
        };
        assert(piece_views(listening@) =~= listening_line(binding_view, self.max_in_flight, self.force_gzip));

        let mut serving: Vec<Piece> = Vec::new();
        serving.push(piece(SERVING_FROM, Tint::Plain));
        serving.push(piece(poison_source, Tint::Blue));
        serving.push(piece(AT, Tint::Plain));
        serving.push(Piece { text: self.link_prefix.clone(), tint: Tint::Blue });
        serving.push(piece(WITH, Tint::Plain));
        serving.push(Piece { text: decimal_text(self.link_count as u32), tint: Tint::Blue });
        serving.push(piece(LINKS_AND_MAX_DEPTH, Tint::Plain));
        serving.push(Piece { text: self.max_depth.to_string(), tint: Tint::Blue });
        serving.push(piece(ELLIPSIS, Tint::Plain));
        assert(piece_views(serving@) =~= serving_line(poison_source@, self.link_prefix@, self.link_count, self.max_depth));

        let mut r: Vec<Vec<Piece>> = Vec::new();
        r.push(listening);
        r.push(serving);
        let mut estimate: Vec<Piece> = Vec::new();
        estimate.push(piece(ESTIMATE_START, Tint::Plain));
        match self.max_depth.0 {
            None => estimate.push(piece(INFINITE, Tint::Blue)),
            Some(d) => match page_count_per_bot(self.link_count, d) {
                Some(n) => {
                    let mut text = String::new();
                    write_decimal(&mut text, n as u128);
                    assert(text@ =~= decimal(pages_per_bot(self.link_count, d)));
                    estimate.push(Piece { text, tint: Tint::Green });
                },
                None => estimate.push(piece(TOO_BIG, Tint::Red)),
            },
        }
        estimate.push(piece(ESTIMATE_END, Tint::Plain));
        assert(piece_views(estimate@) =~= estimate_line(self.link_count, self.max_depth));
        r.push(estimate);
        let ghost head = report_views(r@);
        assert(head =~= seq![
            listening_line(binding_view, self.max_in_flight, self.force_gzip),
            serving_line(poison_source@, self.link_prefix@, self.link_count, self.max_depth),
            estimate_line(self.link_count, self.max_depth),
        ]);
        let mut warning_lines: Vec<Vec<Piece>> = Vec::new();
        if self.unsafe_allow_html {
            let mut warning: Vec<Piece> = Vec::new();
            warning.push(piece(WARNING, Tint::Red));
            warning.push(piece(ESCAPING_DISABLED, Tint::Plain));
            assert(piece_views(warning@) =~= escaping_warning_line());
            warning_lines.push(warning);
        }
        let ghost warning_views = report_views(warning_lines@);
        assert(warning_views =~= if self.unsafe_allow_html { seq![escaping_warning_line()] } else { Seq::empty() });
        let mut metrics_lines: Vec<Vec<Piece>> = Vec::new();
        match &self.metrics {
            Some(m) => match (&m.metrics_db_path, &m.metrics_credentials) {
                (Some(db_path), Some(credentials)) => {
                    let mut at: Vec<Piece> = Vec::new();
                    at.push(piece(METRICS_AT, Tint::Plain));
                    at.push(Piece { text: m.metrics_endpoint.clone(), tint: Tint::Blue });
                    at.push(piece(WITH_CREDENTIALS, Tint::Plain));
                    at.push(Piece { text: credentials.to_string(), tint: Tint::Blue });
                    at.push(piece(PERIOD, Tint::Plain));
                    let mut db: Vec<Piece> = Vec::new();
                    db.push(piece(METRICS_DB_AT, Tint::Plain));
                    db.push(Piece { text: db_path.clone(), tint: Tint::Blue });
                    db.push(piece(PERIOD, Tint::Plain));
                    assert(piece_views(at@) =~= metrics_at_line(m.metrics_endpoint@, credentials.username_spec()));
                    assert(piece_views(db@) =~= metrics_db_line(db_path@));
                    metrics_lines.push(at);
                    metrics_lines.push(db);
                    assert(report_views(metrics_lines@) =~= seq![
                        metrics_at_line(m.metrics_endpoint@, credentials.username_spec()),
                        metrics_db_line(db_path@),
                    ]);
                },
                _ => {},
            },
            None => {
                let mut disabled: Vec<Piece> = Vec::new();
                disabled.push(piece(METRICS_DISABLED, Tint::Plain));
                assert(piece_views(disabled@) =~= seq![plain(METRICS_DISABLED@)]);
                metrics_lines.push(disabled);
                assert(report_views(metrics_lines@) =~= seq![seq![plain(METRICS_DISABLED@)]]);
            },
        }
        let ghost metrics_views = report_views(metrics_lines@);
        r.append(&mut warning_lines);
        r.append(&mut metrics_lines);
        assert(report_views(r@) =~= head + warning_views + metrics_views);
        r
    }
}

} // verus!

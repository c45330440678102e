//! Miasma's configuration and the values that configure it: the link prefix,
//! the maximum link depth and the credentials that guard the metrics page.
use vstd::prelude::*;

use std::convert::Infallible;
use std::num::ParseIntError;
use std::str::FromStr;

use crate::text::{
    ascii_lower, chars_of, decimal, digit_char, eq_ignore_ascii_case, push_char, range_eq_ignore_ascii_case,
    string_from, write_decimal,
};

verus! {

#[verifier::external_type_specification]
#[verifier::external_body]
pub struct ExUrl(url::Url);

#[verifier::external_type_specification]
#[verifier::external_body]
pub struct ExParseIntError(ParseIntError);

/// Cloning a URL gives back the same URL (`<url::Url as Clone>::clone`, derived).
pub assume_specification[ <url::Url as Clone>::clone ](u: &url::Url) -> (r: url::Url)
    ensures
        r == *u,
;

// ---------------------------------------------------------------------------
// Link prefix

/// The prefix `s`, made to start and end with '/'.
pub open spec fn normalize_prefix(s: Seq<char>) -> Seq<char> {
    let started = if s.len() > 0 && s[0] == '/' { s } else { seq!['/'] + s };
    if started.last() == '/' { started } else { started.push('/') }
}

/// Link prefix validated to start and end with '/'.
#[derive(Debug, Clone, PartialEq, Eq)]
pub struct LinkPrefix(String);

impl LinkPrefix {
    /// The prefix's characters.
    pub closed spec fn value(&self) -> Seq<char> {
        self.0@
    }

    /// The prefix `s`, with '/' put in front when it does not start with one
    /// and at the end when it does not end with one.
    pub fn new(s: &str) -> (r: LinkPrefix)
        ensures
            r.value() == normalize_prefix(s@),
    {
        let cs = chars_of(s);
        let mut out = String::new();
        if cs.len() == 0 || cs[0] != '/' {
            push_char(&mut out, '/');
        }
        out.append(s);
        if cs.len() > 0 && cs[cs.len() - 1] != '/' {
            push_char(&mut out, '/');
        }
        proof {
            let started = if s@.len() > 0 && s@[0] == '/' { s@ } else { seq!['/'] + s@ };
            assert(s@.len() > 0 ==> started.last() == s@.last());
        }
        LinkPrefix(out)
    }

    /// A copy of this prefix.
    pub fn duplicate(&self) -> (r: LinkPrefix)
        ensures
            r.value() == self.value(),
    {
        LinkPrefix(self.0.clone())
    }

    /// The prefix as text.
    pub fn as_str(&self) -> (r: &str)
        ensures
            r@ == self.value(),
    {
        self.0.as_str()
    }

    /// The prefix as a new string (what `Display` writes).
    pub fn to_string(&self) -> (r: String)
        ensures
            r@ == self.value(),
    {
        self.0.clone()
    }
}

impl FromStr for LinkPrefix {
    type Err = Infallible;

    fn from_str(s: &str) -> (r: Result<Self, Self::Err>)
        ensures
            r matches Ok(p) && p.value() == normalize_prefix(s@),
    {
        Ok(LinkPrefix::new(s))
    }
}

// ---------------------------------------------------------------------------
// Maximum depth

/// A decimal digit.
pub open spec fn is_digit(c: char) -> bool {
    '0' <= c && c <= '9'
}

/// The value of a sequence of decimal digits.
pub open spec fn digits_value(d: Seq<char>) -> nat
    decreases d.len(),
{
    if d.len() == 0 {
        0
    } else {
        digits_value(d.drop_last()) * 10 + ((d.last() as int - '0' as int) as nat)
    }
}

/// What `u32::from_str` accepts and gives: an optional '+' followed by one or
/// more decimal digits whose value fits in a `u32`.
pub open spec fn parse_u32_spec(s: Seq<char>) -> Option<u32> {
    let d = if s.len() > 0 && s[0] == '+' { s.drop_first() } else { s };
    if d.len() > 0 && (forall|i: int| 0 <= i < d.len() ==> is_digit(#[trigger] d[i])) && digits_value(d) <= u32::MAX {
        Some(digits_value(d) as u32)
    } else {
        None
    }
}

/// Parses a decimal `u32` (`<u32 as FromStr>::from_str`).  As its
/// documentation says, the text must be an optional '+' followed by digits
/// only, and the value must fit.
#[verifier::external_body]
fn parse_u32(s: &str) -> (r: Result<u32, ParseIntError>)
    ensures
        r is Ok <==> parse_u32_spec(s@) is Some,
        r matches Ok(v) ==> parse_u32_spec(s@) == Some(v),
{
    s.parse::<u32>()
}

/// The text "none", case aside, that stands for no maximum depth.
pub const NO_MAX_DEPTH: &'static str = "none";

/// What the maximum depth setting gives for a text: `Some(None)` for "none"
/// in any ASCII case, `Some(Some(n))` for a number, `None` when it is neither.
pub open spec fn max_depth_spec(s: Seq<char>) -> Option<Option<u32>> {
    if eq_ignore_ascii_case(s, NO_MAX_DEPTH@) {
        Some(None)
    } else {
        match parse_u32_spec(s) {
            Some(v) => Some(Some(v)),
            None => None,
        }
    }
}

/// The depth after which no more links are generated, or none.
#[derive(Debug, Clone, Copy, PartialEq, Eq, Structural)]
pub struct MaxDepth(pub Option<u32>);

impl MaxDepth {
    /// Parses a maximum depth: "none" (in any ASCII case) or a `u32`.
    pub fn parse(s: &str) -> (r: Result<MaxDepth, ParseIntError>)
        ensures
            r is Ok <==> max_depth_spec(s@) is Some,
            r matches Ok(d) ==> max_depth_spec(s@) == Some(d.0),
    {
        let cs = chars_of(s);
        let none = chars_of(NO_MAX_DEPTH);
        if range_eq_ignore_ascii_case(&cs, 0, cs.len(), &none) {
            assert(cs@.subrange(0, cs@.len() as int) =~= s@);
            return Ok(MaxDepth(None));
        }
        assert(cs@.subrange(0, cs@.len() as int) =~= s@);
        match parse_u32(s) {
            Ok(v) => Ok(MaxDepth(Some(v))),
            Err(e) => Err(e),
        }
    }

    /// The depth as text: its decimal value, or "none" (what `Display` writes).
    pub fn to_string(&self) -> (r: String)
        ensures
            r@ == match self.0 {
                Some(v) => decimal(v as nat),
                None => NO_MAX_DEPTH@,
            },
    {
        match self.0 {
            Some(v) => {
                let mut s = String::new();
                write_decimal(&mut s, v as u128);
                assert(s@ =~= decimal(v as nat));
                s
            },
            None => <String as StringExecFns>::from_str(NO_MAX_DEPTH),
        }
    }
}

impl FromStr for MaxDepth {
    type Err = ParseIntError;

    fn from_str(s: &str) -> (r: Result<Self, Self::Err>)
        ensures
            r is Ok <==> max_depth_spec(s@) is Some,
            r matches Ok(d) ==> max_depth_spec(s@) == Some(d.0),
    {
        MaxDepth::parse(s)
    }
}

// ---------------------------------------------------------------------------
// Metrics credentials

/// Rejection of credentials without a ':' between username and password.
pub const CREDENTIALS_FORMAT_ERROR: &'static str = "credentials must match format '<username>:<password>'";

/// Rejection of credentials with an empty username.
pub const EMPTY_USERNAME_ERROR: &'static str = "username must not be empty";

/// Rejection of credentials with an empty password.
pub const EMPTY_PASSWORD_ERROR: &'static str = "password must not be empty";

/// `k` is the position of the first ':' in `s`.
pub open spec fn is_first_colon(s: Seq<char>, k: int) -> bool {
    &&& 0 <= k < s.len()
    &&& s[k] == ':'
    &&& forall|j: int| 0 <= j < k ==> s[j] != ':'
}

/// The position of the first ':' in `s` (meaningful when there is one).
pub open spec fn first_colon(s: Seq<char>) -> int {
    choose|k: int| is_first_colon(s, k)
}

/// Why a credentials text is refused.
pub enum CredentialsRefusal {
    /// There is no ':'.
    Format,
    /// Nothing before the first ':'.
    EmptyUsername,
    /// Nothing after the first ':'.
    EmptyPassword,
}

/// What a credentials text gives: the text before its first ':' as the
/// username and the text after it as the password, both non-empty.
pub open spec fn credentials_spec(s: Seq<char>) -> Result<(Seq<char>, Seq<char>), CredentialsRefusal> {
    if !(exists|k: int| is_first_colon(s, k)) {
        Err(CredentialsRefusal::Format)
    } else {
        let k = first_colon(s);
        if k == 0 {
            Err(CredentialsRefusal::EmptyUsername)
        } else if k == s.len() - 1 {
            Err(CredentialsRefusal::EmptyPassword)
        } else {
            Ok((s.subrange(0, k), s.subrange(k + 1, s.len() as int)))
        }
    }
}

/// The message for each refusal.
pub open spec fn refusal_message(r: CredentialsRefusal) -> Seq<char> {
    match r {
        CredentialsRefusal::Format => CREDENTIALS_FORMAT_ERROR@,
        CredentialsRefusal::EmptyUsername => EMPTY_USERNAME_ERROR@,
        CredentialsRefusal::EmptyPassword => EMPTY_PASSWORD_ERROR@,
    }
}

/// The standard base64 encoding, with padding, of the UTF-8 bytes of a text.
pub uninterp spec fn base64_standard_encoding(text: Seq<char>) -> Seq<char>;

/// Encodes the UTF-8 bytes of `text` as standard, padded base64
/// (`base64::Engine::encode` with `BASE64_STANDARD`).  The encoding itself is
/// not stated: the result is named by `base64_standard_encoding`.
#[verifier::external_body]
fn encode_base64(text: &str) -> (r: String)
    ensures
        r@ == base64_standard_encoding(text@),
{
    base64::Engine::encode(&base64::prelude::BASE64_STANDARD, text)
}

/// The masked form of the password in displayed credentials.
pub const MASKED_PASSWORD: &'static str = "******";

/// Basic auth credentials, given as '<username>:<password>'.
#[derive(Debug, Clone)]
pub struct MetricsCredentials {
    username: String,
    password: String,
}

impl MetricsCredentials {
    /// The username.
    pub closed spec fn username_spec(&self) -> Seq<char> {
        self.username@
    }

    /// The password.
    pub closed spec fn password_spec(&self) -> Seq<char> {
        self.password@
    }

    /// The text 'username:password'.
    pub open spec fn joined(&self) -> Seq<char> {
        self.username_spec() + seq![':'] + self.password_spec()
    }

    /// Parses '<username>:<password>': splits at the first ':' and refuses an
    /// empty username or password, each with its own message.
    pub fn parse(s: &str) -> (r: Result<MetricsCredentials, &'static str>)
        ensures
            match credentials_spec(s@) {
                Ok((u, p)) => r matches Ok(c) && c.username_spec() == u && c.password_spec() == p,
                Err(why) => r matches Err(m) && m@ == refusal_message(why),
            },
    {
        let cs = chars_of(s);
        let n = cs.len();
        let mut k: usize = 0;
        while k < n && cs[k] != ':'
            invariant
                n == cs@.len(),
                cs@ == s@,
                k <= n,
                forall|j: int| 0 <= j < k ==> cs@[j] != ':',
            decreases n - k,
        {
            k = k + 1;
        }
        if k == n {
            assert(!(exists|k: int| is_first_colon(s@, k)));
            return Err(CREDENTIALS_FORMAT_ERROR);
        }
        assert(is_first_colon(s@, k as int));
        proof {
            let c = first_colon(s@);
            assert(is_first_colon(s@, c));
            if c < k {
                assert(cs@[c] != ':');
            } else if c > k {
                assert(s@[k as int] != ':');
            }
            assert(c == k);
        }
        if k == 0 {
            return Err(EMPTY_USERNAME_ERROR);
        }
        if k == n - 1 {
            return Err(EMPTY_PASSWORD_ERROR);
        }
        let username = string_from(&cs, 0, k);
        let password = string_from(&cs, k + 1, n);
        Ok(MetricsCredentials { username, password })
    }

    /// Returns credentials as a base 64 encoded string: the standard base64
    /// encoding of 'username:password'.
    pub fn encoded_credentials(&self) -> (r: String)
        ensures
            r@ == base64_standard_encoding(self.joined()),
    {
        let mut text = self.username.clone();
        push_char(&mut text, ':');
        text.append(self.password.as_str());
        assert(text@ =~= self.joined());
        encode_base64(text.as_str())
    }

    /// The credentials with the password masked: 'username:******' (what
    /// `Display` writes).
    pub fn to_string(&self) -> (r: String)
        ensures
            r@ == self.username_spec() + seq![':'] + MASKED_PASSWORD@,
    {
        let mut text = self.username.clone();
        push_char(&mut text, ':');
        text.append(MASKED_PASSWORD);
        text
    }

    /// A copy of these credentials.
    pub fn duplicate(&self) -> (r: MetricsCredentials)
        ensures
            r.username_spec() == self.username_spec(),
            r.password_spec() == self.password_spec(),
    {
        MetricsCredentials { username: self.username.clone(), password: self.password.clone() }
    }

    /// The username.
    pub fn username(&self) -> (r: &str)
        ensures
            r@ == self.username_spec(),
    {
        self.username.as_str()
    }

    /// The password.
    pub fn password(&self) -> (r: &str)
        ensures
            r@ == self.password_spec(),
    {
        self.password.as_str()
    }
}

impl FromStr for MetricsCredentials {
    type Err = &'static str;

    fn from_str(s: &str) -> (r: Result<Self, Self::Err>)
        ensures
            match credentials_spec(s@) {
                Ok((u, p)) => r matches Ok(c) && c.username_spec() == u && c.password_spec() == p,
                Err(why) => r matches Err(m) && m@ == refusal_message(why),
            },
    {
        MetricsCredentials::parse(s)
    }
}

// ---------------------------------------------------------------------------
// Configuration

/// Default port to listen for requests.
pub const DEFAULT_PORT: u16 = 9999;

/// Default host to listen for requests.
pub const DEFAULT_HOST: &'static str = "localhost";

/// Default maximum number of in-flight requests.
pub const DEFAULT_MAX_IN_FLIGHT: u32 = 500;

/// Default prefix for embedded links.
pub const DEFAULT_LINK_PREFIX: &'static str = "/";

/// Default number of links in each response.
pub const DEFAULT_LINK_COUNT: u8 = 5;

/// Default source of poisoned training data.
pub const DEFAULT_POISON_SOURCE: &'static str = "https://rnsaffn.com/poison2/";

/// Default endpoint of the metrics page.
pub const DEFAULT_METRICS_ENDPOINT: &'static str = "/metrics";

/// Where request metrics are stored and served.
#[derive(Debug, Clone)]
pub struct MetricsConfig {
    /// Path to the SQLite database file.
    pub db_path: String,
    /// Endpoint at which request metrics are served.
    pub endpoint: String,
    /// Basic auth credentials required to access the metrics.
    pub credentials: MetricsCredentials,
}

impl MetricsConfig {
    /// The credentials, base64 encoded.
    pub fn encoded_credentials(&self) -> (r: String)
        ensures
            r@ == base64_standard_encoding(self.credentials.joined()),
    {
        self.credentials.encoded_credentials()
    }
}

/// Config object for miasma.
#[derive(Debug, Clone)]
pub struct MiasmaConfig {
    /// Port to listen for requests.
    pub port: u16,
    /// Host to listen for requests.
    pub host: String,
    /// Unix socket to bind rather than a TCP address.
    pub unix_socket: Option<String>,
    /// Maximum number of in-flight requests; beyond it Miasma responds with a 429 error.
    pub max_in_flight: u32,
    /// Prefix for embedded links.
    pub link_prefix: LinkPrefix,
    /// Number of links to include in each response.
    pub link_count: u8,
    /// Stop generating links after the scraper reaches this depth.
    pub max_depth: Option<u32>,
    /// Always gzip responses regardless of the client's Accept-Encoding header.
    pub force_gzip: bool,
    /// Don't escape HTML characters in the poison source's responses.
    pub unsafe_allow_html: bool,
    /// Poisoned training data source.
    pub poison_source: url::Url,
    /// Request metrics, when enabled.
    pub metrics: Option<MetricsConfig>,
}

/// The text 'host:port'.
pub open spec fn address_spec(host: Seq<char>, port: u16) -> Seq<char> {
    host + seq![':'] + decimal(port as nat)
}

impl MiasmaConfig {
    /// Get the full 'host:port' address.
    pub fn address(&self) -> (r: String)
        ensures
            r@ == address_spec(self.host@, self.port),
    {
        host_port(&self.host, self.port)
    }
}

/// The text 'host:port'.
pub fn host_port(host: &String, port: u16) -> (r: String)
    ensures
        r@ == address_spec(host@, port),
{
    let mut r = host.clone();
    push_char(&mut r, ':');
    write_decimal(&mut r, port as u128);
    assert(r@ =~= address_spec(host@, port));
    r
}

// ---------------------------------------------------------------------------
// Laws

/// A normalized link prefix starts and ends with '/', normalizing it again
/// changes nothing, and a prefix that already starts and ends with '/' is
/// kept as it is.
pub proof fn lemma_link_prefix_normal_form(s: Seq<char>)
    ensures
        normalize_prefix(s).len() >= 1,
        normalize_prefix(s)[0] == '/',
        normalize_prefix(s).last() == '/',
        normalize_prefix(normalize_prefix(s)) == normalize_prefix(s),
        (s.len() > 0 && s[0] == '/' && s.last() == '/') ==> normalize_prefix(s) == s,
{
    let started = if s.len() > 0 && s[0] == '/' { s } else { seq!['/'] + s };
    assert(started[0] == '/');
    let n = normalize_prefix(s);
    assert(n[0] == '/');
}

/// A digit character stands for its digit.
proof fn lemma_digit_char_value(k: nat)
    requires
        k < 10,
    ensures
        is_digit(digit_char(k)),
        digit_char(k) as int - '0' as int == k,
{
}

/// The digits of a decimal notation, and their value.
proof fn lemma_decimal_digits(n: nat)
    ensures
        decimal(n).len() >= 1,
        forall|i: int| 0 <= i < decimal(n).len() ==> is_digit(#[trigger] decimal(n)[i]),
        digits_value(decimal(n)) == n,
    decreases n,
{
    lemma_digit_char_value(n % 10);
    if n < 10 {
        assert(decimal(n).drop_last() =~= Seq::<char>::empty());
        assert(digits_value(Seq::<char>::empty()) == 0);
        assert(n % 10 == n);
        assert(decimal(n).last() == digit_char(n));
        assert(digits_value(decimal(n)) == n);
    } else {
        lemma_decimal_digits(n / 10);
        let d = decimal(n / 10);
        assert(decimal(n).drop_last() =~= d);
        assert(decimal(n).last() == digit_char(n % 10));
        assert(digits_value(decimal(n)) == digits_value(d) * 10 + (n % 10));
        assert(n == (n / 10) * 10 + n % 10);
        assert forall|i: int| 0 <= i < decimal(n).len() implies is_digit(#[trigger] decimal(n)[i]) by {
            if i < d.len() {
                assert(decimal(n)[i] == d[i]);
            }
        }
    }
}

/// Displaying a maximum depth and parsing the text back gives the same depth.
pub proof fn lemma_max_depth_round_trip(d: MaxDepth)
    ensures
        max_depth_spec(
            match d.0 {
                Some(v) => decimal(v as nat),
                None => NO_MAX_DEPTH@,
            },
        ) == Some(d.0),
{
    reveal_strlit("none");
    match d.0 {
        Some(v) => {
            lemma_decimal_digits(v as nat);
            let t = decimal(v as nat);
            assert(is_digit(t[0]));
            if eq_ignore_ascii_case(t, NO_MAX_DEPTH@) {
                assert(ascii_lower(t[0]) == ascii_lower(NO_MAX_DEPTH@[0]));
            }
            assert(parse_u32_spec(t) == Some(v));
        },
        None => {
            assert(eq_ignore_ascii_case(NO_MAX_DEPTH@, NO_MAX_DEPTH@));
        },
    }
}

/// Credentials written as 'username:password', with a username that holds no
/// ':' and both parts non-empty, parse back to the same username and password.
pub proof fn lemma_credentials_round_trip(u: Seq<char>, p: Seq<char>)
    requires
        u.len() > 0,
        p.len() > 0,
        forall|i: int| 0 <= i < u.len() ==> u[i] != ':',
    ensures
        credentials_spec(u + seq![':'] + p) == Ok::<(Seq<char>, Seq<char>), CredentialsRefusal>((u, p)),
{
    let s = u + seq![':'] + p;
    let k = u.len() as int;
    assert(is_first_colon(s, k));
    let c = first_colon(s);
    assert(is_first_colon(s, c));
    if c < k {
        assert(s[c] == u[c]);
    }
    assert(c == k);
    assert(s.subrange(0, k) =~= u);
    assert(s.subrange(k + 1, s.len() as int) =~= p);
}

/// The text that the credentials' base64 encoding is taken of is the text
/// they were parsed from: the username, then ':', then the password.  So
/// credentials parsed from 'u:p' guard the metrics page with base64('u:p').
pub proof fn lemma_encoded_text_is_parsed_text(c: MetricsCredentials, s: Seq<char>)
    requires
        credentials_spec(s) is Ok,
        c.username_spec() == credentials_spec(s)->Ok_0.0,
        c.password_spec() == credentials_spec(s)->Ok_0.1,
    ensures
        c.joined() == s,
        c.joined() == c.username_spec() + seq![':'] + c.password_spec(),
{
    let k = first_colon(s);
    assert(is_first_colon(s, k));
    assert(c.username_spec() == s.subrange(0, k));
    assert(c.password_spec() == s.subrange(k + 1, s.len() as int));
    assert(c.joined() =~= s);
}

} // verus!

//! Endpoint configuration: layered resolution (environment override, local
//! configuration file, built-in default), URL validation, configuration file
//! parsing and rendering.

use vstd::prelude::*;

verus! {

// ---------------------------------------------------------------------------
// Character-sequence helpers: trimming, searching, prefixes.
// ---------------------------------------------------------------------------

/// Characters the configuration parser treats as surrounding whitespace.
pub open spec fn is_ws(c: char) -> bool {
    c == ' ' || c == '\t' || c == '\r' || c == '\n'
}

/// The whitespace predicate as a value, for use with the trimming functions.
pub open spec fn ws_p() -> spec_fn(char) -> bool {
    |c: char| is_ws(c)
}

/// The predicate holding exactly of the character `m`.
pub open spec fn eq_p(m: char) -> spec_fn(char) -> bool {
    |c: char| c == m
}

/// Drops the longest prefix of characters satisfying `p`.
pub open spec fn drop_leading(s: Seq<char>, p: spec_fn(char) -> bool) -> Seq<char>
    decreases s.len(),
{
    if s.len() > 0 && p(s[0]) {
        drop_leading(s.skip(1), p)
    } else {
        s
    }
}

/// Drops the longest suffix of characters satisfying `p`.
pub open spec fn drop_trailing(s: Seq<char>, p: spec_fn(char) -> bool) -> Seq<char>
    decreases s.len(),
{
    if s.len() > 0 && p(s[s.len() - 1]) {
        drop_trailing(s.take(s.len() - 1), p)
    } else {
        s
    }
}

/// Drops leading and trailing characters satisfying `p`.
pub open spec fn trim_by(s: Seq<char>, p: spec_fn(char) -> bool) -> Seq<char> {
    drop_trailing(drop_leading(s, p), p)
}

/// Index of the first occurrence of `c` at or after position `i`;
/// `s.len()` when there is none.
pub open spec fn find_idx(s: Seq<char>, c: char, i: int) -> int
    decreases s.len() - i,
{
    if i < 0 || i >= s.len() {
        s.len() as int
    } else if s[i] == c {
        i
    } else {
        find_idx(s, c, i + 1)
    }
}

/// `p` is a prefix of `s`.
pub open spec fn has_prefix(s: Seq<char>, p: Seq<char>) -> bool {
    p.len() <= s.len() && s.subrange(0, p.len() as int) == p
}

pub proof fn lemma_drop_leading_at(s: Seq<char>, p: spec_fn(char) -> bool, i: int)
    requires
        0 <= i <= s.len(),
        forall|k: int| 0 <= k < i ==> p(s[k]),
        i < s.len() ==> !p(s[i]),
    ensures
        drop_leading(s, p) == s.subrange(i, s.len() as int),
    decreases i,
{
    if i == 0 {
        assert(s.subrange(0, s.len() as int) =~= s);
    } else {
        lemma_drop_leading_at(s.skip(1), p, i - 1);
        assert(s.skip(1).subrange(i - 1, s.skip(1).len() as int) =~= s.subrange(
            i,
            s.len() as int,
        ));
    }
}

pub proof fn lemma_drop_trailing_at(s: Seq<char>, p: spec_fn(char) -> bool, j: int)
    requires
        0 <= j <= s.len(),
        forall|k: int| j <= k < s.len() ==> p(s[k]),
        j > 0 ==> !p(s[j - 1]),
    ensures
        drop_trailing(s, p) == s.subrange(0, j),
    decreases s.len() - j,
{
    if j == s.len() {
        assert(s.subrange(0, s.len() as int) =~= s);
    } else {
        lemma_drop_trailing_at(s.take(s.len() - 1), p, j);
        assert(s.take(s.len() - 1).subrange(0, j) =~= s.subrange(0, j));
    }
}

pub proof fn lemma_find_idx(s: Seq<char>, c: char, i: int)
    requires
        0 <= i <= s.len(),
    ensures
        i <= find_idx(s, c, i) <= s.len(),
        find_idx(s, c, i) < s.len() ==> s[find_idx(s, c, i)] == c,
        forall|k: int| i <= k < find_idx(s, c, i) ==> s[k] != c,
    decreases s.len() - i,
{
    if i < s.len() && s[i] != c {
        lemma_find_idx(s, c, i + 1);
    }
}

fn is_ws_char(c: char) -> (b: bool)
    ensures
        b == is_ws(c),
{
    c == ' ' || c == '\t' || c == '\r' || c == '\n'
}

/// First position of `c` in `s` at or after `from`; `s@.len()` if absent.
fn find_char_from(s: &str, c: char, from: usize) -> (r: usize)
    requires
        from <= s@.len(),
    ensures
        r as int == find_idx(s@, c, from as int),
        r <= s@.len(),
    decreases s@.len() - from,
{
    let n: usize = s.unicode_len();
    let mut i: usize = from;
    while i < n
        invariant
            from <= i <= n,
            n == s@.len(),
            find_idx(s@, c, from as int) == find_idx(s@, c, i as int),
        decreases n - i,
    {
        if s.get_char(i) == c {
            return i;
        }
        i = i + 1;
    }
    i
}

/// `s` trimmed of surrounding whitespace.
fn trim_ws_str<'a>(s: &'a str) -> (r: &'a str)
    ensures
        r@ == trim_by(s@, ws_p()),
{
    let n: usize = s.unicode_len();
    let mut i: usize = 0;
    while i < n && is_ws_char(s.get_char(i))
        invariant
            0 <= i <= n,
            n == s@.len(),
            forall|k: int| 0 <= k < i ==> (ws_p())(s@[k]),
        decreases n - i,
    {
        i = i + 1;
    }
    let mut j: usize = n;
    while j > i && is_ws_char(s.get_char(j - 1))
        invariant
            i <= j <= n,
            n == s@.len(),
            forall|k: int| j <= k < n ==> (ws_p())(s@[k]),
        decreases j,
    {
        j = j - 1;
    }
    proof {
        lemma_drop_leading_at(s@, ws_p(), i as int);
        let t = s@.subrange(i as int, s@.len() as int);
        lemma_drop_trailing_at(t, ws_p(), j - i);
        assert(t.subrange(0, j - i) =~= s@.subrange(i as int, j as int));
    }
    s.substring_char(i, j)
}

/// `s` trimmed of leading and trailing occurrences of `m`.
fn trim_char_str<'a>(s: &'a str, m: char) -> (r: &'a str)
    ensures
        r@ == trim_by(s@, eq_p(m)),
{
    let n: usize = s.unicode_len();
    let mut i: usize = 0;
    while i < n && s.get_char(i) == m
        invariant
            0 <= i <= n,
            n == s@.len(),
            forall|k: int| 0 <= k < i ==> (eq_p(m))(s@[k]),
        decreases n - i,
    {
        i = i + 1;
    }
    let mut j: usize = n;
    while j > i && s.get_char(j - 1) == m
        invariant
            i <= j <= n,
            n == s@.len(),
            forall|k: int| j <= k < n ==> (eq_p(m))(s@[k]),
        decreases j,
    {
        j = j - 1;
    }
    proof {
        lemma_drop_leading_at(s@, eq_p(m), i as int);
        let t = s@.subrange(i as int, s@.len() as int);
        lemma_drop_trailing_at(t, eq_p(m), j - i);
        assert(t.subrange(0, j - i) =~= s@.subrange(i as int, j as int));
    }
    s.substring_char(i, j)
}

/// Whether `p` is a prefix of `s`.
fn str_has_prefix(s: &str, p: &str) -> (b: bool)
    ensures
        b == has_prefix(s@, p@),
{
    let pn: usize = p.unicode_len();
    let sn: usize = s.unicode_len();
    if pn > sn {
        return false;
    }
    let mut i: usize = 0;
    while i < pn
        invariant
            0 <= i <= pn,
            pn <= sn,
            pn == p@.len(),
            sn == s@.len(),
            forall|k: int| 0 <= k < i ==> s@[k] == p@[k],
        decreases pn - i,
    {
        if s.get_char(i) != p.get_char(i) {
            proof {
                assert(s@.subrange(0, pn as int)[i as int] != p@[i as int]);
            }
            return false;
        }
        i = i + 1;
    }
    proof {
        assert(s@.subrange(0, pn as int) =~= p@);
    }
    true
}

// ---------------------------------------------------------------------------
// URL validation.
// ---------------------------------------------------------------------------

/// A usable endpoint URL: it carries an explicit `http` or `https` scheme.
/// This is the single criterion every resolved endpoint must meet.
pub open spec fn valid_api_url(s: Seq<char>) -> bool {
    has_prefix(s, "http://"@) || has_prefix(s, "https://"@)
}

/// Checks that a URL starts with `http://` or `https://`.
pub fn is_valid_api_url(s: &str) -> (b: bool)
    ensures
        b == valid_api_url(s@),
{
    str_has_prefix(s, "http://") || str_has_prefix(s, "https://")
}

/// The hard-coded fallback endpoint, used when no other source is set.
pub open spec fn default_url() -> Seq<char> {
    "http://localhost:8888"@
}

/// The hard-coded fallback endpoint.
pub fn default_api_url() -> (r: &'static str)
    ensures
        r@ == default_url(),
{
    "http://localhost:8888"
}

/// The default endpoint carries a valid scheme.
pub proof fn lemma_default_url_valid()
    ensures
        valid_api_url(default_url()),
{
    reveal_strlit("http://localhost:8888");
    reveal_strlit("http://");
    assert(default_url().subrange(0, 7) =~= "http://"@);
}

// ---------------------------------------------------------------------------
// Configuration file parsing.
// ---------------------------------------------------------------------------

/// The endpoint a single configuration line yields, if any.
///
/// A line contributes a URL when, after trimming surrounding whitespace, it
/// starts with `api_url` and carries a `=`; the value is the text between the
/// first `=` and the next `=` (or the end of the line), trimmed of
/// whitespace, then of double quotes, then of single quotes. An empty value
/// yields nothing.
pub open spec fn line_url(line: Seq<char>) -> Option<Seq<char>> {
    let t = trim_by(line, ws_p());
    if !has_prefix(t, "api_url"@) {
        None
    } else {
        let e1 = find_idx(t, '=', 0);
        if e1 >= t.len() {
            None
        } else {
            let raw = t.subrange(e1 + 1, find_idx(t, '=', e1 + 1));
            let v = trim_by(trim_by(trim_by(raw, ws_p()), eq_p('"')), eq_p('\''));
            if v.len() == 0 {
                None
            } else {
                Some(v)
            }
        }
    }
}

/// The endpoint the whole configuration file yields: the first line (lines
/// are separated by `\n`) that yields one, scanned top to bottom.
pub open spec fn config_url_of(content: Seq<char>) -> Option<Seq<char>>
    decreases content.len(),
{
    let nl = find_idx(content, '\n', 0);
    if 0 <= nl < content.len() {
        match line_url(content.subrange(0, nl)) {
            Some(v) => Some(v),
            None => config_url_of(content.subrange(nl + 1, content.len() as int)),
        }
    } else {
        line_url(content)
    }
}

/// The URL carried by a single configuration line, if any.
fn parse_line(line: &str) -> (r: Option<String>)
    ensures
        r is Some <==> line_url(line@) is Some,
        r matches Some(u) ==> line_url(line@) matches Some(v) && u@ == v,
{
    let t: &str = trim_ws_str(line);
    if !str_has_prefix(t, "api_url") {
        return None;
    }
    let tn: usize = t.unicode_len();
    let e1: usize = find_char_from(t, '=', 0);
    proof {
        lemma_find_idx(t@, '=', 0);
    }
    if e1 >= tn {
        return None;
    }
    let e2: usize = find_char_from(t, '=', e1 + 1);
    proof {
        lemma_find_idx(t@, '=', e1 + 1);
    }
    let raw: &str = t.substring_char(e1 + 1, e2);
    let v: &str = trim_char_str(trim_char_str(trim_ws_str(raw), '"'), '\'');
    if v.unicode_len() == 0 {
        None
    } else {
        Some(String::from_str(v))
    }
}

/// The URL the configuration file content yields, if any: the parsing half
/// of the local-file configuration source.
pub fn parse_config_content(content: &str) -> (r: Option<String>)
    ensures
        r is Some <==> config_url_of(content@) is Some,
        r matches Some(u) ==> config_url_of(content@) matches Some(v) && u@ == v,
    decreases content@.len(),
{
    let n: usize = content.unicode_len();
    let nl: usize = find_char_from(content, '\n', 0);
    proof {
        lemma_find_idx(content@, '\n', 0);
    }
    if nl < n {
        let first: &str = content.substring_char(0, nl);
        match parse_line(first) {
            Some(u) => Some(u),
            None => {
                let rest: &str = content.substring_char(nl + 1, n);
                parse_config_content(rest)
            },
        }
    } else {
        parse_line(content)
    }
}

// ---------------------------------------------------------------------------
// Resolution.
// ---------------------------------------------------------------------------

/// Where the active endpoint came from.
#[derive(Debug, Clone, Copy, PartialEq, Eq, Structural)]
pub enum ConfigSource {
    LocalFile,
    Environment,
    Default,
}

impl ConfigSource {
    /// The human-readable name of the source.
    pub open spec fn label_spec(&self) -> Seq<char> {
        match self {
            ConfigSource::LocalFile => "config file"@,
            ConfigSource::Environment => "environment variable"@,
            ConfigSource::Default => "default"@,
        }
    }

    /// The human-readable name of the source.
    pub fn label(&self) -> (r: &'static str)
        ensures
            r@ == self.label_spec(),
    {
        match self {
            ConfigSource::LocalFile => "config file",
            ConfigSource::Environment => "environment variable",
            ConfigSource::Default => "default",
        }
    }
}

/// The resolved endpoint configuration: a validated URL and its provenance.
#[derive(Debug, Clone)]
pub struct Config {
    pub api_url: String,
    pub source: ConfigSource,
}

/// Why resolution failed.
#[derive(Debug, Clone)]
pub enum ConfigError {
    /// The candidate URL (carried here) lacks an `http://`/`https://` scheme.
    InvalidUrl(String),
    /// A configuration file is present but could not be read.
    UnreadableFile,
}

impl ConfigError {
    /// A rendered description of the failure, with remediation guidance.
    pub fn message(&self) -> (r: String)
        ensures
            self matches ConfigError::InvalidUrl(u) ==> r@ == "Invalid API URL: "@ + u@
                + ". Must start with http:// or https://"@,
            self matches ConfigError::UnreadableFile ==> r@
                == "Failed to read config file"@,
    {
        match self {
            ConfigError::InvalidUrl(u) => {
                let mut s = String::from_str("Invalid API URL: ");
                s.append(u.as_str());
                s.append(". Must start with http:// or https://");
                s
            },
            ConfigError::UnreadableFile => String::from_str("Failed to read config file"),
        }
    }
}

/// What probing the local configuration file produced. Reading the file is
/// the caller's concern; the precedence decision is made here.
pub enum ConfigFileRead {
    /// No configuration file exists (or no home directory is known).
    Absent,
    /// A file exists but could not be read.
    Unreadable,
    /// The file's full text.
    Contents(String),
}

impl Config {
    /// Whether this configuration is usable: its URL carries a valid scheme.
    pub open spec fn wf(&self) -> bool {
        valid_api_url(self.api_url@)
    }

    /// Accepts the candidate URL for `source`, or rejects it for lacking an
    /// `http://`/`https://` scheme. The single gate every source runs through.
    pub fn validate_and_create(api_url: String, source: ConfigSource) -> (r: Result<
        Config,
        ConfigError,
    >)
        ensures
            valid_api_url(api_url@) ==> r is Ok && r->Ok_0.api_url@ == api_url@
                && r->Ok_0.source == source,
            !valid_api_url(api_url@) ==> r is Err && r->Err_0 is InvalidUrl
                && r->Err_0->InvalidUrl_0@ == api_url@,
    {
        if is_valid_api_url(api_url.as_str()) {
            Ok(Config { api_url, source })
        } else {
            Err(ConfigError::InvalidUrl(api_url))
        }
    }

    /// Resolves the active endpoint. Precedence, highest first: the
    /// environment override, then the local configuration file, then the
    /// built-in default. Whatever source wins, its URL is validated and an
    /// invalid one is rejected rather than corrected.
    pub fn load(env_url: Option<String>, file: ConfigFileRead) -> (r: Result<Config, ConfigError>)
        ensures
            r matches Ok(c) ==> c.wf(),
            env_url is Some && valid_api_url(env_url->Some_0@) ==> r is Ok && r->Ok_0.api_url@
                == env_url->Some_0@ && r->Ok_0.source == ConfigSource::Environment,
            env_url is Some && !valid_api_url(env_url->Some_0@) ==> r is Err && r->Err_0 is
                InvalidUrl && r->Err_0->InvalidUrl_0@ == env_url->Some_0@,
            env_url is None && file is Contents ==> match config_url_of(file->Contents_0@) {
                Some(v) => {
                    &&& valid_api_url(v) ==> r is Ok && r->Ok_0.api_url@ == v && r->Ok_0.source
                        == ConfigSource::LocalFile
                    &&& !valid_api_url(v) ==> r is Err && r->Err_0 is InvalidUrl
                        && r->Err_0->InvalidUrl_0@ == v
                },
                None => r is Ok && r->Ok_0.api_url@ == default_url() && r->Ok_0.source
                    == ConfigSource::Default,
            },
            env_url is None && file is Unreadable ==> r is Err && r->Err_0 is UnreadableFile,
            env_url is None && file is Absent ==> r is Ok && r->Ok_0.api_url@ == default_url()
                && r->Ok_0.source == ConfigSource::Default,
    {
        proof {
            lemma_default_url_valid();
        }
        match env_url {
            Some(u) => Self::validate_and_create(u, ConfigSource::Environment),
            None => match file {
                ConfigFileRead::Contents(s) => match parse_config_content(s.as_str()) {
                    Some(u) => Self::validate_and_create(u, ConfigSource::LocalFile),
                    None => Self::load_default(),
                },
                ConfigFileRead::Unreadable => Err(ConfigError::UnreadableFile),
                ConfigFileRead::Absent => Self::load_default(),
            },
        }
    }

    /// The built-in fallback configuration.
    fn load_default() -> (r: Result<Config, ConfigError>)
        ensures
            r is Ok && r->Ok_0.api_url@ == default_url() && r->Ok_0.source
                == ConfigSource::Default,
    {
        proof {
            lemma_default_url_valid();
        }
        let d = String::from_str(default_api_url());
        let r = Self::validate_and_create(d, ConfigSource::Default);
        r
    }

    /// Legacy alias for `load`.
    pub fn from_env(env_url: Option<String>, file: ConfigFileRead) -> (r: Result<
        Config,
        ConfigError,
    >)
        ensures
            r matches Ok(c) ==> c.wf(),
            env_url is Some && valid_api_url(env_url->Some_0@) ==> r is Ok && r->Ok_0.api_url@
                == env_url->Some_0@ && r->Ok_0.source == ConfigSource::Environment,
            env_url is Some && !valid_api_url(env_url->Some_0@) ==> r is Err && r->Err_0 is
                InvalidUrl && r->Err_0->InvalidUrl_0@ == env_url->Some_0@,
            env_url is None && file is Contents ==> match config_url_of(file->Contents_0@) {
                Some(v) => {
                    &&& valid_api_url(v) ==> r is Ok && r->Ok_0.api_url@ == v && r->Ok_0.source
                        == ConfigSource::LocalFile
                    &&& !valid_api_url(v) ==> r is Err && r->Err_0 is InvalidUrl
                        && r->Err_0->InvalidUrl_0@ == v
                },
                None => r is Ok && r->Ok_0.api_url@ == default_url() && r->Ok_0.source
                    == ConfigSource::Default,
            },
            env_url is None && file is Unreadable ==> r is Err && r->Err_0 is UnreadableFile,
            env_url is None && file is Absent ==> r is Ok && r->Ok_0.api_url@ == default_url()
                && r->Ok_0.source == ConfigSource::Default,
    {
        Self::load(env_url, file)
    }

    /// The resolved URL.
    pub fn api_url(&self) -> (r: &str)
        ensures
            r@ == self.api_url@,
    {
        self.api_url.as_str()
    }

    /// The path of the per-user configuration file under the home directory.
    pub fn config_file_path(home: &str) -> (r: String)
        ensures
            r@ == home@ + "/.hindsight/config"@,
    {
        let mut s = String::from_str(home);
        s.append("/.hindsight/config");
        s
    }
}

/// The help trailer text for a resolved endpoint.
pub open spec fn after_help_text(url: Seq<char>, label: Seq<char>) -> Seq<char> {
    "Current API URL: "@ + url + " (from "@ + label
        + ")\n\nRun 'hindsight configure' to change the API URL."@
}

/// The help trailer showing the currently resolved endpoint and its source;
/// with no resolvable configuration it falls back to the default.
pub fn get_after_help(config: Option<&Config>) -> (r: String)
    ensures
        config matches Some(c) ==> r@ == after_help_text(c.api_url@, c.source.label_spec()),
        config is None ==> r@ == after_help_text(default_url(), "default"@),
{
    let mut s = String::from_str("Current API URL: ");
    match config {
        Some(c) => {
            s.append(c.api_url.as_str());
            s.append(" (from ");
            s.append(c.source.label());
        },
        None => {
            s.append(default_api_url());
            s.append(" (from ");
            s.append("default");
        },
    }
    s.append(")\n\nRun 'hindsight configure' to change the API URL.");
    s
}

// ---------------------------------------------------------------------------
// Persisting.
// ---------------------------------------------------------------------------

/// The full text written to the configuration file for `url`: exactly one
/// `api_url` entry; any other keys an existing file held are dropped.
pub open spec fn persist_content(url: Seq<char>) -> Seq<char> {
    "api_url = \""@ + url + "\"\n"@
}

/// Renders the configuration file text for `api_url`.
pub fn render_config_file(api_url: &str) -> (r: String)
    ensures
        r@ == persist_content(api_url@),
{
    let mut s = String::from_str("api_url = \"");
    s.append(api_url);
    s.append("\"\n");
    s
}

/// The interactive prompt rule: an empty reply keeps the default, any other
/// reply is used verbatim, after trimming surrounding whitespace.
pub fn apply_prompt_input(default: &str, input: &str) -> (r: String)
    ensures
        trim_by(input@, ws_p()).len() == 0 ==> r@ == default@,
        trim_by(input@, ws_p()).len() > 0 ==> r@ == trim_by(input@, ws_p()),
{
    let t: &str = trim_ws_str(input);
    if t.unicode_len() == 0 {
        String::from_str(default)
    } else {
        String::from_str(t)
    }
}

// ---------------------------------------------------------------------------
// Outside calls.
// ---------------------------------------------------------------------------

/// A fresh document identifier for a single stored memory, derived from the
/// current local time.
///
/// Relies on `chrono::Local::now` and `DateTime::format`: the identifier is
/// the fixed prefix `cli_put_` followed by the formatted timestamp. Nothing
/// more is promised; the suffix depends on the clock.
#[verifier::external_body]
pub fn generate_doc_id() -> (r: String)
    ensures
        has_prefix(r@, "cli_put_"@),
{
    let now = chrono::Local::now();
    format!("cli_put_{}", now.format("%Y%m%d_%H%M%S"))
}

/// The platform home directory, if one is known.
///
/// Relies on `dirs::home_dir`. Nothing is promised of the value: it depends
/// on the environment.
#[verifier::external_body]
pub fn home_dir_string() -> Option<String> {
    dirs::home_dir().and_then(|p| p.to_str().map(|s| s.to_string()))
}

// ---------------------------------------------------------------------------
// The persist / resolve round trip.
// ---------------------------------------------------------------------------

/// `find_idx` returns `r` when `c` first occurs at `r` (or never, `r` being
/// the length).
pub proof fn lemma_find_idx_is(s: Seq<char>, c: char, i: int, r: int)
    requires
        0 <= i <= r <= s.len(),
        r < s.len() ==> s[r] == c,
        forall|k: int| i <= k < r ==> s[k] != c,
    ensures
        find_idx(s, c, i) == r || (r == s.len() && find_idx(s, c, i) == s.len()),
    decreases r - i,
{
    if i < r {
        lemma_find_idx_is(s, c, i + 1, r);
    }
}

/// Writing a URL with `persist_content` and parsing it back yields exactly
/// that URL. Holds for every URL with a valid scheme that contains no `=`
/// and no newline and does not end in whitespace or a quote character —
/// such a character would be consumed by the parser's trimming.
#[verifier::spinoff_prover]
#[verifier::rlimit(100)]
pub proof fn lemma_persist_round_trip(url: Seq<char>)
    requires
        valid_api_url(url),
        forall|k: int| 0 <= k < url.len() ==> url[k] != '=' && url[k] != '\n',
        !is_ws(url[url.len() - 1]),
        url[url.len() - 1] != '"',
        url[url.len() - 1] != '\'',
    ensures
        config_url_of(persist_content(url)) == Some(url),
{
    reveal_strlit("api_url = \"");
    reveal_strlit("\"\n");
    reveal_strlit("api_url");
    reveal_strlit("http://");
    reveal_strlit("https://");
    let pre = "api_url = \""@;
    let suf = "\"\n"@;
    let content = persist_content(url);
    let l = url.len() as int;
    if has_prefix(url, "http://"@) {
        assert(url.subrange(0, 7)[0] == url[0]);
    } else {
        assert(url.subrange(0, 8)[0] == url[0]);
    }
    assert(url[0] == 'h');
    assert(l >= 7);
    assert(content.len() == 13 + l);
    // The single newline stands at the very end.
    assert forall|k: int| 0 <= k < 12 + l implies content[k] != '\n' by {
        if k < 11 {
            assert(content[k] == pre[k]);
        } else if k < 11 + l {
            assert(content[k] == url[k - 11]);
        } else {
            assert(content[k] == suf[0]);
        }
    }
    assert(content[12 + l] == suf[1]);
    lemma_find_idx_is(content, '\n', 0, 12 + l);
    let nl = 12 + l;
    let line0 = content.subrange(0, nl);
    assert(line0.len() == 12 + l);
    assert forall|k: int| 0 <= k < 11 implies line0[k] == pre[k] by {}
    assert forall|k: int| 0 <= k < l implies line0[11 + k] == url[k] by {}
    assert(line0[11 + l] == suf[0]);
    assert(line0[11 + l] == '"');
    // Trimming whitespace leaves the line unchanged.
    assert(!is_ws(line0[0]));
    assert(!is_ws(line0[line0.len() - 1]));
    lemma_drop_leading_at(line0, ws_p(), 0);
    assert(line0.subrange(0, line0.len() as int) =~= line0);
    lemma_drop_trailing_at(line0, ws_p(), line0.len() as int);
    let t = trim_by(line0, ws_p());
    assert(t == line0);
    // The line starts with the key.
    assert forall|k: int| 0 <= k < 7 implies line0[k] == "api_url"@[k] by {
        assert(line0[k] == pre[k]);
    }
    assert(t.subrange(0, 7) =~= "api_url"@);
    assert(has_prefix(t, "api_url"@));
    // The first `=` stands at index 8, and no other one follows.
    assert forall|k: int| 0 <= k < 8 implies line0[k] != '=' by {
        assert(line0[k] == pre[k]);
    }
    assert(line0[8] == pre[8]);
    lemma_find_idx_is(line0, '=', 0, 8);
    assert(find_idx(t, '=', 0) == 8);
    assert forall|k: int| 9 <= k < nl implies line0[k] != '=' by {
        if k < 11 {
            assert(line0[k] == pre[k]);
        } else if k < 11 + l {
            assert(line0[k] == url[k - 11]);
        } else {
            assert(line0[k] == '"');
        }
    }
    lemma_find_idx_is(line0, '=', 9, nl);
    assert(find_idx(t, '=', 9) == nl);
    let raw = t.subrange(9, nl);
    assert(raw.len() == 3 + l);
    assert(raw[0] == pre[9]);
    assert(raw[1] == pre[10]);
    assert(is_ws(raw[0]));
    // Trim whitespace: exactly the leading blank goes.
    lemma_drop_leading_at(raw, ws_p(), 1);
    let m1 = raw.subrange(1, raw.len() as int);
    assert(m1.len() == 2 + l);
    assert(m1[m1.len() - 1] == raw[2 + l]);
    assert(raw[2 + l] == line0[11 + l]);
    assert(!is_ws(m1[m1.len() - 1]));
    lemma_drop_trailing_at(m1, ws_p(), m1.len() as int);
    assert(trim_by(raw, ws_p()) == m1);
    // Trim double quotes: one from each end.
    assert(m1[0] == raw[1]);
    assert(m1[0] == '"');
    assert(m1[1] == raw[2]);
    assert(raw[2] == t[11]);
    assert(t[11] == url[0]);
    assert(m1[1] != '"');
    lemma_drop_leading_at(m1, eq_p('"'), 1);
    let m2 = m1.subrange(1, m1.len() as int);
    assert(m2.len() == 1 + l);
    assert forall|k: int| 0 <= k < l implies m2[k] == url[k] by {
        assert(m2[k] == m1[k + 1]);
        assert(m1[k + 1] == raw[k + 2]);
        assert(raw[k + 2] == t[k + 11]);
    }
    assert(m2[l] == m1[l + 1]);
    assert(m1[l + 1] == raw[l + 2]);
    assert(m2[l] == '"');
    assert(l > 0 ==> m2[l - 1] == url[l - 1]);
    assert(m2[l - 1] != '"');
    lemma_drop_trailing_at(m2, eq_p('"'), l);
    assert(m2.subrange(0, l) =~= url);
    assert(trim_by(m1, eq_p('"')) == url);
    // Trim single quotes: nothing goes.
    assert(url[0] != '\'');
    lemma_drop_leading_at(url, eq_p('\''), 0);
    assert(url.subrange(0, l) =~= url);
    assert(url[l - 1] != '\'');
    lemma_drop_trailing_at(url, eq_p('\''), l);
    assert(trim_by(url, eq_p('\'')) == url);
    assert(line_url(line0) == Some(url));
    assert(config_url_of(content) == Some(url));
}

} // verus!


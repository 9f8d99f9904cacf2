//! The scraper's settings.

use vstd::prelude::*;

verus! {

/// The scraper's settings, each taken from the environment or defaulted.
#[derive(Debug)]
pub struct Config {
    /// The file that lists the nodes.
    pub config_path: String,
    /// The port that each node serves its journal on.
    pub journal_port: String,
    /// Seconds between two rounds, as text.
    pub scrape_interval: String,
    /// Where rounds are posted; without it they are logged.
    pub vector_url: Option<String>,
    /// Whether node addresses are IPv6 addresses.
    pub use_ipv6: bool,
    /// The path of the journal on each node.
    pub log_path: String,
}

/// `value`, or `default` when it is unset.
pub open spec fn or_default(value: Option<String>, default: Seq<char>) -> Seq<char> {
    match value {
        Some(s) => s@,
        None => default,
    }
}

pub(crate) fn text_or(value: Option<String>, default: &str) -> (r: String)
    ensures
        r@ == or_default(value, default@),
{
    match value {
        Some(s) => s,
        None => default.to_owned(),
    }
}

/// The settings from the values of `CONFIG_PATH`, `JOURNAL_PORT`,
/// `SCRAPE_INTERVAL`, `VECTOR_INSTANCE_IP`, `USE_IPV6` and `LOG_PATH`
/// (`None` for a variable that is unset or not valid text).
pub fn new_config(
    config_path: Option<String>,
    journal_port: Option<String>,
    scrape_interval: Option<String>,
    vector_url: Option<String>,
    use_ipv6: Option<String>,
    log_path: Option<String>,
) -> (r: Config)
    ensures
        r.config_path@ == or_default(config_path, "config.json"@),
        r.journal_port@ == or_default(journal_port, "5000"@),
        r.scrape_interval@ == or_default(scrape_interval, "2"@),
        r.vector_url == vector_url,
        r.use_ipv6 == (or_default(use_ipv6, "false"@) == "true"@),
        r.log_path@ == or_default(log_path, "/logs"@),
{
    let ipv6_text = text_or(use_ipv6, "false");
    let use_ipv6 = ipv6_text == "true".to_owned();
    Config {
        config_path: text_or(config_path, "config.json"),
        journal_port: text_or(journal_port, "5000"),
        scrape_interval: text_or(scrape_interval, "2"),
        vector_url,
        use_ipv6,
        log_path: text_or(log_path, "/logs"),
    }
}

/// `c` is one of the digits `0` to `9`.
pub open spec fn is_decimal_digit(c: char) -> bool {
    '0' as int <= c as int <= '9' as int
}

/// The number that a string of decimal digits denotes.
pub open spec fn digits_value(s: Seq<char>) -> nat
    decreases s.len(),
{
    if s.len() == 0 {
        0
    } else {
        digits_value(s.drop_last()) * 10 + (s.last() as int - '0' as int) as nat
    }
}

/// The `u64` that `s` denotes as Rust reads an unsigned integer: an
/// optional `+` and then one or more decimal digits, with a value that
/// fits; `None` for any other text.
pub open spec fn u64_text_value(s: Seq<char>) -> Option<u64> {
    let d = if s.len() > 0 && s[0] == '+' {
        s.drop_first()
    } else {
        s
    };
    if d.len() > 0 && (forall|i: int| 0 <= i < d.len() ==> is_decimal_digit(#[trigger] d[i]))
        && digits_value(d) <= u64::MAX {
        Some(digits_value(d) as u64)
    } else {
        None
    }
}

/// `str::parse::<u64>`, with its error dropped.
///
/// The contract restates what the standard library documents for parsing
/// an unsigned integer: an optional `+` followed by decimal digits only,
/// refused when empty, when any other character occurs or when the value
/// does not fit.
#[verifier::external_body]
fn parse_u64(s: &str) -> (r: Option<u64>)
    ensures
        r == u64_text_value(s@),
{
    s.parse::<u64>().ok()
}

impl Config {
    /// The number of seconds between two rounds; `None` when the setting is
    /// not a number of seconds.
    pub fn scrape_interval_secs(&self) -> (r: Option<u64>)
        ensures
            r == u64_text_value(self.scrape_interval@),
    {
        seconds_from_text(&self.scrape_interval)
    }
}

/// A number of seconds written as text, as the scrapers read their
/// interval setting; `None` when the text is no such number.
pub fn seconds_from_text(text: &String) -> (r: Option<u64>)
    ensures
        r == u64_text_value(text@),
{
    parse_u64(text.as_str())
}

} // verus!

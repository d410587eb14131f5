use vstd::prelude::*;

verus! {

/// Process configuration.
#[derive(Clone, Debug)]
pub struct Opt {
    /// Bot token of the messaging platform.
    pub token: String,
    /// Path to the database file.
    pub database: String,
    /// Minimum fetch interval in seconds.
    pub min_interval: u32,
    /// Maximum fetch interval in seconds.
    pub max_interval: u32,
    /// Maximum feed size in bytes; 0 is unlimited.
    pub max_feed_size: u64,
    /// Users allowed to use the bot; empty when it is open to everyone.
    pub admin: Vec<i64>,
    /// Commands in groups are for group administrators only.
    pub restricted: bool,
    /// Accept invalid TLS certificates.
    pub insecure: bool,
}

/// What parsing a decimal `u32` from a string gives: the number, or the
/// parser's error message.
pub uninterp spec fn parsed_u32(s: Seq<char>) -> Result<u32, Seq<char>>;

/// A parsed number or an error message, the message as a sequence of
/// characters.
pub open spec fn result_view(r: Result<u32, String>) -> Result<u32, Seq<char>> {
    match r {
        Ok(n) => Ok(n),
        Err(e) => Err(e@),
    }
}

/// `str::parse::<u32>`, the error rendered by its `to_string`.
#[verifier::external_body]
fn parse_u32(s: &str) -> (parsed: Result<u32, String>)
    ensures
        result_view(parsed) == parsed_u32(s@),
{
    match s.parse::<u32>() {
        Ok(n) => Ok(n),
        Err(e) => Err(e.to_string()),
    }
}

/// The rule on a fetch interval: at least one second. A number below that
/// is answered with `must >= 1`; a parser's error is handed on.
pub open spec fn spec_check_interval(parsed: Result<u32, Seq<char>>) -> Result<u32, Seq<char>> {
    match parsed {
        Ok(n) => if n < 1 {
            Err("must >= 1"@)
        } else {
            Ok(n)
        },
        Err(e) => Err(e),
    }
}

/// Applies the rule on a fetch interval to a parsed number.
pub fn check_interval(parsed: Result<u32, String>) -> (checked: Result<u32, String>)
    ensures
        result_view(checked) == spec_check_interval(result_view(parsed)),
{
    match parsed {
        Ok(n) => {
            if n < 1 {
                Err("must >= 1".to_string())
            } else {
                Ok(n)
            }
        },
        Err(e) => Err(e),
    }
}

/// Reads a fetch interval in seconds from a command-line value.
pub fn parse_check_interval(s: &str) -> (interval: Result<u32, String>)
    ensures
        result_view(interval) == spec_check_interval(parsed_u32(s@)),
{
    check_interval(parse_u32(s))
}

} // verus!

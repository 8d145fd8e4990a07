//! The runtime configuration read from the command line: whether to poll
//! once or loop, and the interval in whole seconds for the loop.
use vstd::prelude::*;

use crate::num::{parse_decimal_text, parse_u64_spec};

verus! {

/// The poll interval used when continuous mode is requested without one.
pub const DEFAULT_POLL_INTERVAL: u64 = 1;

/// The single runtime parameter, set once at startup: whether to loop, and
/// the interval in whole seconds if so.
#[derive(Clone, Copy, Debug, PartialEq, Eq, Structural)]
pub struct PollConfig {
    pub continuous: bool,
    pub interval_secs: u64,
}

/// Why the command line was rejected: the arguments did not scan, or the
/// interval given with the flag is not an unsigned decimal number. Each
/// variant carries the text for the diagnostic.
#[derive(Debug)]
pub enum CliError {
    BadArguments { message: String },
    BadInterval { text: String },
}

/// The view of an optional owned text.
pub open spec fn opt_view(a: Option<String>) -> Option<Seq<char>> {
    match a {
        Some(s) => Some(s@),
        None => None,
    }
}

/// The interval that an optional flag argument denotes: absent means the
/// default, present means the unsigned decimal number it spells, and a text
/// that spells none denotes nothing.
pub open spec fn interval_spec(arg: Option<Seq<char>>) -> Option<u64> {
    match arg {
        None => Some(DEFAULT_POLL_INTERVAL as u64),
        Some(s) => parse_u64_spec(s),
    }
}

/// What scanning a command line for one optional-value flag returns: the
/// flag's presence and its value, or the message text of the rejection.
/// getopts computes this from the arguments and the flag's two names alone
/// (the description and hint only feed its usage text), so the result bears a
/// name; no few lines exhaust its grammar of attached and following values,
/// free arguments and rejections.
pub uninterp spec fn flag_scan(args: Seq<Seq<char>>, short: Seq<char>, long: Seq<char>) -> Result<
    (bool, Option<Seq<char>>),
    Seq<char>,
>;

/// Relies on getopts: `Options::optflagopt` registers one flag under the
/// given short and long names, occurring at most once, with or without a
/// value attached; `Options::parse` scans the arguments against it and
/// reports anything unrecognized as an error, here carried as its message
/// text; `Matches::opt_present` and `Matches::opt_str` say whether the flag
/// occurred and what value it was given. The flag is registered and queried
/// under one name inside this body, since getopts panics on a query for an
/// unregistered name; `opt_str` only reports a value for a flag that
/// occurred, so a value comes with `true`.
#[verifier::external_body]
fn scan_one_flag(args: &Vec<String>, short: &str, long: &str, desc: &str, hint: &str) -> (r:
    Result<(bool, Option<String>), String>)
    requires
        short@.len() == 1,
        short.is_ascii(),
        long@.len() > 1,
    ensures
        match r {
            Ok(p) => {
                &&& flag_scan(args.deep_view(), short@, long@) matches Ok(q)
                &&& q.0 == p.0
                &&& q.1 == opt_view(p.1)
                &&& p.1 is Some ==> p.0
            },
            Err(m) => flag_scan(args.deep_view(), short@, long@) matches Err(t) && t == m@,
        },
{
    let mut opts = getopts::Options::new();
    opts.optflagopt(short, long, desc, hint);
    match opts.parse(&args[..]) {
        Ok(m) => Ok((m.opt_present(short), m.opt_str(short))),
        Err(e) => Err(e.to_string()),
    }
}

/// Builds the configuration from the scanned parts: the flag's presence and
/// its optional argument. Without the flag the argument is ignored and a
/// single poll is configured; with it, the argument must spell the interval.
pub fn config_from_parts(continuous: bool, interval_arg: Option<String>) -> (r: Result<
    PollConfig,
    CliError,
>)
    ensures
        match r {
            Ok(c) => c.continuous == continuous && if continuous {
                interval_spec(opt_view(interval_arg)) == Some(c.interval_secs)
            } else {
                c.interval_secs == DEFAULT_POLL_INTERVAL
            },
            Err(e) => {
                &&& continuous
                &&& interval_spec(opt_view(interval_arg)) is None
                &&& interval_arg matches Some(s) && (e matches CliError::BadInterval { text }
                    && text@ == s@)
            },
        },
{
    if !continuous {
        return Ok(PollConfig { continuous: false, interval_secs: DEFAULT_POLL_INTERVAL });
    }
    match interval_arg {
        None => Ok(PollConfig { continuous: true, interval_secs: DEFAULT_POLL_INTERVAL }),
        Some(s) => {
            match parse_decimal_text(s.as_str()) {
                Some(v) => Ok(PollConfig { continuous: true, interval_secs: v }),
                None => Err(CliError::BadInterval { text: s }),
            }
        },
    }
}

/// Reads the configuration from the command-line arguments (without the
/// program's own name): one recognized flag, short or long, optionally given
/// an interval value. The arguments are rejected, with the scan's message,
/// exactly when the scan rejects them; otherwise continuous mode equals the
/// flag's presence, the interval is the one the flag's value spells (or the
/// default without one), and a value that spells no number is rejected with
/// that value as text.
pub fn parse_cli(args: &Vec<String>) -> (r: Result<PollConfig, CliError>)
    ensures
        ({
            let scan = flag_scan(args.deep_view(), "c"@, "continuous"@);
            match r {
                Ok(c) => {
                    &&& scan matches Ok(p)
                    &&& c.continuous == p.0
                    &&& if p.0 {
                        interval_spec(p.1) == Some(c.interval_secs)
                    } else {
                        c.interval_secs == DEFAULT_POLL_INTERVAL
                    }
                },
                Err(CliError::BadArguments { message }) => scan matches Err(m) && message@ == m,
                Err(CliError::BadInterval { text }) => {
                    &&& scan matches Ok(p)
                    &&& p.0
                    &&& p.1 == Some(text@)
                    &&& parse_u64_spec(text@) is None
                },
            }
        }),
{
    proof {
        reveal_strlit("c");
        reveal_strlit("continuous");
        assert(forall|k: int| 0 <= k < "c"@.len() ==> ("c"@[k] as int) < 128);
    }
    let scanned = scan_one_flag(
        args,
        "c",
        "continuous",
        "run forever, printing a new line when things change. If an option is given, interpreted as poll interval",
        "INTERVAL",
    );
    match scanned {
        Err(message) => Err(CliError::BadArguments { message }),
        Ok((continuous, interval_arg)) => config_from_parts(continuous, interval_arg),
    }
}

} // verus!

//! Classifying raw kernel text: the charging status as a closed set of
//! variants, and the charge percentage as a bounded integer.
use vstd::prelude::*;

use crate::num::{all_digits, digits_val, lemma_digit_not_space, parse_decimal_text,
    parse_u64_spec};
use crate::text::{is_space, lemma_trimmed_padded, trim_text, trimmed};

verus! {

/// The level a full battery stands at, its capacity source notwithstanding.
pub const FULL_LEVEL: u8 = 100;

/// The charging state the kernel reports. Unrecognized text is a parse
/// failure, never a silent fallback: `Unknown` only stands for a source that
/// literally reads "Unknown".
#[derive(Clone, Copy, Debug, PartialEq, Eq, Structural)]
pub enum BatteryStatus {
    Charging,
    Discharging,
    Full,
    Unknown,
}

/// The literal word naming each status.
pub open spec fn status_text(st: BatteryStatus) -> Seq<char> {
    match st {
        BatteryStatus::Charging => "Charging"@,
        BatteryStatus::Discharging => "Discharging"@,
        BatteryStatus::Full => "Full"@,
        BatteryStatus::Unknown => "Unknown"@,
    }
}

/// What a whole status text denotes: its trimmed form must match one of the
/// four literal words exactly, case-sensitively; anything else denotes
/// nothing.
pub open spec fn parse_status_spec(s: Seq<char>) -> Option<BatteryStatus> {
    if trimmed(s) == "Charging"@ {
        Some(BatteryStatus::Charging)
    } else if trimmed(s) == "Discharging"@ {
        Some(BatteryStatus::Discharging)
    } else if trimmed(s) == "Full"@ {
        Some(BatteryStatus::Full)
    } else if trimmed(s) == "Unknown"@ {
        Some(BatteryStatus::Unknown)
    } else {
        None
    }
}

/// The status source held text that matches none of the four status words;
/// the offending text is kept for the diagnostic.
#[derive(Debug)]
pub struct ParseStatusError {
    pub text: String,
}

/// The capacity source held text that is not an unsigned decimal number in
/// range; the offending text is kept for the diagnostic.
#[derive(Debug)]
pub struct ParseLevelError {
    pub text: String,
}

/// What a whole capacity text denotes: its trimmed form must be decimal
/// digits whose value fits the level's type; anything else denotes nothing.
pub open spec fn parse_level_spec(s: Seq<char>) -> Option<u8> {
    let t = trimmed(s);
    if t.len() > 0 && all_digits(t) && digits_val(t) <= u8::MAX {
        Some(digits_val(t) as u8)
    } else {
        None
    }
}

fn str_eq(a: &str, b: &str) -> (r: bool)
    ensures
        r == (a@ == b@),
{
    let n = a.unicode_len();
    if n != b.unicode_len() {
        return false;
    }
    let mut i: usize = 0;
    while i < n
        invariant
            0 <= i <= n,
            n == a@.len(),
            n == b@.len(),
            forall|k: int| 0 <= k < i ==> a@[k] == b@[k],
        decreases n - i,
    {
        if a.get_char(i) != b.get_char(i) {
            return false;
        }
        i = i + 1;
    }
    proof {
        assert(a@ =~= b@);
    }
    true
}

impl BatteryStatus {
    /// Parses a raw status text: surrounding whitespace is ignored, and
    /// exactly the four literal status words are accepted. Any other text is
    /// rejected, with the text itself carried in the error.
    pub fn from_text(s: &str) -> (r: Result<BatteryStatus, ParseStatusError>)
        ensures
            match r {
                Ok(st) => parse_status_spec(s@) == Some(st),
                Err(e) => parse_status_spec(s@) is None && e.text@ == s@,
            },
    {
        let t = trim_text(s);
        if str_eq(t, "Charging") {
            Ok(BatteryStatus::Charging)
        } else if str_eq(t, "Discharging") {
            Ok(BatteryStatus::Discharging)
        } else if str_eq(t, "Full") {
            Ok(BatteryStatus::Full)
        } else if str_eq(t, "Unknown") {
            Ok(BatteryStatus::Unknown)
        } else {
            Err(ParseStatusError { text: s.to_owned() })
        }
    }

    /// The capacity policy for one poll: whether the capacity source is
    /// consulted for this status, and the level that stands when it is not.
    /// Only a full battery skips the read — its reported capacity may be
    /// stale or absent — and its level is by definition the full one.
    pub fn capacity_policy(&self) -> (r: (bool, u8))
        ensures
            r.0 == (*self != BatteryStatus::Full),
            r.1 == FULL_LEVEL,
    {
        match self {
            BatteryStatus::Full => (false, FULL_LEVEL),
            _ => (true, FULL_LEVEL),
        }
    }

    /// The literal word naming this status.
    pub fn as_text(&self) -> (r: String)
        ensures
            r@ == status_text(*self),
    {
        match self {
            BatteryStatus::Charging => String::from_str("Charging"),
            BatteryStatus::Discharging => String::from_str("Discharging"),
            BatteryStatus::Full => String::from_str("Full"),
            BatteryStatus::Unknown => String::from_str("Unknown"),
        }
    }
}

/// Parses a raw capacity text as a percentage: surrounding whitespace is
/// ignored, and the text must be decimal digits whose value fits the level's
/// type. Any other text is rejected, with the text itself carried in the
/// error.
pub fn parse_level(s: &str) -> (r: Result<u8, ParseLevelError>)
    ensures
        match r {
            Ok(v) => parse_level_spec(s@) == Some(v),
            Err(e) => parse_level_spec(s@) is None && e.text@ == s@,
        },
{
    match parse_decimal_text(s) {
        Some(v) => {
            if v <= u8::MAX as u64 {
                Ok(v as u8)
            } else {
                Err(ParseLevelError { text: s.to_owned() })
            }
        },
        None => {
            proof {
                let t = trimmed(s@);
                if t.len() > 0 && all_digits(t) && digits_val(t) <= u8::MAX {
                    assert(parse_u64_spec(s@) is Some);
                }
            }
            Err(ParseLevelError { text: s.to_owned() })
        },
    }
}

/// Each of the four status words, surrounded by any whitespace, parses to its
/// own variant.
pub proof fn lemma_parse_status_padded(pre: Seq<char>, st: BatteryStatus, post: Seq<char>)
    requires
        forall|k: int| 0 <= k < pre.len() ==> is_space(pre[k]),
        forall|k: int| 0 <= k < post.len() ==> is_space(post[k]),
    ensures
        parse_status_spec(pre + status_text(st) + post) == Some(st),
{
    reveal_strlit("Charging");
    reveal_strlit("Discharging");
    reveal_strlit("Full");
    reveal_strlit("Unknown");
    let w = status_text(st);
    lemma_trimmed_padded(pre, w, post);
}

/// Any string of decimal digits whose value fits the level's type, surrounded
/// by any whitespace, parses to that value.
pub proof fn lemma_parse_level_padded(pre: Seq<char>, digits: Seq<char>, post: Seq<char>)
    requires
        forall|k: int| 0 <= k < pre.len() ==> is_space(pre[k]),
        forall|k: int| 0 <= k < post.len() ==> is_space(post[k]),
        digits.len() > 0,
        all_digits(digits),
        digits_val(digits) <= u8::MAX,
    ensures
        parse_level_spec(pre + digits + post) == Some(digits_val(digits) as u8),
{
    lemma_digit_not_space(digits.first());
    lemma_digit_not_space(digits.last());
    lemma_trimmed_padded(pre, digits, post);
}

} // verus!

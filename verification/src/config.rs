//! The service's configuration, and how it is made from the raw text of its
//! five settings. Reading the settings from the process environment is left
//! to the caller; every rule on what a setting means is here.

use vstd::prelude::*;
use vstd::string::is_ascii_spec_bytes;
use crate::text::same_text;

verus! {

/// The settings the service starts with. Read once, never changed.
#[derive(Clone, Debug)]
pub struct Config {
    pub api_host: String,
    pub api_port: u16,
    pub default_tokenizer: String,
    pub default_embedding_model: String,
    pub preload: bool,
}

/// The port used where none is given or the given text is no port.
pub const DEFAULT_PORT: u16 = 7105;

/// Whether a character is a decimal digit.
pub open spec fn is_digit(c: char) -> bool {
    '0' <= c <= '9'
}

/// Whether every character of a text is a decimal digit.
pub open spec fn all_digits(text: Seq<char>) -> bool {
    forall|i: int| 0 <= i < text.len() ==> is_digit(#[trigger] text[i])
}

/// The number that a text of decimal digits denotes.
pub open spec fn digits_value(text: Seq<char>) -> nat
    decreases text.len(),
{
    if text.len() == 0 {
        0
    } else {
        (digits_value(text.drop_last()) * 10 + (text.last() as int - '0' as int)) as nat
    }
}

/// A text without the one plus sign that may lead it.
pub open spec fn unsigned_part(text: Seq<char>) -> Seq<char> {
    if text.len() > 0 && text[0] == '+' {
        text.subrange(1, text.len() as int)
    } else {
        text
    }
}

/// The port that a text denotes: an optional plus sign, then at least one
/// decimal digit and nothing else, with a value of at most 65535.
pub open spec fn parsed_port(text: Seq<char>) -> Option<u16> {
    let digits = unsigned_part(text);
    if digits.len() > 0 && all_digits(digits) && digits_value(digits) <= 65535 {
        Some(digits_value(digits) as u16)
    } else {
        None
    }
}

/// Whether a text is "true" in any mix of upper and lower case.
pub open spec fn spells_true(text: Seq<char>) -> bool {
    &&& text.len() == 4
    &&& (text[0] == 't' || text[0] == 'T')
    &&& (text[1] == 'r' || text[1] == 'R')
    &&& (text[2] == 'u' || text[2] == 'U')
    &&& (text[3] == 'e' || text[3] == 'E')
}

/// Whether a text switches a flag on: "1", or "true" in any case.
pub open spec fn is_truthy(text: Seq<char>) -> bool {
    text == "1"@ || spells_true(text)
}

/// The text of a setting, or the fallback where it is not set.
pub open spec fn text_or(value: Option<String>, fallback: Seq<char>) -> Seq<char> {
    match value {
        Some(text) => text@,
        None => fallback,
    }
}

/// The port of a setting: what its text denotes, else the default port.
pub open spec fn port_of(value: Option<String>) -> u16 {
    match value {
        Some(text) => match parsed_port(text@) {
            Some(port) => port,
            None => DEFAULT_PORT,
        },
        None => DEFAULT_PORT,
    }
}

/// The warmup flag of a setting: on where it is not set.
pub open spec fn preload_of(value: Option<String>) -> bool {
    match value {
        Some(text) => is_truthy(text@),
        None => true,
    }
}

/// The value of a prefix of a digit text is at most the value of the text.
proof fn lemma_prefix_value(text: Seq<char>, k: int)
    requires
        all_digits(text),
        0 <= k <= text.len(),
    ensures
        digits_value(text.subrange(0, k)) <= digits_value(text),
    decreases text.len(),
{
    if k == text.len() {
        assert(text.subrange(0, k) =~= text);
    } else {
        let shorter = text.drop_last();
        assert(shorter.subrange(0, k) =~= text.subrange(0, k));
        assert(all_digits(shorter)) by {
            assert forall|i: int| 0 <= i < shorter.len() implies is_digit(
                #[trigger] shorter[i],
            ) by {
                assert(shorter[i] == text[i]);
            }
        }
        lemma_prefix_value(shorter, k);
    }
}

/// Reads a port as `u16`'s own parser does: an optional plus sign and decimal
/// digits, nothing before, between or after them, and no value above 65535.
pub fn parse_port(text: &str) -> (port: Option<u16>)
    ensures
        port == parsed_port(text@),
{
    broadcast use is_ascii_spec_bytes;

    let ghost digits = unsigned_part(text@);
    if !text.is_ascii() {
        proof {
            let i = choose|i: int|
                0 <= i < text@.len() && !('\0' <= #[trigger] text@[i] && text@[i] <= '\u{7f}');
            if all_digits(digits) {
                if text@[0] == '+' {
                    assert(is_digit(digits[i - 1]));
                } else {
                    assert(is_digit(digits[i]));
                }
            }
        }
        return None;
    }
    let bytes = text.as_bytes();
    let len = bytes.len();
    assert(forall|j: int| 0 <= j < len ==> bytes@[j] == text@[j] as u8);
    let start: usize = if len > 0 && bytes[0] == 43u8 {
        1
    } else {
        0
    };
    assert(text@.len() > 0 ==> (text@[0] == '+' <==> bytes@[0] == 43u8));
    if start == len {
        return None;
    }
    let mut value: u32 = 0;
    let mut i: usize = start;
    assert(digits.subrange(0, 0) =~= Seq::<char>::empty());
    while i < len
        invariant
            start <= i <= len,
            len == text@.len(),
            len == bytes@.len(),
            digits == unsigned_part(text@),
            digits.len() == len - start,
            forall|j: int| 0 <= j < digits.len() ==> digits[j] == text@[j + start],
            forall|j: int| 0 <= j < len ==> bytes@[j] == text@[j] as u8,
            forall|j: int| 0 <= j < len ==> '\0' <= #[trigger] text@[j] <= '\u{7f}',
            forall|j: int| 0 <= j < i - start ==> is_digit(#[trigger] digits[j]),
            value == digits_value(digits.subrange(0, i - start)),
            value <= 65535,
        decreases len - i,
    {
        let byte = bytes[i];
        if byte < 48u8 || byte > 57u8 {
            assert(!is_digit(digits[i - start]));
            return None;
        }
        let next: u32 = value * 10 + (byte - 48u8) as u32;
        proof {
            let longer = digits.subrange(0, i - start + 1);
            assert(longer.drop_last() =~= digits.subrange(0, i - start));
            assert(next == digits_value(longer));
        }
        if next > 65535 {
            proof {
                if all_digits(digits) {
                    lemma_prefix_value(digits, i - start + 1);
                }
            }
            return None;
        }
        value = next;
        i += 1;
    }
    assert(digits.subrange(0, len - start) =~= digits);
    Some(value as u16)
}

/// Reads a flag: on for "1" and for "true" in any case, off for anything else.
pub fn parse_flag(text: &str) -> (on: bool)
    ensures
        on == is_truthy(text@),
{
    if same_text(text, "1") {
        return true;
    }
    if text.unicode_len() != 4 {
        return false;
    }
    let c0 = text.get_char(0);
    let c1 = text.get_char(1);
    let c2 = text.get_char(2);
    let c3 = text.get_char(3);
    (c0 == 't' || c0 == 'T') && (c1 == 'r' || c1 == 'R') && (c2 == 'u' || c2 == 'U') && (c3 == 'e'
        || c3 == 'E')
}

fn or_default(value: Option<String>, fallback: &str) -> (text: String)
    ensures
        text@ == text_or(value, fallback@),
{
    match value {
        Some(text) => text,
        None => fallback.to_owned(),
    }
}

impl Config {
    /// Makes the configuration from the raw text of the five settings, each
    /// `None` where it is not set.
    ///
    /// A missing host is "0.0.0.0". A port that is missing or is no port is
    /// 7105. A missing tokenizer is "cl100k_base", a missing embedding model
    /// "text-embedding-ada-002". Warmup is on unless the flag is set to
    /// something other than "1" or "true".
    pub fn from_settings(
        api_host: Option<String>,
        api_port: Option<String>,
        default_tokenizer: Option<String>,
        default_embedding_model: Option<String>,
        preload: Option<String>,
    ) -> (config: Config)
        ensures
            config.api_host@ == text_or(api_host, "0.0.0.0"@),
            config.api_port == port_of(api_port),
            config.default_tokenizer@ == text_or(default_tokenizer, "cl100k_base"@),
            config.default_embedding_model@ == text_or(
                default_embedding_model,
                "text-embedding-ada-002"@,
            ),
            config.preload == preload_of(preload),
    {
        let port = match &api_port {
            Some(text) => match parse_port(text.as_str()) {
                Some(port) => port,
                None => DEFAULT_PORT,
            },
            None => DEFAULT_PORT,
        };
        let flag = match &preload {
            Some(text) => parse_flag(text.as_str()),
            None => true,
        };
        Config {
            api_host: or_default(api_host, "0.0.0.0"),
            api_port: port,
            default_tokenizer: or_default(default_tokenizer, "cl100k_base"),
            default_embedding_model: or_default(default_embedding_model, "text-embedding-ada-002"),
            preload: flag,
        }
    }
}

} // verus!

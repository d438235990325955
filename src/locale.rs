use vstd::prelude::*;
use vstd::string::*;
use vstd::utf8::*;

use crate::text::{lossy_text, lossy_text_of, utf8_lossy_of};

verus! {

/// An ISO 639-1 language code, stored as the big-endian concatenation of its two ASCII bytes
#[derive(Debug, Clone, Copy, PartialEq, Eq, Structural)]
pub struct Locale(pub u16);

/// The two bytes of a 16-bit word, most significant first
pub open spec fn word_bytes(w: u16) -> Seq<u8> {
    seq![(w / 256) as u8, (w % 256) as u8]
}

/// The 16-bit word made of two bytes, the first one most significant
pub open spec fn word_of(b0: u8, b1: u8) -> u16 {
    (b0 as int * 256 + b1 as int) as u16
}

/// Locale that a text stands for: its UTF-8 encoding must have exactly two bytes
pub open spec fn locale_of_text(s: Seq<char>) -> Option<Locale> {
    let b = encode_utf8(s);
    if b.len() == 2 {
        Some(Locale(word_of(b[0], b[1])))
    } else {
        None
    }
}

/// Text of a locale: its two bytes read as UTF-8, invalid sequences replaced
pub open spec fn locale_text(l: Locale) -> Seq<char> {
    utf8_lossy_of(word_bytes(l.0))
}

/// Whether a word is made of two lowercase ASCII letters
pub open spec fn is_lowercase_pair(w: u16) -> bool {
    97 <= w / 256 <= 122 && 97 <= w % 256 <= 122
}

impl Locale {
    /// Create a locale from a u16; `None` unless its two bytes read as a two-byte text
    pub fn try_from_u16(num: u16) -> (r: Option<Locale>)
        ensures
            r == locale_of_text(lossy_text_of(word_bytes(num))),
            !valid_utf8(word_bytes(num)) ==> r is None,
    {
        let s = Locale(num).to_string();
        proof {
            if !valid_utf8(word_bytes(num)) {
                let k = choose|k: int| 0 <= k < s@.len() && s@[k] == '\u{FFFD}';
                crate::text::lemma_encode_wide_char(s@, k);
            }
        }
        match Locale::try_from_str(s.as_str()) {
            Ok(locale) => Some(locale),
            Err(_) => None,
        }
    }

    /// Language code as a u16
    pub fn as_u16(&self) -> (r: u16)
        ensures
            r == self.0,
    {
        self.0
    }

    /// Language code as a usize
    pub fn as_usize(&self) -> (r: usize)
        ensures
            r == self.0 as usize,
    {
        self.0 as usize
    }

    /// Allowed value bounds, from "aa" to "zz"
    pub fn bounds() -> (r: core::ops::RangeInclusive<usize>)
        ensures
            r@.start == 0x6161,
            r@.end == 0x7a7a,
            !r@.exhausted,
    {
        core::ops::RangeInclusive::new(0x6161usize, 0x7a7ausize)
    }

    /// Locale of a language code; it must be exactly 2 bytes long
    pub fn try_from_str(value: &str) -> (r: Result<Locale, &'static str>)
        ensures
            r.is_ok() == (value.spec_bytes().len() == 2),
            r matches Ok(l) ==> Some(l) == locale_of_text(value@),
    {
        let bytes = value.as_bytes();
        if bytes.len() == 2 {
            let w = (bytes[0] as u16) * 256 + (bytes[1] as u16);
            Ok(Locale(w))
        } else {
            Err("language code must be exactly 2 characters, according to ISO 639-1")
        }
    }

    /// Text of the language code
    pub fn to_string(&self) -> (r: String)
        ensures
            r@ == locale_text(*self),
            r@ == lossy_text_of(word_bytes(self.0)),
            !valid_utf8(word_bytes(self.0)) ==> r@.contains('\u{FFFD}'),
    {
        let bytes: [u8; 2] = [(self.0 / 256) as u8, (self.0 % 256) as u8];
        proof {
            assert(bytes@ =~= word_bytes(self.0));
        }
        lossy_text(&bytes)
    }
}

impl Default for Locale {
    fn default() -> (r: Locale)
        ensures
            r == Locale(0x656e),
    {
        Locale(0x656e)
    }
}

/// A locale whose two bytes are valid UTF-8 reads back from its 16-bit word
pub proof fn lemma_locale_back(w: u16)
    requires
        valid_utf8(word_bytes(w)),
    ensures
        locale_of_text(lossy_text_of(word_bytes(w))) == Some(Locale(w)),
{
    decode_utf8_encode_utf8(word_bytes(w));
}

/// A two-letter lowercase language code gives a locale whose text is the code again
pub proof fn lemma_locale_text_round_trip(s: Seq<char>)
    requires
        s.len() == 2,
        'a' <= s[0] <= 'z',
        'a' <= s[1] <= 'z',
    ensures
        locale_of_text(s) matches Some(l) && lossy_text_of(word_bytes(l.0)) == s && is_lowercase_pair(
            l.0,
        ),
{
    is_ascii_chars_encode_utf8(s);
    encode_utf8_valid_utf8(s);
    encode_utf8_decode_utf8(s);
    let b = encode_utf8(s);
    let w = word_of(b[0], b[1]);
    assert(word_bytes(w) =~= b);
}

} // verus!

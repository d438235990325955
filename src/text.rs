use vstd::prelude::*;
use vstd::string::*;
use vstd::utf8::*;

verus! {

/// What `String::from_utf8_lossy` makes of a byte sequence.
pub uninterp spec fn utf8_lossy_of(b: Seq<u8>) -> Seq<char>;

/// Relies on std::str::from_utf8: it accepts exactly the valid UTF-8 sequences, and the text
/// it then returns is made of those bytes.
#[verifier::external_body]
pub(crate) fn utf8_text(b: &[u8]) -> (r: Option<String>)
    ensures
        r.is_some() == valid_utf8(b@),
        r matches Some(s) ==> s@ == decode_utf8(b@),
{
    std::str::from_utf8(b).ok().map(|s| s.to_owned())
}

/// Relies on String::from_utf8_lossy: invalid sequences become the replacement character
/// U+FFFD, and a valid UTF-8 sequence is returned as it is.
#[verifier::external_body]
pub(crate) fn lossy_text(b: &[u8]) -> (r: String)
    ensures
        r@ == utf8_lossy_of(b@),
        valid_utf8(b@) ==> r@ == decode_utf8(b@),
        !valid_utf8(b@) ==> r@.contains('\u{FFFD}'),
{
    String::from_utf8_lossy(b).into_owned()
}

/// Text of a byte sequence read as UTF-8 with invalid sequences replaced: the decoded text when
/// the bytes are valid UTF-8
pub open spec fn lossy_text_of(b: Seq<u8>) -> Seq<char> {
    if valid_utf8(b) {
        decode_utf8(b)
    } else {
        utf8_lossy_of(b)
    }
}

/// Character of a decimal digit
pub open spec fn digit_char(d: nat) -> char
    recommends
        d < 10,
{
    ((d + 48) as u32) as char
}

/// Whether a character is an ASCII decimal digit
pub open spec fn is_digit(c: char) -> bool {
    '0' <= c && c <= '9'
}

/// Value of a decimal digit character
pub open spec fn digit_value(c: char) -> nat {
    (c as u32 - 48) as nat
}

/// Decimal representation of a natural number, without leading zeros
pub open spec fn dec_chars(n: nat) -> Seq<char>
    decreases n,
{
    if n < 10 {
        seq![digit_char(n)]
    } else {
        dec_chars(n / 10).push(digit_char(n % 10))
    }
}

/// Value of a sequence of decimal digits
pub open spec fn dec_value(t: Seq<char>) -> nat
    decreases t.len(),
{
    if t.len() == 0 {
        0
    } else {
        dec_value(t.drop_last()) * 10 + digit_value(t.last())
    }
}

/// Text of a device ID: its three numbers in decimal, separated by dashes
pub open spec fn device_id_text(a: u32, b: u32, c: u32) -> Seq<char> {
    dec_chars(a as nat) + seq!['-'] + dec_chars(b as nat) + seq!['-'] + dec_chars(c as nat)
}

/// Whether a text is the device ID text of three numbers
pub open spec fn canonical_device_id(s: Seq<char>) -> bool {
    exists|a: u32, b: u32, c: u32| s == #[trigger] device_id_text(a, b, c)
}

/// Relies on the `Display` formatting of `u32` (through `to_string`), which writes the number in
/// decimal without leading zeros.
#[verifier::external_body]
fn u32_text(n: u32) -> (r: String)
    ensures
        r@ == dec_chars(n as nat),
{
    n.to_string()
}

/// Text of a device ID: its three numbers in decimal, separated by dashes
pub fn device_id_string(a: u32, b: u32, c: u32) -> (r: String)
    ensures
        r@ == device_id_text(a, b, c),
{
    let mut r = u32_text(a);
    let tb = u32_text(b);
    let tc = u32_text(c);
    proof {
        reveal_strlit("-");
    }
    r.append("-");
    r.append(tb.as_str());
    r.append("-");
    r.append(tc.as_str());
    assert(r@ =~= device_id_text(a, b, c));
    r
}

/// A text without its leading '+', if any
pub open spec fn sign_stripped(t: Seq<char>) -> Seq<char> {
    if t.len() > 0 && t[0] == '+' {
        t.subrange(1, t.len() as int)
    } else {
        t
    }
}

/// Whether a text is made of decimal digits only
pub open spec fn all_digits(d: Seq<char>) -> bool {
    forall|i: int| 0 <= i < d.len() ==> is_digit(#[trigger] d[i])
}

/// Value of an unsigned decimal number with an optional leading '+', if it fits in a u32
pub open spec fn u32_text_value(t: Seq<char>) -> Option<u32> {
    let d = sign_stripped(t);
    if d.len() > 0 && all_digits(d) && dec_value(d) <= u32::MAX {
        Some(dec_value(d) as u32)
    } else {
        None
    }
}

/// Position of the first dash at or after `i`, or the length of `s` if there is none
pub open spec fn next_dash(s: Seq<char>, i: int) -> int
    decreases s.len() - i,
{
    if i < 0 || i >= s.len() {
        s.len() as int
    } else if s[i] == '-' {
        i
    } else {
        next_dash(s, i + 1)
    }
}

/// The `k`-th dash-separated piece of `s` (empty when `s` has fewer pieces)
pub open spec fn dash_piece(s: Seq<char>, k: nat) -> Seq<char> {
    let d0 = next_dash(s, 0);
    let d1 = next_dash(s, d0 + 1);
    let d2 = next_dash(s, d1 + 1);
    if k == 0 {
        s.subrange(0, d0)
    } else if k == 1 {
        if d0 < s.len() {
            s.subrange(d0 + 1, d1)
        } else {
            Seq::empty()
        }
    } else {
        if d0 < s.len() && d1 < s.len() {
            s.subrange(d1 + 1, d2)
        } else {
            Seq::empty()
        }
    }
}

/// Number held by a piece of a device ID: 0 when the piece is not a valid u32
pub open spec fn piece_number(t: Seq<char>) -> u32 {
    match u32_text_value(t) {
        Some(v) => v,
        None => 0,
    }
}

/// The three numbers of a device ID text, each 0 where it is missing or not a valid u32
pub open spec fn split_device_id_spec(s: Seq<char>) -> (u32, u32, u32) {
    (
        piece_number(dash_piece(s, 0)),
        piece_number(dash_piece(s, 1)),
        piece_number(dash_piece(s, 2)),
    )
}

fn find_dash(s: &str, i: usize) -> (r: usize)
    requires
        i <= s@.len(),
    ensures
        r as int == next_dash(s@, i as int),
        i <= r <= s@.len(),
{
    let n = s.unicode_len();
    let mut j = i;
    while j < n
        invariant
            n == s@.len(),
            i <= j <= n,
            next_dash(s@, i as int) == next_dash(s@, j as int),
        decreases n - j,
    {
        if s.get_char(j) == '-' {
            return j;
        }
        j = j + 1;
    }
    j
}

proof fn lemma_dec_value_push(t: Seq<char>, k: int)
    requires
        0 <= k < t.len(),
    ensures
        dec_value(t.subrange(0, k + 1)) == dec_value(t.subrange(0, k)) * 10 + digit_value(t[k]),
{
    assert(t.subrange(0, k + 1).drop_last() =~= t.subrange(0, k));
}

/// Number held by the characters of `s` from `from` to `to`, 0 where it is not a valid u32
fn parse_piece(s: &str, from: usize, to: usize) -> (r: u32)
    requires
        from <= to <= s@.len(),
    ensures
        r == piece_number(s@.subrange(from as int, to as int)),
{
    let ghost t = s@.subrange(from as int, to as int);
    let mut start = from;
    if from < to && s.get_char(from) == '+' {
        start = from + 1;
    }
    let ghost d = s@.subrange(start as int, to as int);
    assert(d =~= sign_stripped(t));
    if start == to {
        assert(u32_text_value(t).is_none());
        return 0;
    }
    let cap: u64 = 0x1_0000_0000;
    let mut acc: u64 = 0;
    let mut i = start;
    while i < to
        invariant
            from <= start <= i <= to <= s@.len(),
            d == s@.subrange(start as int, to as int),
            t == s@.subrange(from as int, to as int),
            d == sign_stripped(t),
            forall|j: int| 0 <= j < i - start ==> is_digit(#[trigger] d[j]),
            acc as int == if dec_value(d.subrange(0, i - start)) < cap {
                dec_value(d.subrange(0, i - start)) as int
            } else {
                cap as int
            },
            cap == 0x1_0000_0000u64,
        decreases to - i,
    {
        let c = s.get_char(i);
        if !('0' <= c && c <= '9') {
            assert(!is_digit(d[i - start]));
            assert(!all_digits(d));
            return 0;
        }
        proof {
            lemma_dec_value_push(d, i - start);
        }
        let digit = (c as u32 - 48) as u64;
        let next = acc * 10 + digit;
        acc = if next < cap {
            next
        } else {
            cap
        };
        i = i + 1;
    }
    assert(d.subrange(0, d.len() as int) =~= d);
    assert(all_digits(d));
    assert(u32_text_value(t) == if dec_value(d) <= u32::MAX {
        Some(dec_value(d) as u32)
    } else {
        None
    });
    if acc < cap {
        acc as u32
    } else {
        0
    }
}

/// Split a device ID of the form `A-B-C` into its three numbers; a missing or invalid number
/// reads as 0, and what follows a third dash is ignored.
pub fn split_device_id(device_id: &str) -> (r: (u32, u32, u32))
    ensures
        r == split_device_id_spec(device_id@),
{
    let s = device_id;
    let n = s.unicode_len();
    let d0 = find_dash(s, 0);
    let a = parse_piece(s, 0, d0);
    let mut b: u32 = 0;
    let mut c: u32 = 0;
    let ghost d1 = next_dash(s@, d0 + 1);
    if d0 < n {
        let e1 = find_dash(s, d0 + 1);
        b = parse_piece(s, d0 + 1, e1);
        if e1 < n {
            let e2 = find_dash(s, e1 + 1);
            c = parse_piece(s, e1 + 1, e2);
        } else {
            assert(piece_number(Seq::<char>::empty()) == 0);
        }
    } else {
        assert(piece_number(Seq::<char>::empty()) == 0);
    }
    (a, b, c)
}

/// The decimal representation of a number is made of digits and reads back as the number
pub proof fn lemma_dec_chars(n: nat)
    ensures
        dec_chars(n).len() > 0,
        all_digits(dec_chars(n)),
        dec_value(dec_chars(n)) == n,
    decreases n,
{
    if n < 10 {
        assert(dec_chars(n).drop_last() =~= Seq::<char>::empty());
        assert(dec_value(Seq::<char>::empty()) == 0);
        assert(digit_char(n) as u32 == n + 48);
    } else {
        lemma_dec_chars(n / 10);
        let d = dec_chars(n);
        assert(d.drop_last() =~= dec_chars(n / 10));
        assert(digit_char(n % 10) as u32 == n % 10 + 48);
        assert(dec_value(d) == dec_value(dec_chars(n / 10)) * 10 + n % 10);
        assert forall|i: int| 0 <= i < d.len() implies is_digit(#[trigger] d[i]) by {
            if i < d.len() - 1 {
                assert(d[i] == dec_chars(n / 10)[i]);
            }
        }
    }
}

proof fn lemma_next_dash_skip(s: Seq<char>, i: int, j: int)
    requires
        0 <= i <= j <= s.len(),
        forall|k: int| i <= k < j ==> s[k] != '-',
        j == s.len() || s[j] == '-',
    ensures
        next_dash(s, i) == j,
    decreases j - i,
{
    if i < j {
        lemma_next_dash_skip(s, i + 1, j);
    }
}

proof fn lemma_piece_number(n: u32)
    ensures
        piece_number(dec_chars(n as nat)) == n,
{
    lemma_dec_chars(n as nat);
    let d = dec_chars(n as nat);
    assert(is_digit(d[0]));
    assert(sign_stripped(d) == d);
}

/// The text of a device ID splits back into its three numbers
pub proof fn lemma_split_device_id_text(a: u32, b: u32, c: u32)
    ensures
        split_device_id_spec(device_id_text(a, b, c)) == (a, b, c),
{
    let da = dec_chars(a as nat);
    let db = dec_chars(b as nat);
    let dc = dec_chars(c as nat);
    lemma_dec_chars(a as nat);
    lemma_dec_chars(b as nat);
    lemma_dec_chars(c as nat);
    lemma_piece_number(a);
    lemma_piece_number(b);
    lemma_piece_number(c);
    let s = device_id_text(a, b, c);
    let la = da.len() as int;
    let lb = db.len() as int;
    let lc = dc.len() as int;
    assert(s.len() == la + 1 + lb + 1 + lc);
    assert forall|k: int| 0 <= k < la implies s[k] != '-' by {
        assert(s[k] == da[k]);
        assert(is_digit(da[k]));
    }
    assert(s[la] == '-');
    lemma_next_dash_skip(s, 0, la);
    assert forall|k: int| la + 1 <= k < la + 1 + lb implies s[k] != '-' by {
        assert(s[k] == db[k - la - 1]);
        assert(is_digit(db[k - la - 1]));
    }
    assert(s[la + 1 + lb] == '-');
    lemma_next_dash_skip(s, la + 1, la + 1 + lb);
    assert forall|k: int| la + 2 + lb <= k < s.len() implies s[k] != '-' by {
        assert(s[k] == dc[k - la - 2 - lb]);
        assert(is_digit(dc[k - la - 2 - lb]));
    }
    lemma_next_dash_skip(s, la + 2 + lb, s.len() as int);
    assert(dash_piece(s, 0) =~= da);
    assert(dash_piece(s, 1) =~= db);
    assert(dash_piece(s, 2) =~= dc);
}

/// The UTF-8 encoding of a text that holds a character beyond U+07FF has at least three bytes
pub proof fn lemma_encode_wide_char(s: Seq<char>, i: int)
    requires
        0 <= i < s.len(),
        s[i] as u32 >= 0x800,
    ensures
        encode_utf8(s).len() >= 3,
    decreases i,
{
    if i > 0 {
        lemma_encode_wide_char(s.drop_first(), i - 1);
    }
}

} // verus!

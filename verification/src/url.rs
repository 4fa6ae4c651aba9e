//! Percent-encoding of query-parameter values.
use vstd::prelude::*;
use vstd::string::StringSliceAdditionalSpecFns;

verus! {

/// Bytes kept as they are in a query value: the unreserved characters of
/// RFC 3986 (letters, digits, `-`, `_`, `.`, `~`) and the comma, which
/// GitHub reads as the separator of a label list.
pub open spec fn is_kept_byte(b: u8) -> bool {
    ||| 65 <= b <= 90
    ||| 97 <= b <= 122
    ||| 48 <= b <= 57
    ||| b == 45
    ||| b == 95
    ||| b == 46
    ||| b == 126
    ||| b == 44
}

/// The upper-case hexadecimal digit of `d < 16`.
pub open spec fn hex_digit(d: nat) -> char {
    if d < 10 {
        (d + 48) as char
    } else {
        (d + 55) as char
    }
}

/// How one byte is written: kept bytes as themselves, every other byte
/// as `%` followed by its two upper-case hexadecimal digits.
pub open spec fn encode_byte(b: u8) -> Seq<char> {
    if is_kept_byte(b) {
        seq![b as char]
    } else {
        seq!['%', hex_digit(b as nat / 16), hex_digit(b as nat % 16)]
    }
}

/// The percent-encoding of a byte string, byte by byte.
pub open spec fn url_encoded(bytes: Seq<u8>) -> Seq<char>
    decreases bytes.len(),
{
    if bytes.len() == 0 {
        Seq::empty()
    } else {
        url_encoded(bytes.drop_last()) + encode_byte(bytes.last())
    }
}

/// The upper-case hexadecimal digit of `d < 16`.
fn hex_digit_char(d: u8) -> (c: char)
    requires
        d < 16,
    ensures
        c == hex_digit(d as nat),
{
    if d < 10 {
        (d + 48) as char
    } else {
        (d + 55) as char
    }
}

/// Percent-encodes a query-parameter value. Letters, digits, `-`, `_`,
/// `.`, `~` and `,` are kept; every other byte of the value's UTF-8
/// encoding becomes `%XX` with upper-case hexadecimal digits.
pub fn simple_url_encode(input: &str) -> (encoded: String)
    ensures
        encoded@ == url_encoded(input.spec_bytes()),
{
    let bytes = input.as_bytes();
    let n = bytes.len();
    let mut encoded = String::new();
    let mut i: usize = 0;
    while i < n
        invariant
            n == bytes@.len(),
            bytes@ == input.spec_bytes(),
            i <= n,
            encoded@ == url_encoded(bytes@.subrange(0, i as int)),
        decreases n - i,
    {
        let b = bytes[i];
        let ghost before = encoded@;
        if (65 <= b && b <= 90) || (97 <= b && b <= 122) || (48 <= b && b <= 57) || b == 45
            || b == 95 || b == 46 || b == 126 || b == 44 {
            encoded.push(b as char);
        } else {
            encoded.push('%');
            encoded.push(hex_digit_char(b / 16));
            encoded.push(hex_digit_char(b % 16));
        }
        assert(bytes@.subrange(0, i + 1).drop_last() =~= bytes@.subrange(0, i as int));
        assert(encoded@ =~= before + encode_byte(b));
        i += 1;
    }
    assert(bytes@.subrange(0, n as int) =~= bytes@);
    encoded
}

/// Whether `c` is a hexadecimal digit, in either case.
pub open spec fn is_hex_char(c: char) -> bool {
    ||| 48 <= c as u32 <= 57
    ||| 65 <= c as u32 <= 70
    ||| 97 <= c as u32 <= 102
}

/// The value of a hexadecimal digit.
pub open spec fn hex_value(c: char) -> int {
    if c as u32 <= 57 {
        c as u32 - 48
    } else if c as u32 <= 70 {
        c as u32 - 55
    } else {
        c as u32 - 87
    }
}

/// Reads a percent-encoded text back into bytes: `%XX` stands for the
/// byte with hexadecimal value `XX`, any other ASCII character for its own
/// byte. Text holding a stray `%` or a non-ASCII character reads as
/// nothing.
pub open spec fn percent_decoded(s: Seq<char>) -> Option<Seq<u8>>
    decreases s.len(),
{
    if s.len() == 0 {
        Some(Seq::empty())
    } else if s[0] == '%' {
        if s.len() >= 3 && is_hex_char(s[1]) && is_hex_char(s[2]) {
            match percent_decoded(s.skip(3)) {
                Some(rest) => Some(seq![(hex_value(s[1]) * 16 + hex_value(s[2])) as u8] + rest),
                None => None,
            }
        } else {
            None
        }
    } else if (s[0] as u32) < 128 {
        match percent_decoded(s.skip(1)) {
            Some(rest) => Some(seq![(s[0] as u32) as u8] + rest),
            None => None,
        }
    } else {
        None
    }
}

/// Characters that may stand in an encoded query value: the kept
/// characters and `%`.
pub open spec fn is_query_safe_char(c: char) -> bool {
    ||| c == '%'
    ||| (c as u32) < 128 && is_kept_byte((c as u32) as u8)
}

/// Encoding two byte strings one after the other gives the two encodings
/// one after the other.
pub proof fn lemma_url_encoded_concat(a: Seq<u8>, b: Seq<u8>)
    ensures
        url_encoded(a + b) == url_encoded(a) + url_encoded(b),
    decreases b.len(),
{
    if b.len() == 0 {
        assert(a + b =~= a);
        assert(url_encoded(a) + url_encoded(b) =~= url_encoded(a));
    } else {
        lemma_url_encoded_concat(a, b.drop_last());
        assert((a + b).drop_last() =~= a + b.drop_last());
        assert((a + b).last() == b.last());
        assert(url_encoded(a + b) =~= url_encoded(a) + url_encoded(b));
    }
}

proof fn lemma_url_encoded_front(b: Seq<u8>)
    requires
        b.len() > 0,
    ensures
        url_encoded(b) == encode_byte(b[0]) + url_encoded(b.skip(1)),
{
    lemma_url_encoded_concat(seq![b[0]], b.skip(1));
    assert(seq![b[0]] + b.skip(1) =~= b);
    let one = seq![b[0]];
    assert(one.drop_last() =~= Seq::<u8>::empty());
    assert(one.last() == b[0]);
    assert(url_encoded(one.drop_last()) =~= Seq::<char>::empty());
    assert(url_encoded(one) =~= encode_byte(b[0]));
}

proof fn lemma_hex_digit_value(d: nat)
    requires
        d < 16,
    ensures
        is_hex_char(hex_digit(d)),
        hex_value(hex_digit(d)) == d,
        (hex_digit(d) as u32) < 128,
        is_kept_byte((hex_digit(d) as u32) as u8),
{
}

/// Reading the encoding of a value back gives the value's bytes again:
/// the encoding loses nothing.
pub proof fn law_url_encoding_round_trip(bytes: Seq<u8>)
    ensures
        percent_decoded(url_encoded(bytes)) == Some(bytes),
    decreases bytes.len(),
{
    if bytes.len() == 0 {
        assert(url_encoded(bytes) =~= Seq::<char>::empty());
        assert(percent_decoded(Seq::<char>::empty()) == Some(Seq::<u8>::empty()));
        assert(Seq::<u8>::empty() =~= bytes);
    } else {
        let x = bytes[0];
        let rest = bytes.skip(1);
        lemma_url_encoded_front(bytes);
        law_url_encoding_round_trip(rest);
        let s = url_encoded(bytes);
        let e = encode_byte(x);
        if is_kept_byte(x) {
            assert(s[0] == x as char);
            assert(s.skip(1) =~= url_encoded(rest));
            assert(seq![x] + rest =~= bytes);
        } else {
            lemma_hex_digit_value(x as nat / 16);
            lemma_hex_digit_value(x as nat % 16);
            assert(s[0] == '%');
            assert(s[1] == hex_digit(x as nat / 16));
            assert(s[2] == hex_digit(x as nat % 16));
            assert(s.skip(3) =~= url_encoded(rest));
            assert(((x as nat / 16) * 16 + x as nat % 16) as u8 == x);
            assert(seq![x] + rest =~= bytes);
        }
    }
}

/// An encoded value holds only kept characters and `%`; in particular it
/// can never hold `&`, `=`, `#`, `+` or a space, so it cannot end its
/// query parameter or start another.
pub proof fn law_url_encoding_is_query_safe(bytes: Seq<u8>)
    ensures
        forall|i: int|
            0 <= i < url_encoded(bytes).len() ==> is_query_safe_char(
                #[trigger] url_encoded(bytes)[i],
            ),
        forall|i: int|
            0 <= i < url_encoded(bytes).len() ==> {
                let c = #[trigger] url_encoded(bytes)[i];
                c != '&' && c != '=' && c != '#' && c != '+' && c != ' '
            },
    decreases bytes.len(),
{
    if bytes.len() > 0 {
        law_url_encoding_is_query_safe(bytes.drop_last());
        let x = bytes.last();
        if !is_kept_byte(x) {
            lemma_hex_digit_value(x as nat / 16);
            lemma_hex_digit_value(x as nat % 16);
        }
        let pre = url_encoded(bytes.drop_last());
        let e = encode_byte(x);
        assert(url_encoded(bytes) == pre + e);
        assert forall|i: int| 0 <= i < url_encoded(bytes).len() implies is_query_safe_char(
            #[trigger] url_encoded(bytes)[i],
        ) && url_encoded(bytes)[i] != '&' && url_encoded(bytes)[i] != '=' && url_encoded(bytes)[i] != '#'
            && url_encoded(bytes)[i] != '+' && url_encoded(bytes)[i] != ' ' by {
            if i < pre.len() {
                assert(url_encoded(bytes)[i] == pre[i]);
            } else {
                assert(url_encoded(bytes)[i] == e[i - pre.len()]);
            }
        }
    }
}

/// A value made only of kept bytes is written unchanged.
pub proof fn law_url_encoding_keeps_plain_values(bytes: Seq<u8>)
    requires
        forall|i: int| 0 <= i < bytes.len() ==> is_kept_byte(#[trigger] bytes[i]),
    ensures
        url_encoded(bytes) == bytes.map_values(|b: u8| b as char),
    decreases bytes.len(),
{
    if bytes.len() > 0 {
        law_url_encoding_keeps_plain_values(bytes.drop_last());
        assert(is_kept_byte(bytes[bytes.len() - 1]));
        assert(url_encoded(bytes) =~= bytes.map_values(|b: u8| b as char));
    } else {
        assert(url_encoded(bytes) =~= bytes.map_values(|b: u8| b as char));
    }
}

} // verus!

//! Hexadecimal text for byte strings.
//!
//! The persisted device document stores byte fields (MD5 digests, addresses)
//! as lowercase hexadecimal text, two digits per byte.  Decoding accepts
//! both digit cases.

use vstd::prelude::*;

verus! {

/// Lowercase hexadecimal digit of a nibble.
pub open spec fn hex_digit_of(n: u8) -> char
    recommends
        n < 16,
{
    if n < 10 {
        ((n + 48) as char)
    } else {
        ((n + 87) as char)
    }
}

/// Lowercase hexadecimal text of a byte string, two digits per byte.
pub open spec fn hex_chars_of(bytes: Seq<u8>) -> Seq<char>
    decreases bytes.len(),
{
    if bytes.len() == 0 {
        Seq::empty()
    } else {
        hex_chars_of(bytes.drop_last()).push(hex_digit_of(bytes.last() / 16)).push(
            hex_digit_of(bytes.last() % 16),
        )
    }
}

/// A character that decoding accepts: a digit or a letter of either case.
pub open spec fn is_hex_digit(c: char) -> bool {
    (48 <= c as int <= 57) || (97 <= c as int <= 102) || (65 <= c as int <= 70)
}

/// Value of one accepted digit.
pub open spec fn hex_val_of(c: char) -> u8
    recommends
        is_hex_digit(c),
{
    if 48 <= c as int <= 57 {
        ((c as int - 48) as u8)
    } else if 97 <= c as int <= 102 {
        ((c as int - 87) as u8)
    } else {
        ((c as int - 55) as u8)
    }
}

/// The byte string that hexadecimal text denotes: `None` when the length is
/// odd or a character is no hexadecimal digit.
pub open spec fn hex_decoded(s: Seq<char>) -> Option<Seq<u8>>
    decreases s.len(),
{
    if s.len() == 0 {
        Some(Seq::empty())
    } else if s.len() == 1 {
        None
    } else {
        let hi = s[s.len() - 2];
        let lo = s.last();
        if is_hex_digit(hi) && is_hex_digit(lo) {
            match hex_decoded(s.drop_last().drop_last()) {
                Some(rest) => Some(rest.push(((hex_val_of(hi) * 16 + hex_val_of(lo)) as u8))),
                None => None,
            }
        } else {
            None
        }
    }
}

/// Hexadecimal text is twice as long as the byte string it encodes.
pub proof fn lemma_hex_chars_len(bytes: Seq<u8>)
    ensures
        hex_chars_of(bytes).len() == 2 * bytes.len(),
    decreases bytes.len(),
{
    if bytes.len() > 0 {
        lemma_hex_chars_len(bytes.drop_last());
    }
}

/// Encoding emits accepted digits that decode to the nibble they encode.
pub proof fn lemma_hex_digit_round(n: u8)
    requires
        n < 16,
    ensures
        is_hex_digit(hex_digit_of(n)),
        hex_val_of(hex_digit_of(n)) == n,
{
    if n < 10 {
        assert((n + 48) as char as int == n + 48);
    } else {
        assert((n + 87) as char as int == n + 87);
    }
}

/// Decoding inverts encoding: the text of a byte string denotes that string.
pub proof fn lemma_hex_round_trip(bytes: Seq<u8>)
    ensures
        hex_decoded(hex_chars_of(bytes)) == Some(bytes),
    decreases bytes.len(),
{
    if bytes.len() == 0 {
        assert(hex_decoded(hex_chars_of(bytes)) == Some(bytes));
    } else {
        lemma_hex_round_trip(bytes.drop_last());
        lemma_hex_chars_len(bytes.drop_last());
        let b = bytes.last();
        let s = hex_chars_of(bytes);
        let prefix = hex_chars_of(bytes.drop_last());
        lemma_hex_digit_round(b / 16);
        lemma_hex_digit_round(b % 16);
        assert(s.len() == prefix.len() + 2);
        assert(s[s.len() - 2] == hex_digit_of(b / 16));
        assert(s.last() == hex_digit_of(b % 16));
        assert(s.drop_last().drop_last() =~= prefix);
        assert((b / 16) * 16 + b % 16 == b) by (nonlinear_arith);
        assert(bytes.drop_last().push(b) =~= bytes);
    }
}

/// One lowercase digit as text.
pub(crate) fn nibble_str(n: u8) -> (r: &'static str)
    requires
        n < 16,
    ensures
        r@ =~= seq![hex_digit_of(n)],
{
    proof {
        reveal_strlit("0");
        reveal_strlit("1");
        reveal_strlit("2");
        reveal_strlit("3");
        reveal_strlit("4");
        reveal_strlit("5");
        reveal_strlit("6");
        reveal_strlit("7");
        reveal_strlit("8");
        reveal_strlit("9");
        reveal_strlit("a");
        reveal_strlit("b");
        reveal_strlit("c");
        reveal_strlit("d");
        reveal_strlit("e");
        reveal_strlit("f");
    }
    match n {
        0 => "0",
        1 => "1",
        2 => "2",
        3 => "3",
        4 => "4",
        5 => "5",
        6 => "6",
        7 => "7",
        8 => "8",
        9 => "9",
        10 => "a",
        11 => "b",
        12 => "c",
        13 => "d",
        14 => "e",
        _ => "f",
    }
}

/// Renders a byte string as lowercase hexadecimal text.
pub fn hex_encode(bytes: &Vec<u8>) -> (r: String)
    ensures
        r@ == hex_chars_of(bytes@),
{
    let mut s = String::new();
    let mut i: usize = 0;
    while i < bytes.len()
        invariant
            i <= bytes.len(),
            s@ == hex_chars_of(bytes@.take(i as int)),
        decreases bytes.len() - i,
    {
        let b = bytes[i];
        proof {
            assert(bytes@.take(i + 1 as int).drop_last() =~= bytes@.take(i as int));
            assert(bytes@.take(i + 1 as int).last() == bytes@[i as int]);
        }
        s.append(nibble_str(b / 16));
        s.append(nibble_str(b % 16));
        proof {
            assert(s@ =~= hex_chars_of(bytes@.take(i + 1 as int)));
        }
        i = i + 1;
    }
    proof {
        assert(bytes@.take(bytes@.len() as int) =~= bytes@);
    }
    s
}

/// An odd-length text denotes no byte string.
proof fn lemma_hex_decoded_odd(s: Seq<char>)
    requires
        s.len() % 2 == 1,
    ensures
        hex_decoded(s) is None,
    decreases s.len(),
{
    if s.len() > 1 {
        lemma_hex_decoded_odd(s.drop_last().drop_last());
    }
}

/// A text with a rejected character at either place of some digit pair
/// denotes no byte string.
proof fn lemma_hex_decoded_bad(s: Seq<char>, j: int)
    requires
        s.len() % 2 == 0,
        0 <= j,
        2 * j + 1 < s.len(),
        !is_hex_digit(s[2 * j]) || !is_hex_digit(s[2 * j + 1]),
    ensures
        hex_decoded(s) is None,
    decreases s.len(),
{
    if 2 * j + 2 < s.len() {
        let inner = s.drop_last().drop_last();
        assert(inner[2 * j] == s[2 * j]);
        assert(inner[2 * j + 1] == s[2 * j + 1]);
        lemma_hex_decoded_bad(inner, j);
    }
}

/// Reads lowercase or uppercase hexadecimal text back into a byte string;
/// answers `None` exactly when the text denotes none.
pub fn hex_decode(s: &str) -> (r: Option<Vec<u8>>)
    ensures
        match r {
            Some(v) => hex_decoded(s@) == Some(v@),
            None => hex_decoded(s@) is None,
        },
{
    let len = s.unicode_len();
    if len % 2 != 0 {
        proof {
            lemma_hex_decoded_odd(s@);
        }
        return None;
    }
    let mut out: Vec<u8> = Vec::new();
    let mut i: usize = 0;
    while i + 1 < len
        invariant
            len == s@.len(),
            len % 2 == 0,
            i % 2 == 0,
            i <= len,
            hex_decoded(s@.take(i as int)) == Some(out@),
        decreases len - i,
    {
        let hi = s.get_char(i);
        let lo = s.get_char(i + 1);
        let hv = match hex_val(hi) {
            Some(v) => v,
            None => {
                proof {
                    lemma_hex_decoded_bad(s@, i as int / 2);
                }
                return None;
            },
        };
        let lv = match hex_val(lo) {
            Some(v) => v,
            None => {
                proof {
                    lemma_hex_decoded_bad(s@, i as int / 2);
                }
                return None;
            },
        };
        out.push(hv * 16 + lv);
        proof {
            let t = s@.take(i + 2 as int);
            assert(t.drop_last().drop_last() =~= s@.take(i as int));
            assert(t[t.len() - 2] == s@[i as int]);
            assert(t.last() == s@[i + 1 as int]);
        }
        i = i + 2;
    }
    proof {
        assert(s@.take(len as int) =~= s@);
    }
    Some(out)
}

/// Value of one accepted digit character, either case.
fn hex_val(c: char) -> (r: Option<u8>)
    ensures
        r is Some <==> is_hex_digit(c),
        r is Some ==> r->Some_0 == hex_val_of(c),
{
    let u = c as u32;
    if 48 <= u && u <= 57 {
        Some(#[verifier::truncate] ((u - 48) as u8))
    } else if 97 <= u && u <= 102 {
        Some(#[verifier::truncate] ((u - 87) as u8))
    } else if 65 <= u && u <= 70 {
        Some(#[verifier::truncate] ((u - 55) as u8))
    } else {
        None
    }
}

} // verus!

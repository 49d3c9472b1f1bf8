//! Human-oriented base-16 string form of fixed-length digests, disjoint
//! from the raw wire encoding.

use vstd::prelude::*;

verus! {

/// The lower-case hex character for a nibble.
pub open spec fn hex_digit(n: u8) -> char {
    if n == 0 {
        '0'
    } else if n == 1 {
        '1'
    } else if n == 2 {
        '2'
    } else if n == 3 {
        '3'
    } else if n == 4 {
        '4'
    } else if n == 5 {
        '5'
    } else if n == 6 {
        '6'
    } else if n == 7 {
        '7'
    } else if n == 8 {
        '8'
    } else if n == 9 {
        '9'
    } else if n == 10 {
        'a'
    } else if n == 11 {
        'b'
    } else if n == 12 {
        'c'
    } else if n == 13 {
        'd'
    } else if n == 14 {
        'e'
    } else {
        'f'
    }
}

/// Whether a character is a hex digit, in either case.
pub open spec fn is_hex_char(c: char) -> bool {
    hex_val_opt(c) is Some
}

/// The nibble a hex character denotes, if any; upper and lower case alike.
pub open spec fn hex_val_opt(c: char) -> Option<u8> {
    if c == '0' {
        Some(0u8)
    } else if c == '1' {
        Some(1u8)
    } else if c == '2' {
        Some(2u8)
    } else if c == '3' {
        Some(3u8)
    } else if c == '4' {
        Some(4u8)
    } else if c == '5' {
        Some(5u8)
    } else if c == '6' {
        Some(6u8)
    } else if c == '7' {
        Some(7u8)
    } else if c == '8' {
        Some(8u8)
    } else if c == '9' {
        Some(9u8)
    } else if c == 'a' || c == 'A' {
        Some(10u8)
    } else if c == 'b' || c == 'B' {
        Some(11u8)
    } else if c == 'c' || c == 'C' {
        Some(12u8)
    } else if c == 'd' || c == 'D' {
        Some(13u8)
    } else if c == 'e' || c == 'E' {
        Some(14u8)
    } else if c == 'f' || c == 'F' {
        Some(15u8)
    } else {
        None
    }
}

/// The nibble a hex character denotes (0 where it is not a hex digit).
pub open spec fn hex_val(c: char) -> u8 {
    match hex_val_opt(c) {
        Some(v) => v,
        None => 0u8,
    }
}

/// The lower-case hex string of a byte sequence: two digits per byte,
/// high nibble first.
pub open spec fn base16_of(b: Seq<u8>) -> Seq<char>
    decreases b.len(),
{
    if b.len() == 0 {
        Seq::<char>::empty()
    } else {
        base16_of(b.drop_last()) + seq![hex_digit(b.last() / 16), hex_digit(b.last() % 16)]
    }
}

/// Each nibble's lower-case hex character, as a one-character string slice.
fn hex_str(n: u8) -> (s: &'static str)
    requires
        n < 16,
    ensures
        s@ == seq![hex_digit(n)],
{
    proof {
        reveal_strlit("0");
        reveal_strlit("1");
        reveal_strlit("2");
        reveal_strlit("3");
        reveal_strlit("4");
        reveal_strlit("5");
        reveal_strlit("6");
        reveal_strlit("7");
        reveal_strlit("8");
        reveal_strlit("9");
        reveal_strlit("a");
        reveal_strlit("b");
        reveal_strlit("c");
        reveal_strlit("d");
        reveal_strlit("e");
        reveal_strlit("f");
    }
    let s = if n == 0 {
        "0"
    } else if n == 1 {
        "1"
    } else if n == 2 {
        "2"
    } else if n == 3 {
        "3"
    } else if n == 4 {
        "4"
    } else if n == 5 {
        "5"
    } else if n == 6 {
        "6"
    } else if n == 7 {
        "7"
    } else if n == 8 {
        "8"
    } else if n == 9 {
        "9"
    } else if n == 10 {
        "a"
    } else if n == 11 {
        "b"
    } else if n == 12 {
        "c"
    } else if n == 13 {
        "d"
    } else if n == 14 {
        "e"
    } else {
        "f"
    };
    proof {
        assert(s@ =~= seq![hex_digit(n)]);
    }
    s
}

/// Encode bytes as a lower-case hex string.
pub fn base16_encode(bytes: &[u8]) -> (r: String)
    ensures
        r@ == base16_of(bytes@),
{
    let mut r = String::new();
    let mut i: usize = 0;
    while i < bytes.len()
        invariant
            i <= bytes@.len(),
            r@ == base16_of(bytes@.take(i as int)),
        decreases bytes@.len() - i,
    {
        let b = bytes[i];
        r.append(hex_str(b / 16));
        r.append(hex_str(b % 16));
        i = i + 1;
        proof {
            let t = bytes@.take(i as int);
            assert(t.drop_last() =~= bytes@.take(i - 1));
            assert(t.last() == bytes@[i - 1]);
            assert(r@ =~= base16_of(bytes@.take(i as int)));
        }
    }
    proof {
        assert(bytes@.take(bytes@.len() as int) =~= bytes@);
    }
    r
}

/// The nibble of one hex character, or `None` where the character is not
/// a hex digit.
fn hex_char_val(c: char) -> (r: Option<u8>)
    ensures
        r == hex_val_opt(c),
{
    match c {
        '0' => Some(0u8),
        '1' => Some(1u8),
        '2' => Some(2u8),
        '3' => Some(3u8),
        '4' => Some(4u8),
        '5' => Some(5u8),
        '6' => Some(6u8),
        '7' => Some(7u8),
        '8' => Some(8u8),
        '9' => Some(9u8),
        'a' => Some(10u8),
        'A' => Some(10u8),
        'b' => Some(11u8),
        'B' => Some(11u8),
        'c' => Some(12u8),
        'C' => Some(12u8),
        'd' => Some(13u8),
        'D' => Some(13u8),
        'e' => Some(14u8),
        'E' => Some(14u8),
        'f' => Some(15u8),
        'F' => Some(15u8),
        _ => None,
    }
}

/// Decode a hex string, in either case, into bytes. Fails exactly on an
/// odd-length string or one holding a character that is no hex digit.
pub fn base16_decode(s: &str) -> (r: Option<Vec<u8>>)
    ensures
        match r {
            Some(v) => {
                &&& s@.len() == 2 * v@.len()
                &&& forall|i: int| 0 <= i < s@.len() ==> is_hex_char(#[trigger] s@[i])
                &&& forall|j: int|
                    0 <= j < v@.len() ==> #[trigger] v@[j] == hex_val(s@[2 * j]) * 16 + hex_val(
                        s@[2 * j + 1],
                    )
            },
            None => s@.len() % 2 != 0 || exists|i: int|
                0 <= i < s@.len() && !is_hex_char(#[trigger] s@[i]),
        },
{
    let n = s.unicode_len();
    if n % 2 != 0 {
        return None;
    }
    let mut v: Vec<u8> = Vec::new();
    let mut j: usize = 0;
    while 2 * j < n
        invariant
            n == s@.len(),
            n % 2 == 0,
            2 * j <= n,
            v@.len() == j,
            forall|i: int| 0 <= i < 2 * j ==> is_hex_char(#[trigger] s@[i]),
            forall|k: int|
                0 <= k < j ==> #[trigger] v@[k] == hex_val(s@[2 * k]) * 16 + hex_val(
                    s@[2 * k + 1],
                ),
        decreases n - 2 * j,
    {
        let hi = match hex_char_val(s.get_char(2 * j)) {
            Some(h) => h,
            None => {
                return None;
            },
        };
        let lo = match hex_char_val(s.get_char(2 * j + 1)) {
            Some(l) => l,
            None => {
                return None;
            },
        };
        v.push(hi * 16 + lo);
        j = j + 1;
    }
    Some(v)
}

/// The hex string of a byte sequence is twice as long, holds only hex
/// digits, and its nibble pairs spell the bytes back out: decoding what
/// `base16_of` produced recovers the original bytes.
pub proof fn lemma_base16_of_decodes(b: Seq<u8>)
    ensures
        base16_of(b).len() == 2 * b.len(),
        forall|i: int| 0 <= i < base16_of(b).len() ==> is_hex_char(#[trigger] base16_of(b)[i]),
        forall|j: int|
            0 <= j < b.len() ==> #[trigger] b[j] == hex_val(base16_of(b)[2 * j]) * 16 + hex_val(
                base16_of(b)[2 * j + 1],
            ),
    decreases b.len(),
{
    if b.len() > 0 {
        lemma_base16_of_decodes(b.drop_last());
        let s = base16_of(b);
        let pre = base16_of(b.drop_last());
        assert(s == pre + seq![hex_digit(b.last() / 16), hex_digit(b.last() % 16)]);
        assert forall|j: int| 0 <= j < b.len() implies #[trigger] b[j] == hex_val(s[2 * j]) * 16
            + hex_val(s[2 * j + 1]) by {
            if j < b.len() - 1 {
                assert(b.drop_last()[j] == b[j]);
                assert(s[2 * j] == pre[2 * j]);
                assert(s[2 * j + 1] == pre[2 * j + 1]);
            } else {
                assert(s[2 * j] == hex_digit(b.last() / 16));
                assert(s[2 * j + 1] == hex_digit(b.last() % 16));
            }
        }
    }
}

} // verus!

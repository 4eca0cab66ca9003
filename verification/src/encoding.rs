//! URL-safe base64 without padding (RFC 4648, section 5), the encoding of
//! cache file names, and the proof that it tells inputs apart.

use vstd::prelude::*;

verus! {

/// The character of the URL-safe base64 alphabet for the value `v` (0 to 63):
/// `A`–`Z`, `a`–`z`, `0`–`9`, `-`, `_`.
pub open spec fn base64_char(v: int) -> char {
    if v < 26 {
        (65 + v) as char
    } else if v < 52 {
        (97 + v - 26) as char
    } else if v < 62 {
        (48 + v - 52) as char
    } else if v == 62 {
        '-'
    } else {
        '_'
    }
}

/// The value of a character of the URL-safe base64 alphabet.
pub open spec fn base64_value(c: char) -> int {
    let u = c as int;
    if 65 <= u && u <= 90 {
        u - 65
    } else if 97 <= u && u <= 122 {
        u - 97 + 26
    } else if 48 <= u && u <= 57 {
        u - 48 + 52
    } else if c == '-' {
        62
    } else {
        63
    }
}

/// A character of the URL-safe base64 alphabet.
pub open spec fn is_url_safe_base64_char(c: char) -> bool {
    ||| ('A' <= c && c <= 'Z')
    ||| ('a' <= c && c <= 'z')
    ||| ('0' <= c && c <= '9')
    ||| c == '-'
    ||| c == '_'
}

/// URL-safe base64 of `bytes`, without padding: each group of three bytes
/// gives four characters of six bits each; a last group of one or two bytes
/// gives two or three characters, the missing low bits being zero.
pub open spec fn base64_url_no_pad(bytes: Seq<u8>) -> Seq<char>
    decreases bytes.len(),
{
    if bytes.len() == 0 {
        Seq::empty()
    } else if bytes.len() == 1 {
        seq![base64_char((bytes[0] as int) / 4), base64_char(((bytes[0] as int) % 4) * 16)]
    } else if bytes.len() == 2 {
        seq![
            base64_char((bytes[0] as int) / 4),
            base64_char(((bytes[0] as int) % 4) * 16 + (bytes[1] as int) / 16),
            base64_char(((bytes[1] as int) % 16) * 4),
        ]
    } else {
        seq![
            base64_char((bytes[0] as int) / 4),
            base64_char(((bytes[0] as int) % 4) * 16 + (bytes[1] as int) / 16),
            base64_char(((bytes[1] as int) % 16) * 4 + (bytes[2] as int) / 64),
            base64_char((bytes[2] as int) % 64),
        ] + base64_url_no_pad(bytes.skip(3))
    }
}

/// Each value 0 to 63 has its own character, of the URL-safe alphabet.
pub proof fn lemma_base64_char(v: int)
    requires
        0 <= v < 64,
    ensures
        base64_value(base64_char(v)) == v,
        is_url_safe_base64_char(base64_char(v)),
{
}

/// Every character of the encoding is of the URL-safe alphabet.
pub proof fn lemma_base64_alphabet(bytes: Seq<u8>)
    ensures
        forall|i: int| 0 <= i < base64_url_no_pad(bytes).len() ==> is_url_safe_base64_char(#[trigger] base64_url_no_pad(bytes)[i]),
    decreases bytes.len(),
{
    if bytes.len() == 0 {
    } else if bytes.len() < 3 {
        lemma_base64_char((bytes[0] as int) / 4);
        lemma_base64_char(((bytes[0] as int) % 4) * 16);
        if bytes.len() == 2 {
            lemma_base64_char(((bytes[0] as int) % 4) * 16 + (bytes[1] as int) / 16);
            lemma_base64_char(((bytes[1] as int) % 16) * 4);
        }
    } else {
        lemma_base64_char((bytes[0] as int) / 4);
        lemma_base64_char(((bytes[0] as int) % 4) * 16 + (bytes[1] as int) / 16);
        lemma_base64_char(((bytes[1] as int) % 16) * 4 + (bytes[2] as int) / 64);
        lemma_base64_char((bytes[2] as int) % 64);
        lemma_base64_alphabet(bytes.skip(3));
        let head = seq![
            base64_char((bytes[0] as int) / 4),
            base64_char(((bytes[0] as int) % 4) * 16 + (bytes[1] as int) / 16),
            base64_char(((bytes[1] as int) % 16) * 4 + (bytes[2] as int) / 64),
            base64_char((bytes[2] as int) % 64),
        ];
        assert forall|i: int| 0 <= i < base64_url_no_pad(bytes).len() implies is_url_safe_base64_char(#[trigger] base64_url_no_pad(bytes)[i]) by {
            if i >= 4 {
                assert(base64_url_no_pad(bytes)[i] == base64_url_no_pad(bytes.skip(3))[i - 4]);
            } else {
                assert(base64_url_no_pad(bytes)[i] == head[i]);
            }
        }
    }
}

/// The encoding of at least three bytes has at least four characters; of
/// fewer, as many characters as bytes plus one (none for no bytes).
proof fn lemma_base64_len(bytes: Seq<u8>)
    ensures
        bytes.len() >= 3 ==> base64_url_no_pad(bytes).len() >= 4,
        bytes.len() == 0 ==> base64_url_no_pad(bytes).len() == 0,
        bytes.len() == 1 ==> base64_url_no_pad(bytes).len() == 2,
        bytes.len() == 2 ==> base64_url_no_pad(bytes).len() == 3,
{
}

/// Different bytes have different encodings.
pub proof fn lemma_base64_injective(x: Seq<u8>, y: Seq<u8>)
    requires
        base64_url_no_pad(x) == base64_url_no_pad(y),
    ensures
        x == y,
    decreases x.len(),
{
    let e = base64_url_no_pad(x);
    lemma_base64_len(x);
    lemma_base64_len(y);
    if x.len() == 0 {
        assert(y.len() == 0);
        assert(x =~= y);
    } else {
        let x0 = x[0] as int;
        let y0 = y[0] as int;
        assert(e[0] == base64_char(x0 / 4) && e[0] == base64_char(y0 / 4));
        lemma_base64_char(x0 / 4);
        lemma_base64_char(y0 / 4);
        if x.len() == 1 {
            assert(y.len() == 1);
            lemma_base64_char((x0 % 4) * 16);
            lemma_base64_char((y0 % 4) * 16);
            assert(e[1] == base64_char((x0 % 4) * 16) && e[1] == base64_char((y0 % 4) * 16));
            assert(x0 == y0);
            assert(x =~= y);
        } else {
            let x1 = x[1] as int;
            let y1 = y[1] as int;
            lemma_base64_char((x0 % 4) * 16 + x1 / 16);
            lemma_base64_char((y0 % 4) * 16 + y1 / 16);
            assert(e[1] == base64_char((x0 % 4) * 16 + x1 / 16));
            assert(e[1] == base64_char((y0 % 4) * 16 + y1 / 16));
            assert(x0 == y0);
            assert(x1 / 16 == y1 / 16);
            if x.len() == 2 {
                assert(y.len() == 2);
                lemma_base64_char((x1 % 16) * 4);
                lemma_base64_char((y1 % 16) * 4);
                assert(e[2] == base64_char((x1 % 16) * 4) && e[2] == base64_char((y1 % 16) * 4));
                assert(x1 == y1);
                assert(x =~= y);
            } else {
                assert(y.len() >= 3);
                let x2 = x[2] as int;
                let y2 = y[2] as int;
                lemma_base64_char((x1 % 16) * 4 + x2 / 64);
                lemma_base64_char((y1 % 16) * 4 + y2 / 64);
                lemma_base64_char(x2 % 64);
                lemma_base64_char(y2 % 64);
                assert(e[2] == base64_char((x1 % 16) * 4 + x2 / 64));
                assert(e[2] == base64_char((y1 % 16) * 4 + y2 / 64));
                assert(e[3] == base64_char(x2 % 64) && e[3] == base64_char(y2 % 64));
                assert(x1 == y1);
                assert(x2 == y2);
                assert(base64_url_no_pad(x.skip(3)) =~= e.skip(4));
                assert(base64_url_no_pad(y.skip(3)) =~= e.skip(4));
                lemma_base64_injective(x.skip(3), y.skip(3));
                assert(x =~= x.take(3) + x.skip(3));
                assert(y =~= y.take(3) + y.skip(3));
                assert(x.take(3) =~= y.take(3));
            }
        }
    }
}

} // verus!

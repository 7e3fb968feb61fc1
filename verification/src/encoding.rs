use vstd::prelude::*;
use crate::text::push_char;

verus! {

/// The character of the standard base64 alphabet that stands for `v` (0..64).
pub open spec fn alphabet(v: int) -> char {
    if v < 26 {
        (65 + v) as char
    } else if v < 52 {
        (97 + (v - 26)) as char
    } else if v < 62 {
        (48 + (v - 52)) as char
    } else if v == 62 {
        '+'
    } else {
        '/'
    }
}

/// Base64 of one group of one to three bytes; missing bytes are zero and
/// their output positions are padded with `=`.
pub open spec fn encode_group(b0: int, b1: int, b2: int, n: int) -> Seq<char> {
    seq![
        alphabet(b0 / 4),
        alphabet((b0 % 4) * 16 + b1 / 16),
        if n > 1 { alphabet((b1 % 16) * 4 + b2 / 64) } else { '=' },
        if n > 2 { alphabet(b2 % 64) } else { '=' },
    ]
}

/// Standard padded base64 (RFC 4648) of a byte sequence.
pub open spec fn base64(s: Seq<u8>) -> Seq<char>
    decreases s.len(),
{
    if s.len() == 0 {
        Seq::empty()
    } else if s.len() == 1 {
        encode_group(s[0] as int, 0, 0, 1)
    } else if s.len() == 2 {
        encode_group(s[0] as int, s[1] as int, 0, 2)
    } else {
        encode_group(s[0] as int, s[1] as int, s[2] as int, 3) + base64(s.subrange(3, s.len() as int))
    }
}

/// Base64 output is four characters for every started group of three bytes.
pub proof fn lemma_base64_len(s: Seq<u8>)
    ensures
        base64(s).len() == 4 * ((s.len() + 2) / 3),
    decreases s.len(),
{
    if s.len() > 2 {
        lemma_base64_len(s.subrange(3, s.len() as int));
    }
}

/// Encoding is block-wise: input split after a whole number of three-byte
/// groups encodes to the concatenation of the two encodings.
pub proof fn lemma_base64_concat(a: Seq<u8>, b: Seq<u8>)
    requires
        a.len() % 3 == 0,
    ensures
        base64(a + b) == base64(a) + base64(b),
    decreases a.len(),
{
    if a.len() == 0 {
        assert(a + b =~= b);
        assert(base64(a) + base64(b) =~= base64(b));
    } else {
        let rest = a.subrange(3, a.len() as int);
        lemma_base64_concat(rest, b);
        assert((a + b).subrange(3, (a + b).len() as int) =~= rest + b);
        assert(base64(a + b) =~= base64(a) + base64(b));
    }
}

/// Every character of an encoding is in the base64 alphabet or is the pad
/// `=`, and a pad is only ever followed by another pad.
pub proof fn lemma_base64_charset(s: Seq<u8>)
    ensures
        forall|k: int|
            0 <= k < base64(s).len() ==> {
                let c = #[trigger] base64(s)[k];
                ('A' <= c <= 'Z') || ('a' <= c <= 'z') || ('0' <= c <= '9') || c == '+' || c
                    == '/' || c == '='
            },
        forall|k: int|
            0 <= k < base64(s).len() - 1 && #[trigger] base64(s)[k] == '=' ==> base64(s)[k + 1]
                == '=',
    decreases s.len(),
{
    lemma_alphabet_range();
    if s.len() > 0 {
        let b0 = s[0] as int;
        let b1 = if s.len() > 1 { s[1] as int } else { 0 };
        let b2 = if s.len() > 2 { s[2] as int } else { 0 };
        let n = if s.len() > 2 { 3 } else { s.len() as int };
        let g = encode_group(b0, b1, b2, n);
        assert(0 <= b0 / 4 < 64 && 0 <= (b0 % 4) * 16 + b1 / 16 < 64);
        assert(0 <= (b1 % 16) * 4 + b2 / 64 < 64 && 0 <= b2 % 64 < 64);
        if s.len() > 2 {
            let rest = s.subrange(3, s.len() as int);
            lemma_base64_charset(rest);
            assert(base64(s) == g + base64(rest));
            assert forall|k: int| 0 <= k < base64(s).len() implies {
                let c = #[trigger] base64(s)[k];
                ('A' <= c <= 'Z') || ('a' <= c <= 'z') || ('0' <= c <= '9') || c == '+' || c
                    == '/' || c == '='
            } by {
                if k >= 4 {
                    assert(base64(s)[k] == base64(rest)[k - 4]);
                }
            }
            assert forall|k: int|
                0 <= k < base64(s).len() - 1 && #[trigger] base64(s)[k] == '=' implies base64(
                s,
            )[k + 1] == '=' by {
                if k >= 4 {
                    assert(base64(s)[k] == base64(rest)[k - 4]);
                    assert(base64(s)[k + 1] == base64(rest)[k - 3]);
                }
            }
        } else {
            assert(base64(s) == g);
        }
    }
}

proof fn lemma_alphabet_range()
    ensures
        forall|v: int|
            0 <= v < 64 ==> {
                let c = #[trigger] alphabet(v);
                ('A' <= c <= 'Z') || ('a' <= c <= 'z') || ('0' <= c <= '9') || c == '+' || c
                    == '/'
            },
{
}

fn alphabet_char(v: u32) -> (c: char)
    requires
        v < 64,
    ensures
        c == alphabet(v as int),
{
    if v < 26 {
        ((65 + v) as u8) as char
    } else if v < 52 {
        ((97 + (v - 26)) as u8) as char
    } else if v < 62 {
        ((48 + (v - 52)) as u8) as char
    } else if v == 62 {
        '+'
    } else {
        '/'
    }
}


proof fn lemma_sextets(b0: u32, b1: u32, b2: u32)
    by (bit_vector)
    requires
        b0 < 256,
        b1 < 256,
        b2 < 256,
    ensures
        ((((b0 << 16u32) | (b1 << 8u32) | b2) >> 18u32) & 0x3Fu32) == b0 / 4,
        ((((b0 << 16u32) | (b1 << 8u32) | b2) >> 12u32) & 0x3Fu32) == (b0 % 4) * 16 + b1 / 16,
        ((((b0 << 16u32) | (b1 << 8u32) | b2) >> 6u32) & 0x3Fu32) == (b1 % 16) * 4 + b2 / 64,
        (((b0 << 16u32) | (b1 << 8u32) | b2) & 0x3Fu32) == b2 % 64,
{
}

proof fn lemma_base64_step(s: Seq<u8>, i: int)
    requires
        0 <= i < s.len(),
    ensures
        base64(s.subrange(i, s.len() as int)) == if s.len() - i == 1 {
            encode_group(s[i] as int, 0, 0, 1)
        } else if s.len() - i == 2 {
            encode_group(s[i] as int, s[i + 1] as int, 0, 2)
        } else {
            encode_group(s[i] as int, s[i + 1] as int, s[i + 2] as int, 3) + base64(
                s.subrange(i + 3, s.len() as int),
            )
        },
{
    let t = s.subrange(i, s.len() as int);
    if t.len() > 2 {
        assert(t.subrange(3, t.len() as int) =~= s.subrange(i + 3, s.len() as int));
    }
}

/// Encodes bytes as standard padded base64 (RFC 4648 alphabet, `=` padding).
pub fn base64_encode(input: &[u8]) -> (out: String)
    ensures
        out@ == base64(input@),
{
    let len = input.len();
    let mut out = String::new();
    let mut i: usize = 0;
    proof {
        assert(input@.subrange(0, len as int) =~= input@);
        assert(out@ + base64(input@) =~= base64(input@));
    }
    while i < len
        invariant
            len == input@.len(),
            i <= len,
            out@ + base64(input@.subrange(i as int, len as int)) == base64(input@),
        decreases len - i,
    {
        proof {
            lemma_base64_step(input@, i as int);
        }
        let rest = len - i;
        let b0 = input[i] as u32;
        let b1: u32 = if rest > 1 { input[i + 1] as u32 } else { 0 };
        let b2: u32 = if rest > 2 { input[i + 2] as u32 } else { 0 };
        let n: u32 = (b0 << 16u32) | (b1 << 8u32) | b2;
        proof {
            lemma_sextets(b0, b1, b2);
        }
        let ghost before = out@;
        push_char(&mut out, alphabet_char((n >> 18u32) & 0x3F));
        push_char(&mut out, alphabet_char((n >> 12u32) & 0x3F));
        if rest > 1 {
            push_char(&mut out, alphabet_char((n >> 6u32) & 0x3F));
        } else {
            push_char(&mut out, '=');
        }
        if rest > 2 {
            push_char(&mut out, alphabet_char(n & 0x3F));
        } else {
            push_char(&mut out, '=');
        }
        if rest > 3 {
            i = i + 3;
        } else {
            i = len;
        }
        proof {
            let g = if rest == 1 {
                encode_group(b0 as int, 0, 0, 1)
            } else if rest == 2 {
                encode_group(b0 as int, b1 as int, 0, 2)
            } else {
                encode_group(b0 as int, b1 as int, b2 as int, 3)
            };
            assert(out@ =~= before + g);
            if i == len {
                assert(input@.subrange(i as int, len as int) =~= Seq::<u8>::empty());
            }
        }
    }
    proof {
        assert(input@.subrange(len as int, len as int) =~= Seq::<u8>::empty());
    }
    out
}

} // verus!

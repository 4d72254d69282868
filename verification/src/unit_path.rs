//! Codec for the protocol's escaped object-path identifiers. A unit name is
//! turned into a valid path segment by replacing every byte outside
//! `[A-Za-z0-9]` (including `_` itself) with `_` followed by two uppercase
//! hex digits; decoding reverses that rule on the final path segment.

use vstd::prelude::*;
use crate::text::push_char;

verus! {

/// Characters that pass through the escaping unchanged.
pub open spec fn is_unescaped(c: char) -> bool {
    ('a' <= c && c <= 'z') || ('A' <= c && c <= 'Z') || ('0' <= c && c <= '9')
}

/// The uppercase hex digit for a value in 0..16.
pub open spec fn hex_char(v: int) -> char {
    if v < 10 {
        (('0' as int) + v) as char
    } else {
        (('A' as int) + (v - 10)) as char
    }
}

/// Is `c` a hex digit (either case)?
pub open spec fn is_hex_digit(c: char) -> bool {
    ('0' <= c && c <= '9') || ('a' <= c && c <= 'f') || ('A' <= c && c <= 'F')
}

/// The value of a hex digit.
pub open spec fn hex_val(c: char) -> int {
    if '0' <= c && c <= '9' {
        (c as int) - ('0' as int)
    } else if 'a' <= c && c <= 'f' {
        (c as int) - ('a' as int) + 10
    } else {
        (c as int) - ('A' as int) + 10
    }
}

/// The escaped form of a name whose characters stand for single bytes.
pub open spec fn encode_seq(s: Seq<char>) -> Seq<char>
    decreases s.len(),
{
    if s.len() == 0 {
        Seq::empty()
    } else {
        let c = s[0];
        let rest = encode_seq(s.drop_first());
        if is_unescaped(c) {
            seq![c] + rest
        } else {
            seq!['_', hex_char((c as int) / 16), hex_char((c as int) % 16)] + rest
        }
    }
}

/// The decoded form of a path segment: wherever `_` is followed by two hex
/// digits, the three characters are replaced by the byte they encode; every
/// other character passes through unchanged.
pub open spec fn decode_seq(s: Seq<char>) -> Seq<char>
    decreases s.len(),
{
    if s.len() == 0 {
        Seq::empty()
    } else if s[0] == '_' && s.len() >= 3 && is_hex_digit(s[1]) && is_hex_digit(s[2]) {
        seq![(hex_val(s[1]) * 16 + hex_val(s[2])) as char] + decode_seq(s.skip(3))
    } else {
        seq![s[0]] + decode_seq(s.drop_first())
    }
}

/// What follows the last `/` of a path (the whole path when it has none).
pub open spec fn last_segment(s: Seq<char>) -> Seq<char>
    decreases s.len(),
{
    if s.len() == 0 {
        s
    } else if s.last() == '/' {
        Seq::empty()
    } else {
        last_segment(s.drop_last()).push(s.last())
    }
}

/// The value of a hex digit character, or `None` for anything else.
pub fn hex_digit_val(c: char) -> (r: Option<u8>)
    ensures
        r is Some <==> is_hex_digit(c),
        r is Some ==> r->0 == hex_val(c),
{
    let u = c as u32;
    if 48 <= u && u <= 57 {
        Some((u - 48) as u8)
    } else if 97 <= u && u <= 102 {
        Some((u - 97 + 10) as u8)
    } else if 65 <= u && u <= 70 {
        Some((u - 65 + 10) as u8)
    } else {
        None
    }
}

/// The uppercase hex digit for a value in 0..16, executable form.
pub fn hex_digit_char(v: u8) -> (r: char)
    requires
        v < 16,
    ensures
        r == hex_char(v as int),
{
    if v < 10 {
        (48 + v) as char
    } else {
        (65 + (v - 10)) as char
    }
}

/// Escapes a unit name into a valid object-path segment. A name is a byte
/// string, so every character must stand for a single byte.
pub fn encode_unit_name(name: &str) -> (r: String)
    requires
        forall|i: int| 0 <= i < name@.len() ==> (name@[i] as int) < 256,
    ensures
        r@ == encode_seq(name@),
{
    let n = name.unicode_len();
    let mut out = String::new();
    let mut i: usize = 0;
    proof {
        assert(name@.skip(0) =~= name@);
    }
    while i < n
        invariant
            0 <= i <= n,
            n == name@.len(),
            forall|t: int| 0 <= t < name@.len() ==> (name@[t] as int) < 256,
            encode_seq(name@) == out@ + encode_seq(name@.skip(i as int)),
        decreases n - i,
    {
        let c = name.get_char(i);
        let u = c as u32;
        proof {
            assert(name@.skip(i as int)[0] == name@[i as int]);
            assert(name@.skip(i as int).drop_first() =~= name@.skip(i + 1));
        }
        if (97 <= u && u <= 122) || (65 <= u && u <= 90) || (48 <= u && u <= 57) {
            push_char(&mut out, c);
        } else {
            proof {
                assert((name@[i as int] as int) < 256);
            }
            push_char(&mut out, '_');
            let b = u as u8;
            push_char(&mut out, hex_digit_char(b / 16));
            push_char(&mut out, hex_digit_char(b % 16));
        }
        i = i + 1;
    }
    proof {
        assert(name@.skip(n as int) =~= Seq::<char>::empty());
        assert(out@ =~= out@ + encode_seq(name@.skip(n as int)));
    }
    out
}

/// Decodes the final segment of an escaped object path back into the human
/// unit name, reversing the `_XX` escaping rule.
pub fn decode_unit_path(path: &str) -> (r: String)
    ensures
        r@ == decode_seq(last_segment(path@)),
{
    let n = path.unicode_len();
    // find where the final path segment starts
    let mut start: usize = 0;
    let mut i: usize = 0;
    proof {
        assert(path@.take(0) =~= Seq::<char>::empty());
    }
    while i < n
        invariant
            0 <= start <= i <= n,
            n == path@.len(),
            last_segment(path@.take(i as int)) =~= path@.subrange(start as int, i as int),
        decreases n - i,
    {
        let c = path.get_char(i);
        proof {
            assert(path@.take(i + 1).drop_last() =~= path@.take(i as int));
            assert(path@.take(i + 1).last() == path@[i as int]);
        }
        if c == '/' {
            start = i + 1;
            proof {
                assert(last_segment(path@.take(i + 1)) =~= path@.subrange(
                    (i + 1) as int,
                    (i + 1) as int,
                ));
            }
        } else {
            proof {
                assert(last_segment(path@.take(i + 1)) =~= path@.subrange(
                    start as int,
                    (i + 1) as int,
                ));
            }
        }
        i = i + 1;
    }
    proof {
        assert(path@.take(n as int) =~= path@);
    }
    let ghost seg: Seq<char> = path@.subrange(start as int, n as int);
    let mut out = String::new();
    let mut j: usize = start;
    proof {
        assert(seg.skip(0) =~= seg);
    }
    while j < n
        invariant
            start <= j <= n,
            n == path@.len(),
            seg == path@.subrange(start as int, n as int),
            decode_seq(seg) == out@ + decode_seq(seg.skip(j - start)),
        decreases n - j,
    {
        let ghost rem: Seq<char> = seg.skip(j - start);
        proof {
            assert(rem[0] == path@[j as int]);
            assert(rem.len() == n - j);
            assert(rem.drop_first() =~= seg.skip(j + 1 - start));
        }
        let c = path.get_char(j);
        let mut plain = true;
        if c == '_' && n - j > 2 {
            proof {
                assert(rem[1] == path@[j + 1]);
                assert(rem[2] == path@[j + 2]);
                assert(rem.skip(3) =~= seg.skip(j + 3 - start));
            }
            let h1 = hex_digit_val(path.get_char(j + 1));
            let h2 = hex_digit_val(path.get_char(j + 2));
            match (h1, h2) {
                (Some(v1), Some(v2)) => {
                    push_char(&mut out, (v1 * 16 + v2) as char);
                    plain = false;
                    j = j + 3;
                },
                _ => {},
            }
        }
        if plain {
            push_char(&mut out, c);
            j = j + 1;
        }
    }
    proof {
        assert(seg.skip(n - start) =~= Seq::<char>::empty());
        assert(out@ =~= out@ + decode_seq(seg.skip(n - start)));
        assert(seg =~= last_segment(path@));
    }
    out
}

/// Hex digits produced by `hex_char` decode back to their value.
proof fn lemma_hex_char_val(v: int)
    requires
        0 <= v < 16,
    ensures
        is_hex_digit(hex_char(v)),
        hex_val(hex_char(v)) == v,
        hex_char(v) != '_',
{
}

/// Round trip: decoding the escaped form of a name gives the name back, for
/// every name whose characters stand for single bytes (the full identifier
/// alphabet of the protocol).
pub proof fn lemma_decode_encode(s: Seq<char>)
    requires
        forall|i: int| 0 <= i < s.len() ==> 0 <= (#[trigger] s[i] as int) < 256,
    ensures
        decode_seq(encode_seq(s)) == s,
    decreases s.len(),
{
    if s.len() == 0 {
        assert(decode_seq(encode_seq(s)) =~= s);
    } else {
        let c = s[0];
        let rest = s.drop_first();
        assert(forall|i: int| 0 <= i < rest.len() ==> 0 <= (#[trigger] rest[i] as int) < 256) by {
            assert(forall|i: int| 0 <= i < rest.len() ==> rest[i] == s[i + 1]);
        }
        lemma_decode_encode(rest);
        let e = encode_seq(s);
        if is_unescaped(c) {
            assert(e == seq![c] + encode_seq(rest));
            assert(e[0] == c);
            assert(c != '_');
            assert(e.drop_first() =~= encode_seq(rest));
            assert(decode_seq(e) == seq![c] + decode_seq(encode_seq(rest)));
            assert(decode_seq(e) =~= s);
        } else {
            let hi = (c as int) / 16;
            let lo = (c as int) % 16;
            assert(0 <= (s[0] as int) < 256);
            let cv = c as int;
            assert(0 <= cv / 16 < 16 && 0 <= cv % 16 < 16) by (nonlinear_arith)
                requires
                    0 <= cv < 256,
            ;
            assert(0 <= hi < 16 && 0 <= lo < 16);
            lemma_hex_char_val(hi);
            lemma_hex_char_val(lo);
            let enc = seq!['_', hex_char(hi), hex_char(lo)];
            assert(e == enc + encode_seq(rest));
            assert(e.len() >= 3);
            assert(e[0] == '_' && e[1] == hex_char(hi) && e[2] == hex_char(lo));
            assert(e.skip(3) =~= encode_seq(rest));
            assert(hex_val(e[1]) * 16 + hex_val(e[2]) == c as int);
            assert(((c as int) as char) == c);
            assert(decode_seq(e) == seq![c] + decode_seq(encode_seq(rest)));
            assert(decode_seq(e) =~= s);
        }
    }
}

} // verus!

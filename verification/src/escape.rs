//! Escaping of raw bytes for embedding inside a JSON string literal, with a
//! decoder specification and the proof that decoding undoes escaping.

use vstd::prelude::*;

verus! {

/// The lower-case hex digit for a value below sixteen.
pub open spec fn hex_digit(n: u8) -> u8
    recommends
        n < 16,
{
    if n < 10 {
        (48 + n) as u8
    } else {
        (87 + n) as u8
    }
}

/// How one byte appears inside a JSON string literal: quote and backslash
/// get a backslash escape, the five control bytes with short escapes use
/// them, every other control byte becomes a `\u00XX` sequence, and all
/// remaining bytes stand for themselves.
pub open spec fn escape_byte(b: u8) -> Seq<u8> {
    if b == 34 {
        seq![92u8, 34u8]
    } else if b == 92 {
        seq![92u8, 92u8]
    } else if b == 8 {
        seq![92u8, 98u8]
    } else if b == 9 {
        seq![92u8, 116u8]
    } else if b == 10 {
        seq![92u8, 110u8]
    } else if b == 12 {
        seq![92u8, 102u8]
    } else if b == 13 {
        seq![92u8, 114u8]
    } else if b < 32 {
        seq![92u8, 117u8, 48u8, 48u8, hex_digit(b / 16), hex_digit(b % 16)]
    } else {
        seq![b]
    }
}

/// The escaped form of a whole byte sequence.
pub open spec fn escape_seq(s: Seq<u8>) -> Seq<u8>
    decreases s.len(),
{
    if s.len() == 0 {
        Seq::empty()
    } else {
        escape_byte(s.first()) + escape_seq(s.drop_first())
    }
}

/// The value of one hex digit, upper or lower case.
pub open spec fn hex_val(d: u8) -> Option<u8> {
    if 48 <= d && d <= 57 {
        Some((d - 48) as u8)
    } else if 97 <= d && d <= 102 {
        Some((d - 87) as u8)
    } else if 65 <= d && d <= 70 {
        Some((d - 55) as u8)
    } else {
        None
    }
}

/// Prepends a byte to a decoded tail, keeping a decoding failure.
pub open spec fn cons_decoded(b: u8, rest: Option<Seq<u8>>) -> Option<Seq<u8>> {
    match rest {
        Some(t) => Some(seq![b] + t),
        None => None,
    }
}

/// Decoding of JSON string-literal content back to bytes. A backslash
/// starts an escape: the two-byte escapes for quote, backslash, slash and
/// the five short control escapes, and `\u00XX` for an arbitrary byte.
/// A raw control byte or a raw quote is invalid, as JSON demands; any
/// other raw byte stands for itself.
pub open spec fn unescape_seq(s: Seq<u8>) -> Option<Seq<u8>>
    decreases s.len(),
{
    if s.len() == 0 {
        Some(Seq::empty())
    } else if s.first() == 92 {
        if s.len() < 2 {
            None
        } else {
            let e = s[1];
            if e == 34 || e == 92 || e == 47 {
                cons_decoded(e, unescape_seq(s.skip(2)))
            } else if e == 98 {
                cons_decoded(8, unescape_seq(s.skip(2)))
            } else if e == 116 {
                cons_decoded(9, unescape_seq(s.skip(2)))
            } else if e == 110 {
                cons_decoded(10, unescape_seq(s.skip(2)))
            } else if e == 102 {
                cons_decoded(12, unescape_seq(s.skip(2)))
            } else if e == 114 {
                cons_decoded(13, unescape_seq(s.skip(2)))
            } else if e == 117 {
                if s.len() < 6 {
                    None
                } else {
                    match (hex_val(s[2]), hex_val(s[3]), hex_val(s[4]), hex_val(s[5])) {
                        (Some(h1), Some(h2), Some(h3), Some(h4)) => if h1 == 0 && h2 == 0 {
                            cons_decoded((h3 * 16 + h4) as u8, unescape_seq(s.skip(6)))
                        } else {
                            None
                        },
                        _ => None,
                    }
                }
            } else {
                None
            }
        }
    } else if s.first() < 32 || s.first() == 34 {
        None
    } else {
        cons_decoded(s.first(), unescape_seq(s.skip(1)))
    }
}

/// Escaping one more byte at the end appends that byte's escaped form.
pub proof fn lemma_escape_seq_snoc(s: Seq<u8>, b: u8)
    ensures
        escape_seq(s.push(b)) == escape_seq(s) + escape_byte(b),
    decreases s.len(),
{
    if s.len() == 0 {
        assert(s.push(b).drop_first() =~= s);
        assert(s.push(b).first() == b);
        assert(escape_seq(s.push(b)) =~= escape_seq(s) + escape_byte(b));
    } else {
        assert(s.push(b).drop_first() =~= s.drop_first().push(b));
        lemma_escape_seq_snoc(s.drop_first(), b);
        assert(escape_seq(s.push(b)) =~= escape_seq(s) + escape_byte(b));
    }
}

/// Decoding undoes escaping: for every byte sequence, escaping and then
/// decoding gives the same sequence back.
pub proof fn lemma_unescape_escape(s: Seq<u8>)
    ensures
        unescape_seq(escape_seq(s)) == Some(s),
    decreases s.len(),
{
    if s.len() == 0 {
        assert(unescape_seq(escape_seq(s)) =~= Some(Seq::<u8>::empty()));
        assert(Seq::<u8>::empty() =~= s);
    } else {
        let b = s.first();
        let rest = s.drop_first();
        lemma_unescape_escape(rest);
        let eb = escape_byte(b);
        let tail = escape_seq(rest);
        let whole = escape_seq(s);
        assert(whole == eb + tail);
        assert(whole.len() == eb.len() + tail.len());
        if b == 34 || b == 92 || b == 8 || b == 9 || b == 10 || b == 12 || b == 13 {
            assert(whole.first() == 92);
            assert(whole[1] == eb[1]);
            assert(whole.skip(2) =~= tail);
            assert(unescape_seq(whole) == cons_decoded(b, Some(rest)));
            assert(seq![b] + rest =~= s);
        } else if b < 32 {
            assert(whole.first() == 92);
            assert(whole[1] == 117u8);
            assert(whole[2] == 48u8);
            assert(whole[3] == 48u8);
            assert(whole[4] == hex_digit(b / 16));
            assert(whole[5] == hex_digit(b % 16));
            assert(b / 16 < 16 && b % 16 < 16);
            assert(hex_val(hex_digit(b / 16)) == Some((b / 16) as u8));
            assert(hex_val(hex_digit(b % 16)) == Some((b % 16) as u8));
            assert(b / 16 * 16 + b % 16 == b) by (nonlinear_arith);
            assert(whole.skip(6) =~= tail);
            assert(unescape_seq(whole) == cons_decoded(b, Some(rest)));
            assert(seq![b] + rest =~= s);
        } else {
            assert(whole.first() == b);
            assert(!(b < 32) && b != 34 && b != 92);
            assert(whole.skip(1) =~= tail);
            assert(unescape_seq(whole) == cons_decoded(b, Some(rest)));
            assert(seq![b] + rest =~= s);
        }
    }
}

/// The executable hex digit, matching its specification.
fn hex_digit_byte(n: u8) -> (r: u8)
    requires
        n < 16,
    ensures
        r == hex_digit(n),
{
    if n < 10 {
        48 + n
    } else {
        87 + n
    }
}

/// Escapes raw bytes for embedding inside a JSON string literal.
pub fn json_escape(input: &Vec<u8>) -> (out: Vec<u8>)
    ensures
        out@ == escape_seq(input@),
{
    let mut out: Vec<u8> = Vec::new();
    let mut i: usize = 0;
    proof {
        assert(input@.take(0) =~= Seq::<u8>::empty());
    }
    while i < input.len()
        invariant
            i <= input.len(),
            out@ == escape_seq(input@.take(i as int)),
        decreases input.len() - i,
    {
        let b = input[i];
        if b == 34 {
            out.push(92);
            out.push(34);
        } else if b == 92 {
            out.push(92);
            out.push(92);
        } else if b == 8 {
            out.push(92);
            out.push(98);
        } else if b == 9 {
            out.push(92);
            out.push(116);
        } else if b == 10 {
            out.push(92);
            out.push(110);
        } else if b == 12 {
            out.push(92);
            out.push(102);
        } else if b == 13 {
            out.push(92);
            out.push(114);
        } else if b < 32 {
            out.push(92);
            out.push(117);
            out.push(48);
            out.push(48);
            out.push(hex_digit_byte(b / 16));
            out.push(hex_digit_byte(b % 16));
        } else {
            out.push(b);
        }
        proof {
            lemma_escape_seq_snoc(input@.take(i as int), b);
            assert(input@.take(i as int).push(b) =~= input@.take(i + 1));
            assert(out@ =~= escape_seq(input@.take(i as int)) + escape_byte(b));
        }
        i = i + 1;
    }
    proof {
        assert(input@.take(input@.len() as int) =~= input@);
    }
    out
}

} // verus!

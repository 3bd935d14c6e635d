//! Trimming of the single trailing line terminator from input text.

use vstd::prelude::*;

verus! {

/// What trimming returns: if the text ends with a line feed, that byte goes;
/// if what remains then ends with a carriage return, that byte goes too.
/// Nothing else is touched.
pub open spec fn trim_spec(s: Seq<u8>) -> Seq<u8> {
    if s.len() > 0 && s.last() == 10u8 {
        let t = s.drop_last();
        if t.len() > 0 && t.last() == 13u8 {
            t.drop_last()
        } else {
            t
        }
    } else {
        s
    }
}

/// Removes exactly one trailing line terminator (`\n` or `\r\n`) in place.
pub fn trim_newline(s: &mut Vec<u8>)
    ensures
        final(s)@ == trim_spec(old(s)@),
{
    if s.len() > 0 && s[s.len() - 1] == 10u8 {
        s.pop();
        if s.len() > 0 && s[s.len() - 1] == 13u8 {
            s.pop();
        }
    }
    proof {
        assert(s@ =~= trim_spec(old(s)@));
    }
}

/// Text with no trailing line feed is left unchanged by trimming.
pub proof fn lemma_trim_no_trailing_newline(s: Seq<u8>)
    requires
        s.len() == 0 || s.last() != 10u8,
    ensures
        trim_spec(s) == s,
{
}

/// Text ending in a carriage return followed by a line feed loses exactly
/// those two bytes, and no more.
pub proof fn lemma_trim_crlf(s: Seq<u8>)
    requires
        s.len() >= 2,
        s[s.len() - 1] == 10u8,
        s[s.len() - 2] == 13u8,
    ensures
        trim_spec(s) == s.take(s.len() - 2),
{
    assert(trim_spec(s) =~= s.take(s.len() - 2));
}

} // verus!

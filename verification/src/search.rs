//! Shortening of texts for table cells.

use crate::text::{byte_len, count_fitting, fitting_len, lemma_byte_len_concat, lemma_fitting_len};
use vstd::prelude::*;

verus! {

/// A text shortened to `max_len` bytes of UTF-8: the text itself if it fits,
/// or else an ellipsis after its longest beginning that leaves room for the
/// ellipsis.
pub open spec fn truncated(text: Seq<char>, max_len: nat) -> Seq<char>
    recommends
        max_len >= 3 || byte_len(text) <= max_len,
{
    if byte_len(text) <= max_len {
        text
    } else {
        text.take(fitting_len(text, (max_len - 3) as nat) as int) + "..."@
    }
}

/// Shortens a text to at most `max_len` bytes, with an ellipsis where it
/// was cut. A text that does not fit needs room for the ellipsis.
pub fn truncate_string(s: &str, max_len: usize) -> (out: String)
    requires
        max_len >= 3 || byte_len(s@) <= max_len,
    ensures
        out@ == truncated(s@, max_len as nat),
        byte_len(out@) <= max_len,
{
    proof {
        lemma_fitting_len(s@, max_len as nat);
    }
    let len: usize = s.unicode_len();
    if count_fitting(s, max_len) == len {
        s.to_owned()
    } else {
        let keep: usize = count_fitting(s, max_len - 3);
        let mut out: String = s.substring_char(0, keep).to_owned();
        out.append("...");
        proof {
            reveal_strlit("...");
            lemma_fitting_len(s@, (max_len - 3) as nat);
            lemma_byte_len_concat(s@.take(keep as int), "..."@);
            lemma_byte_len_ascii3("..."@);
        }
        out
    }
}

/// Three characters of one byte each take three bytes.
proof fn lemma_byte_len_ascii3(t: Seq<char>)
    requires
        t.len() == 3,
        (t[0] as u32) < 0x80,
        (t[1] as u32) < 0x80,
        (t[2] as u32) < 0x80,
    ensures
        byte_len(t) == 3,
{
    let t1 = t.skip(1);
    let t2 = t1.skip(1);
    let t3 = t2.skip(1);
    assert(t1[0] == t[1]);
    assert(t2[0] == t[2]);
    assert(t3.len() == 0);
    assert(byte_len(t3) == 0);
    assert(byte_len(t2) == 1);
    assert(byte_len(t1) == 2);
}

} // verus!

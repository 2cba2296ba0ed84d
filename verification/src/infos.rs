//! Container counting for the project-status flow.
//!
//! The status listing issues, per project, one invocation counting all of
//! its containers and one counting only the running ones; each count is the
//! number of lines in the captured output. The counter here is the verified
//! piece of that flow: the surrounding application runs the invocations and
//! feeds both counts to [`crate::config::ComposeItem::set_status`].

use vstd::prelude::*;

verus! {

/// Number of newline bytes in a byte sequence.
pub open spec fn newline_count(bytes: Seq<u8>) -> nat
    decreases bytes.len(),
{
    if bytes.len() == 0 {
        0
    } else {
        newline_count(bytes.drop_last()) + (if bytes.last() == 10 {
            1nat
        } else {
            0nat
        })
    }
}

/// Number of lines in captured output: one per newline byte, plus one for
/// a trailing line that does not end in a newline. Empty output has no
/// lines.
pub open spec fn line_count(bytes: Seq<u8>) -> nat {
    newline_count(bytes) + (if bytes.len() > 0 && bytes.last() != 10 {
        1nat
    } else {
        0nat
    })
}

/// A byte sequence holds at most as many newlines as bytes.
pub proof fn lemma_newline_count_le(bytes: Seq<u8>)
    ensures
        newline_count(bytes) <= bytes.len(),
    decreases bytes.len(),
{
    if bytes.len() > 0 {
        lemma_newline_count_le(bytes.drop_last());
    }
}

/// The number of lines in one captured output, as [`line_count`] defines
/// it.
pub fn count_output_lines(output: &Vec<u8>) -> (r: usize)
    ensures
        r == line_count(output@),
{
    let n = output.len();
    let mut count: usize = 0;
    let mut i: usize = 0;
    proof {
        assert(output@.take(0) =~= Seq::<u8>::empty());
    }
    while i < n
        invariant
            i <= n,
            n == output@.len(),
            count == newline_count(output@.take(i as int)),
            count <= i,
        decreases n - i,
    {
        proof {
            assert(output@.take(i + 1).drop_last() =~= output@.take(i as int));
            assert(output@.take(i + 1).last() == output@[i as int]);
        }
        if output[i] == 10u8 {
            count = count + 1;
        }
        i = i + 1;
    }
    proof {
        assert(output@.take(n as int) =~= output@);
    }
    if n > 0 && output[n - 1] != 10u8 {
        proof {
            assert(newline_count(output@) == newline_count(output@.drop_last()));
            lemma_newline_count_le(output@.drop_last());
        }
        count + 1
    } else {
        count
    }
}

} // verus!

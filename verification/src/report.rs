use crate::errors::{message_text, PipelineError};
use crate::rarity::Rarity;
use crate::text::push_char;
use vstd::prelude::*;

verus! {

/// The one-line report for a rarity whose pipeline failed.
pub open spec fn failure_line(r: Rarity, e: PipelineError) -> Seq<char> {
    "rarity "@ + seq![r.spec_letter()] + ": "@ + message_text(e) + seq!['\n']
}

/// The report for a whole run: one line per failed rarity, in the
/// order the failures were collected; empty when every rarity
/// succeeded.
pub open spec fn summary_text(fs: Seq<(Rarity, PipelineError)>) -> Seq<char>
    decreases fs.len(),
{
    if fs.len() == 0 {
        Seq::empty()
    } else {
        summary_text(fs.drop_last()) + failure_line(fs.last().0, fs.last().1)
    }
}

/// Renders the end-of-run report of the failures that were collected:
/// one descriptive line per failed rarity, and nothing at all when
/// none failed.
pub fn failure_summary(failures: &Vec<(Rarity, PipelineError)>) -> (r: String)
    ensures
        r@ == summary_text(failures@),
{
    let mut s = String::new();
    let mut i: usize = 0;
    while i < failures.len()
        invariant
            i <= failures@.len(),
            s@ == summary_text(failures@.take(i as int)),
        decreases failures@.len() - i,
    {
        let f = &failures[i];
        s.append("rarity ");
        push_char(&mut s, f.0.letter());
        s.append(": ");
        let msg = f.1.message();
        s.append(msg.as_str());
        push_char(&mut s, '\n');
        proof {
            let t = failures@.take(i as int + 1);
            assert(t.drop_last() =~= failures@.take(i as int));
            assert(t.last() == failures@[i as int]);
        }
        i += 1;
    }
    proof {
        assert(failures@.take(failures@.len() as int) =~= failures@);
    }
    s
}

} // verus!

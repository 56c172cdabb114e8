use crate::card::{line_of, Card};
use crate::rarity::Rarity;
use crate::text::push_char;
use vstd::prelude::*;

verus! {

/// The cards' lines joined with newline separators, no trailing
/// newline yet.
pub open spec fn joined_lines(cs: Seq<Card>) -> Seq<char>
    decreases cs.len(),
{
    if cs.len() == 0 {
        Seq::empty()
    } else if cs.len() == 1 {
        line_of(cs[0])
    } else {
        joined_lines(cs.drop_last()) + seq!['\n'] + line_of(cs.last())
    }
}

/// The full text of one output file: the cards' lines joined with
/// newlines, then a trailing newline.
pub open spec fn file_text(cs: Seq<Card>) -> Seq<char> {
    joined_lines(cs) + seq!['\n']
}

/// Serializes the cards to the text of one output file: one
/// `<name>;<color>` line per card, newline-separated, with a
/// trailing newline.
pub fn render_cards(cards: &Vec<Card>) -> (r: String)
    ensures
        r@ == file_text(cards@),
{
    let mut s = String::new();
    let mut i: usize = 0;
    while i < cards.len()
        invariant
            i <= cards@.len(),
            s@ == joined_lines(cards@.take(i as int)),
        decreases cards@.len() - i,
    {
        if i > 0 {
            push_char(&mut s, '\n');
        }
        let line = cards[i].to_line();
        s.append(line.as_str());
        proof {
            let t = cards@.take(i as int + 1);
            assert(t.drop_last() =~= cards@.take(i as int));
            assert(t.last() == cards@[i as int]);
            if i == 0 {
                assert(s@ == line_of(cards@[0]));
            }
        }
        i += 1;
    }
    proof {
        assert(cards@.take(cards@.len() as int) =~= cards@);
    }
    push_char(&mut s, '\n');
    s
}

/// The name of the file one rarity's cards are written to:
/// `<set>.<rarity letter>.csv`.
pub open spec fn filename_text(set: Seq<char>, r: Rarity) -> Seq<char> {
    set + seq!['.'] + seq![r.spec_letter()] + seq!['.', 'c', 's', 'v']
}

/// Builds the output filename for a set and rarity, deterministically
/// from the two inputs alone.
pub fn output_filename(set: &str, r: &Rarity) -> (name: String)
    ensures
        name@ == filename_text(set@, *r),
{
    let mut s = set.to_owned();
    push_char(&mut s, '.');
    push_char(&mut s, r.letter());
    s.append(".csv");
    proof {
        reveal_strlit(".csv");
        assert(".csv"@ =~= seq!['.', 'c', 's', 'v']);
        assert(s@ =~= filename_text(set@, *r));
    }
    s
}

} // verus!

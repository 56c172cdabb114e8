use crate::text::push_char;
use vstd::prelude::*;

verus! {

/// One collectible card: its display name and the single-character
/// color code derived for it.
pub struct Card {
    pub name: String,
    pub color: char,
}

/// The color code for a list of single-character color codes:
/// colorless for an empty list, the one entry for a singleton,
/// multicolor for anything longer.
pub open spec fn spec_classify(colors: Seq<char>) -> char {
    if colors.len() == 0 {
        'C'
    } else if colors.len() == 1 {
        colors[0]
    } else {
        'M'
    }
}

/// The one line a card is serialized to: its name, a semicolon, and
/// its color code.
pub open spec fn line_of(c: Card) -> Seq<char> {
    c.name@ + seq![';'] + seq![c.color]
}

/// The position of the first semicolon in `s`, or `s.len()` when
/// there is none.
pub open spec fn semi_index(s: Seq<char>) -> int
    decreases s.len(),
{
    if s.len() == 0 {
        0
    } else if s[0] == ';' {
        0
    } else {
        1 + semi_index(s.skip(1))
    }
}

/// What a line parses to: the text before the first semicolon as the
/// name and the one character after it as the color code, provided
/// exactly one character follows that semicolon.
pub open spec fn parse_line_spec(s: Seq<char>) -> Option<(Seq<char>, char)> {
    let i = semi_index(s);
    if i < s.len() && s.len() == i + 2 {
        Some((s.take(i), s[i + 1]))
    } else {
        None
    }
}

proof fn lemma_semi_index_bounds(s: Seq<char>)
    ensures
        0 <= semi_index(s) <= s.len(),
        forall|j: int| 0 <= j < semi_index(s) ==> s[j] != ';',
        semi_index(s) < s.len() ==> s[semi_index(s)] == ';',
    decreases s.len(),
{
    if s.len() == 0 {
    } else if s[0] == ';' {
    } else {
        lemma_semi_index_bounds(s.skip(1));
        assert forall|j: int| 0 <= j < semi_index(s) implies s[j] != ';' by {
            if j > 0 {
                assert(s.skip(1)[j - 1] != ';');
            }
        }
    }
}

proof fn lemma_semi_index_at(s: Seq<char>, k: int)
    requires
        0 <= k < s.len(),
        s[k] == ';',
        forall|j: int| 0 <= j < k ==> s[j] != ';',
    ensures
        semi_index(s) == k,
    decreases s.len(),
{
    if k > 0 {
        assert forall|j: int| 0 <= j < k - 1 implies s.skip(1)[j] != ';' by {
            assert(s[j + 1] != ';');
        }
        lemma_semi_index_at(s.skip(1), k - 1);
    }
}

/// The position of the first semicolon in `line`, or its length when
/// there is none.
fn semi_pos(line: &str) -> (i: usize)
    ensures
        i as int == semi_index(line@),
{
    proof {
        lemma_semi_index_bounds(line@);
    }
    let n = line.unicode_len();
    let mut i: usize = 0;
    while i < n
        invariant
            n == line@.len(),
            i <= n,
            forall|j: int| 0 <= j < i ==> line@[j] != ';',
        decreases n - i,
    {
        if line.get_char(i) == ';' {
            proof {
                lemma_semi_index_at(line@, i as int);
            }
            return i;
        }
        i += 1;
    }
    proof {
        if semi_index(line@) < line@.len() {
            assert(line@[semi_index(line@)] == ';');
        }
    }
    i
}

impl Card {
    /// Classifies a card's list of color characters as one code:
    /// colorless when the list is empty, the one color when it has a
    /// single entry, multicolor for two or more.
    pub fn get_color(colors: Vec<char>) -> (code: char)
        ensures
            code == spec_classify(colors@),
            code == 'C' || code == 'M' || colors@.contains(code),
    {
        match colors.len() {
            0 => 'C',
            1 => {
                proof {
                    assert(colors@.contains(colors@[0]));
                }
                colors[0]
            },
            _ => 'M',
        }
    }

    /// Serializes the card to its one output line, `<name>;<color>`.
    pub fn to_line(&self) -> (r: String)
        ensures
            r@ == line_of(*self),
    {
        let mut s = self.name.clone();
        push_char(&mut s, ';');
        push_char(&mut s, self.color);
        s
    }

    /// Parses one output line back to a card: everything before the
    /// first semicolon is the name, and exactly one character must
    /// follow that semicolon, the color code. Returns nothing for a
    /// line of any other shape.
    pub fn parse_line(line: &str) -> (r: Option<Card>)
        ensures
            match parse_line_spec(line@) {
                Some(p) => r is Some && r->0.name@ == p.0 && r->0.color == p.1,
                None => r is None,
            },
    {
        let n = line.unicode_len();
        let i = semi_pos(line);
        if i < n && n - i == 2 {
            let name = line.substring_char(0, i).to_owned();
            let color = line.get_char(i + 1);
            proof {
                assert(line@.subrange(0, i as int) =~= line@.take(i as int));
            }
            Some(Card { name, color })
        } else {
            None
        }
    }
}

/// Serializing a card and parsing the line back returns the same
/// card, for any card whose name contains no semicolon and no
/// newline.
pub proof fn lemma_line_round_trip(c: Card)
    requires
        !c.name@.contains(';'),
        !c.name@.contains('\n'),
    ensures
        parse_line_spec(line_of(c)) == Some((c.name@, c.color)),
{
    let s = line_of(c);
    let k = c.name@.len() as int;
    assert(s[k] == ';');
    assert forall|j: int| 0 <= j < k implies s[j] != ';' by {
        assert(s[j] == c.name@[j]);
        if s[j] == ';' {
            assert(c.name@.contains(';'));
        }
    }
    lemma_semi_index_at(s, k);
    assert(s.take(k) =~= c.name@);
    assert(s[k + 1] == c.color);
}

} // verus!

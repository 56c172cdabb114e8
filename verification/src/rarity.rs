use vstd::prelude::*;

verus! {

/// A rarity tier of a card within a set. Parsed case-insensitively
/// from a single letter; used both in the query string sent upstream
/// and in the name of the output file.
#[derive(Clone, Copy, Debug, PartialEq, Eq, Structural)]
pub enum Rarity {
    M,
    R,
    U,
    C,
}

impl Rarity {
    /// The single letter that labels this rarity tier.
    pub open spec fn spec_letter(self) -> char {
        match self {
            Rarity::M => 'M',
            Rarity::R => 'R',
            Rarity::U => 'U',
            Rarity::C => 'C',
        }
    }

    /// Executable form of `spec_letter`.
    pub fn letter(&self) -> (c: char)
        ensures
            c == self.spec_letter(),
    {
        match self {
            Rarity::M => 'M',
            Rarity::R => 'R',
            Rarity::U => 'U',
            Rarity::C => 'C',
        }
    }

    /// The rarity a one-letter string names, if any: each tier's
    /// letter is accepted in upper or lower case, nothing else.
    pub open spec fn spec_of_letter(s: Seq<char>) -> Option<Rarity> {
        if s.len() != 1 {
            None
        } else if s[0] == 'M' || s[0] == 'm' {
            Some(Rarity::M)
        } else if s[0] == 'R' || s[0] == 'r' {
            Some(Rarity::R)
        } else if s[0] == 'U' || s[0] == 'u' {
            Some(Rarity::U)
        } else if s[0] == 'C' || s[0] == 'c' {
            Some(Rarity::C)
        } else {
            None
        }
    }

    /// Parses a rarity from its one-letter name, case-insensitively.
    /// Any other input is rejected with a descriptive message.
    pub fn from_letter(s: &str) -> (r: Result<Rarity, String>)
        ensures
            Self::spec_of_letter(s@) is Some ==> r is Ok && r->Ok_0 == Self::spec_of_letter(
                s@,
            )->0,
            Self::spec_of_letter(s@) is None ==> r is Err && r->Err_0@
                == "Invalid rarity. Chose one or more among M,R,U,C"@,
    {
        if s.unicode_len() == 1 {
            let c = s.get_char(0);
            if c == 'M' || c == 'm' {
                return Ok(Rarity::M);
            }
            if c == 'R' || c == 'r' {
                return Ok(Rarity::R);
            }
            if c == 'U' || c == 'u' {
                return Ok(Rarity::U);
            }
            if c == 'C' || c == 'c' {
                return Ok(Rarity::C);
            }
        }
        Err("Invalid rarity. Chose one or more among M,R,U,C".to_owned())
    }
}

/// Whether the vector already holds the given rarity.
pub fn contains_rarity(v: &Vec<Rarity>, x: Rarity) -> (b: bool)
    ensures
        b == v@.contains(x),
{
    let mut i: usize = 0;
    while i < v.len()
        invariant
            i <= v@.len(),
            forall|j: int| 0 <= j < i ==> v@[j] != x,
        decreases v@.len() - i,
    {
        if v[i] == x {
            return true;
        }
        i += 1;
    }
    false
}

/// Deduplicates a list of requested rarities, keeping the first
/// occurrence of each: the result names exactly the distinct rarities
/// of the input, each once.
pub fn dedup_rarities(rs: &Vec<Rarity>) -> (out: Vec<Rarity>)
    ensures
        out@.no_duplicates(),
        forall|x: Rarity| out@.contains(x) <==> rs@.contains(x),
{
    let mut out: Vec<Rarity> = Vec::new();
    let mut i: usize = 0;
    while i < rs.len()
        invariant
            i <= rs@.len(),
            out@.no_duplicates(),
            forall|x: Rarity| out@.contains(x) <==> rs@.take(i as int).contains(x),
        decreases rs@.len() - i,
    {
        let r = rs[i];
        let ghost prev = out@;
        let ghost t = rs@.take(i as int + 1);
        let seen = contains_rarity(&out, r);
        if !seen {
            out.push(r);
            proof {
                assert forall|a: int, b: int|
                    0 <= a < out@.len() && 0 <= b < out@.len() && a != b implies out@[a]
                    != out@[b] by {
                    if a < prev.len() && b < prev.len() {
                        assert(prev[a] != prev[b]);
                    } else if a < prev.len() {
                        assert(!prev.contains(r));
                        assert(prev[a] != r);
                    } else if b < prev.len() {
                        assert(!prev.contains(r));
                        assert(prev[b] != r);
                    }
                }
            }
        }
        proof {
            assert(out@.contains(rs@[i as int])) by {
                if seen {
                    assert(prev.contains(r));
                } else {
                    assert(out@[out@.len() - 1] == r);
                }
            }
            assert forall|x: Rarity| out@.contains(x) implies t.contains(x) by {
                let k = choose|k: int| 0 <= k < out@.len() && out@[k] == x;
                if k < prev.len() {
                    assert(prev.contains(x));
                    let m = choose|m: int|
                        0 <= m < i && rs@.take(i as int)[m] == x;
                    assert(t[m] == x);
                } else {
                    assert(x == r);
                    assert(t[i as int] == x);
                }
            }
            assert forall|x: Rarity| t.contains(x) implies out@.contains(x) by {
                let k = choose|k: int| 0 <= k < t.len() && t[k] == x;
                if k < i {
                    assert(rs@.take(i as int)[k] == x);
                    assert(rs@.take(i as int).contains(x));
                    assert(prev.contains(x));
                    let m = choose|m: int| 0 <= m < prev.len() && prev[m] == x;
                    assert(out@[m] == x);
                } else {
                    assert(x == rs@[i as int]);
                }
            }
        }
        i += 1;
    }
    proof {
        assert(rs@.take(rs@.len() as int) =~= rs@);
    }
    out
}

} // verus!

use crate::card::{spec_classify, Card};
use crate::errors::PipelineError;
use crate::json::{
    doc_of, json_as_array, json_as_str, json_get, json_is_null, parse_json, value_elems,
    value_field, value_null, value_text,
};
use crate::rarity::Rarity;
use crate::text::push_char;
use vstd::prelude::*;

verus! {

/// The upstream search URL for one (set, rarity) request: the fixed
/// endpoint with the set code, the rarity letter, and the fixed
/// booster filter in the query string.
pub open spec fn url_text(set: Seq<char>, r: Rarity) -> Seq<char> {
    "https://api.scryfall.com/cards/search?q=set%3A"@ + set + "+r%3A"@ + seq![r.spec_letter()]
        + "+is%3Abooster"@
}

/// Builds the search URL for a set and rarity, deterministically from
/// the two inputs alone.
pub fn request_url(set: &str, r: &Rarity) -> (url: String)
    ensures
        url@ == url_text(set@, *r),
{
    let mut s = String::from_str("https://api.scryfall.com/cards/search?q=set%3A");
    s.append(set);
    s.append("+r%3A");
    push_char(&mut s, r.letter());
    s.append("+is%3Abooster");
    s
}

/// What one upstream card entry provides: the card's name and the
/// resolved color source. `colors` is the entry's `colors` array when
/// that field is present and non-null, otherwise its `color_identity`
/// array under the same condition; it is empty-handed (`None`) when
/// neither field provides a list, which counts as an empty list.
pub struct EntryFields {
    pub name: String,
    pub colors: Option<Vec<String>>,
}

/// The effective color list of an entry: its resolved source, or
/// empty when no source field was present.
pub open spec fn effective_colors(e: EntryFields) -> Seq<String> {
    match e.colors {
        Some(cs) => cs@,
        None => Seq::empty(),
    }
}

/// An entry can be classified only when every entry of its color
/// list has at least one character.
pub open spec fn entry_ok(e: EntryFields) -> bool {
    forall|i: int|
        0 <= i < effective_colors(e).len() ==> effective_colors(e)[i]@.len() > 0
}

/// The first character of each color entry.
pub open spec fn first_chars(cs: Seq<String>) -> Seq<char> {
    Seq::new(cs.len(), |i: int| cs[i]@[0])
}

/// The color code an entry classifies to.
pub open spec fn spec_color_of(e: EntryFields) -> char {
    spec_classify(first_chars(effective_colors(e)))
}

/// The resolved color source of one entry value: its `colors` field
/// when that is present and non-null, otherwise its `color_identity`
/// field under the same condition, otherwise nothing.
pub open spec fn spec_source(v: serde_json::Value) -> Option<serde_json::Value> {
    if value_field(v, "colors"@) is Some && !value_null(value_field(v, "colors"@)->0) {
        Some(value_field(v, "colors"@)->0)
    } else if value_field(v, "color_identity"@) is Some && !value_null(
        value_field(v, "color_identity"@)->0,
    ) {
        Some(value_field(v, "color_identity"@)->0)
    } else {
        None
    }
}

/// Whether one entry value has the expected shape: a string under
/// `name`, and, when it resolves to a color source, an array of
/// strings there.
pub open spec fn entry_shape_ok(v: serde_json::Value) -> bool {
    &&& value_field(v, "name"@) is Some
    &&& value_text(value_field(v, "name"@)->0) is Some
    &&& match spec_source(v) {
        Some(sv) => value_elems(sv) is Some && (forall|i: int|
            0 <= i < value_elems(sv)->0.len() ==> value_text(value_elems(sv)->0[i]) is Some),
        None => true,
    }
}

/// The name of one entry value of the expected shape.
pub open spec fn spec_entry_name(v: serde_json::Value) -> Seq<char> {
    value_text(value_field(v, "name"@)->0)->0
}

/// Whether entry fields are exactly what the named serde_json results
/// give for an entry value: the same name, and the texts of its
/// resolved source's elements, element for element.
pub open spec fn entry_matches(e: EntryFields, v: serde_json::Value) -> bool {
    &&& e.name@ == spec_entry_name(v)
    &&& match e.colors {
        Some(cs) => {
            &&& spec_source(v) is Some
            &&& value_elems(spec_source(v)->0) is Some
            &&& cs@.len() == value_elems(spec_source(v)->0)->0.len()
            &&& forall|i: int|
                0 <= i < cs@.len() ==> cs@[i]@ == value_text(
                    value_elems(spec_source(v)->0)->0[i],
                )->0
        },
        None => spec_source(v) is None,
    }
}

/// The effective color list of one entry value, over the named
/// serde_json results: the texts of its resolved source's elements,
/// or empty when it resolves to no source.
pub open spec fn model_effective(v: serde_json::Value) -> Seq<Seq<char>> {
    match spec_source(v) {
        Some(sv) => Seq::new(
            value_elems(sv)->0.len(),
            |i: int| value_text(value_elems(sv)->0[i])->0,
        ),
        None => Seq::empty(),
    }
}

/// An entry value can be classified only when none of its effective
/// color texts is empty.
pub open spec fn model_entry_ok(v: serde_json::Value) -> bool {
    forall|i: int| 0 <= i < model_effective(v).len() ==> model_effective(v)[i].len() > 0
}

/// The color code an entry value classifies to.
pub open spec fn model_color(v: serde_json::Value) -> char {
    spec_classify(Seq::new(model_effective(v).len(), |i: int| model_effective(v)[i][0]))
}

/// Whether a card is exactly what an entry value maps to: the entry's
/// name and its classified color code.
pub open spec fn card_matches(c: Card, v: serde_json::Value) -> bool {
    c.name@ == spec_entry_name(v) && c.color == model_color(v)
}

/// Whether a response value offers the `data` array of entries.
pub open spec fn response_doc_ok(v: serde_json::Value) -> bool {
    value_field(v, "data"@) is Some && value_elems(value_field(v, "data"@)->0) is Some
}

/// The entry values of a response value's `data` array.
pub open spec fn data_elems(v: serde_json::Value) -> Seq<serde_json::Value> {
    value_elems(value_field(v, "data"@)->0)->0
}

/// When the fetch-and-parse unit owes success: the body is valid JSON
/// with a `data` array, every entry is of the expected shape, and no
/// effective color text is empty.
pub open spec fn response_ok(body: Seq<char>) -> bool {
    &&& doc_of(body) is Some
    &&& response_doc_ok(doc_of(body)->0)
    &&& forall|i: int|
        0 <= i < data_elems(doc_of(body)->0).len() ==> entry_shape_ok(
            data_elems(doc_of(body)->0)[i],
        ) && model_entry_ok(data_elems(doc_of(body)->0)[i])
}

/// Entry fields that match an entry value classify exactly as the
/// value's own model does.
proof fn lemma_entry_model(e: EntryFields, v: serde_json::Value)
    requires
        entry_matches(e, v),
    ensures
        entry_ok(e) <==> model_entry_ok(v),
        spec_color_of(e) == model_color(v),
{
    match e.colors {
        Some(cs) => {
            let elems = value_elems(spec_source(v)->0)->0;
            assert(effective_colors(e) == cs@);
            assert(model_effective(v) == Seq::new(
                elems.len(),
                |i: int| value_text(elems[i])->0,
            ));
            assert(model_effective(v).len() == cs@.len());
            assert forall|i: int| 0 <= i < cs@.len() implies cs@[i]@ == model_effective(v)[i] by {
                assert(cs@[i]@ == value_text(elems[i])->0);
                assert(model_effective(v)[i] == value_text(elems[i])->0);
            }
            if entry_ok(e) {
                assert forall|i: int|
                    0 <= i < model_effective(v).len() implies model_effective(v)[i].len()
                    > 0 by {
                    assert(effective_colors(e)[i]@.len() > 0);
                    assert(cs@[i]@ == model_effective(v)[i]);
                }
                assert(model_entry_ok(v));
            }
            if model_entry_ok(v) {
                assert forall|i: int|
                    0 <= i < effective_colors(e).len() implies effective_colors(e)[i]@.len()
                    > 0 by {
                    assert(model_effective(v)[i].len() > 0);
                    assert(cs@[i]@ == model_effective(v)[i]);
                }
                assert(entry_ok(e));
            }
            assert forall|i: int|
                0 <= i < cs@.len() implies first_chars(cs@)[i] == Seq::new(
                model_effective(v).len(),
                |j: int| model_effective(v)[j][0],
            )[i] by {
                assert(first_chars(cs@)[i] == cs@[i]@[0]);
                assert(cs@[i]@ == model_effective(v)[i]);
            }
            assert(first_chars(cs@) =~= Seq::new(
                model_effective(v).len(),
                |i: int| model_effective(v)[i][0],
            ));
        },
        None => {
            assert(spec_source(v) is None);
            assert(model_effective(v) == Seq::<Seq<char>>::empty());
            assert(effective_colors(e) == Seq::<String>::empty());
            assert(entry_ok(e));
            assert(model_entry_ok(v));
            assert(first_chars(effective_colors(e)) =~= Seq::new(
                model_effective(v).len(),
                |i: int| model_effective(v)[i][0],
            ));
        },
    }
}

/// A malformed-response error carrying the given detail.
fn malformed(msg: &str) -> (e: PipelineError)
    ensures
        e is MalformedResponse,
{
    PipelineError::MalformedResponse(msg.to_owned())
}

/// The first character of each color entry, rejecting a response
/// whose color list holds an empty string.
fn firsts_of(colors: &Vec<String>) -> (r: Result<Vec<char>, PipelineError>)
    ensures
        (r is Ok) <==> (forall|i: int| 0 <= i < colors@.len() ==> colors@[i]@.len() > 0),
        r is Ok ==> r->Ok_0@ == first_chars(colors@),
        r is Err ==> r->Err_0 is MalformedResponse,
{
    let mut out: Vec<char> = Vec::new();
    let mut i: usize = 0;
    while i < colors.len()
        invariant
            i <= colors@.len(),
            out@.len() == i,
            forall|j: int| 0 <= j < i ==> colors@[j]@.len() > 0,
            forall|j: int| 0 <= j < i ==> out@[j] == colors@[j]@[0],
        decreases colors@.len() - i,
    {
        let c = &colors[i];
        if c.as_str().unicode_len() == 0 {
            return Err(malformed("a color entry is empty"));
        }
        out.push(c.as_str().get_char(0));
        i += 1;
    }
    proof {
        assert(out@ =~= first_chars(colors@));
    }
    Ok(out)
}

/// Maps the entries of the resolved color source to the cards'
/// classified records. Fails, with a malformed-response error, on
/// exactly the inputs where some entry's color list holds an empty
/// string; otherwise returns one card per entry, with the entry's
/// name and its classified color code.
pub fn cards_from_entries(entries: Vec<EntryFields>) -> (r: Result<Vec<Card>, PipelineError>)
    ensures
        (r is Ok) <==> (forall|i: int| 0 <= i < entries@.len() ==> entry_ok(entries@[i])),
        r is Ok ==> r->Ok_0@.len() == entries@.len(),
        r is Ok ==> forall|i: int|
            0 <= i < entries@.len() ==> (r->Ok_0@[i].name@ == entries@[i].name@
                && r->Ok_0@[i].color == spec_color_of(entries@[i])),
        r is Err ==> r->Err_0 is MalformedResponse,
{
    let mut out: Vec<Card> = Vec::new();
    let mut i: usize = 0;
    while i < entries.len()
        invariant
            i <= entries@.len(),
            out@.len() == i,
            forall|j: int| 0 <= j < i ==> entry_ok(entries@[j]),
            forall|j: int|
                0 <= j < i ==> (out@[j].name@ == entries@[j].name@ && out@[j].color
                    == spec_color_of(entries@[j])),
        decreases entries@.len() - i,
    {
        let e = &entries[i];
        let firsts: Vec<char> = match &e.colors {
            Some(cs) => {
                match firsts_of(cs) {
                    Ok(f) => f,
                    Err(err) => {
                        proof {
                            assert(effective_colors(entries@[i as int]) == cs@);
                            assert(!entry_ok(entries@[i as int]));
                        }
                        return Err(err);
                    },
                }
            },
            None => Vec::new(),
        };
        proof {
            assert(firsts@ =~= first_chars(effective_colors(entries@[i as int])));
        }
        let color = Card::get_color(firsts);
        out.push(Card { name: e.name.clone(), color });
        i += 1;
    }
    Ok(out)
}

/// Reads the plain fields of one upstream card entry: the name, which
/// must be a string, and the resolved color source, which must be an
/// array of strings when a non-null source field is present. Succeeds
/// on exactly the entry values of that shape, and returns their named
/// serde_json results.
fn extract_entry(v: &serde_json::Value) -> (r: Result<EntryFields, PipelineError>)
    ensures
        (r is Ok) <==> entry_shape_ok(*v),
        r is Ok ==> entry_matches(r->Ok_0, *v),
        r is Err ==> r->Err_0 is MalformedResponse,
{
    let name_v = match json_get(v, "name") {
        Some(nv) => nv,
        None => {
            return Err(malformed("a card entry has no name"));
        },
    };
    let name = match json_as_str(name_v) {
        Some(s) => s.to_owned(),
        None => {
            return Err(malformed("a card name is not a string"));
        },
    };
    let mut src: Option<&serde_json::Value> = None;
    if let Some(cv) = json_get(v, "colors") {
        if !json_is_null(cv) {
            src = Some(cv);
        }
    }
    if src.is_none() {
        if let Some(iv) = json_get(v, "color_identity") {
            if !json_is_null(iv) {
                src = Some(iv);
            }
        }
    }
    proof {
        assert(match src {
            Some(sv) => spec_source(*v) == Some(*sv),
            None => spec_source(*v) is None,
        });
    }
    match src {
        Some(sv) => {
            let arr = match json_as_array(sv) {
                Some(a) => a,
                None => {
                    proof {
                        assert(value_elems(spec_source(*v)->0) is None);
                        assert(!entry_shape_ok(*v));
                    }
                    return Err(malformed("a color source is not an array"));
                },
            };
            let mut list: Vec<String> = Vec::new();
            let mut i: usize = 0;
            while i < arr.len()
                invariant
                    i <= arr@.len(),
                    list@.len() == i,
                    spec_source(*v) == Some(*sv),
                    value_elems(*sv) == Some(arr@),
                    forall|j: int| 0 <= j < i ==> (#[trigger] value_text(arr@[j])) is Some,
                    forall|j: int|
                        0 <= j < i ==> list@[j]@ == (#[trigger] value_text(arr@[j]))->0,
                decreases arr@.len() - i,
            {
                let ev = &arr[i];
                let s = match json_as_str(ev) {
                    Some(s) => s,
                    None => {
                        proof {
                            assert(value_text(arr@[i as int]) is None);
                            assert(value_elems(spec_source(*v)->0)->0 == arr@);
                            assert(!entry_shape_ok(*v));
                        }
                        return Err(malformed("a color entry is not a string"));
                    },
                };
                let text = s.to_owned();
                let ghost prev = list@;
                list.push(text);
                i += 1;
                proof {
                    assert(value_text(arr@[i - 1]) == Some(s@));
                    assert forall|j: int|
                        0 <= j < i implies (#[trigger] value_text(arr@[j])) is Some && list@[j]@
                        == value_text(arr@[j])->0 by {
                        if j < i - 1 {
                            assert(list@[j] == prev[j]);
                            assert(prev[j]@ == value_text(arr@[j])->0);
                        } else {
                            assert(list@[j] == text);
                        }
                    }
                }
            }
            proof {
                assert(spec_source(*v) == Some(*sv));
                assert(i == arr@.len());
                assert forall|j: int|
                    0 <= j < value_elems(spec_source(*v)->0)->0.len() implies value_text(
                    value_elems(spec_source(*v)->0)->0[j],
                ) is Some by {
                    assert(value_elems(spec_source(*v)->0)->0 == arr@);
                    assert(0 <= j < i);
                    assert(value_text(arr@[j]) is Some);
                }
                assert(entry_shape_ok(*v));
            }
            Ok(EntryFields { name, colors: Some(list) })
        },
        None => {
            proof {
                assert(entry_shape_ok(*v));
            }
            Ok(EntryFields { name, colors: None })
        },
    }
}

/// Reads the `data` array of the upstream response and the plain
/// fields of each of its entries. Succeeds on exactly the response
/// values with a `data` array whose every entry has the expected
/// shape, and returns one matching entry per element.
fn extract_entries(v: &serde_json::Value) -> (r: Result<Vec<EntryFields>, PipelineError>)
    ensures
        (r is Ok) <==> (response_doc_ok(*v) && (forall|i: int|
            0 <= i < data_elems(*v).len() ==> entry_shape_ok(data_elems(*v)[i]))),
        r is Ok ==> r->Ok_0@.len() == data_elems(*v).len() && (forall|i: int|
            0 <= i < data_elems(*v).len() ==> entry_matches(r->Ok_0@[i], data_elems(*v)[i])),
        r is Err ==> r->Err_0 is MalformedResponse,
{
    let data = match json_get(v, "data") {
        Some(d) => d,
        None => {
            return Err(malformed("the response has no data field"));
        },
    };
    let arr = match json_as_array(data) {
        Some(a) => a,
        None => {
            return Err(malformed("the data field is not an array"));
        },
    };
    proof {
        assert(data_elems(*v) == arr@);
    }
    let mut entries: Vec<EntryFields> = Vec::new();
    let mut i: usize = 0;
    while i < arr.len()
        invariant
            i <= arr@.len(),
            entries@.len() == i,
            data_elems(*v) == arr@,
            forall|j: int|
                0 <= j < i ==> entry_shape_ok(arr@[j]) && entry_matches(entries@[j], arr@[j]),
        decreases arr@.len() - i,
    {
        match extract_entry(&arr[i]) {
            Ok(e) => entries.push(e),
            Err(err) => {
                return Err(err);
            },
        }
        i += 1;
    }
    Ok(entries)
}

/// Parses one upstream response body to the cards it describes. The
/// result is a function of the body alone: it succeeds exactly on the
/// bodies that are valid JSON with a well-shaped `data` array and no
/// empty color text, and then returns one card per entry, the entry's
/// name with its classified color code. Every failure is a
/// malformed-response error; the network itself is dealt with by the
/// caller.
pub fn parse_response(body: &str) -> (r: Result<Vec<Card>, PipelineError>)
    ensures
        (r is Ok) <==> response_ok(body@),
        r is Ok ==> r->Ok_0@.len() == data_elems(doc_of(body@)->0).len() && (forall|i: int|
            0 <= i < data_elems(doc_of(body@)->0).len() ==> card_matches(
                r->Ok_0@[i],
                data_elems(doc_of(body@)->0)[i],
            )),
        r is Err ==> r->Err_0 is MalformedResponse,
{
    let v = match parse_json(body) {
        Ok(v) => v,
        Err(_) => {
            return Err(malformed("the response body is not valid JSON"));
        },
    };
    let entries = match extract_entries(&v) {
        Ok(es) => es,
        Err(err) => {
            return Err(err);
        },
    };
    proof {
        assert forall|i: int| 0 <= i < entries@.len() implies (entry_ok(entries@[i])
            <==> model_entry_ok(data_elems(v)[i])) && spec_color_of(entries@[i]) == model_color(
            data_elems(v)[i],
        ) by {
            lemma_entry_model(entries@[i], data_elems(v)[i]);
        }
    }
    cards_from_entries(entries)
}

} // verus!

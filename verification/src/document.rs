//! Documents and their tokenizer.
//!
//! A document is split on runs of whitespace into terms. Each term is given its
//! zero-based place in that split, and the places are grouped by the term's
//! exact text.

use crate::text::chars_of;
use crate::text::string_of;
use std::str::FromStr;
use vstd::hash_map::StringHashMap;
use vstd::prelude::*;

verus! {

/// Whether a character beyond ASCII counts as whitespace, which is whatever
/// `char::is_whitespace` answers for it.
pub uninterp spec fn unicode_whitespace(c: char) -> bool;

/// Whether `c` counts as whitespace: it has the Unicode property White_Space.
/// Within ASCII these are the space and the controls from tab to carriage
/// return, U+0009 to U+000D.
pub open spec fn whitespace(c: char) -> bool {
    if c as u32 <= 0x7f {
        c == ' ' || 0x09 <= c as u32 <= 0x0d
    } else {
        unicode_whitespace(c)
    }
}

/// Tells whether a character is whitespace.
///
/// Trusted: calls `char::is_whitespace`, which tells whether the character has
/// the Unicode property White_Space. The contract states the answer within
/// ASCII, where the property holds of the space and of U+0009 to U+000D, and
/// gives the answer its name beyond, where it depends on the character alone.
#[verifier::external_body]
fn is_whitespace(c: char) -> (white: bool)
    ensures
        c as u32 <= 0x7f ==> white == (c == ' ' || 0x09 <= c as u32 <= 0x0d),
        c as u32 > 0x7f ==> white == unicode_whitespace(c),
{
    c.is_whitespace()
}

/// Where the whitespace-free run that starts at `i` ends: the first index from
/// `i` on that is the end of `s` or holds whitespace.
pub open spec fn term_end(s: Seq<char>, i: int) -> int
    decreases s.len() - i,
{
    if i < 0 || i >= s.len() || whitespace(s[i]) {
        i
    } else {
        term_end(s, i + 1)
    }
}

/// The terms of `s` from index `i` on: whitespace is skipped, and each maximal
/// run without whitespace is one term.
pub open spec fn terms_from(s: Seq<char>, i: int) -> Seq<Seq<char>>
    decreases s.len() - i,
    when 0 <= i
    via terms_from_decreases
{
    if i >= s.len() {
        Seq::empty()
    } else if whitespace(s[i]) {
        terms_from(s, i + 1)
    } else {
        seq![s.subrange(i, term_end(s, i))] + terms_from(s, term_end(s, i))
    }
}

#[via_fn]
proof fn terms_from_decreases(s: Seq<char>, i: int) {
    if i < s.len() && !whitespace(s[i]) {
        lemma_term_end_bounds(s, i);
    }
}

/// The terms of `s`, in the order in which they stand in it.
pub open spec fn terms(s: Seq<char>) -> Seq<Seq<char>> {
    terms_from(s, 0)
}

/// A run ends within the text and, where it starts on a character that is no
/// whitespace, after its start. Nothing in it is whitespace, and it cannot be
/// made longer.
pub proof fn lemma_term_end_bounds(s: Seq<char>, i: int)
    requires
        0 <= i <= s.len(),
    ensures
        i <= term_end(s, i) <= s.len(),
        i < s.len() && !whitespace(s[i]) ==> i < term_end(s, i),
        forall|k: int| i <= k < term_end(s, i) ==> !whitespace(#[trigger] s[k]),
        term_end(s, i) < s.len() ==> whitespace(s[term_end(s, i)]),
    decreases s.len() - i,
{
    if i < s.len() && !whitespace(s[i]) {
        lemma_term_end_bounds(s, i + 1);
    }
}

/// Every term has at least one character and holds no whitespace.
pub proof fn lemma_terms_are_words(s: Seq<char>, i: int)
    requires
        0 <= i <= s.len(),
    ensures
        forall|k: int|
            0 <= k < terms_from(s, i).len() ==> {
                let term = #[trigger] terms_from(s, i)[k];
                &&& term.len() > 0
                &&& forall|j: int| 0 <= j < term.len() ==> !whitespace(#[trigger] term[j])
            },
    decreases s.len() - i,
{
    if i >= s.len() {
    } else if whitespace(s[i]) {
        lemma_terms_are_words(s, i + 1);
        assert(terms_from(s, i) == terms_from(s, i + 1));
    } else {
        lemma_term_end_bounds(s, i);
        lemma_terms_are_words(s, term_end(s, i));
        let first = s.subrange(i, term_end(s, i));
        let rest = terms_from(s, term_end(s, i));
        assert(terms_from(s, i) == seq![first] + rest);
        assert forall|k: int| 0 <= k < terms_from(s, i).len() implies {
            let term = #[trigger] terms_from(s, i)[k];
            &&& term.len() > 0
            &&& forall|j: int| 0 <= j < term.len() ==> !whitespace(#[trigger] term[j])
        } by {
            if k == 0 {
                assert(terms_from(s, i)[k] == first);
                assert forall|j: int| 0 <= j < first.len() implies !whitespace(
                    #[trigger] first[j],
                ) by {
                    assert(first[j] == s[i + j]);
                }
            } else {
                assert(terms_from(s, i)[k] == rest[k - 1]);
            }
        }
    }
}

/// A text has no more terms than characters.
pub proof fn lemma_terms_len(s: Seq<char>, i: int)
    requires
        0 <= i <= s.len(),
    ensures
        terms_from(s, i).len() <= s.len() - i,
    decreases s.len() - i,
{
    if i >= s.len() {
    } else if whitespace(s[i]) {
        lemma_terms_len(s, i + 1);
    } else {
        lemma_term_end_bounds(s, i);
        lemma_terms_len(s, term_end(s, i));
    }
}

/// How many characters of `s` from index `i` on are no whitespace.
pub open spec fn letters_from(s: Seq<char>, i: int) -> nat
    decreases s.len() - i,
{
    if i < 0 || i >= s.len() {
        0
    } else if whitespace(s[i]) {
        letters_from(s, i + 1)
    } else {
        1 + letters_from(s, i + 1)
    }
}

/// The lengths of the terms, added up.
pub open spec fn total_length(terms: Seq<Seq<char>>) -> nat
    decreases terms.len(),
{
    if terms.len() == 0 {
        0
    } else {
        terms[0].len() + total_length(terms.drop_first())
    }
}

/// A run without whitespace has as many such characters as it is long.
proof fn lemma_letters_of_run(s: Seq<char>, i: int)
    requires
        0 <= i <= s.len(),
    ensures
        letters_from(s, i) == (term_end(s, i) - i) + letters_from(s, term_end(s, i)),
    decreases s.len() - i,
{
    if i < s.len() && !whitespace(s[i]) {
        lemma_letters_of_run(s, i + 1);
    }
}

/// The terms leave out the whitespace and nothing else: together they are as
/// long as the text has characters that are no whitespace.
pub proof fn lemma_terms_keep_every_letter(s: Seq<char>, i: int)
    requires
        0 <= i <= s.len(),
    ensures
        total_length(terms_from(s, i)) == letters_from(s, i),
    decreases s.len() - i,
{
    if i >= s.len() {
    } else if whitespace(s[i]) {
        lemma_terms_keep_every_letter(s, i + 1);
    } else {
        let end = term_end(s, i);
        lemma_term_end_bounds(s, i);
        lemma_letters_of_run(s, i);
        lemma_terms_keep_every_letter(s, end);
        let all = terms_from(s, i);
        assert(all == seq![s.subrange(i, end)] + terms_from(s, end));
        assert(all[0] == s.subrange(i, end));
        assert(all.drop_first() =~= terms_from(s, end));
    }
}

/// The places at which `term` stands in `terms`, in rising order.
pub open spec fn positions(terms: Seq<Seq<char>>, term: Seq<char>) -> Seq<u64>
    decreases terms.len(),
{
    if terms.len() == 0 {
        Seq::empty()
    } else if terms.last() == term {
        positions(terms.drop_last(), term).push((terms.len() - 1) as u64)
    } else {
        positions(terms.drop_last(), term)
    }
}

/// The places of a term are exactly the places at which it stands, each once
/// and in rising order.
pub proof fn lemma_positions(terms: Seq<Seq<char>>, term: Seq<char>)
    requires
        terms.len() <= u64::MAX,
    ensures
        positions(terms, term).len() <= terms.len(),
        forall|k: int|
            0 <= k < positions(terms, term).len() ==> (#[trigger] positions(terms, term)[k])
                < terms.len() && terms[positions(terms, term)[k] as int] == term,
        forall|k: int, l: int|
            0 <= k < l < positions(terms, term).len() ==> (#[trigger] positions(terms, term)[k])
                < (#[trigger] positions(terms, term)[l]),
        forall|i: int|
            0 <= i < terms.len() && #[trigger] terms[i] == term ==> positions(
                terms,
                term,
            ).contains(i as u64),
    decreases terms.len(),
{
    if terms.len() > 0 {
        let front = terms.drop_last();
        let last = (terms.len() - 1) as u64;
        lemma_positions(front, term);
        let before = positions(front, term);
        let all = positions(terms, term);
        assert forall|k: int| 0 <= k < all.len() implies (#[trigger] all[k]) < terms.len()
            && terms[all[k] as int] == term by {
            if k < before.len() {
                assert(all[k] == before[k]);
                assert(front[before[k] as int] == terms[before[k] as int]);
            }
        }
        assert forall|k: int, l: int| 0 <= k < l < all.len() implies (#[trigger] all[k]) < (
        #[trigger] all[l]) by {
            assert(all[k] == before[k]);
            if l < before.len() {
                assert(all[l] == before[l]);
            }
        }
        assert forall|i: int| 0 <= i < terms.len() && #[trigger] terms[i] == term implies all.contains(
            i as u64,
        ) by {
            if i < front.len() {
                assert(front[i] == term);
                let k = choose|k: int| 0 <= k < before.len() && before[k] == i as u64;
                assert(all[k] == i as u64);
            } else {
                assert(all[all.len() - 1] == last);
            }
        }
    }
}

/// The locations of a split: each term that occurs, with its places.
pub open spec fn locations_of(terms: Seq<Seq<char>>) -> Map<Seq<char>, Seq<u64>> {
    Map::new(|term: Seq<char>| terms.contains(term), |term: Seq<char>| positions(terms, term))
}

/// Splits `value` on whitespace and pairs each term with its place.
///
/// For `"This is a test"` the result is
/// `[("This", 0), ("is", 1), ("a", 2), ("test", 3)]`.
pub fn split_on_whitespace(value: &str) -> (result: Vec<(String, u64)>)
    ensures
        result@.len() == terms(value@).len(),
        forall|k: int|
            0 <= k < result@.len() ==> (#[trigger] result@[k]).0@ == terms(value@)[k]
                && result@[k].1 == k,
{
    let chars = chars_of(value);
    let mut result: Vec<(String, u64)> = Vec::new();
    let ghost mut done: Seq<Seq<char>> = Seq::empty();
    let mut i: usize = 0;
    proof {
        lemma_terms_len(chars@, 0);
    }
    while i < chars.len()
        invariant
            chars@ == value@,
            i <= chars.len(),
            terms(chars@) =~= done + terms_from(chars@, i as int),
            terms(chars@).len() <= chars.len(),
            result@.len() == done.len(),
            forall|k: int|
                0 <= k < result@.len() ==> (#[trigger] result@[k]).0@ == done[k] && result@[k].1
                    == k,
        decreases chars.len() - i,
    {
        if is_whitespace(chars[i]) {
            i = i + 1;
        } else {
            let start = i;
            while i < chars.len() && !is_whitespace(chars[i])
                invariant
                    start <= i <= chars.len(),
                    term_end(chars@, i as int) == term_end(chars@, start as int),
                decreases chars.len() - i,
            {
                i = i + 1;
            }
            let term = string_of(&chars, start, i);
            let place = result.len() as u64;
            proof {
                assert(terms_from(chars@, start as int) == seq![term@] + terms_from(
                    chars@,
                    i as int,
                ));
                done = done.push(term@);
            }
            result.push((term, place));
        }
    }
    assert(terms(chars@) =~= done);
    result
}

/// A discrete body of text to be indexed.
pub struct Document {
    /// Number that identifies the document within its index; absent while the
    /// document has not been given one.
    pub id: Option<u64>,
    /// The text as the client supplied it.
    pub raw: String,
    /// Each term of the text with the places at which it occurs.
    pub locations: StringHashMap<Vec<u64>>,
}

impl Document {
    /// The locations as a map from a term to its places.
    pub open spec fn locations_view(&self) -> Map<Seq<char>, Seq<u64>> {
        self.locations@.map_values(|places: Vec<u64>| places@)
    }

    /// Whether the locations are those of the text.
    pub open spec fn is_tokenized(&self) -> bool {
        self.locations_view() == locations_of(terms(self.raw@))
    }

    /// A document with the given id and text, tokenized.
    pub fn new(id: u64, raw: &str) -> (document: Document)
        ensures
            document.id == Some(id),
            document.raw@ == raw@,
            document.is_tokenized(),
    {
        let mut document = Document {
            id: Some(id),
            raw: raw.to_owned(),
            locations: StringHashMap::new(),
        };
        Document::process(&mut document);
        document
    }

    /// A document without an id. Its text is kept as it is and not tokenized
    /// yet: the locations are empty until the document is processed.
    pub fn from_string(raw: &str) -> (document: Document)
        ensures
            document.id is None,
            document.raw@ == raw@,
            document.locations_view() == Map::<Seq<char>, Seq<u64>>::empty(),
    {
        let document = Document { id: None, raw: raw.to_owned(), locations: StringHashMap::new() };
        assert(document.locations_view() =~= Map::<Seq<char>, Seq<u64>>::empty());
        document
    }

    /// Replaces the text and tokenizes the new one; the id stays.
    pub fn raw(self, r: String) -> (document: Document)
        ensures
            document.id == self.id,
            document.raw@ == r@,
            document.is_tokenized(),
    {
        let mut document = Document { id: self.id, raw: r, locations: StringHashMap::new() };
        Document::process(&mut document);
        document
    }

    /// Tokenizes the text of `doc` and replaces its locations by what the text
    /// gives. Id and text stay as they are.
    pub fn process(doc: &mut Document)
        ensures
            final(doc).id == old(doc).id,
            final(doc).raw == old(doc).raw,
            final(doc).is_tokenized(),
    {
        let results = split_on_whitespace(doc.raw.as_str());
        let ghost all = terms(doc.raw@);
        let mut locations: StringHashMap<Vec<u64>> = StringHashMap::new();
        let mut n: usize = 0;
        while n < results.len()
            invariant
                n <= results.len(),
                results@.len() == all.len(),
                forall|k: int|
                    0 <= k < results@.len() ==> (#[trigger] results@[k]).0@ == all[k]
                        && results@[k].1 == k,
                locations@.map_values(|places: Vec<u64>| places@) =~= locations_of(
                    all.take(n as int),
                ),
            decreases results.len() - n,
        {
            let ghost seen = all.take(n as int);
            let ghost next = all.take(n + 1);
            let ghost before = locations@;
            let term: &String = &results[n].0;
            let offset: u64 = results[n].1;
            let mut places: Vec<u64> = match locations.get(term.as_str()) {
                Some(found) => found.clone(),
                None => Vec::new(),
            };
            proof {
                assert(next.drop_last() =~= seen);
                assert(next.last() == term@);
                assert(before.map_values(|places: Vec<u64>| places@).dom() =~= before.dom());
                if before.contains_key(term@) {
                    assert(before.map_values(|places: Vec<u64>| places@)[term@] == before[term@]@);
                    assert(places@ == positions(seen, term@));
                } else {
                    assert(!seen.contains(term@));
                    lemma_positions_absent(seen, term@);
                }
            }
            places.push(offset);
            locations.insert(term.clone(), places);
            proof {
                let now = locations@.map_values(|places: Vec<u64>| places@);
                let want = locations_of(next);
                assert forall|t: Seq<char>| now.contains_key(t) <==> want.contains_key(t) by {
                    if seen.contains(t) {
                        let j = choose|j: int| 0 <= j < seen.len() && seen[j] == t;
                        assert(next[j] == t);
                    }
                    if next.contains(t) && t != term@ {
                        let j = choose|j: int| 0 <= j < next.len() && next[j] == t;
                        assert(seen[j] == t);
                    }
                    assert(next[n as int] == term@);
                }
                assert forall|t: Seq<char>| now.contains_key(t) implies now[t] == want[t] by {
                    if t == term@ {
                    } else {
                        assert(before.map_values(|places: Vec<u64>| places@)[t] == before[t]@);
                    }
                }
                assert(now =~= want);
            }
            n = n + 1;
        }
        assert(all.take(n as int) =~= all);
        doc.locations = locations;
    }
}

/// A term that does not occur has no places.
proof fn lemma_positions_absent(terms: Seq<Seq<char>>, term: Seq<char>)
    requires
        !terms.contains(term),
    ensures
        positions(terms, term) == Seq::<u64>::empty(),
    decreases terms.len(),
{
    if terms.len() > 0 {
        assert(terms.last() == terms[terms.len() - 1]);
        assert forall|j: int| 0 <= j < terms.drop_last().len() implies terms.drop_last()[j]
            != term by {
            assert(terms[j] == terms.drop_last()[j]);
        }
        lemma_positions_absent(terms.drop_last(), term);
    }
}

impl FromStr for Document {
    type Err = DocumentError;

    /// An id-less document of the given text, not tokenized yet; this never
    /// fails.
    fn from_str(s: &str) -> (document: Result<Document, DocumentError>)
        ensures
            document matches Ok(made) && made.id is None && made.raw@ == s@
                && made.locations_view() == Map::<Seq<char>, Seq<u64>>::empty(),
    {
        Ok(Document::from_string(s))
    }
}

/// What went wrong with a document.
#[derive(Debug)]
pub struct DocumentError {
    pub details: String,
}

impl DocumentError {
    /// An error that carries `msg`.
    pub fn new(msg: &str) -> (error: DocumentError)
        ensures
            error.details@ == msg@,
    {
        DocumentError { details: msg.to_owned() }
    }

    /// The message of the error.
    pub fn description(&self) -> (text: &str)
        ensures
            text@ == self.details@,
    {
        self.details.as_str()
    }
}

} // verus!

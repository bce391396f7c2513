//! Small building blocks for text that the rest of the library shares.

use vstd::prelude::*;

verus! {

/// `String::push` of the standard library: the character is appended at the
/// end and nothing else changes.
pub assume_specification[ String::push ](s: &mut String, c: char)
    ensures
        final(s)@ == old(s)@.push(c),
;

/// The texts that a list of strings holds, in order.
pub open spec fn texts(v: Seq<String>) -> Seq<Seq<char>> {
    v.map_values(|s: String| s@)
}

/// The fields of a text that `sep` separates: the stretches between one
/// separator and the next, empty ones included. A text without separator is
/// one field.
pub open spec fn fields(s: Seq<char>, sep: char) -> Seq<Seq<char>>
    decreases s.len(),
{
    if s.len() == 0 {
        seq![Seq::empty()]
    } else if s.last() == sep {
        fields(s.drop_last(), sep).push(Seq::empty())
    } else {
        let before = fields(s.drop_last(), sep);
        before.drop_last().push(before.last().push(s.last()))
    }
}

/// Splits a text into the fields that `sep` separates.
pub fn split_fields(s: &str, sep: char) -> (parts: Vec<String>)
    ensures
        texts(parts@) == fields(s@, sep),
{
    broadcast use vstd::string::group_string_axioms;

    let mut parts: Vec<String> = Vec::new();
    let mut current = String::new();
    assert(s@.take(0) =~= Seq::<char>::empty());
    assert(texts(parts@).push(current@) =~= fields(s@.take(0), sep));
    for c in it: s.chars()
        invariant
            it.seq() == s@,
            texts(parts@).push(current@) == fields(s@.take(it.index() as int), sep),
    {
        let ghost before = fields(s@.take(it.index() as int), sep);
        let ghost done = texts(parts@);
        let ghost word = current@;
        proof {
            let longer = s@.take(it.index() + 1);
            assert(longer.drop_last() =~= s@.take(it.index() as int));
            assert(longer.last() == c);
            assert(before.drop_last() =~= done);
            assert(before.last() == word);
        }
        if c == sep {
            parts.push(current);
            current = String::new();
            assert(texts(parts@) =~= done.push(word));
        } else {
            current.push(c);
        }
    }
    assert(s@.take(s@.len() as int) =~= s@);
    let ghost done = texts(parts@);
    parts.push(current);
    assert(texts(parts@) =~= done.push(current@));
    parts
}

/// The text that `str::to_lowercase` makes of a text: its lowercase form by
/// the rules of Unicode.
pub uninterp spec fn lowercase_of(s: Seq<char>) -> Seq<char>;

/// `str::to_lowercase` of the standard library. The lowercase form depends
/// on the text alone and is known to the contracts as [`lowercase_of`].
#[verifier::external_body]
pub(crate) fn to_lowercase(s: &str) -> (lower: String)
    ensures
        lower@ == lowercase_of(s@),
{
    s.to_lowercase()
}

} // verus!

//! Normalisation of a vehicle registration identifier ("kenteken").
//!
//! A kenteken is written by people in many ways: `41-tdk-8`, `41 TDK 8`,
//! `41tdk8`. The registers are keyed by the form without separators and in
//! upper case. Nothing else is checked here; whether an identifier denotes
//! a vehicle is for the registers to say.

use vstd::prelude::*;

verus! {

/// The text that `str::to_uppercase` returns for `text`: its upper-case
/// equivalent as Unicode defines it, which may be longer than `text`.
pub uninterp spec fn uppercase(text: Seq<char>) -> Seq<char>;

/// `str::to_uppercase` returns the upper-case equivalent of the slice as a
/// new `String`; the result depends on the characters of the slice alone.
pub assume_specification[ str::to_uppercase ](s: &str) -> (upper: String)
    ensures
        upper@ == uppercase(s@),
;

/// Whether `c` is one of the two separators that people put into a kenteken.
pub open spec fn is_separator(c: char) -> bool {
    c == '-' || c == ' '
}

/// `text` without its hyphens and spaces, the other characters in order.
pub open spec fn strip_separators(text: Seq<char>) -> Seq<char> {
    text.filter(|c: char| !is_separator(c))
}

/// The canonical form of a kenteken: upper case, no hyphens, no spaces.
pub open spec fn normalized(text: Seq<char>) -> Seq<char> {
    strip_separators(uppercase(text))
}

/// Brings a kenteken into its canonical form.
pub fn normalize_kenteken(kenteken: &str) -> (canonical: String)
    ensures
        canonical@ == normalized(kenteken@),
{
    broadcast use vstd::string::group_string_axioms;

    let upper = kenteken.to_uppercase();
    let mut canonical = String::new();
    assert(upper@.take(0) =~= Seq::<char>::empty());
    for c in it: upper.as_str().chars()
        invariant
            it.seq() == upper@,
            canonical@ == strip_separators(upper@.take(it.index())),
    {
        proof {
            let seen = upper@.take(it.index() + 1);
            assert(seen.drop_last() =~= upper@.take(it.index()));
            assert(seen.last() == c);
            reveal(Seq::filter);
        }
        if c != '-' && c != ' ' {
            canonical.push(c);
        }
    }
    assert(upper@.take(upper@.len() as int) =~= upper@);
    canonical
}

/// Text without separators is left as it is.
pub proof fn lemma_strip_keeps_clean_text(text: Seq<char>)
    requires
        forall|i: int| 0 <= i < text.len() ==> !is_separator(#[trigger] text[i]),
    ensures
        strip_separators(text) == text,
    decreases text.len(),
{
    reveal(Seq::filter);
    if text.len() > 0 {
        lemma_strip_keeps_clean_text(text.drop_last());
        assert(text.drop_last().push(text.last()) =~= text);
    }
}

/// What is left after stripping holds no hyphen and no space.
pub proof fn lemma_stripped_is_clean(text: Seq<char>)
    ensures
        forall|i: int|
            0 <= i < strip_separators(text).len() ==> !is_separator(
                #[trigger] strip_separators(text)[i],
            ),
{
    let keep = |c: char| !is_separator(c);
    assert forall|i: int| 0 <= i < text.filter(keep).len() implies !is_separator(
        #[trigger] text.filter(keep)[i],
    ) by {
        text.lemma_filter_pred(keep, i);
    }
}

/// Stripping twice is stripping once.
pub proof fn lemma_strip_is_idempotent(text: Seq<char>)
    ensures
        strip_separators(strip_separators(text)) == strip_separators(text),
{
    lemma_stripped_is_clean(text);
    lemma_strip_keeps_clean_text(strip_separators(text));
}

/// A canonical kenteken holds no hyphen and no space.
pub proof fn lemma_normalized_is_clean(text: Seq<char>)
    ensures
        forall|i: int|
            0 <= i < normalized(text).len() ==> !is_separator(#[trigger] normalized(text)[i]),
{
    lemma_stripped_is_clean(uppercase(text));
}

/// Normalising is idempotent wherever upper-casing is: if upper-casing
/// leaves the canonical form of `text` as it is, then so does normalising.
pub proof fn lemma_normalize_again_where_upper_case_is_kept(text: Seq<char>)
    ensures
        uppercase(normalized(text)) == normalized(text) ==> normalized(normalized(text))
            == normalized(text),
{
    lemma_strip_is_idempotent(uppercase(text));
}

} // verus!

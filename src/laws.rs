//! Properties that hold of every page and every sentence.

use vstd::prelude::*;

use crate::api::{
    joined_bases, joined_kana, jlpt_of, outcome, positional_pairs, profile_of, ErrorModel,
    ExtractionError, Field, Kanji, KanjiExample, JLPT, READING_SPANS, BASE_SPANS, SENTENCE_LIST,
    STROKE_COUNT,
};
use crate::markup::{first_or_empty, selected, selected_text};
use crate::text::{all_digits, is_digit, number_of};

verus! {

/// The texts of `s`, written one after the other.
pub open spec fn concat(s: Seq<Seq<char>>) -> Seq<char>
    decreases s.len(),
{
    if s.len() == 0 {
        Seq::empty()
    } else {
        concat(s.drop_last()) + s.last()
    }
}

/// Reading a profile is deterministic: two reads of the same page with the
/// same source give equal outcomes.
pub proof fn lemma_search_kanji_deterministic(
    document: Seq<char>,
    url: Seq<char>,
    first: Result<Kanji, ExtractionError>,
    second: Result<Kanji, ExtractionError>,
)
    requires
        outcome(first) == profile_of(document, url),
        outcome(second) == profile_of(document, url),
    ensures
        outcome(first) == outcome(second),
{
}

/// The written form of a sentence joins its pieces' base texts, and the kana
/// form joins their readings (base text where a piece has none), both trimmed.
pub proof fn lemma_renderings_join_pieces(s: KanjiExample, div: Seq<char>)
    requires
        s.read_from(div),
    ensures
        s.kanji@ == crate::text::trimmed(joined_bases(s.pairs())),
        s.kana@ == crate::text::trimmed(joined_kana(s.pairs())),
{
}

/// Pairing by position keeps every base text: the base texts of the pairs,
/// joined, are all base texts joined, whatever the number of readings.
pub proof fn lemma_pairing_keeps_base_text(bases: Seq<Seq<char>>, readings: Seq<Seq<char>>)
    ensures
        joined_bases(positional_pairs(bases, readings)) == concat(bases),
    decreases bases.len(),
{
    if bases.len() > 0 {
        let shorter = bases.drop_last();
        lemma_pairing_keeps_base_text(shorter, readings);
        assert(positional_pairs(bases, readings).drop_last() =~= positional_pairs(shorter, readings));
    }
}

/// The kana form joins, for each base text, the reading at its position, or
/// the base text itself where that reading is empty or missing.
pub proof fn lemma_pairing_reads_by_position(bases: Seq<Seq<char>>, readings: Seq<Seq<char>>)
    ensures
        joined_kana(positional_pairs(bases, readings)) == concat(
            Seq::new(
                bases.len(),
                |i: int|
                    if i < readings.len() && readings[i].len() > 0 {
                        readings[i]
                    } else {
                        bases[i]
                    },
            ),
        ),
    decreases bases.len(),
{
    if bases.len() > 0 {
        let shorter = bases.drop_last();
        lemma_pairing_reads_by_position(shorter, readings);
        assert(positional_pairs(bases, readings).drop_last() =~= positional_pairs(shorter, readings));
        let f = |i: int|
            if i < readings.len() && readings[i].len() > 0 {
                readings[i]
            } else {
                bases[i]
            };
        let g = |i: int|
            if i < readings.len() && readings[i].len() > 0 {
                readings[i]
            } else {
                shorter[i]
            };
        assert(Seq::new(bases.len(), f).drop_last() =~= Seq::new(shorter.len(), g));
    }
}

/// A base text that occurs twice keeps, at each occurrence, the reading at
/// that occurrence's own position, even where the two readings differ.
pub proof fn lemma_repeated_base_keeps_positions(
    bases: Seq<Seq<char>>,
    readings: Seq<Seq<char>>,
    i: int,
    j: int,
)
    requires
        0 <= i < j < bases.len(),
        j < readings.len(),
        bases[i] == bases[j],
    ensures
        positional_pairs(bases, readings)[i] == (bases[i], readings[i]),
        positional_pairs(bases, readings)[j] == (bases[j], readings[j]),
{
}

/// In a sentence read from a block, the piece at each position carries the
/// base span and the furigana span at that position of the sentence's list.
pub proof fn lemma_sentence_pieces_by_position(s: KanjiExample, div: Seq<char>, i: int)
    requires
        s.read_from(div),
        0 <= i < selected_text(first_or_empty(selected(div, SENTENCE_LIST@)), BASE_SPANS@).len(),
        i < selected_text(first_or_empty(selected(div, SENTENCE_LIST@)), READING_SPANS@).len(),
    ensures
        s.pairs()[i] == (
            selected_text(first_or_empty(selected(div, SENTENCE_LIST@)), BASE_SPANS@)[i],
            selected_text(first_or_empty(selected(div, SENTENCE_LIST@)), READING_SPANS@)[i],
        ),
{
}

/// A page whose JLPT level reads (or is absent) and whose stroke count holds
/// anything but a digit yields a malformed stroke count and no profile.
pub proof fn lemma_non_digit_strokes_are_malformed(document: Seq<char>, url: Seq<char>, k: int)
    requires
        selected_text(document, JLPT@).len() == 0 || jlpt_of(selected_text(document, JLPT@)[0]) is Some,
        selected_text(document, STROKE_COUNT@).len() > 0,
        0 <= k < selected_text(document, STROKE_COUNT@)[0].len(),
        !is_digit(selected_text(document, STROKE_COUNT@)[0][k]),
    ensures
        profile_of(document, url) == Err::<crate::api::KanjiModel, ErrorModel>(
            ErrorModel::MalformedField(Field::StrokeCount),
        ),
{
    let t = selected_text(document, STROKE_COUNT@)[0];
    assert(!all_digits(t));
    assert(number_of(t) is None);
}

/// A stroke count that reads is the number its digits write.
pub proof fn lemma_stroke_count_is_its_digits(document: Seq<char>, url: Seq<char>)
    requires
        profile_of(document, url) is Ok,
    ensures
        number_of(selected_text(document, STROKE_COUNT@)[0]) == Some(
            profile_of(document, url)->Ok_0.stroke_count,
        ),
{
}

/// A JLPT section that names a level other than `N1` to `N5` yields that
/// token as an invalid level, never a level picked by default.
pub proof fn lemma_unknown_jlpt_is_rejected(document: Seq<char>, url: Seq<char>)
    requires
        selected_text(document, JLPT@).len() > 0,
        jlpt_of(selected_text(document, JLPT@)[0]) is None,
    ensures
        profile_of(document, url) == Err::<crate::api::KanjiModel, ErrorModel>(
            ErrorModel::InvalidJlptLevel(selected_text(document, JLPT@)[0]),
        ),
{
}

} // verus!

//! Typed records of a kanji dictionary page and the functions that read them
//! out of its markup.

use vstd::prelude::*;

use crate::markup::{
    first_or_empty, select_first_or_empty, select_first_text_or_empty, select_inner_html, select_text,
    selected, selected_text,
};
use crate::text::{lines, number_of, parse_number, remove_char, split_lines, trim_text, trimmed, views, without};

verus! {

/// One aligned pair of a sentence: a run of base text and the furigana that
/// is written over it (empty where the run carries none).
#[derive(Debug, Clone)]
pub struct Piece {
    pub lifted: String,
    pub unlifted: String,
}

impl View for Piece {
    type V = (Seq<char>, Seq<char>);

    /// The base text, then its reading.
    open spec fn view(&self) -> (Seq<char>, Seq<char>) {
        (self.unlifted@, self.lifted@)
    }
}

/// The (base text, reading) pairs of a sequence of pieces.
pub open spec fn pairs_of(ps: Seq<Piece>) -> Seq<(Seq<char>, Seq<char>)> {
    ps.map_values(|p: Piece| p@)
}

/// Base texts and readings paired by position: the `i`-th base text with the
/// `i`-th reading, and an empty reading for a base text that has no reading at
/// its position. Readings beyond the last base text annotate nothing.
pub open spec fn positional_pairs(
    bases: Seq<Seq<char>>,
    readings: Seq<Seq<char>>,
) -> Seq<(Seq<char>, Seq<char>)> {
    Seq::new(
        bases.len(),
        |i: int|
            (bases[i], if i < readings.len() {
                readings[i]
            } else {
                Seq::empty()
            }),
    )
}

/// The base texts of the pairs, written one after the other.
pub open spec fn joined_bases(ps: Seq<(Seq<char>, Seq<char>)>) -> Seq<char>
    decreases ps.len(),
{
    if ps.len() == 0 {
        Seq::empty()
    } else {
        joined_bases(ps.drop_last()) + ps.last().0
    }
}

/// What a pair reads as: its reading, or its base text where the reading is
/// empty.
pub open spec fn spoken(p: (Seq<char>, Seq<char>)) -> Seq<char> {
    if p.1.len() > 0 {
        p.1
    } else {
        p.0
    }
}

/// The readings of the pairs (base text where a reading is empty), written
/// one after the other.
pub open spec fn joined_kana(ps: Seq<(Seq<char>, Seq<char>)>) -> Seq<char>
    decreases ps.len(),
{
    if ps.len() == 0 {
        Seq::empty()
    } else {
        joined_kana(ps.drop_last()) + spoken(ps.last())
    }
}

/// Selects the list that holds a sentence inside a sentence block.
pub const SENTENCE_LIST: &'static str = "ul";

/// Selects the English translation inside a sentence block.
pub const SENTENCE_ENGLISH: &'static str = "span.english";

/// Selects the base text spans of a sentence list.
pub const BASE_SPANS: &'static str = "span.unlinked";

/// Selects the furigana spans of a sentence list.
pub const READING_SPANS: &'static str = "span.furigana";

/// Selects the sentence blocks of a sentence search page.
pub const SENTENCE_BLOCKS: &'static str = "div.sentence_content";

/// The pairs of the sentence list `ul`.
pub open spec fn sentence_pairs(ul: Seq<char>) -> Seq<(Seq<char>, Seq<char>)> {
    positional_pairs(selected_text(ul, BASE_SPANS@), selected_text(ul, READING_SPANS@))
}

/// An example sentence: its English translation, its text as written, its
/// text in kana, and the pieces that make it up in reading order.
#[derive(Debug, Clone)]
pub struct KanjiExample {
    pub english: String,
    pub kanji: String,
    pub kana: String,
    pub pieces: Vec<Piece>,
}

impl KanjiExample {
    /// The sentence's pairs in order.
    pub open spec fn pairs(&self) -> Seq<(Seq<char>, Seq<char>)> {
        pairs_of(self.pieces@)
    }

    /// The two renderings are the pieces written out: the written form joins
    /// the base texts, the kana form the readings (base text where a piece has
    /// none), each then trimmed.
    pub open spec fn wf(&self) -> bool {
        &&& self.kanji@ == trimmed(joined_bases(self.pairs()))
        &&& self.kana@ == trimmed(joined_kana(self.pairs()))
    }

    /// This sentence is what the sentence block `div` holds: its translation
    /// (empty where there is none), the pairs of its first list (none where
    /// there is no list), and the renderings that the pairs give.
    pub open spec fn read_from(&self, div: Seq<char>) -> bool {
        &&& self.english@ == first_or_empty(selected_text(div, SENTENCE_ENGLISH@))
        &&& self.pairs() == sentence_pairs(first_or_empty(selected(div, SENTENCE_LIST@)))
        &&& self.wf()
    }

    /// Pairs each base text with the reading at the same position; a base
    /// text past the last reading gets an empty one.
    pub fn get_pieces(kanji: &Vec<String>, furigana: &Vec<String>) -> (r: Vec<Piece>)
        ensures
            pairs_of(r@) == positional_pairs(views(kanji@), views(furigana@)),
    {
        let mut r: Vec<Piece> = Vec::new();
        let mut i: usize = 0;
        while i < kanji.len()
            invariant
                i <= kanji@.len(),
                pairs_of(r@) == positional_pairs(views(kanji@), views(furigana@)).subrange(0, i as int),
            decreases kanji@.len() - i,
        {
            let lifted = if i < furigana.len() {
                furigana[i].clone()
            } else {
                String::new()
            };
            let piece = Piece { lifted, unlifted: kanji[i].clone() };
            let ghost prev = r@;
            r.push(piece);
            assert(pairs_of(r@) =~= pairs_of(prev).push(piece@));
            assert(positional_pairs(views(kanji@), views(furigana@)).subrange(0, i + 1) =~=
                positional_pairs(views(kanji@), views(furigana@)).subrange(0, i as int).push(piece@));
            i = i + 1;
        }
        assert(positional_pairs(views(kanji@), views(furigana@)).subrange(0, i as int) =~=
            positional_pairs(views(kanji@), views(furigana@)));
        r
    }

    /// Writes the pieces out: the base texts joined, and the readings joined
    /// (base text where a piece has no reading).
    fn join_pieces(pieces: &Vec<Piece>) -> (r: (String, String))
        ensures
            r.0@ == joined_bases(pairs_of(pieces@)),
            r.1@ == joined_kana(pairs_of(pieces@)),
    {
        let mut kanji = String::new();
        let mut kana = String::new();
        let mut i: usize = 0;
        while i < pieces.len()
            invariant
                i <= pieces@.len(),
                kanji@ == joined_bases(pairs_of(pieces@.subrange(0, i as int))),
                kana@ == joined_kana(pairs_of(pieces@.subrange(0, i as int))),
            decreases pieces@.len() - i,
        {
            let p = &pieces[i];
            assert(pairs_of(pieces@.subrange(0, i + 1)).drop_last() =~= pairs_of(pieces@.subrange(0, i as int)));
            kanji.append(p.unlifted.as_str());
            if p.lifted.as_str().is_empty() {
                kana.append(p.unlifted.as_str());
            } else {
                kana.append(p.lifted.as_str());
            }
            i = i + 1;
        }
        assert(pieces@.subrange(0, i as int) =~= pieces@);
        (kanji, kana)
    }

    /// Reads the sentence list `ul`: its base text spans and furigana spans,
    /// paired by position, and the two renderings of the sentence.
    pub fn get_kanji_kana_and_pieces(ul: &str) -> (r: (String, String, Vec<Piece>))
        ensures
            pairs_of(r.2@) == sentence_pairs(ul@),
            r.0@ == trimmed(joined_bases(pairs_of(r.2@))),
            r.1@ == trimmed(joined_kana(pairs_of(r.2@))),
            r.0@ == trimmed(joined_bases(sentence_pairs(ul@))),
            r.1@ == trimmed(joined_kana(sentence_pairs(ul@))),
    {
        let bases = select_text(ul, BASE_SPANS);
        let readings = select_text(ul, READING_SPANS);
        let pieces = Self::get_pieces(&bases, &readings);
        let (kanji, kana) = Self::join_pieces(&pieces);
        (trim_text(kanji.as_str()), trim_text(kana.as_str()), pieces)
    }

    /// Reads one sentence block: the translation (empty where there is none)
    /// and the sentence of the first list in it (empty where there is none).
    pub fn new(div: &str) -> (r: KanjiExample)
        ensures
            r.read_from(div@),
    {
        let ul = select_first_or_empty(div, SENTENCE_LIST);
        let english = select_first_text_or_empty(div, SENTENCE_ENGLISH);
        let (kanji, kana, pieces) = Self::get_kanji_kana_and_pieces(ul.as_str());
        KanjiExample { english, kanji, kana, pieces }
    }
}

/// Reads every sentence block of a sentence search page, in the order of the page's tree.
pub open spec fn sentence_blocks(document: Seq<char>) -> Seq<Seq<char>> {
    selected(document, SENTENCE_BLOCKS@)
}

/// The Japanese Language Proficiency Test levels.
#[derive(Debug, Clone, Copy, PartialEq, Eq, Structural)]
pub enum JlptLevel {
    N1,
    N2,
    N3,
    N4,
    N5,
}

/// The level that a token names: exactly one of `N1` to `N5`.
pub open spec fn jlpt_of(token: Seq<char>) -> Option<JlptLevel> {
    if token == seq!['N', '1'] {
        Some(JlptLevel::N1)
    } else if token == seq!['N', '2'] {
        Some(JlptLevel::N2)
    } else if token == seq!['N', '3'] {
        Some(JlptLevel::N3)
    } else if token == seq!['N', '4'] {
        Some(JlptLevel::N4)
    } else if token == seq!['N', '5'] {
        Some(JlptLevel::N5)
    } else {
        None
    }
}

/// The field of a profile that an extraction error is about.
#[derive(Debug, Clone, Copy, PartialEq, Eq, Structural)]
pub enum Field {
    JlptLevel,
    StrokeCount,
    Meaning,
    Examples,
    ReadingExample,
}

/// The name under which a field is reported.
pub open spec fn field_name(f: Field) -> Seq<char> {
    match f {
        Field::JlptLevel => "jlpt_level"@,
        Field::StrokeCount => "stroke_count"@,
        Field::Meaning => "meaning"@,
        Field::Examples => "examples"@,
        Field::ReadingExample => "reading_example"@,
    }
}

impl Field {
    /// The field's name, as callers report it.
    pub fn name(&self) -> (r: &'static str)
        ensures
            r@ == field_name(*self),
    {
        match self {
            Field::JlptLevel => "jlpt_level",
            Field::StrokeCount => "stroke_count",
            Field::Meaning => "meaning",
            Field::Examples => "examples",
            Field::ReadingExample => "reading_example",
        }
    }
}

/// Why a profile could not be read.
#[derive(Debug, Clone, PartialEq, Eq)]
pub enum ExtractionError {
    /// A required section is not on the page at all.
    MissingSection(Field),
    /// A field is there but does not read as its rule says.
    MalformedField(Field),
    /// The JLPT section names a level other than `N1` to `N5`.
    InvalidJlptLevel(String),
}

/// What an [`ExtractionError`] says, over plain values.
pub enum ErrorModel {
    MissingSection(Field),
    MalformedField(Field),
    InvalidJlptLevel(Seq<char>),
}

impl View for ExtractionError {
    type V = ErrorModel;

    open spec fn view(&self) -> ErrorModel {
        match self {
            ExtractionError::MissingSection(f) => ErrorModel::MissingSection(*f),
            ExtractionError::MalformedField(f) => ErrorModel::MalformedField(*f),
            ExtractionError::InvalidJlptLevel(t) => ErrorModel::InvalidJlptLevel(t@),
        }
    }
}

/// An example word for one of the kanji's readings.
#[derive(Debug, Clone)]
pub struct YomiExample {
    pub kanji: String,
    pub hiragana: String,
    pub meaning: String,
}

impl View for YomiExample {
    type V = (Seq<char>, Seq<char>, Seq<char>);

    /// The word as written, its reading, and its meaning.
    open spec fn view(&self) -> (Seq<char>, Seq<char>, Seq<char>) {
        (self.kanji@, self.hiragana@, self.meaning@)
    }
}

/// A reading example block: at least three lines once trimmed, of which the
/// first three are the word, its reading in 【】 brackets, and its meaning.
/// The brackets are taken out of the reading, then each field is trimmed;
/// lines past the third are not read.
pub open spec fn yomi_of(block: Seq<char>) -> Option<(Seq<char>, Seq<char>, Seq<char>)> {
    let ls = lines(trimmed(block));
    if ls.len() >= 3 {
        Some((trimmed(ls[0]), trimmed(without(without(ls[1], '【'), '】')), trimmed(ls[2])))
    } else {
        None
    }
}

/// Selects the two columns of reading examples: on'yomi first, kun'yomi
/// second.
pub const EXAMPLE_COLUMNS: &'static str = "div.small-12.columns div.row.compounds div.small-12.large-6.columns";

/// Selects the example blocks of a column.
pub const EXAMPLE_ITEMS: &'static str = "ul.no-bullet li";

/// Selects the grade in which the kanji is taught.
pub const GRADE: &'static str = "div.grade strong";

/// Selects the JLPT level.
pub const JLPT: &'static str = "div.jlpt strong";

/// Selects the stroke count.
pub const STROKE_COUNT: &'static str = "div.kanji-details__stroke_count strong";

/// Selects the main meanings.
pub const MEANING: &'static str = "div.kanji-details__main-meanings";

/// Selects the kun'yomi readings.
pub const KUNYOMI: &'static str = "div.kanji-details__main-readings dl.dictionary_entry.kun_yomi a";

/// Selects the on'yomi readings.
pub const ONYOMI: &'static str = "div.kanji-details__main-readings dl.dictionary_entry.on_yomi a";

/// Selects the parts that the kanji is built of.
pub const PARTS: &'static str = "div.radicals dl.dictionary_entry.on_yomi dd a";

/// Every block reads as a reading example.
pub open spec fn all_blocks_read(items: Seq<Seq<char>>) -> bool {
    forall|i: int| 0 <= i < items.len() ==> (#[trigger] yomi_of(items[i])) is Some
}

/// The examples of a column, or `None` where one of its blocks is malformed.
pub open spec fn examples_of(column: Seq<char>) -> Option<Seq<(Seq<char>, Seq<char>, Seq<char>)>> {
    let items = selected_text(column, EXAMPLE_ITEMS@);
    if all_blocks_read(items) {
        Some(Seq::new(items.len(), |i: int| yomi_of(items[i])->0))
    } else {
        None
    }
}

/// A text field: newlines taken out, then trimmed.
pub open spec fn collapsed(s: Seq<char>) -> Seq<char> {
    trimmed(without(s, '\n'))
}

/// What a kanji profile says, over plain values.
pub struct KanjiModel {
    pub taught: Option<Seq<char>>,
    pub jlpt_level: Option<JlptLevel>,
    pub stroke_count: u32,
    pub meaning: Seq<char>,
    pub kunyomi: Seq<Seq<char>>,
    pub kunyomi_examples: Seq<(Seq<char>, Seq<char>, Seq<char>)>,
    pub onyomi: Seq<Seq<char>>,
    pub onyomi_examples: Seq<(Seq<char>, Seq<char>, Seq<char>)>,
    pub parts: Seq<Seq<char>>,
    pub url: Seq<char>,
}

/// The profile that a kanji page holds, or the first reason, in the order
/// JLPT level, stroke count, meaning, examples, why it holds none.
pub open spec fn profile_of(document: Seq<char>, url: Seq<char>) -> Result<KanjiModel, ErrorModel> {
    let grade = selected_text(document, GRADE@);
    let jlpt = selected_text(document, JLPT@);
    let strokes = selected_text(document, STROKE_COUNT@);
    let meaning = selected_text(document, MEANING@);
    let columns = selected(document, EXAMPLE_COLUMNS@);
    if jlpt.len() > 0 && jlpt_of(jlpt[0]) is None {
        Err(ErrorModel::InvalidJlptLevel(jlpt[0]))
    } else if strokes.len() == 0 {
        Err(ErrorModel::MissingSection(Field::StrokeCount))
    } else if number_of(strokes[0]) is None {
        Err(ErrorModel::MalformedField(Field::StrokeCount))
    } else if meaning.len() == 0 {
        Err(ErrorModel::MissingSection(Field::Meaning))
    } else if columns.len() < 2 {
        Err(ErrorModel::MissingSection(Field::Examples))
    } else if examples_of(columns[0]) is None || examples_of(columns[1]) is None {
        Err(ErrorModel::MalformedField(Field::ReadingExample))
    } else {
        Ok(
            KanjiModel {
                taught: if grade.len() > 0 {
                    Some(collapsed(grade[0]))
                } else {
                    None
                },
                jlpt_level: if jlpt.len() > 0 {
                    jlpt_of(jlpt[0])
                } else {
                    None
                },
                stroke_count: number_of(strokes[0])->0,
                meaning: collapsed(meaning[0]),
                kunyomi: selected_text(document, KUNYOMI@),
                kunyomi_examples: examples_of(columns[1])->0,
                onyomi: selected_text(document, ONYOMI@),
                onyomi_examples: examples_of(columns[0])->0,
                parts: selected_text(document, PARTS@),
                url,
            },
        )
    }
}

/// The views of a sequence of reading examples.
pub open spec fn yomi_views(v: Seq<YomiExample>) -> Seq<(Seq<char>, Seq<char>, Seq<char>)> {
    v.map_values(|y: YomiExample| y@)
}

/// A kanji's profile.
#[derive(Debug, Clone)]
pub struct Kanji {
    pub taught: Option<String>,
    pub jlpt_level: Option<JlptLevel>,
    pub stroke_count: u32,
    pub meaning: String,
    pub kunyomi: Vec<String>,
    pub kunyomi_examples: Vec<YomiExample>,
    pub onyomi: Vec<String>,
    pub onyomi_examples: Vec<YomiExample>,
    pub parts: Vec<String>,
    pub url: String,
}

impl View for Kanji {
    type V = KanjiModel;

    open spec fn view(&self) -> KanjiModel {
        KanjiModel {
            taught: match self.taught {
                Some(t) => Some(t@),
                None => None,
            },
            jlpt_level: self.jlpt_level,
            stroke_count: self.stroke_count,
            meaning: self.meaning@,
            kunyomi: views(self.kunyomi@),
            kunyomi_examples: yomi_views(self.kunyomi_examples@),
            onyomi: views(self.onyomi@),
            onyomi_examples: yomi_views(self.onyomi_examples@),
            parts: views(self.parts@),
            url: self.url@,
        }
    }
}

/// The view of an extraction's outcome.
pub open spec fn outcome(r: Result<Kanji, ExtractionError>) -> Result<KanjiModel, ErrorModel> {
    match r {
        Ok(k) => Ok(k@),
        Err(e) => Err(e@),
    }
}

impl YomiExample {
    /// Reads a reading example block; a block of fewer than three lines once
    /// trimmed is malformed.
    pub fn new(block: &str) -> (r: Result<YomiExample, ExtractionError>)
        ensures
            r is Ok <==> yomi_of(block@) is Some,
            r matches Ok(y) ==> Some(y@) == yomi_of(block@),
            r matches Err(e) ==> e@ == ErrorModel::MalformedField(Field::ReadingExample),
    {
        let text = trim_text(block);
        let parts = split_lines(text.as_str());
        assert(parts@.len() == lines(text@).len());
        if parts.len() < 3 {
            return Err(ExtractionError::MalformedField(Field::ReadingExample));
        }
        assert(parts@[0]@ == views(parts@)[0]);
        assert(parts@[1]@ == views(parts@)[1]);
        assert(parts@[2]@ == views(parts@)[2]);
        let kanji = trim_text(parts[0].as_str());
        let reading = remove_char(parts[1].as_str(), '【');
        let reading = remove_char(reading.as_str(), '】');
        let hiragana = trim_text(reading.as_str());
        let meaning = trim_text(parts[2].as_str());
        Ok(YomiExample { kanji, hiragana, meaning })
    }
}

/// Reads the records of kanji dictionary pages.
pub struct JishoAPI;

impl JishoAPI {
    /// The level that a token names, if it names one.
    fn level_of(token: &str) -> (r: Option<JlptLevel>)
        ensures
            r == jlpt_of(token@),
    {
        if token.unicode_len() != 2 || token.get_char(0) != 'N' {
            assert(token@.len() != 2 || token@[0] != 'N');
            return None;
        }
        let d = token.get_char(1);
        assert(token@ == seq!['N', d]);
        if d == '1' {
            Some(JlptLevel::N1)
        } else if d == '2' {
            Some(JlptLevel::N2)
        } else if d == '3' {
            Some(JlptLevel::N3)
        } else if d == '4' {
            Some(JlptLevel::N4)
        } else if d == '5' {
            Some(JlptLevel::N5)
        } else {
            None
        }
    }

    /// The first match of `selector`, newlines taken out and trimmed, or
    /// `None` where nothing matches.
    fn first_collapsed(document: &str, selector: &str) -> (r: Option<String>)
        ensures
            selected_text(document@, selector@).len() == 0 ==> r is None,
            selected_text(document@, selector@).len() > 0 ==> (r matches Some(t) && t@ == collapsed(selected_text(document@, selector@)[0])),
    {
        let all = select_text(document, selector);
        if all.len() == 0 {
            return None;
        }
        assert(all@[0]@ == views(all@)[0]);
        let flat = remove_char(all[0].as_str(), '\n');
        Some(trim_text(flat.as_str()))
    }

    /// Reads the grade in which the kanji is taught; `None` where the page
    /// has no grade section.
    pub fn taught_in(document: &str) -> (r: Option<String>)
        ensures
            selected_text(document@, GRADE@).len() == 0 ==> r is None,
            selected_text(document@, GRADE@).len() > 0 ==> (r matches Some(t) && t@ == collapsed(selected_text(document@, GRADE@)[0])),
    {
        Self::first_collapsed(document, GRADE)
    }

    /// Reads the JLPT level: `Ok(None)` where the page has no JLPT section,
    /// and an error where the section names an unknown level.
    pub fn jlpt_level(document: &str) -> (r: Result<Option<JlptLevel>, ExtractionError>)
        ensures
            ({
                let jlpt = selected_text(document@, JLPT@);
                &&& jlpt.len() == 0 ==> r == Ok::<Option<JlptLevel>, ExtractionError>(None)
                &&& jlpt.len() > 0 && jlpt_of(jlpt[0]) is Some ==> r == Ok::<
                    Option<JlptLevel>,
                    ExtractionError,
                >(jlpt_of(jlpt[0]))
                &&& jlpt.len() > 0 && jlpt_of(jlpt[0]) is None ==> (r matches Err(e) && e@
                    == ErrorModel::InvalidJlptLevel(jlpt[0]))
            }),
    {
        let mut all = select_text(document, JLPT);
        if all.len() == 0 {
            return Ok(None);
        }
        assert(all@[0]@ == views(all@)[0]);
        let token = all.swap_remove(0);
        match Self::level_of(token.as_str()) {
            Some(level) => Ok(Some(level)),
            None => Err(ExtractionError::InvalidJlptLevel(token)),
        }
    }

    /// Reads the stroke count: missing where the page has no stroke count,
    /// malformed where it is not a base-10 number that fits in a `u32`.
    pub fn stroke_count(document: &str) -> (r: Result<u32, ExtractionError>)
        ensures
            ({
                let strokes = selected_text(document@, STROKE_COUNT@);
                &&& strokes.len() == 0 ==> (r matches Err(e) && e@ == ErrorModel::MissingSection(Field::StrokeCount))
                &&& strokes.len() > 0 && number_of(strokes[0]) is None ==> (r matches Err(e) && e@
                    == ErrorModel::MalformedField(Field::StrokeCount))
                &&& strokes.len() > 0 && number_of(strokes[0]) is Some ==> r == Ok::<
                    u32,
                    ExtractionError,
                >(number_of(strokes[0])->0)
            }),
    {
        let all = select_text(document, STROKE_COUNT);
        if all.len() == 0 {
            return Err(ExtractionError::MissingSection(Field::StrokeCount));
        }
        assert(all@[0]@ == views(all@)[0]);
        match parse_number(all[0].as_str()) {
            Some(n) => Ok(n),
            None => Err(ExtractionError::MalformedField(Field::StrokeCount)),
        }
    }

    /// Reads the main meanings, newlines taken out and trimmed; missing where
    /// the page has none.
    pub fn meaning(document: &str) -> (r: Result<String, ExtractionError>)
        ensures
            ({
                let meaning = selected_text(document@, MEANING@);
                &&& meaning.len() == 0 ==> (r matches Err(e) && e@ == ErrorModel::MissingSection(Field::Meaning))
                &&& meaning.len() > 0 ==> (r matches Ok(t) && t@ == collapsed(meaning[0]))
            }),
    {
        match Self::first_collapsed(document, MEANING) {
            Some(t) => Ok(t),
            None => Err(ExtractionError::MissingSection(Field::Meaning)),
        }
    }

    /// Every match of `selector`, in the order of the page's tree, duplicates kept.
    fn extract_yomi(document: &str, selector: &str) -> (r: Vec<String>)
        ensures
            views(r@) == selected_text(document@, selector@),
    {
        select_text(document, selector)
    }

    /// Reads the kun'yomi readings in the order of the page's tree.
    pub fn kunyomi(document: &str) -> (r: Vec<String>)
        ensures
            views(r@) == selected_text(document@, KUNYOMI@),
    {
        Self::extract_yomi(document, KUNYOMI)
    }

    /// Reads the on'yomi readings in the order of the page's tree.
    pub fn onyomi(document: &str) -> (r: Vec<String>)
        ensures
            views(r@) == selected_text(document@, ONYOMI@),
    {
        Self::extract_yomi(document, ONYOMI)
    }

    /// Reads the parts that the kanji is built of, in the order of the page's tree.
    pub fn kanji_parts(document: &str) -> (r: Vec<String>)
        ensures
            views(r@) == selected_text(document@, PARTS@),
    {
        Self::extract_yomi(document, PARTS)
    }

    /// Reads every example block of one column, in order; the first malformed
    /// block makes the column malformed.
    fn column_examples(column: &str) -> (r: Result<Vec<YomiExample>, ExtractionError>)
        ensures
            r is Ok <==> examples_of(column@) is Some,
            r matches Ok(v) ==> Some(yomi_views(v@)) == examples_of(column@),
            r matches Err(e) ==> e@ == ErrorModel::MalformedField(Field::ReadingExample),
    {
        let items = select_text(column, EXAMPLE_ITEMS);
        let ghost sel = selected_text(column@, EXAMPLE_ITEMS@);
        let mut out: Vec<YomiExample> = Vec::new();
        let mut i: usize = 0;
        while i < items.len()
            invariant
                sel == selected_text(column@, EXAMPLE_ITEMS@),
                views(items@) == sel,
                i <= items@.len(),
                out@.len() == i,
                forall|j: int| 0 <= j < i ==> (#[trigger] yomi_of(sel[j])) == Some(out@[j]@),
            decreases items@.len() - i,
        {
            assert(items@[i as int]@ == sel[i as int]);
            match YomiExample::new(items[i].as_str()) {
                Ok(y) => {
                    out.push(y);
                },
                Err(e) => {
                    assert(!(yomi_of(sel[i as int]) is Some));
                    assert(!all_blocks_read(sel));
                    return Err(e);
                },
            }
            i = i + 1;
        }
        assert(yomi_views(out@) =~= Seq::new(sel.len(), |j: int| yomi_of(sel[j])->0));
        Ok(out)
    }

    /// Reads a kanji's profile from the markup of its page; `url` is kept as
    /// the profile's source. Succeeds exactly where every required field is
    /// there and reads; otherwise names the first field, in the order JLPT
    /// level, stroke count, meaning, examples, that does not.
    pub fn search_kanji(document: &str, url: &str) -> (r: Result<Kanji, ExtractionError>)
        ensures
            outcome(r) == profile_of(document@, url@),
    {
        let jlpt_level = match Self::jlpt_level(document) {
            Ok(l) => l,
            Err(e) => return Err(e),
        };
        let stroke_count = match Self::stroke_count(document) {
            Ok(n) => n,
            Err(e) => return Err(e),
        };
        let meaning = match Self::meaning(document) {
            Ok(m) => m,
            Err(e) => return Err(e),
        };
        let (onyomi_examples, kunyomi_examples) = match Self::extract_examples(document) {
            Ok(p) => p,
            Err(e) => return Err(e),
        };
        let r = Kanji {
            taught: Self::taught_in(document),
            jlpt_level,
            stroke_count,
            meaning,
            kunyomi: Self::kunyomi(document),
            kunyomi_examples,
            onyomi: Self::onyomi(document),
            onyomi_examples,
            parts: Self::kanji_parts(document),
            url: String::from_str(url),
        };
        Ok(r)
    }

    /// Reads every example sentence of a sentence search page, in the order of
    /// the page's tree. A sentence block never fails to read.
    pub fn search_for_examples(document: &str) -> (r: Vec<KanjiExample>)
        ensures
            r@.len() == sentence_blocks(document@).len(),
            forall|i: int| 0 <= i < r@.len() ==> (#[trigger] r@[i]).read_from(sentence_blocks(document@)[i]),
    {
        let blocks = select_inner_html(document, SENTENCE_BLOCKS);
        let mut out: Vec<KanjiExample> = Vec::new();
        let mut i: usize = 0;
        while i < blocks.len()
            invariant
                views(blocks@) == sentence_blocks(document@),
                i <= blocks@.len(),
                out@.len() == i,
                forall|j: int| 0 <= j < i ==> (#[trigger] out@[j]).read_from(sentence_blocks(document@)[j]),
            decreases blocks@.len() - i,
        {
            assert(blocks@[i as int]@ == views(blocks@)[i as int]);
            out.push(KanjiExample::new(blocks[i].as_str()));
            i = i + 1;
        }
        out
    }

    /// Reads the reading examples: the on'yomi column's, then the kun'yomi
    /// column's. Fewer than two columns is a missing section.
    pub fn extract_examples(document: &str) -> (r: Result<(Vec<YomiExample>, Vec<YomiExample>), ExtractionError>)
        ensures
            ({
                let columns = selected(document@, EXAMPLE_COLUMNS@);
                &&& columns.len() < 2 ==> (r matches Err(e) && e@ == ErrorModel::MissingSection(Field::Examples))
                &&& columns.len() >= 2 ==> (r is Ok <==> examples_of(columns[0]) is Some
                    && examples_of(columns[1]) is Some)
                &&& columns.len() >= 2 ==> (r matches Err(e) ==> e@ == ErrorModel::MalformedField(
                    Field::ReadingExample,
                ))
                &&& r matches Ok(p) ==> Some(yomi_views(p.0@)) == examples_of(columns[0]) && Some(
                    yomi_views(p.1@),
                ) == examples_of(columns[1])
            }),
    {
        let columns = select_inner_html(document, EXAMPLE_COLUMNS);
        if columns.len() < 2 {
            return Err(ExtractionError::MissingSection(Field::Examples));
        }
        assert(columns@[0]@ == views(columns@)[0]);
        assert(columns@[1]@ == views(columns@)[1]);
        let onyomi = Self::column_examples(columns[0].as_str())?;
        let kunyomi = Self::column_examples(columns[1].as_str())?;
        Ok((onyomi, kunyomi))
    }
}

} // verus!

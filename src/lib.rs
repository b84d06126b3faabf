//! Turns the markup of a kanji dictionary page into typed records: the
//! kanji's profile (grade, JLPT level, strokes, meaning, readings, reading
//! examples, parts) and its example sentences with aligned furigana.

pub mod text;
pub mod markup;
pub mod api;
pub mod laws;


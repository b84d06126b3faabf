use jisho_scrape::api::{JishoAPI, KanjiExample};

fn item(reading: &str, base: &str) -> String {
    format!(
        "<li class=\"clearfix\"><span class=\"furigana\">{}</span><span class=\"unlinked\">{}</span></li>",
        reading, base
    )
}

fn sentence(pairs: &[(&str, &str)], english: &str) -> String {
    let mut s = String::from(
        "<div class=\"sentence_content\">\n<ul class=\"japanese_sentence japanese japanese_gothic clearfix\" lang=\"ja\">\n",
    );
    for (base, reading) in pairs {
        s.push_str(&item(reading, base));
        s.push('\n');
    }
    s.push_str("。</ul>\n");
    s.push_str(&format!(
        "<div class=\"english_sentence clearfix\"><span class=\"english\">{}</span></div>\n</div>\n",
        english
    ));
    s
}

const MOON: [(&str, &str); 9] = [
    ("今日", "きょう"),
    ("は", ""),
    ("満月", "まんげつ"),
    ("の", ""),
    ("夜", "よる"),
    ("です", ""),
    ("秋", "あき"),
    ("の", ""),
    ("夜空", "よぞら"),
];

const MOON_ENGLISH: &str = "Today is the night of the full moon. The bright, clear, full moon that appears in the autumn night sky is beautiful.";

fn day_page() -> String {
    let mut s = String::from("<!DOCTYPE html>\n<html><body>\n");
    s.push_str(&sentence(&MOON, MOON_ENGLISH));
    s.push_str(&sentence(&[("日曜日", "にちようび")], "Sunday."));
    s.push_str("</body></html>\n");
    s
}

fn check_renderings(s: &KanjiExample) {
    let kanji: String = s.pieces.iter().map(|p| p.unlifted.as_str()).collect();
    let kana: String = s
        .pieces
        .iter()
        .map(|p| if p.lifted.is_empty() { p.unlifted.as_str() } else { p.lifted.as_str() })
        .collect();
    assert_eq!(s.kanji, kanji.trim());
    assert_eq!(s.kana, kana.trim());
}

#[test]
fn search_example_kanji_day() {
    let results = JishoAPI::search_for_examples(&day_page());
    let result = results.get(0).unwrap();

    assert_eq!(result.english, MOON_ENGLISH);
    check_renderings(result);
    assert_eq!(result.kanji, "今日は満月の夜です秋の夜空");
    assert_eq!(result.kana, "きょうはまんげつのよるですあきのよぞら");
}

#[test]
fn every_sentence_block_is_read_in_order() {
    let results = JishoAPI::search_for_examples(&day_page());
    assert_eq!(results.len(), 2);
    assert_eq!(results[1].english, "Sunday.");
    assert_eq!(results[1].kanji, "日曜日");
    assert_eq!(results[1].kana, "にちようび");
    assert_eq!(results[1].pieces.len(), 1);
    check_renderings(&results[1]);
}

#[test]
fn repeated_base_text_keeps_each_reading() {
    let html = sentence(&[("日", "にち"), ("曜", "よう"), ("日", "び")], "Sunday.");
    let s = KanjiExample::new(&html);
    assert_eq!(s.pieces.len(), 3);
    assert_eq!(s.pieces[0].unlifted, "日");
    assert_eq!(s.pieces[0].lifted, "にち");
    assert_eq!(s.pieces[2].unlifted, "日");
    assert_eq!(s.pieces[2].lifted, "び");
    assert_eq!(s.kanji, "日曜日");
    assert_eq!(s.kana, "にちようび");
    check_renderings(&s);
}

#[test]
fn pieces_pair_by_position() {
    let bases = vec!["高".to_string(), "い".to_string(), "高".to_string(), "い".to_string()];
    let readings = vec!["たか".to_string(), "".to_string(), "タカ".to_string()];
    let pieces = KanjiExample::get_pieces(&bases, &readings);
    assert_eq!(pieces.len(), 4);
    assert_eq!(pieces[0].lifted, "たか");
    assert_eq!(pieces[1].lifted, "");
    assert_eq!(pieces[2].lifted, "タカ");
    assert_eq!(pieces[3].unlifted, "い");
    assert_eq!(pieces[3].lifted, "");
}

#[test]
fn extra_readings_annotate_nothing() {
    let bases = vec!["日".to_string()];
    let readings = vec!["ひ".to_string(), "つき".to_string()];
    let pieces = KanjiExample::get_pieces(&bases, &readings);
    assert_eq!(pieces.len(), 1);
    assert_eq!(pieces[0].lifted, "ひ");
}

#[test]
fn fewer_readings_than_bases_keeps_all_text() {
    let html = "<div><ul><li><span class=\"furigana\">きょう</span><span class=\"unlinked\">今日</span></li><li><span class=\"unlinked\">は</span></li><li><span class=\"unlinked\">晴れ</span></li></ul></div>";
    let s = KanjiExample::new(html);
    assert_eq!(s.english, "");
    assert_eq!(s.pieces.len(), 3);
    assert_eq!(s.kanji, "今日は晴れ");
    assert_eq!(s.kana, "きょうは晴れ");
}

#[test]
fn block_without_list_is_empty_sentence() {
    let s = KanjiExample::new("<span class=\"english\">Hello.</span>");
    assert_eq!(s.english, "Hello.");
    assert!(s.pieces.is_empty());
    assert_eq!(s.kanji, "");
    assert_eq!(s.kana, "");
}

#[test]
fn page_without_sentences_reads_none() {
    assert!(JishoAPI::search_for_examples("<html><body><p>none</p></body></html>").is_empty());
}

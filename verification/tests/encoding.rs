use hexagram::line::{format_hexagram, Line};

#[test]
fn each_symbol_encodes_exactly() {
    assert_eq!(Line::ChangingYin.text(), "--- x --- 6");
    assert_eq!(Line::StaticYang.text(), "--------- 7");
    assert_eq!(Line::StaticYin.text(), "---   --- 8");
    assert_eq!(Line::ChangingYang.text(), "----o---- 9");
}

#[test]
fn codes_match_the_table() {
    assert_eq!(Line::ChangingYin.code(), 6);
    assert_eq!(Line::StaticYang.code(), 7);
    assert_eq!(Line::StaticYin.code(), 8);
    assert_eq!(Line::ChangingYang.code(), 9);
}

#[test]
fn six_lines_join_with_single_newlines() {
    let hexagram = [
        Line::ChangingYin,
        Line::StaticYang,
        Line::StaticYin,
        Line::ChangingYang,
        Line::StaticYang,
        Line::ChangingYin,
    ];
    assert_eq!(
        format_hexagram(hexagram),
        "--- x --- 6\n--------- 7\n---   --- 8\n----o---- 9\n--------- 7\n--- x --- 6"
    );
}

#[test]
fn uniform_hexagram_has_no_trailing_newline() {
    let hexagram = [Line::StaticYang; 6];
    let text = format_hexagram(hexagram);
    assert_eq!(text.lines().count(), 6);
    assert!(!text.starts_with('\n'));
    assert!(!text.ends_with('\n'));
    assert_eq!(text, "--------- 7\n--------- 7\n--------- 7\n--------- 7\n--------- 7\n--------- 7");
}

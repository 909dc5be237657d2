use bmfont::{BMFont, CharError, CharPosition, OrdinateOrientation};

const FONT: &str = "common lineHeight=12 base=10\n\
                    page id=0 file=\"sheet.png\"\n\
                    char id=65 x=1 y=2 width=8 height=8 xoffset=0 yoffset=0 xadvance=10 page=0\n\
                    char id=66 x=9 y=2 width=8 height=8 xoffset=1 yoffset=3 xadvance=9 page=0\n";

fn collect(font: &BMFont, text: &str) -> Vec<Result<CharPosition, CharError>> {
    let mut positions = font.char_positions(text);
    let mut out = Vec::new();
    while let Some(item) = positions.next() {
        out.push(item);
    }
    out
}

fn build(extra: &str, orientation: OrdinateOrientation) -> BMFont {
    let source = format!("{}{}", FONT, extra);
    BMFont::new(&source, orientation).unwrap()
}

#[test]
fn advance_without_kerning() {
    let font = build("", OrdinateOrientation::TopToBottom);
    let items = collect(&font, "AA");
    assert_eq!(items.len(), 2);
    assert_eq!(items[0].as_ref().unwrap().screen_rect.x, 0);
    assert_eq!(items[1].as_ref().unwrap().screen_rect.x, 10);
}

#[test]
fn kerning_applied_and_pen_advanced() {
    let font = build("kerning first=65 second=65 amount=-2\n", OrdinateOrientation::TopToBottom);
    let items = collect(&font, "AAA");
    assert_eq!(items.len(), 3);
    assert_eq!(items[0].as_ref().unwrap().screen_rect.x, 0);
    assert_eq!(items[1].as_ref().unwrap().screen_rect.x, 8);
    // the pen advanced by 10 + (-2) past the second position: 8 + 10 + (-2)
    assert_eq!(items[2].as_ref().unwrap().screen_rect.x, 16);
}

#[test]
fn kerning_first_match_wins() {
    let font = build(
        "kerning first=65 second=65 amount=-2\nkerning first=65 second=65 amount=-5\n",
        OrdinateOrientation::TopToBottom,
    );
    let items = collect(&font, "AA");
    assert_eq!(items[1].as_ref().unwrap().screen_rect.x, 8);
}

#[test]
fn line_break_top_to_bottom() {
    let font = build("", OrdinateOrientation::TopToBottom);
    let items = collect(&font, "A\nA");
    assert_eq!(items.len(), 2);
    assert_eq!(items[0].as_ref().unwrap().screen_rect.y, 0);
    assert_eq!(items[1].as_ref().unwrap().screen_rect.y, 12);
    assert_eq!(items[1].as_ref().unwrap().screen_rect.x, 0);
}

#[test]
fn line_break_bottom_to_top() {
    let font = build("", OrdinateOrientation::BottomToTop);
    let items = collect(&font, "A\nA");
    assert_eq!(items.len(), 2);
    assert_eq!(items[0].as_ref().unwrap().screen_rect.y, 2);
    assert_eq!(items[1].as_ref().unwrap().screen_rect.y, 2 - 12);
}

#[test]
fn bottom_to_top_screen_y_formula() {
    let font = build("", OrdinateOrientation::BottomToTop);
    let items = collect(&font, "B");
    // pen_y + base_height - yoffset - height = 0 + 10 - 3 - 8
    assert_eq!(items[0].as_ref().unwrap().screen_rect.y, -1);
}

#[test]
fn top_to_bottom_screen_y_uses_yoffset() {
    let font = build("", OrdinateOrientation::TopToBottom);
    let items = collect(&font, "B");
    assert_eq!(items[0].as_ref().unwrap().screen_rect.y, 3);
    assert_eq!(items[0].as_ref().unwrap().screen_rect.x, 1);
}

#[test]
fn page_rect_comes_from_the_glyph() {
    let font = build("", OrdinateOrientation::TopToBottom);
    let items = collect(&font, "A");
    let pos = items[0].as_ref().unwrap();
    assert_eq!(pos.page_rect.x, 1);
    assert_eq!(pos.page_rect.y, 2);
    assert_eq!(pos.page_rect.width, 8);
    assert_eq!(pos.page_rect.height, 8);
    assert_eq!(pos.screen_rect.width, 8);
    assert_eq!(pos.screen_rect.height, 8);
    assert_eq!(pos.page_index, 0);
}

#[test]
fn missing_character_yields_one_error_and_continues() {
    let font = build("", OrdinateOrientation::TopToBottom);
    let items = collect(&font, "AZA");
    assert_eq!(items.len(), 3);
    assert!(items[0].is_ok());
    assert_eq!(items[1], Err(CharError::MissingCharacter('Z')));
    assert_eq!(items[2].as_ref().unwrap().screen_rect.x, 10);
}

#[test]
fn unsupported_character_yields_error_and_continues() {
    let font = build("", OrdinateOrientation::TopToBottom);
    let text = "A\u{10000}A";
    let items = collect(&font, text);
    assert_eq!(items.len(), 3);
    assert_eq!(items[1], Err(CharError::UnsupportedCharacter('\u{10000}')));
    assert_eq!(items[2].as_ref().unwrap().screen_rect.x, 10);
}

#[test]
fn widest_single_unit_code_point_resolves() {
    let extra = "char id=65535 x=0 y=0 width=4 height=4 xoffset=0 yoffset=0 xadvance=4 page=0\n";
    let font = build(extra, OrdinateOrientation::TopToBottom);
    let items = collect(&font, "\u{ffff}");
    assert!(items[0].is_ok());
}

#[test]
fn empty_string_yields_empty_sequence() {
    let font = build("", OrdinateOrientation::TopToBottom);
    let mut positions = font.char_positions("");
    assert!(positions.next().is_none());
    assert!(positions.next().is_none());
}

#[test]
fn empty_line_ends_the_sequence() {
    let font = build("", OrdinateOrientation::TopToBottom);
    let items = collect(&font, "A\n\nB");
    assert_eq!(items.len(), 1);
    assert!(items[0].is_ok());
}

#[test]
fn leading_empty_line_shifts_the_pen() {
    let font = build("", OrdinateOrientation::TopToBottom);
    let items = collect(&font, "\nA");
    assert_eq!(items.len(), 1);
    assert_eq!(items[0].as_ref().unwrap().screen_rect.y, 12);
    assert_eq!(items[0].as_ref().unwrap().screen_rect.x, 0);
}

#[test]
fn kerning_applies_across_line_break() {
    let font = build("kerning first=65 second=65 amount=-2\n", OrdinateOrientation::TopToBottom);
    let items = collect(&font, "A\nA");
    assert_eq!(items[1].as_ref().unwrap().screen_rect.x, -2);
}

#[test]
fn duplicate_char_ids_first_wins() {
    let extra = "char id=65 x=0 y=0 width=2 height=2 xoffset=0 yoffset=0 xadvance=3 page=0\n";
    let font = build(extra, OrdinateOrientation::TopToBottom);
    let items = collect(&font, "AA");
    // the first record for id 65 (xadvance 10) is the one resolved
    assert_eq!(items[1].as_ref().unwrap().screen_rect.x, 10);
}

#[test]
fn negative_offsets_shift_left() {
    let extra = "char id=67 x=0 y=0 width=2 height=2 xoffset=-3 yoffset=0 xadvance=3 page=0\n";
    let font = build(extra, OrdinateOrientation::TopToBottom);
    let items = collect(&font, "C");
    assert_eq!(items[0].as_ref().unwrap().screen_rect.x, -3);
}

#[test]
fn carriage_return_without_line_feed_is_a_character() {
    let font = build("", OrdinateOrientation::TopToBottom);
    let items = collect(&font, "A\r");
    assert_eq!(items.len(), 2);
    assert_eq!(items[1], Err(CharError::MissingCharacter('\r')));
}

#[test]
fn identical_sources_lay_out_identically() {
    let source = format!("{}kerning first=65 second=66 amount=-1\n", FONT);
    let f1 = BMFont::new(&source, OrdinateOrientation::TopToBottom).unwrap();
    let f2 = BMFont::new(&source, OrdinateOrientation::TopToBottom).unwrap();
    let texts = ["", "AB\nBA", "AZB", "A\u{10000}"];
    for text in texts.iter() {
        assert_eq!(collect(&f1, text), collect(&f2, text));
    }
}

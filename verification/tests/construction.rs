use bmfont::{BMFont, ConfigParseError, Error, OrdinateOrientation};

fn build(source: &str) -> Result<BMFont, Error> {
    BMFont::new(source, OrdinateOrientation::TopToBottom)
}

#[test]
fn builds_well_formed_source() {
    let source = "info face=\"x\" size=32\n\
                  common lineHeight=12 base=10 scaleW=256 scaleH=256\n\
                  page id=0 file=\"sheet.png\"\n\
                  char id=65 x=1 y=2 width=8 height=8 xoffset=0 yoffset=0 xadvance=10 page=0\n\
                  kerning first=65 second=65 amount=-2\n";
    let font = build(source).unwrap();
    assert_eq!(font.line_height(), 12);
    assert_eq!(font.base_height(), 10);
    assert_eq!(font.pages().len(), 1);
    assert_eq!(font.pages()[0].id, 0);
    assert_eq!(font.pages()[0].filename, "sheet.png");
}

#[test]
fn metric_tokens_read_positionally() {
    let font = build("common a=3 b=4\n").unwrap();
    assert_eq!(font.line_height(), 3);
    assert_eq!(font.base_height(), 4);
}

#[test]
fn last_common_line_wins() {
    let font = build("common lineHeight=5 base=6\ncommon lineHeight=7 base=8\n").unwrap();
    assert_eq!(font.line_height(), 7);
    assert_eq!(font.base_height(), 8);
}

#[test]
fn unknown_tags_are_ignored() {
    let source = "info face=\"x\"\ncommon lineHeight=12 base=10\nchars count=0\n";
    assert!(build(source).is_ok());
}

#[test]
fn extra_fields_are_ignored() {
    let source = "common lineHeight=12 base=10 pages=1 packed=0\n\
                  char id=65 x=1 y=2 width=8 height=8 xoffset=0 yoffset=0 xadvance=10 page=0 chnl=15\n";
    assert!(build(source).is_ok());
}

#[test]
fn missing_common_section() {
    let source = "page id=0 file=\"sheet.png\"\n";
    assert!(matches!(build(source), Err(Error::MissingCommonSection)));
}

#[test]
fn empty_source_misses_common() {
    assert!(matches!(build(""), Err(Error::MissingCommonSection)));
}

#[test]
fn char_line_missing_field() {
    let source = "common lineHeight=12 base=10\nchar id=65 x=1 y=2 width=8\n";
    let err = build(source).unwrap_err();
    assert_eq!(err, Error::Parse(ConfigParseError::new("char", "height")));
}

#[test]
fn parse_error_names_section_and_field() {
    let source = "common lineHeight=12 base=10\nchar id=65 x=1 y=2 width=8\n";
    match build(source).unwrap_err() {
        Error::Parse(e) => {
            assert_eq!(e.section_name(), "char");
            assert_eq!(e.component_name(), "height");
        },
        other => panic!("unexpected error {:?}", other),
    }
}

#[test]
fn char_line_non_numeric_field() {
    let source = "common lineHeight=12 base=10\n\
                  char id=abc x=1 y=2 width=8 height=8 xoffset=0 yoffset=0 xadvance=10 page=0\n";
    let err = build(source).unwrap_err();
    assert_eq!(err, Error::Parse(ConfigParseError::new("char", "id")));
}

#[test]
fn common_line_non_numeric_metric() {
    let err = build("common lineHeight=foo base=10\n").unwrap_err();
    assert_eq!(err, Error::Parse(ConfigParseError::new("common", "lineHeight")));
}

#[test]
fn page_line_non_numeric_id() {
    let source = "common lineHeight=12 base=10\npage id=zz file=\"sheet.png\"\n";
    let err = build(source).unwrap_err();
    assert_eq!(err, Error::Parse(ConfigParseError::new("page", "id")));
}

#[test]
fn kerning_line_missing_field() {
    let source = "common lineHeight=12 base=10\nkerning first=65 second=65\n";
    let err = build(source).unwrap_err();
    assert_eq!(err, Error::Parse(ConfigParseError::new("kerning", "amount")));
}

#[test]
fn kerning_line_non_numeric_amount() {
    let source = "common lineHeight=12 base=10\nkerning first=65 second=65 amount=x\n";
    let err = build(source).unwrap_err();
    assert_eq!(err, Error::Parse(ConfigParseError::new("kerning", "amount")));
}

#[test]
fn numeric_overflow_is_rejected() {
    let source = "common lineHeight=12 base=10\n\
                  char id=99999999999 x=1 y=2 width=8 height=8 xoffset=0 yoffset=0 xadvance=10 page=0\n";
    let err = build(source).unwrap_err();
    assert_eq!(err, Error::Parse(ConfigParseError::new("char", "id")));
}

#[test]
fn negative_values_parse_in_signed_fields() {
    let source = "common lineHeight=12 base=10\n\
                  char id=65 x=1 y=2 width=8 height=8 xoffset=-3 yoffset=-4 xadvance=-5 page=0\n";
    assert!(build(source).is_ok());
}

#[test]
fn unquoted_filename_kept_verbatim() {
    let source = "common lineHeight=12 base=10\npage id=1 file=sheet.png\n";
    let font = build(source).unwrap();
    assert_eq!(font.pages()[0].id, 1);
    assert_eq!(font.pages()[0].filename, "sheet.png");
}

#[test]
fn pages_keep_source_order() {
    let source = "common lineHeight=12 base=10\n\
                  page id=0 file=\"a.png\"\n\
                  page id=1 file=\"b.png\"\n";
    let font = build(source).unwrap();
    assert_eq!(font.pages().len(), 2);
    assert_eq!(font.pages()[0].filename, "a.png");
    assert_eq!(font.pages()[1].filename, "b.png");
}

#[test]
fn unicode_whitespace_separates_tokens() {
    let source = "common\u{a0}lineHeight=12\u{2003}base=10\n";
    let font = build(source).unwrap();
    assert_eq!(font.line_height(), 12);
    assert_eq!(font.base_height(), 10);
}

#[test]
fn crlf_line_endings_accepted() {
    let source = "common lineHeight=12 base=10\r\npage id=0 file=\"sheet.png\"\r\n";
    let font = build(source).unwrap();
    assert_eq!(font.line_height(), 12);
    assert_eq!(font.pages().len(), 1);
}

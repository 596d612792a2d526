use gst_mjpg::size::{parse_u32, Size, SizeError};

#[test]
fn parses_width_and_height() {
    assert_eq!(Size::parse("640x480"), Ok(Size { width: 640, height: 480 }));
    assert_eq!(Size::parse("0x0"), Ok(Size { width: 0, height: 0 }));
    assert_eq!(Size::parse("+1x+2"), Ok(Size { width: 1, height: 2 }));
}

#[test]
fn missing_separator() {
    assert_eq!(Size::parse("640"), Err(SizeError::MissingSeparator));
    assert_eq!(Size::parse(""), Err(SizeError::MissingSeparator));
    assert_eq!(Size::parse("640X480"), Err(SizeError::MissingSeparator));
    assert_eq!(
        SizeError::MissingSeparator.message(),
        "size must be WIDTHxHEIGHT; missing 'x' char"
    );
}

#[test]
fn invalid_width() {
    assert_eq!(Size::parse("x480"), Err(SizeError::InvalidWidth));
    assert_eq!(Size::parse("-1x480"), Err(SizeError::InvalidWidth));
    assert_eq!(Size::parse("4294967296x1"), Err(SizeError::InvalidWidth));
    assert_eq!(Size::parse("abcx"), Err(SizeError::InvalidWidth));
    assert_eq!(SizeError::InvalidWidth.message(), "invalid width");
}

#[test]
fn invalid_height() {
    assert_eq!(Size::parse("640x"), Err(SizeError::InvalidHeight));
    assert_eq!(Size::parse("1x2x3"), Err(SizeError::InvalidHeight));
    assert_eq!(Size::parse("1x 2"), Err(SizeError::InvalidHeight));
    assert_eq!(SizeError::InvalidHeight.message(), "invalid height");
}

#[test]
fn number_parsing_matches_std() {
    for s in ["0", "7", "+7", "4294967295", "4294967296", "", "+", "-0", "1_0", "12a", "٣", "99999999999999999999"] {
        assert_eq!(parse_u32(s), s.parse::<u32>().ok(), "input {s:?}");
    }
}

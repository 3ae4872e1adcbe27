use tokio_console::palette::{InvalidPalette, Palette, TputError};

#[test]
fn palettes_by_name() {
    assert_eq!(Palette::from_str("8"), Ok(Palette::Ansi8));
    assert_eq!(Palette::from_str("16"), Ok(Palette::Ansi16));
    assert_eq!(Palette::from_str("256"), Ok(Palette::Ansi256));
    assert_eq!(Palette::from_str("all"), Ok(Palette::All));
    assert_eq!(Palette::from_str("off"), Ok(Palette::NoColors));
    assert_eq!(Palette::from_str(" 256\n"), Ok(Palette::Ansi256));
}

#[test]
fn no_such_palette() {
    assert_eq!(Palette::from_str(""), Err(InvalidPalette));
    assert_eq!(Palette::from_str("ALL"), Err(InvalidPalette));
    assert_eq!(Palette::from_str("88"), Err(InvalidPalette));
}

#[test]
fn default_palette_has_no_colors() {
    assert_eq!(Palette::default(), Palette::NoColors);
}

fn tput(stdout: &[u8]) -> Palette {
    Palette::from_tput(Some(stdout.to_vec())).0
}

#[test]
fn palette_of_tput() {
    assert_eq!(tput(b"256\n"), Palette::Ansi256);
    assert_eq!(tput(b"8\n"), Palette::Ansi8);
    assert_eq!(tput("16\u{3000}".as_bytes()), Palette::Ansi16);
    assert_eq!(tput(b"-1\n"), Palette::NoColors);
    assert_eq!(tput(b""), Palette::NoColors);
    assert_eq!(tput(&[b'8', 0xff]), Palette::NoColors);
    assert_eq!(Palette::from_tput(None), (Palette::NoColors, None));
}

#[test]
fn why_tput_names_no_palette() {
    assert_eq!(Palette::from_tput(Some(b"256\n".to_vec())), (Palette::Ansi256, None));
    assert_eq!(
        Palette::from_tput(Some(b"-1\n".to_vec())),
        (Palette::NoColors, Some(TputError::InvalidPalette("-1\n".to_string())))
    );
    assert!(matches!(
        Palette::from_tput(Some(vec![b'8', 0xff])),
        (Palette::NoColors, Some(TputError::NotUtf8(_)))
    ));
}

#[test]
fn unusable_tput_output() {
    assert_eq!(Palette::parse_tput(b"256\n".to_vec()), Ok(Palette::Ansi256));
    assert_eq!(
        Palette::parse_tput(b"-1\n".to_vec()),
        Err(TputError::InvalidPalette("-1\n".to_string()))
    );
    assert!(matches!(
        Palette::parse_tput(vec![b'8', 0xff]),
        Err(TputError::NotUtf8(_))
    ));
}

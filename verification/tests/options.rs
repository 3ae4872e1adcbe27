use tokio_console::options::{PaletteChoice, SettledBy};
use tokio_console::{ColorToggles, Palette, ViewOptions};

fn unset() -> ViewOptions {
    ViewOptions {
        no_colors: None,
        lang: None,
        ascii_only: None,
        truecolor: None,
        palette: None,
        toggles: ColorToggles { color_durations: None, color_terminated: None },
    }
}

#[test]
fn utf8_by_language() {
    let lang = |lang: &str| ViewOptions { lang: Some(lang.to_string()), ..unset() };
    assert!(lang("en_US.UTF-8").is_utf8());
    assert!(!lang("en_US.utf-8").is_utf8());
    assert!(!lang("C").is_utf8());
    assert!(!unset().is_utf8());
    assert!(!ViewOptions::default().is_utf8());
}

#[test]
fn ascii_only_rules_out_utf8() {
    let options = |ascii_only| ViewOptions {
        lang: Some("en_US.UTF-8".to_string()),
        ascii_only,
        ..unset()
    };
    assert!(!options(Some(true)).is_utf8());
    assert!(options(Some(false)).is_utf8());
    assert!(options(None).is_utf8());
}

#[test]
fn palette_order() {
    let options = ViewOptions {
        no_colors: Some(true),
        truecolor: Some(true),
        palette: Some(Palette::Ansi16),
        ..unset()
    };
    assert_eq!(options.determine_palette(), PaletteChoice::Settled(Palette::NoColors, SettledBy::NoColors));
    let options = ViewOptions { no_colors: Some(false), ..options };
    assert_eq!(options.determine_palette(), PaletteChoice::Settled(Palette::Ansi16, SettledBy::Palette));
    let options = ViewOptions { no_colors: None, ..options };
    assert_eq!(options.determine_palette(), PaletteChoice::Settled(Palette::Ansi16, SettledBy::Palette));
    let options = ViewOptions { palette: None, ..options };
    assert_eq!(options.determine_palette(), PaletteChoice::Settled(Palette::All, SettledBy::TrueColor));
    let options = ViewOptions { truecolor: Some(false), ..options };
    assert_eq!(options.determine_palette(), PaletteChoice::AskTerminfo);
    assert_eq!(unset().determine_palette(), PaletteChoice::AskTerminfo);
}

#[test]
fn toggles_are_independent() {
    let toggles = |color_durations, color_terminated| ColorToggles {
        color_durations,
        color_terminated,
    };
    assert!(!toggles(Some(true), None).color_durations());
    assert!(toggles(Some(true), None).color_terminated());
    assert!(toggles(Some(false), Some(true)).color_durations());
    assert!(!toggles(Some(false), Some(true)).color_terminated());
    assert!(toggles(None, Some(false)).color_durations());
    assert!(toggles(None, Some(false)).color_terminated());
}

#[test]
fn toggles_of_options() {
    let toggles = ColorToggles { color_durations: Some(false), color_terminated: Some(true) };
    assert_eq!(ViewOptions { toggles, ..unset() }.toggles(), toggles);
}

#[test]
fn merging_prefers_the_command_line() {
    let file = ViewOptions {
        no_colors: Some(true),
        lang: Some("de_DE".to_string()),
        ascii_only: Some(false),
        truecolor: None,
        palette: Some(Palette::Ansi8),
        toggles: ColorToggles { color_durations: Some(true), color_terminated: None },
    };
    let command_line = ViewOptions {
        no_colors: Some(false),
        lang: None,
        ascii_only: None,
        truecolor: Some(true),
        palette: Some(Palette::All),
        toggles: ColorToggles { color_durations: None, color_terminated: Some(false) },
    };
    assert_eq!(
        file.merge_with(command_line),
        ViewOptions {
            no_colors: Some(false),
            lang: Some("de_DE".to_string()),
            ascii_only: Some(false),
            truecolor: Some(true),
            palette: Some(Palette::All),
            toggles: ColorToggles { color_durations: Some(true), color_terminated: Some(false) },
        }
    );
}

#[test]
fn merging_is_associative_with_unset_neutral() {
    let a = || ViewOptions { lang: Some("a".to_string()), palette: Some(Palette::Ansi8), ..unset() };
    let b = || ViewOptions { palette: Some(Palette::Ansi16), truecolor: Some(false), ..unset() };
    let c = || ViewOptions { truecolor: Some(true), no_colors: Some(true), ..unset() };
    assert_eq!(
        a().merge_with(b()).merge_with(c()),
        a().merge_with(b().merge_with(c()))
    );
    assert_eq!(a().merge_with(unset()), a());
    assert_eq!(unset().merge_with(a()), a());
    assert_eq!(a().merge_with(a()), a());
    assert_eq!(a().merge_with(ViewOptions::default()), ViewOptions::default());
}

#[test]
fn default_options() {
    assert_eq!(
        ViewOptions::default(),
        ViewOptions {
            no_colors: Some(false),
            lang: Some("en_us.UTF8".to_string()),
            ascii_only: Some(false),
            truecolor: Some(true),
            palette: Some(Palette::All),
            toggles: ColorToggles { color_durations: Some(true), color_terminated: Some(true) },
        }
    );
}

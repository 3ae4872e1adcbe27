//! Color palettes, and how the terminfo database is asked for one.

use crate::text::{same, trim};
use vstd::prelude::*;

verus! {

/// How many colors may be used.
#[derive(Clone, Copy, Debug, PartialEq, Eq, Structural)]
pub enum Palette {
    /// No colors at all.
    NoColors,
    /// The 8 ANSI colors.
    Ansi8,
    /// The 16 ANSI colors.
    Ansi16,
    /// The 256 ANSI colors.
    Ansi256,
    /// All RGB colors.
    All,
}

/// The text names no palette.
#[derive(Clone, Copy, Debug, PartialEq, Eq, Structural)]
pub struct InvalidPalette;

/// Why the output of `tput colors` names no palette.
#[derive(Debug, PartialEq, Eq)]
pub enum TputError {
    /// It is not UTF-8.
    NotUtf8(std::string::FromUtf8Error),
    /// It is this text, which names no palette.
    InvalidPalette(String),
}

/// The palette that `name` stands for, if it stands for one.
pub open spec fn named_palette(name: Seq<char>) -> Option<Palette> {
    if name == "8"@ {
        Some(Palette::Ansi8)
    } else if name == "16"@ {
        Some(Palette::Ansi16)
    } else if name == "256"@ {
        Some(Palette::Ansi256)
    } else if name == "all"@ {
        Some(Palette::All)
    } else if name == "off"@ {
        Some(Palette::NoColors)
    } else {
        None
    }
}

/// The palette that `tput colors` asks for, where `stdout` is what it printed, or `None` where it
/// could not be run. Output that is not UTF-8 text or names no palette asks for no colors.
pub open spec fn tput_palette(stdout: Option<Seq<u8>>) -> Palette {
    match stdout {
        Some(bytes) if vstd::utf8::valid_utf8(bytes) => match named_palette(
            crate::text::trimmed(vstd::utf8::decode_utf8(bytes)),
        ) {
            Some(palette) => palette,
            None => Palette::NoColors,
        },
        _ => Palette::NoColors,
    }
}

/// `r` is what the output `stdout` of `tput colors` says: the palette that it names, or why it names
/// none.
pub open spec fn tput_outcome(stdout: Seq<u8>, r: Result<Palette, TputError>) -> bool {
    match r {
        Ok(palette) => vstd::utf8::valid_utf8(stdout) && named_palette(
            crate::text::trimmed(vstd::utf8::decode_utf8(stdout)),
        ) == Some(palette),
        Err(TputError::InvalidPalette(text)) => vstd::utf8::valid_utf8(stdout) && text@
            == vstd::utf8::decode_utf8(stdout) && named_palette(crate::text::trimmed(text@)) is None,
        Err(TputError::NotUtf8(_)) => !vstd::utf8::valid_utf8(stdout),
    }
}

/// The error of [`String::from_utf8`].
#[verifier::external_type_specification]
#[verifier::external_body]
pub struct ExFromUtf8Error(std::string::FromUtf8Error);

/// [`String::from_utf8`] succeeds on exactly the byte sequences that are UTF-8, and gives the text
/// that they encode.
pub assume_specification[ String::from_utf8 ](vec: Vec<u8>) -> (r: Result<
    String,
    std::string::FromUtf8Error,
>)
    ensures
        r is Ok <==> vstd::utf8::valid_utf8(vec@),
        r matches Ok(s) ==> s@ == vstd::utf8::decode_utf8(vec@),
;

impl Default for Palette {
    fn default() -> (r: Self)
        ensures
            r == Palette::NoColors,
    {
        Palette::NoColors
    }
}

impl Palette {
    /// The palette that `s` names; white space around the name does not count.
    pub fn from_str(s: &str) -> (r: Result<Palette, InvalidPalette>)
        ensures
            r == (match named_palette(crate::text::trimmed(s@)) {
                Some(palette) => Ok::<Palette, InvalidPalette>(palette),
                None => Err(InvalidPalette),
            }),
    {
        let name = trim(s);
        if same(&name, "8") {
            Ok(Palette::Ansi8)
        } else if same(&name, "16") {
            Ok(Palette::Ansi16)
        } else if same(&name, "256") {
            Ok(Palette::Ansi256)
        } else if same(&name, "all") {
            Ok(Palette::All)
        } else if same(&name, "off") {
            Ok(Palette::NoColors)
        } else {
            Err(InvalidPalette)
        }
    }

    /// The palette that the output of `tput colors` names.
    pub fn parse_tput(stdout: Vec<u8>) -> (r: Result<Palette, TputError>)
        ensures
            tput_outcome(stdout@, r),
    {
        match String::from_utf8(stdout) {
            Err(error) => Err(TputError::NotUtf8(error)),
            Ok(text) => match Palette::from_str(text.as_str()) {
                Ok(palette) => Ok(palette),
                Err(_) => Err(TputError::InvalidPalette(text)),
            },
        }
    }

    /// The palette that `tput colors` asks for, where `stdout` is what it printed, or `None` where
    /// it could not be run; and why the output names none, where that is so.
    pub fn from_tput(stdout: Option<Vec<u8>>) -> (r: (Palette, Option<TputError>))
        ensures
            r.0 == tput_palette(
                match stdout {
                    Some(bytes) => Some(bytes@),
                    None => None,
                },
            ),
            match (stdout, r.1) {
                (None, error) => error is None,
                (Some(bytes), None) => tput_outcome(bytes@, Ok(r.0)),
                (Some(bytes), Some(error)) => tput_outcome(bytes@, Err(error)),
            },
    {
        match stdout {
            None => (Palette::NoColors, None),
            Some(bytes) => match Palette::parse_tput(bytes) {
                Ok(palette) => (palette, None),
                Err(error) => (Palette::default(), Some(error)),
            },
        }
    }
}

} // verus!

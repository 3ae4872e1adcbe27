//! How the console is displayed: charset, colors and palette.

use crate::palette::Palette;
use crate::text::{ends_with, eq_ignore_ascii_case, trim};
use vstd::prelude::*;

verus! {

/// Toggles color coding on and off for individual UI elements.
///
/// Among the options of a view a toggle that is `true` switches its color coding off; in a
/// configuration file it switches it on.
#[derive(Clone, Copy, Debug, PartialEq, Eq, Structural)]
pub struct ColorToggles {
    /// The toggle of the color coding of duration units.
    pub color_durations: Option<bool>,
    /// The toggle of the color coding of terminated tasks.
    pub color_terminated: Option<bool>,
}

/// The options of a view. What is `None` has not been set.
#[derive(Clone, Debug, PartialEq, Eq)]
pub struct ViewOptions {
    /// Disables ANSI colors entirely.
    pub no_colors: Option<bool>,
    /// Overrides the terminal's default language.
    pub lang: Option<String>,
    /// Uses ASCII characters only.
    pub ascii_only: Option<bool>,
    /// The terminal advertises 24-bit RGB colors.
    pub truecolor: Option<bool>,
    /// The palette to use.
    pub palette: Option<Palette>,
    /// The color coding of individual UI elements.
    pub toggles: ColorToggles,
}

/// What [`ViewOptions`] say.
pub struct ViewOptionsModel {
    pub no_colors: Option<bool>,
    pub lang: Option<Seq<char>>,
    pub ascii_only: Option<bool>,
    pub truecolor: Option<bool>,
    pub palette: Option<Palette>,
    pub toggles: ColorToggles,
}

impl View for ViewOptions {
    type V = ViewOptionsModel;

    open spec fn view(&self) -> ViewOptionsModel {
        ViewOptionsModel {
            no_colors: self.no_colors,
            lang: crate::text::optional_view(self.lang),
            ascii_only: self.ascii_only,
            truecolor: self.truecolor,
            palette: self.palette,
            toggles: self.toggles,
        }
    }
}

/// What settles the palette of a view.
#[derive(Clone, Copy, Debug, PartialEq, Eq, Structural)]
pub enum SettledBy {
    /// Colors are disabled.
    NoColors,
    /// A palette is set.
    Palette,
    /// The terminal advertises true colors.
    TrueColor,
}

/// How the palette of a view is found.
#[derive(Clone, Copy, Debug, PartialEq, Eq, Structural)]
pub enum PaletteChoice {
    /// The options settle the palette.
    Settled(Palette, SettledBy),
    /// The options leave the palette to the terminfo database, which `tput colors` asks: see
    /// [`Palette::from_tput`].
    AskTerminfo,
}

/// `over` if it is set, otherwise `base`.
pub open spec fn overridden<T>(base: Option<T>, over: Option<T>) -> Option<T> {
    match over {
        Some(_) => over,
        None => base,
    }
}

/// The opposite of a setting.
pub open spec fn opposite(setting: Option<bool>) -> Option<bool> {
    match setting {
        Some(setting) => Some(!setting),
        None => None,
    }
}

impl ColorToggles {
    /// Neither toggle is set.
    pub open spec fn unset() -> ColorToggles {
        ColorToggles { color_durations: None, color_terminated: None }
    }

    /// These toggles in the opposite sense: those of a view as a configuration file holds them, and
    /// the other way round.
    pub open spec fn turned(self) -> ColorToggles {
        ColorToggles {
            color_durations: opposite(self.color_durations),
            color_terminated: opposite(self.color_terminated),
        }
    }

    /// These toggles, each overridden by that of `over` where `over` sets it.
    pub open spec fn overridden_by(self, over: ColorToggles) -> ColorToggles {
        ColorToggles {
            color_durations: overridden(self.color_durations, over.color_durations),
            color_terminated: overridden(self.color_terminated, over.color_terminated),
        }
    }
}

impl ViewOptionsModel {
    /// No option is set.
    pub open spec fn unset() -> ViewOptionsModel {
        ViewOptionsModel {
            no_colors: None,
            lang: None,
            ascii_only: None,
            truecolor: None,
            palette: None,
            toggles: ColorToggles::unset(),
        }
    }

    /// Every option is set.
    pub open spec fn complete(self) -> bool {
        &&& self.no_colors is Some
        &&& self.lang is Some
        &&& self.ascii_only is Some
        &&& self.truecolor is Some
        &&& self.palette is Some
        &&& self.toggles.color_durations is Some
        &&& self.toggles.color_terminated is Some
    }

    /// The options that a configuration file is generated from. Their toggles are those of the
    /// file: color coding is on.
    pub open spec fn defaults() -> ViewOptionsModel {
        ViewOptionsModel {
            no_colors: Some(false),
            lang: Some("en_us.UTF8"@),
            ascii_only: Some(false),
            truecolor: Some(true),
            palette: Some(Palette::All),
            toggles: ColorToggles { color_durations: Some(true), color_terminated: Some(true) },
        }
    }

    /// These options, each overridden by that of `over` where `over` sets it.
    pub open spec fn overridden_by(self, over: ViewOptionsModel) -> ViewOptionsModel {
        ViewOptionsModel {
            no_colors: overridden(self.no_colors, over.no_colors),
            lang: overridden(self.lang, over.lang),
            ascii_only: overridden(self.ascii_only, over.ascii_only),
            truecolor: overridden(self.truecolor, over.truecolor),
            palette: overridden(self.palette, over.palette),
            toggles: self.toggles.overridden_by(over.toggles),
        }
    }

    /// The view may use all of UTF-8: its language says so, and it is not held to ASCII.
    pub open spec fn utf8(self) -> bool {
        &&& self.ascii_only != Some(true)
        &&& self.lang matches Some(lang) && "UTF-8"@.is_suffix_of(lang)
    }

    /// How the palette is found. In this order: colors may be disabled, a palette may be set, and
    /// the terminal may advertise true colors; otherwise the terminfo database is asked.
    pub open spec fn palette_choice(self) -> PaletteChoice {
        if self.no_colors == Some(true) {
            PaletteChoice::Settled(Palette::NoColors, SettledBy::NoColors)
        } else if let Some(palette) = self.palette {
            PaletteChoice::Settled(palette, SettledBy::Palette)
        } else if self.truecolor == Some(true) {
            PaletteChoice::Settled(Palette::All, SettledBy::TrueColor)
        } else {
            PaletteChoice::AskTerminfo
        }
    }
}

/// Whether `s`, the value of `COLORTERM`, advertises true colors.
pub open spec fn advertises_true_color(s: Seq<char>) -> bool {
    ||| crate::text::same_ignoring_case(crate::text::trimmed(s), "truecolor"@)
    ||| crate::text::same_ignoring_case(crate::text::trimmed(s), "24bit"@)
}

/// `over` if it is set, otherwise `base`.
fn override_with<T>(base: Option<T>, over: Option<T>) -> (r: Option<T>)
    ensures
        r == overridden(base, over),
{
    match over {
        Some(_) => over,
        None => base,
    }
}

/// The opposite of a setting.
pub(crate) fn negate(setting: Option<bool>) -> (r: Option<bool>)
    ensures
        r == opposite(setting),
{
    match setting {
        Some(setting) => Some(!setting),
        None => None,
    }
}

/// Whether `s`, the value of `COLORTERM`, is `truecolor` or `24bit`. Case does not count, nor does
/// white space around it.
pub fn parse_true_color(s: &str) -> (r: bool)
    ensures
        r == advertises_true_color(s@),
{
    let s = trim(s);
    eq_ignore_ascii_case(&s, "truecolor") || eq_ignore_ascii_case(&s, "24bit")
}

impl ColorToggles {
    /// These toggles in the opposite sense: those of a view as a configuration file holds them.
    pub(crate) fn turn(&self) -> (r: ColorToggles)
        ensures
            r == self.turned(),
    {
        ColorToggles {
            color_durations: negate(self.color_durations),
            color_terminated: negate(self.color_terminated),
        }
    }

    /// The opposite of the toggle of duration units, or `true` if it is not set.
    ///
    /// Of toggles from a configuration file it says whether color coding is disabled.
    pub fn color_durations(&self) -> (r: bool)
        ensures
            r == (self.color_durations != Some(true)),
    {
        match self.color_durations {
            Some(toggle) => !toggle,
            None => true,
        }
    }

    /// The opposite of the toggle of terminated tasks, or `true` if it is not set.
    ///
    /// Of toggles from a configuration file it says whether color coding is disabled.
    pub fn color_terminated(&self) -> (r: bool)
        ensures
            r == (self.color_terminated != Some(true)),
    {
        match self.color_terminated {
            Some(toggle) => !toggle,
            None => true,
        }
    }
}

impl ViewOptions {
    /// Whether the view may use all of UTF-8.
    pub fn is_utf8(&self) -> (r: bool)
        ensures
            r == self@.utf8(),
    {
        if self.ascii_only.unwrap_or(false) {
            return false;
        }
        match &self.lang {
            Some(lang) => ends_with(lang.as_str(), "UTF-8"),
            None => false,
        }
    }

    /// Determines the color palette to use, or that the terminfo database has to be asked for it.
    ///
    /// The palette is determined by, in this order:
    /// - colors that are disabled,
    /// - a palette that is set,
    /// - the terminal's advertised support for true colors.
    pub fn determine_palette(&self) -> (r: PaletteChoice)
        ensures
            r == self@.palette_choice(),
    {
        if self.no_colors.unwrap_or(false) {
            return PaletteChoice::Settled(Palette::NoColors, SettledBy::NoColors);
        }
        if let Some(palette) = self.palette {
            return PaletteChoice::Settled(palette, SettledBy::Palette);
        }
        if self.truecolor.unwrap_or(false) {
            return PaletteChoice::Settled(Palette::All, SettledBy::TrueColor);
        }
        PaletteChoice::AskTerminfo
    }

    /// The toggles of individual UI elements.
    pub fn toggles(&self) -> (r: ColorToggles)
        ensures
            r == self@.toggles,
    {
        self.toggles
    }

    /// These options, each overridden by that of the command line where it sets it.
    pub fn merge_with(self, command_line: ViewOptions) -> (r: Self)
        ensures
            r@ == self@.overridden_by(command_line@),
    {
        ViewOptions {
            no_colors: override_with(self.no_colors, command_line.no_colors),
            lang: override_with(self.lang, command_line.lang),
            ascii_only: override_with(self.ascii_only, command_line.ascii_only),
            truecolor: override_with(self.truecolor, command_line.truecolor),
            palette: override_with(self.palette, command_line.palette),
            toggles: ColorToggles {
                color_durations: override_with(
                    self.toggles.color_durations,
                    command_line.toggles.color_durations,
                ),
                color_terminated: override_with(
                    self.toggles.color_terminated,
                    command_line.toggles.color_terminated,
                ),
            },
        }
    }
}

impl Default for ViewOptions {
    /// The options that a configuration file is generated from, with the toggles of the file.
    fn default() -> (r: Self)
        ensures
            r@ == ViewOptionsModel::defaults(),
    {
        ViewOptions {
            no_colors: Some(false),
            lang: Some("en_us.UTF8".to_string()),
            ascii_only: Some(false),
            truecolor: Some(true),
            palette: Some(Palette::All),
            toggles: ColorToggles { color_durations: Some(true), color_terminated: Some(true) },
        }
    }
}

} // verus!

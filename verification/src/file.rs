//! The `console.toml` configuration files: where they lie, what they hold and what options they
//! set.

use crate::options::{negate, ColorToggles, ViewOptions, ViewOptionsModel};
use crate::palette::Palette;
use vstd::prelude::*;
use vstd::string::StringExecFns;

verus! {

/// The contents of a configuration file. What is `None` does not occur in it.
#[derive(Clone, Debug, PartialEq, Eq)]
pub struct ConfigFile {
    pub charset: Option<CharsetConfig>,
    pub colors: Option<ColorsConfig>,
}

/// The `charset` table of a configuration file.
#[derive(Clone, Debug, PartialEq, Eq)]
pub struct CharsetConfig {
    pub lang: Option<String>,
    pub ascii_only: Option<bool>,
}

/// The `colors` table of a configuration file.
#[derive(Clone, Copy, Debug, PartialEq, Eq, Structural)]
pub struct ColorsConfig {
    pub enabled: Option<bool>,
    pub truecolor: Option<bool>,
    pub palette: Option<Palette>,
    /// The toggles of individual UI elements; here `true` switches color coding on.
    pub enable: Option<ColorToggles>,
}

/// What a [`ConfigFile`] says.
pub struct ConfigFileModel {
    pub charset: Option<CharsetModel>,
    pub colors: Option<ColorsConfig>,
}

/// What a [`CharsetConfig`] says.
pub struct CharsetModel {
    pub lang: Option<Seq<char>>,
    pub ascii_only: Option<bool>,
}

/// A configuration file that could not be parsed.
#[derive(Debug, PartialEq, Eq)]
pub struct ConfigError<E> {
    /// Which file could not be parsed.
    pub context: String,
    /// Why it could not be parsed.
    pub source: E,
}

/// The two places of configuration files.
#[derive(Clone, Copy, Debug, PartialEq, Eq, Structural)]
pub enum ConfigPath {
    /// The user's configuration directory.
    Home,
    /// The current directory.
    Current,
}

/// The path of a configuration file.
#[derive(Debug, PartialEq, Eq)]
pub struct FilePath<D> {
    /// The directory that the file is looked up in, if it is not the current one.
    pub directory: Option<D>,
    /// The path from that directory to the file.
    pub file: String,
}

impl View for CharsetConfig {
    type V = CharsetModel;

    open spec fn view(&self) -> CharsetModel {
        CharsetModel {
            lang: crate::text::optional_view(self.lang),
            ascii_only: self.ascii_only,
        }
    }
}

impl View for ConfigFile {
    type V = ConfigFileModel;

    open spec fn view(&self) -> ConfigFileModel {
        ConfigFileModel {
            charset: match self.charset {
                Some(charset) => Some(charset@),
                None => None,
            },
            colors: self.colors,
        }
    }
}

impl ConfigFileModel {
    /// The toggles of individual UI elements that the file holds.
    pub open spec fn enable(self) -> Option<ColorToggles> {
        match self.colors {
            Some(colors) => colors.enable,
            None => None,
        }
    }

    /// Colors are disabled where the file sets `enabled = false`, and not disabled where it sets
    /// `enabled = true`.
    pub open spec fn no_colors(self) -> Option<bool> {
        match self.colors {
            Some(colors) => crate::options::opposite(colors.enabled),
            None => None,
        }
    }

    /// The color coding of duration units is disabled where the file holds toggles and does not set
    /// `durations = true` among them, and not disabled where it does.
    pub open spec fn color_durations(self) -> Option<bool> {
        match self.enable() {
            Some(toggles) => Some(toggles.color_durations != Some(true)),
            None => None,
        }
    }

    /// The color coding of terminated tasks is disabled where the file holds toggles and does not
    /// set `terminated = true` among them, and not disabled where it does.
    pub open spec fn color_terminated(self) -> Option<bool> {
        match self.enable() {
            Some(toggles) => Some(toggles.color_terminated != Some(true)),
            None => None,
        }
    }

    /// The options that the file sets.
    pub open spec fn view_options(self) -> ViewOptionsModel {
        ViewOptionsModel {
            no_colors: self.no_colors(),
            lang: match self.charset {
                Some(charset) => charset.lang,
                None => None,
            },
            ascii_only: match self.charset {
                Some(charset) => charset.ascii_only,
                None => None,
            },
            truecolor: match self.colors {
                Some(colors) => colors.truecolor,
                None => None,
            },
            palette: match self.colors {
                Some(colors) => colors.palette,
                None => None,
            },
            toggles: ColorToggles {
                color_durations: self.color_durations(),
                color_terminated: self.color_terminated(),
            },
        }
    }
}

impl ViewOptionsModel {
    /// The configuration file that holds these options; their toggles are those of the file.
    pub open spec fn config_file(self) -> ConfigFileModel {
        ConfigFileModel {
            charset: Some(CharsetModel { lang: self.lang, ascii_only: self.ascii_only }),
            colors: Some(
                ColorsConfig {
                    enabled: crate::options::opposite(self.no_colors),
                    truecolor: self.truecolor,
                    palette: self.palette,
                    enable: Some(self.toggles),
                },
            ),
        }
    }
}

impl<E> ConfigError<E> {
    /// The error of parsing the file `path`, which failed for the reason `source`.
    pub open spec fn parsing(self, path: Seq<char>, source: E) -> bool {
        &&& self.context@ == "failed to parse "@ + path
        &&& self.source == source
    }
}

impl ConfigPath {
    /// The path of the configuration file, where `config_dir` is the user's configuration
    /// directory: none if the file would lie there and there is no such directory.
    pub fn into_path<D>(self, config_dir: Option<D>) -> (r: Option<FilePath<D>>)
        ensures
            match self {
                ConfigPath::Home => match config_dir {
                    Some(directory) => r matches Some(path) && path.directory == Some(directory)
                        && path.file@ == "tokio-console/console.toml"@,
                    None => r is None,
                },
                ConfigPath::Current => r matches Some(path) && path.directory is None
                    && path.file@ == "./console.toml"@,
            },
    {
        match self {
            ConfigPath::Home => match config_dir {
                Some(directory) => Some(
                    FilePath {
                        directory: Some(directory),
                        file: "tokio-console/console.toml".to_string(),
                    },
                ),
                None => None,
            },
            ConfigPath::Current => Some(
                FilePath { directory: None, file: "./console.toml".to_string() },
            ),
        }
    }
}

impl ConfigFile {
    /// The configuration file at `path`, where `parsed` is what parsing it gave, or `None` where
    /// there was no such file to read. A file that cannot be parsed is an error.
    pub fn from_config<E>(path: &str, parsed: Option<Result<ConfigFile, E>>) -> (r: Result<
        Option<Self>,
        ConfigError<E>,
    >)
        ensures
            match parsed {
                None => r == Ok::<Option<Self>, ConfigError<E>>(None),
                Some(Ok(file)) => r == Ok::<Option<Self>, ConfigError<E>>(Some(file)),
                Some(Err(source)) => r matches Err(error) && error.parsing(path@, source),
            },
    {
        match parsed {
            None => Ok(None),
            Some(Ok(file)) => Ok(Some(file)),
            Some(Err(source)) => Err(
                ConfigError { context: "failed to parse ".to_string().concat(path), source },
            ),
        }
    }

    /// The options that the file sets.
    pub fn into_view_options(self) -> (r: ViewOptions)
        ensures
            r@ == self@.view_options(),
    {
        let no_colors = self.no_colors();
        let toggles = ColorToggles {
            color_durations: self.color_durations(),
            color_terminated: self.color_terminated(),
        };
        let (lang, ascii_only) = match self.charset {
            Some(charset) => (charset.lang, charset.ascii_only),
            None => (None, None),
        };
        let (truecolor, palette) = match self.colors {
            Some(colors) => (colors.truecolor, colors.palette),
            None => (None, None),
        };
        ViewOptions { no_colors, lang, ascii_only, truecolor, palette, toggles }
    }

    /// The configuration file that holds these options; their toggles are those of the file.
    pub fn from_view_options(view_options: ViewOptions) -> (r: Self)
        ensures
            r@ == view_options@.config_file(),
    {
        ConfigFile {
            charset: Some(
                CharsetConfig { lang: view_options.lang, ascii_only: view_options.ascii_only },
            ),
            colors: Some(
                ColorsConfig {
                    enabled: negate(view_options.no_colors),
                    truecolor: view_options.truecolor,
                    palette: view_options.palette,
                    enable: Some(view_options.toggles),
                },
            ),
        }
    }

    /// Whether the file disables colors.
    pub fn no_colors(&self) -> (r: Option<bool>)
        ensures
            r == self@.no_colors(),
    {
        match &self.colors {
            Some(colors) => negate(colors.enabled),
            None => None,
        }
    }

    /// Whether the file disables the color coding of duration units.
    pub fn color_durations(&self) -> (r: Option<bool>)
        ensures
            r == self@.color_durations(),
    {
        match &self.colors {
            Some(colors) => match colors.enable {
                Some(toggles) => Some(toggles.color_durations()),
                None => None,
            },
            None => None,
        }
    }

    /// Whether the file disables the color coding of terminated tasks.
    pub fn color_terminated(&self) -> (r: Option<bool>)
        ensures
            r == self@.color_terminated(),
    {
        match &self.colors {
            Some(colors) => match colors.enable {
                Some(toggles) => Some(toggles.color_terminated()),
                None => None,
            },
            None => None,
        }
    }
}

impl ViewOptions {
    /// The options that the configuration file at `path` sets, where `parsed` is what parsing it
    /// gave, or `None` where there was no such file to read. A file that cannot be parsed is an
    /// error.
    pub fn from_config<E>(path: &str, parsed: Option<Result<ConfigFile, E>>) -> (r: Result<
        Option<Self>,
        ConfigError<E>,
    >)
        ensures
            match parsed {
                None => r == Ok::<Option<Self>, ConfigError<E>>(None),
                Some(Ok(file)) => r matches Ok(Some(options)) && options@ == file@.view_options(),
                Some(Err(source)) => r matches Err(error) && error.parsing(path@, source),
            },
    {
        match ConfigFile::from_config(path, parsed) {
            Ok(Some(file)) => Ok(Some(file.into_view_options())),
            Ok(None) => Ok(None),
            Err(error) => Err(error),
        }
    }
}

} // verus!

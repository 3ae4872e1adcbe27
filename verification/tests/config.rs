use tokio_console::config::{StderrLog, TraceSetup};
use tokio_console::duration::TimeSpan;
use tokio_console::file::{
    CharsetConfig, ColorsConfig, ConfigError, ConfigFile, ConfigPath, FilePath,
};
use tokio_console::retain::RetainFor;
use tokio_console::{ColorToggles, Config, OptionalCmd, Palette, ViewOptions};

fn unset() -> ViewOptions {
    ViewOptions {
        no_colors: None,
        lang: None,
        ascii_only: None,
        truecolor: None,
        palette: None,
        toggles: ColorToggles { color_durations: None, color_terminated: None },
    }
}

fn command_line(view_options: ViewOptions) -> Config {
    Config {
        target_addr: "http://127.0.0.1:6669".to_string(),
        env_filter: "off".to_string(),
        view_options,
        retain_for: RetainFor(Some(TimeSpan { secs: 6, nanos: 0 })),
        subcmd: Some(OptionalCmd::GenConfig),
    }
}

fn default_file() -> ConfigFile {
    ConfigFile {
        charset: Some(CharsetConfig {
            lang: Some("en_us.UTF8".to_string()),
            ascii_only: Some(false),
        }),
        colors: Some(ColorsConfig {
            enabled: Some(true),
            truecolor: Some(true),
            palette: Some(Palette::All),
            enable: Some(ColorToggles {
                color_durations: Some(true),
                color_terminated: Some(true),
            }),
        }),
    }
}

#[test]
fn paths() {
    assert_eq!(
        ConfigPath::Home.into_path(Some("/home/me/.config")),
        Some(FilePath {
            directory: Some("/home/me/.config"),
            file: "tokio-console/console.toml".to_string(),
        })
    );
    assert_eq!(ConfigPath::Home.into_path(None::<&str>), None);
    for directory in [None, Some("/home/me/.config")] {
        assert_eq!(
            ConfigPath::Current.into_path(directory),
            Some(FilePath { directory: None, file: "./console.toml".to_string() })
        );
    }
}

#[test]
fn files_that_are_missing_or_broken() {
    assert_eq!(ConfigFile::from_config::<u8>("console.toml", None), Ok(None));
    assert_eq!(
        ConfigFile::from_config::<u8>("console.toml", Some(Ok(default_file()))),
        Ok(Some(default_file()))
    );
    assert_eq!(
        ConfigFile::from_config("./console.toml", Some(Err(7))),
        Err(ConfigError { context: "failed to parse ./console.toml".to_string(), source: 7 })
    );
    assert_eq!(ViewOptions::from_config::<u8>("console.toml", None), Ok(None));
    assert_eq!(
        ViewOptions::from_config::<u8>("console.toml", Some(Ok(default_file()))),
        Ok(Some(default_file().into_view_options()))
    );
    assert_eq!(
        ViewOptions::from_config("./console.toml", Some(Err(7))),
        Err(ConfigError { context: "failed to parse ./console.toml".to_string(), source: 7 })
    );
}

#[test]
fn options_of_a_file() {
    let file = ConfigFile {
        charset: Some(CharsetConfig { lang: Some("C".to_string()), ascii_only: None }),
        colors: Some(ColorsConfig {
            enabled: Some(false),
            truecolor: None,
            palette: Some(Palette::Ansi256),
            enable: Some(ColorToggles { color_durations: Some(true), color_terminated: None }),
        }),
    };
    assert_eq!(file.no_colors(), Some(true));
    assert_eq!(file.color_durations(), Some(false));
    assert_eq!(file.color_terminated(), Some(true));
    assert_eq!(
        file.into_view_options(),
        ViewOptions {
            no_colors: Some(true),
            lang: Some("C".to_string()),
            ascii_only: None,
            truecolor: None,
            palette: Some(Palette::Ansi256),
            toggles: ColorToggles { color_durations: Some(false), color_terminated: Some(true) },
        }
    );
}

#[test]
fn options_of_an_empty_file() {
    let file = ConfigFile { charset: None, colors: None };
    assert_eq!(file.no_colors(), None);
    assert_eq!(file.color_durations(), None);
    assert_eq!(file.color_terminated(), None);
    assert_eq!(file.into_view_options(), unset());
}

#[test]
fn options_read_back_from_a_file() {
    let toggles = |color_durations, color_terminated| ColorToggles {
        color_durations: Some(color_durations),
        color_terminated: Some(color_terminated),
    };
    let options = ViewOptions {
        no_colors: Some(true),
        lang: Some("en_US.UTF-8".to_string()),
        ascii_only: Some(true),
        truecolor: Some(false),
        palette: Some(Palette::Ansi16),
        toggles: toggles(true, false),
    };
    let file = ConfigFile::from_view_options(ViewOptions {
        toggles: toggles(false, true),
        ..options.clone()
    });
    assert_eq!(
        file,
        ConfigFile {
            charset: Some(CharsetConfig {
                lang: Some("en_US.UTF-8".to_string()),
                ascii_only: Some(true),
            }),
            colors: Some(ColorsConfig {
                enabled: Some(false),
                truecolor: Some(false),
                palette: Some(Palette::Ansi16),
                enable: Some(toggles(false, true)),
            }),
        }
    );
    assert_eq!(file.into_view_options(), options);
}

#[test]
fn default_config_file() {
    assert_eq!(command_line(unset()).gen_config_file(), default_file());
}

#[test]
fn generated_file_follows_the_command_line() {
    let options = || ViewOptions {
        no_colors: Some(true),
        lang: Some("en_US.UTF-8".to_string()),
        palette: Some(Palette::Ansi8),
        toggles: ColorToggles { color_durations: Some(true), color_terminated: None },
        ..unset()
    };
    let file = command_line(options()).gen_config_file();
    assert_eq!(
        file,
        ConfigFile {
            charset: Some(CharsetConfig {
                lang: Some("en_US.UTF-8".to_string()),
                ascii_only: Some(false),
            }),
            colors: Some(ColorsConfig {
                enabled: Some(false),
                truecolor: Some(true),
                palette: Some(Palette::Ansi8),
                enable: Some(ColorToggles {
                    color_durations: Some(false),
                    color_terminated: Some(true),
                }),
            }),
        }
    );
    let read = file.into_view_options();
    assert_eq!(
        read.toggles,
        ColorToggles { color_durations: Some(true), color_terminated: Some(false) }
    );
    assert_eq!(read.clone().merge_with(options()), read);
}

#[test]
fn generated_file_keeps_the_toggles() {
    for color_durations in [None, Some(false), Some(true)] {
        for color_terminated in [None, Some(false), Some(true)] {
            let toggles = ColorToggles { color_durations, color_terminated };
            let file = command_line(ViewOptions { toggles, ..unset() }).gen_config_file();
            let read = file.into_view_options().toggles();
            assert_eq!(read.color_durations(), toggles.color_durations());
            assert_eq!(read.color_terminated(), toggles.color_terminated());
        }
    }
}

#[test]
fn command_line_over_current_over_home() {
    let home = || ViewOptions {
        no_colors: Some(true),
        lang: Some("home".to_string()),
        palette: Some(Palette::Ansi8),
        ..unset()
    };
    let current = || ViewOptions {
        lang: Some("current".to_string()),
        palette: Some(Palette::Ansi16),
        ..unset()
    };
    let options = || ViewOptions { palette: Some(Palette::All), ..unset() };

    let config = Config::parse(Some(home()), Some(current()), command_line(options()));
    assert_eq!(
        config,
        command_line(ViewOptions {
            no_colors: Some(true),
            lang: Some("current".to_string()),
            palette: Some(Palette::All),
            ..unset()
        })
    );
    let config = Config::parse(Some(home()), None, command_line(options()));
    assert_eq!(config.view_options.lang, Some("home".to_string()));
    let config = Config::parse(None, Some(current()), command_line(unset()));
    assert_eq!(config, command_line(current()));
    let config = Config::parse(None, None, command_line(options()));
    assert_eq!(config, command_line(options()));
}

#[test]
fn logs_to_the_journal_or_to_stderr() {
    let mut config = command_line(unset());
    assert_eq!(
        config.trace_init(true, true),
        TraceSetup { filter: "off".to_string(), journald: true, stderr: None }
    );
    assert_eq!(config, Config { env_filter: String::new(), ..command_line(unset()) });
    for ansi in [false, true] {
        assert_eq!(
            command_line(unset()).trace_init(false, ansi),
            TraceSetup {
                filter: "off".to_string(),
                journald: false,
                stderr: Some(StderrLog { ansi }),
            }
        );
    }
}

#[test]
fn retention_of_a_config() {
    let mut config = command_line(unset());
    assert_eq!(config.retain_for(), Some(TimeSpan { secs: 6, nanos: 0 }));
    config.retain_for = RetainFor(None);
    assert_eq!(config.retain_for(), None);
}

#[test]
fn first_error_of_files_and_command_line() {
    let palette = |palette: Palette| ViewOptions { palette: Some(palette), ..unset() };
    let home = || Ok::<_, u8>(Some(ViewOptions { no_colors: Some(true), ..palette(Palette::Ansi8) }));
    let current = || Ok::<_, u8>(Some(palette(Palette::Ansi16)));
    let args = || Ok::<_, u8>(command_line(unset()));
    assert_eq!(Config::parse_files(Err(1), Err(2), Err(3)), Err(1));
    assert_eq!(Config::parse_files(Err(1), current(), args()), Err(1));
    assert_eq!(Config::parse_files(home(), Err(2), Err(3)), Err(2));
    assert_eq!(Config::parse_files(Ok(None), Err(2), args()), Err(2));
    assert_eq!(Config::parse_files(home(), current(), Err(3)), Err(3));
    assert_eq!(
        Config::parse_files(home(), current(), args()),
        Ok(command_line(ViewOptions { no_colors: Some(true), ..palette(Palette::Ansi16) }))
    );
    assert_eq!(
        Config::parse_files(Ok(None), Ok(None), args()),
        Ok(command_line(unset()))
    );
}

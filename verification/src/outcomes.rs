//! What each operation on the configuration gives, field by field, whatever it is given.

use crate::config::{Config, TraceSetup};
use crate::duration::TimeSpan;
use crate::file::{ConfigError, ConfigFile, ConfigPath, FilePath};
use crate::options::{ColorToggles, PaletteChoice, SettledBy, ViewOptions};
use crate::palette::Palette;
use vstd::prelude::*;

verus! {

/// Options that override others hold where they are set; elsewhere the others do.
pub proof fn law_merged_options(base: ViewOptions, over: ViewOptions, r: ViewOptions)
    requires
        call_ensures(ViewOptions::merge_with, (base, over), r),
    ensures
        over.no_colors is Some ==> r.no_colors == over.no_colors,
        over.no_colors is None ==> r.no_colors == base.no_colors,
        over.ascii_only is Some ==> r.ascii_only == over.ascii_only,
        over.ascii_only is None ==> r.ascii_only == base.ascii_only,
        over.truecolor is Some ==> r.truecolor == over.truecolor,
        over.truecolor is None ==> r.truecolor == base.truecolor,
        over.palette is Some ==> r.palette == over.palette,
        over.palette is None ==> r.palette == base.palette,
        over.toggles.color_durations is Some ==> r.toggles.color_durations == over.toggles.color_durations,
        over.toggles.color_durations is None ==> r.toggles.color_durations == base.toggles.color_durations,
        over.toggles.color_terminated is Some ==> r.toggles.color_terminated == over.toggles.color_terminated,
        over.toggles.color_terminated is None ==> r.toggles.color_terminated == base.toggles.color_terminated,
        over.lang matches Some(lang) ==> (r.lang matches Some(got) && got@ == lang@),
        over.lang is None ==> (base.lang matches Some(lang) ==> (r.lang matches Some(got) && got@
            == lang@)),
        over.lang is None && base.lang is None ==> r.lang is None,
{
}

/// Each option of a parsed configuration is the first that is set: on the command line, in the file
/// in the current directory if there is one, in the file in the user's configuration directory if
/// there is one. All else is as the command line has it.
pub proof fn law_parsed_options(
    home: Option<ViewOptions>,
    current: Option<ViewOptions>,
    command_line: Config,
    r: Config,
)
    requires
        call_ensures(Config::parse, (home, current, command_line), r),
    ensures
        r.view_options.no_colors == (if command_line.view_options.no_colors is Some {
            command_line.view_options.no_colors
        } else if current is Some && current->0.no_colors is Some {
            current->0.no_colors
        } else if home is Some {
            home->0.no_colors
        } else {
            None
        }),
        r.view_options.ascii_only == (if command_line.view_options.ascii_only is Some {
            command_line.view_options.ascii_only
        } else if current is Some && current->0.ascii_only is Some {
            current->0.ascii_only
        } else if home is Some {
            home->0.ascii_only
        } else {
            None
        }),
        r.view_options.truecolor == (if command_line.view_options.truecolor is Some {
            command_line.view_options.truecolor
        } else if current is Some && current->0.truecolor is Some {
            current->0.truecolor
        } else if home is Some {
            home->0.truecolor
        } else {
            None
        }),
        r.view_options.palette == (if command_line.view_options.palette is Some {
            command_line.view_options.palette
        } else if current is Some && current->0.palette is Some {
            current->0.palette
        } else if home is Some {
            home->0.palette
        } else {
            None
        }),
        r.view_options.toggles.color_durations == (if command_line.view_options.toggles.color_durations is Some {
            command_line.view_options.toggles.color_durations
        } else if current is Some && current->0.toggles.color_durations is Some {
            current->0.toggles.color_durations
        } else if home is Some {
            home->0.toggles.color_durations
        } else {
            None
        }),
        r.view_options.toggles.color_terminated == (if command_line.view_options.toggles.color_terminated is Some {
            command_line.view_options.toggles.color_terminated
        } else if current is Some && current->0.toggles.color_terminated is Some {
            current->0.toggles.color_terminated
        } else if home is Some {
            home->0.toggles.color_terminated
        } else {
            None
        }),
        command_line.view_options.lang matches Some(lang) ==> (r.view_options.lang matches Some(got)
            && got@ == lang@),
        command_line.view_options.lang is None ==> (current matches Some(file) ==> (
        file.lang matches Some(lang) ==> (r.view_options.lang matches Some(got) && got@ == lang@))),
        command_line.view_options.lang is None && (current matches Some(file) ==> file.lang is None)
            ==> (home matches Some(file) ==> (file.lang matches Some(lang) ==> (
        r.view_options.lang matches Some(got) && got@ == lang@))),
        command_line.view_options.lang is None && (current matches Some(file) ==> file.lang is None)
            && (home matches Some(file) ==> file.lang is None) ==> r.view_options.lang is None,
        r.target_addr@ == command_line.target_addr@,
        r.env_filter@ == command_line.env_filter@,
        r.retain_for == command_line.retain_for,
        r.subcmd == command_line.subcmd,
{
}

/// The first error counts: that of the file in the user's configuration directory, then that of the
/// file in the current directory, then that of the command line.
pub proof fn law_first_error<E>(
    home: Result<Option<ViewOptions>, E>,
    current: Result<Option<ViewOptions>, E>,
    command_line: Result<Config, E>,
    r: Result<Config, E>,
)
    requires
        call_ensures(Config::parse_files::<E>, (home, current, command_line), r),
    ensures
        r is Err <==> home is Err || current is Err || command_line is Err,
        home matches Err(error) ==> r == Err::<Config, E>(error),
        home is Ok ==> (current matches Err(error) ==> r == Err::<Config, E>(error)),
        home is Ok && current is Ok ==> (command_line matches Err(error) ==> r == Err::<Config, E>(
            error,
        )),
{
}

/// Without errors, parsing what was read of the files gives what parsing the files' options does.
pub proof fn law_parsed_files<E>(
    home: Option<ViewOptions>,
    current: Option<ViewOptions>,
    command_line: Config,
    parsed: Config,
    r: Result<Config, E>,
)
    requires
        call_ensures(Config::parse, (home, current, command_line), parsed),
        call_ensures(Config::parse_files::<E>, (Ok(home), Ok(current), Ok(command_line)), r),
    ensures
        r matches Ok(config) && {
            &&& config.view_options.no_colors == parsed.view_options.no_colors
            &&& config.view_options.ascii_only == parsed.view_options.ascii_only
            &&& config.view_options.truecolor == parsed.view_options.truecolor
            &&& config.view_options.palette == parsed.view_options.palette
            &&& config.view_options.toggles.color_durations == parsed.view_options.toggles.color_durations
            &&& config.view_options.toggles.color_terminated == parsed.view_options.toggles.color_terminated
            &&& config.view_options.lang is Some <==> parsed.view_options.lang is Some
            &&& config.view_options.lang matches Some(got) ==> (
            parsed.view_options.lang matches Some(lang) ==> got@ == lang@)
            &&& config.target_addr@ == parsed.target_addr@
            &&& config.env_filter@ == parsed.env_filter@
            &&& config.retain_for == parsed.retain_for
            &&& config.subcmd == parsed.subcmd
        },
{
}

/// A file sets what its tables hold, each table whether or not the other is there. Colors are
/// disabled where `enabled` is `false`. Where there are toggles, the color coding of an element is
/// disabled unless its own toggle is `true`, whatever the other toggle.
pub proof fn law_options_of_file(file: ConfigFile, r: ViewOptions)
    requires
        call_ensures(ConfigFile::into_view_options, (file,), r),
    ensures
        file.colors matches Some(colors) ==> r.palette == colors.palette && r.truecolor
            == colors.truecolor,
        file.colors matches Some(colors) ==> (colors.enabled matches Some(enabled) ==> r.no_colors
            == Some(!enabled)),
        file.colors matches Some(colors) ==> (colors.enabled is None ==> r.no_colors is None),
        file.colors matches Some(colors) ==> (colors.enable matches Some(toggles) ==> {
            &&& r.toggles.color_durations == Some(!(toggles.color_durations == Some(true)))
            &&& r.toggles.color_terminated == Some(!(toggles.color_terminated == Some(true)))
        }),
        file.colors matches Some(colors) ==> (colors.enable is None ==> {
            &&& r.toggles.color_durations is None
            &&& r.toggles.color_terminated is None
        }),
        file.colors is None ==> {
            &&& r.palette is None
            &&& r.truecolor is None
            &&& r.no_colors is None
            &&& r.toggles.color_durations is None
            &&& r.toggles.color_terminated is None
        },
        file.charset matches Some(charset) ==> r.ascii_only == charset.ascii_only,
        file.charset matches Some(charset) ==> (charset.lang matches Some(lang) ==> (
        r.lang matches Some(got) && got@ == lang@)),
        file.charset matches Some(charset) ==> (charset.lang is None ==> r.lang is None),
        file.charset is None ==> r.ascii_only is None && r.lang is None,
{
}

/// A file disables colors where it sets `enabled = false`, and does not where it sets
/// `enabled = true`; else it says nothing of it.
pub proof fn law_no_colors_of_file(file: ConfigFile, r: Option<bool>)
    requires
        call_ensures(ConfigFile::no_colors, (&file,), r),
    ensures
        r == Some(true) <==> (file.colors matches Some(colors) && colors.enabled == Some(false)),
        r == Some(false) <==> (file.colors matches Some(colors) && colors.enabled == Some(true)),
{
}

/// A file that holds toggles disables the color coding of duration units unless `durations = true`
/// stands among them, with or without the toggle of terminated tasks; a file without toggles says
/// nothing of it.
pub proof fn law_durations_of_file(file: ConfigFile, r: Option<bool>)
    requires
        call_ensures(ConfigFile::color_durations, (&file,), r),
    ensures
        r is Some <==> (file.colors matches Some(colors) && colors.enable is Some),
        r == Some(false) <==> (file.colors matches Some(colors) && colors.enable matches Some(toggles)
            && toggles.color_durations == Some(true)),
{
}

/// A file that holds toggles disables the color coding of terminated tasks unless
/// `terminated = true` stands among them, with or without the toggle of duration units; a file
/// without toggles says nothing of it.
pub proof fn law_terminated_of_file(file: ConfigFile, r: Option<bool>)
    requires
        call_ensures(ConfigFile::color_terminated, (&file,), r),
    ensures
        r is Some <==> (file.colors matches Some(colors) && colors.enable is Some),
        r == Some(false) <==> (file.colors matches Some(colors) && colors.enable matches Some(toggles)
            && toggles.color_terminated == Some(true)),
{
}

/// A file made of options holds them: both tables are there, with the options in them as they are,
/// but for `enabled`, which is the opposite of disabled colors.
pub proof fn law_file_of_options(options: ViewOptions, r: ConfigFile)
    requires
        call_ensures(ConfigFile::from_view_options, (options,), r),
    ensures
        r.colors matches Some(colors) && {
            &&& colors.palette == options.palette
            &&& colors.truecolor == options.truecolor
            &&& options.no_colors matches Some(disabled) ==> colors.enabled == Some(!disabled)
            &&& options.no_colors is None ==> colors.enabled is None
            &&& colors.enable matches Some(toggles) && toggles.color_durations
                == options.toggles.color_durations && toggles.color_terminated
                == options.toggles.color_terminated
        },
        r.charset matches Some(charset) && {
            &&& charset.ascii_only == options.ascii_only
            &&& options.lang matches Some(lang) ==> (charset.lang matches Some(got) && got@ == lang@)
            &&& options.lang is None ==> charset.lang is None
        },
{
}

/// The default options, which a generated file holds unless they are overridden.
pub proof fn law_default_options(r: ViewOptions)
    requires
        call_ensures(<ViewOptions as Default>::default, (), r),
    ensures
        r.no_colors == Some(false),
        r.lang matches Some(lang) && lang@ == "en_us.UTF8"@,
        r.ascii_only == Some(false),
        r.truecolor == Some(true),
        r.palette == Some(Palette::All),
        r.toggles.color_durations == Some(true),
        r.toggles.color_terminated == Some(true),
{
}

/// A generated file holds what the command line sets, and the default of all else. Its `enabled` is
/// the opposite of the command line's disabled colors, and each of its toggles the opposite of the
/// command line's, which disables.
pub proof fn law_generated_file(config: Config, r: ConfigFile)
    requires
        call_ensures(Config::gen_config_file, (config,), r),
    ensures
        r.colors matches Some(colors) && {
            &&& colors.palette == (if config.view_options.palette is Some {
                config.view_options.palette
            } else {
                Some(Palette::All)
            })
            &&& colors.truecolor == (if config.view_options.truecolor is Some {
                config.view_options.truecolor
            } else {
                Some(true)
            })
            &&& colors.enabled == Some(!(config.view_options.no_colors == Some(true)))
            &&& colors.enable matches Some(toggles) && toggles.color_durations == Some(
                !(config.view_options.toggles.color_durations == Some(true)),
            ) && toggles.color_terminated == Some(
                !(config.view_options.toggles.color_terminated == Some(true)),
            )
        },
        r.charset matches Some(charset) && {
            &&& charset.ascii_only == (if config.view_options.ascii_only is Some {
                config.view_options.ascii_only
            } else {
                Some(false)
            })
            &&& charset.lang matches Some(got) && got@ == (match config.view_options.lang {
                Some(lang) => lang@,
                None => "en_us.UTF8"@,
            })
        },
{
}

/// A file that is not there is no error, a file that can be parsed is taken as it is, and a file
/// that cannot be parsed is an error which names it.
pub proof fn law_file_from_config<E>(
    path: &str,
    parsed: Option<Result<ConfigFile, E>>,
    r: Result<Option<ConfigFile>, ConfigError<E>>,
)
    requires
        call_ensures(ConfigFile::from_config::<E>, (path, parsed), r),
    ensures
        r matches Ok(None) <==> parsed is None,
        parsed matches Some(Ok(file)) ==> (r matches Ok(Some(got)) && got == file),
        parsed matches Some(Err(source)) ==> (r matches Err(error) && error.source == source
            && error.context@ == "failed to parse "@ + path@),
{
}

/// The options of a file that is not there are none, those of a file that can be parsed are the
/// ones that the file sets, and a file that cannot be parsed is an error which names it.
pub proof fn law_options_from_config<E>(
    path: &str,
    parsed: Option<Result<ConfigFile, E>>,
    r: Result<Option<ViewOptions>, ConfigError<E>>,
)
    requires
        call_ensures(ViewOptions::from_config::<E>, (path, parsed), r),
    ensures
        r matches Ok(None) <==> parsed is None,
        parsed matches Some(Ok(file)) ==> (r matches Ok(Some(_))),
        parsed matches Some(Err(source)) ==> (r matches Err(error) && error.source == source
            && error.context@ == "failed to parse "@ + path@),
        forall|file: ConfigFile, set: ViewOptions|
            parsed == Some(Ok::<ConfigFile, E>(file)) && #[trigger] call_ensures(
                ConfigFile::into_view_options,
                (file,),
                set,
            ) ==> (r matches Ok(Some(options)) && {
                &&& options.no_colors == set.no_colors
                &&& options.ascii_only == set.ascii_only
                &&& options.truecolor == set.truecolor
                &&& options.palette == set.palette
                &&& options.toggles.color_durations == set.toggles.color_durations
                &&& options.toggles.color_terminated == set.toggles.color_terminated
                &&& options.lang is Some <==> set.lang is Some
                &&& options.lang matches Some(got) ==> (set.lang matches Some(lang) ==> got@
                    == lang@)
            }),
{
}

/// The file in the user's configuration directory lies there, and there is none without such a
/// directory; the other one lies in the current directory, whatever the former.
pub proof fn law_config_path<D>(place: ConfigPath, config_dir: Option<D>, r: Option<FilePath<D>>)
    requires
        call_ensures(ConfigPath::into_path::<D>, (place, config_dir), r),
    ensures
        r is None <==> place == ConfigPath::Home && config_dir is None,
        place == ConfigPath::Home ==> (r matches Some(path) ==> path.directory == config_dir
            && path.file@ == "tokio-console/console.toml"@),
        place == ConfigPath::Current ==> (r matches Some(path) ==> path.directory is None
            && path.file@ == "./console.toml"@),
{
}

/// A view whose language is any text followed by `UTF-8` may use UTF-8, unless it is held to ASCII.
pub proof fn law_utf8_language(options: ViewOptions, before: Seq<char>, r: bool)
    requires
        call_ensures(ViewOptions::is_utf8, (&options,), r),
        options.lang matches Some(lang) && lang@ == before + seq!['U', 'T', 'F', '-', '8'],
    ensures
        r <==> options.ascii_only != Some(true),
{
    reveal_strlit("UTF-8");
    assert("UTF-8"@ =~= seq!['U', 'T', 'F', '-', '8']);
    let lang = options.lang->0@;
    assert(lang.subrange(lang.len() - 5, lang.len() as int) =~= "UTF-8"@);
}

/// A view may use UTF-8 only if its language is set and ends in `UTF-8`, and it is not held to
/// ASCII.
pub proof fn law_no_utf8(options: ViewOptions, r: bool)
    requires
        call_ensures(ViewOptions::is_utf8, (&options,), r),
    ensures
        r ==> options.ascii_only != Some(true),
        r ==> (options.lang matches Some(lang) && lang@.len() >= 5 && {
            let end = lang@.skip(lang@.len() - 5);
            end[0] == 'U' && end[1] == 'T' && end[2] == 'F' && end[3] == '-' && end[4] == '8'
        }),
{
    reveal_strlit("UTF-8");
    if r {
        let lang = options.lang->0@;
        assert("UTF-8"@.len() == 5);
        assert(lang.subrange(lang.len() - 5, lang.len() as int) =~= "UTF-8"@);
        assert(lang.skip(lang.len() - 5) =~= "UTF-8"@);
    }
}

/// Disabled colors settle the palette first, then a palette that is set, then true colors that the
/// terminal advertises; only where none of these is so the terminfo database is asked.
pub proof fn law_determined_palette(options: ViewOptions, r: PaletteChoice)
    requires
        call_ensures(ViewOptions::determine_palette, (&options,), r),
    ensures
        options.no_colors == Some(true) ==> r == PaletteChoice::Settled(
            Palette::NoColors,
            SettledBy::NoColors,
        ),
        options.no_colors != Some(true) ==> (options.palette matches Some(palette) ==> r
            == PaletteChoice::Settled(palette, SettledBy::Palette)),
        options.no_colors != Some(true) && options.palette is None && options.truecolor == Some(true)
            ==> r == PaletteChoice::Settled(Palette::All, SettledBy::TrueColor),
        options.no_colors != Some(true) && options.palette is None && options.truecolor != Some(true)
            ==> r == PaletteChoice::AskTerminfo,
{
}

/// The toggles of a view are those among its options.
pub proof fn law_toggles(options: ViewOptions, r: ColorToggles)
    requires
        call_ensures(ViewOptions::toggles, (&options,), r),
    ensures
        r.color_durations == options.toggles.color_durations,
        r.color_terminated == options.toggles.color_terminated,
{
}

/// Each toggle is answered for by itself: the answer is the opposite of it, and `true` if it is not
/// set.
pub proof fn law_toggles_apart(toggles: ColorToggles, durations: bool, terminated: bool)
    requires
        call_ensures(ColorToggles::color_durations, (&toggles,), durations),
        call_ensures(ColorToggles::color_terminated, (&toggles,), terminated),
    ensures
        toggles.color_durations matches Some(toggle) ==> durations == !toggle,
        toggles.color_durations is None ==> durations,
        toggles.color_terminated matches Some(toggle) ==> terminated == !toggle,
        toggles.color_terminated is None ==> terminated,
{
}

/// Diagnostics go to the system journal if that is connected to, and to stderr if and only if not,
/// with ANSI escapes if and only if stderr is a terminal. Nothing but the filter is taken out of the
/// configuration.
pub proof fn law_trace_setup(
    config: &mut Config,
    journald: bool,
    stderr_is_terminal: bool,
    r: TraceSetup,
)
    requires
        call_ensures(Config::trace_init, (config, journald, stderr_is_terminal), r),
    ensures
        r.filter@ == old(config).env_filter@,
        r.journald == journald,
        r.stderr is Some <==> !journald,
        r.stderr matches Some(log) ==> log.ansi == stderr_is_terminal,
        final(config).env_filter@.len() == 0,
        final(config).target_addr@ == old(config).target_addr@,
        final(config).retain_for == old(config).retain_for,
        final(config).subcmd == old(config).subcmd,
        final(config).view_options.no_colors == old(config).view_options.no_colors,
        final(config).view_options.ascii_only == old(config).view_options.ascii_only,
        final(config).view_options.truecolor == old(config).view_options.truecolor,
        final(config).view_options.palette == old(config).view_options.palette,
        final(config).view_options.toggles.color_durations == old(config).view_options.toggles.color_durations,
        final(config).view_options.toggles.color_terminated == old(config).view_options.toggles.color_terminated,
        final(config).view_options.lang is Some <==> old(config).view_options.lang is Some,
        final(config).view_options.lang matches Some(got) ==> (
        old(config).view_options.lang matches Some(lang) ==> got@ == lang@),
{
}

/// How long to retain is what the configuration says.
pub proof fn law_configured_retention(config: Config, r: Option<TimeSpan>)
    requires
        call_ensures(Config::retain_for, (&config,), r),
    ensures
        r == config.retain_for.0,
{
}

} // verus!

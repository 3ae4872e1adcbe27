//! The configuration of the console, from configuration files and the command line.

use crate::duration::TimeSpan;
use crate::file::{ConfigFile, ConfigFileModel};
use crate::options::{ViewOptions, ViewOptionsModel};
use crate::retain::RetainFor;
use vstd::prelude::*;

verus! {

/// What to do in place of connecting to a remote server.
#[derive(Clone, Copy, Debug, PartialEq, Eq, Structural)]
pub enum OptionalCmd {
    /// Generate a `console.toml` config file with the default configuration values, overridden by
    /// any provided command-line arguments.
    GenConfig,
}

/// The configuration of the console.
#[derive(Debug, PartialEq, Eq)]
pub struct Config {
    /// The address of a console-enabled process to connect to.
    pub target_addr: String,
    /// The log level filter for the console's internal diagnostics.
    pub env_filter: String,
    /// The options of the view.
    pub view_options: ViewOptions,
    /// How long to keep displaying completed tasks and dropped resources.
    pub retain_for: RetainFor,
    /// The optional subcommand.
    pub subcmd: Option<OptionalCmd>,
}

/// What a [`Config`] says.
pub struct ConfigModel {
    pub target_addr: Seq<char>,
    pub env_filter: Seq<char>,
    pub view_options: ViewOptionsModel,
    pub retain_for: RetainFor,
    pub subcmd: Option<OptionalCmd>,
}

impl View for Config {
    type V = ConfigModel;

    open spec fn view(&self) -> ConfigModel {
        ConfigModel {
            target_addr: self.target_addr@,
            env_filter: self.env_filter@,
            view_options: self.view_options@,
            retain_for: self.retain_for,
            subcmd: self.subcmd,
        }
    }
}

/// Where diagnostics are logged to.
#[derive(Debug, PartialEq, Eq)]
pub struct TraceSetup {
    /// The log level filter.
    pub filter: String,
    /// Whether to log to the system journal.
    pub journald: bool,
    /// How to log to stderr, if it is logged to.
    pub stderr: Option<StderrLog>,
}

/// How to log to stderr.
#[derive(Clone, Copy, Debug, PartialEq, Eq, Structural)]
pub struct StderrLog {
    /// Whether to use ANSI escapes.
    pub ansi: bool,
}

/// The options that a file sets; none where there is no file.
pub open spec fn file_options(options: Option<ViewOptions>) -> ViewOptionsModel {
    match options {
        Some(options) => options@,
        None => ViewOptionsModel::unset(),
    }
}

impl ConfigModel {
    /// This command line, with the options of the view that it leaves unset taken from the file in
    /// the current directory, and those that this one leaves unset from the one in the user's
    /// configuration directory.
    pub open spec fn over_files(
        self,
        home: Option<ViewOptions>,
        current: Option<ViewOptions>,
    ) -> ConfigModel {
        ConfigModel {
            view_options: file_options(home).overridden_by(file_options(current)).overridden_by(
                self.view_options,
            ),
            ..self
        }
    }
}

impl ViewOptionsModel {
    /// The file generated from these options of a view: the default one, overridden by what is set
    /// here. A toggle of a view disables what the toggle of a file enables, so toggles that are set
    /// turn round.
    pub open spec fn generated_file(self) -> ConfigFileModel {
        ViewOptionsModel::defaults().overridden_by(
            ViewOptionsModel { toggles: self.toggles.turned(), ..self },
        ).config_file()
    }
}

impl Config {
    /// The configuration of the command line, with the options of the view that it leaves unset
    /// taken from the file in the current directory, and those that this one leaves unset from the
    /// file in the user's configuration directory. A file that does not exist is `None`.
    pub fn parse(
        home: Option<ViewOptions>,
        current: Option<ViewOptions>,
        command_line: Config,
    ) -> (r: Self)
        ensures
            r@ == command_line@.over_files(home, current),
    {
        let base = match (home, current) {
            (None, None) => None,
            (Some(home), None) => Some(home),
            (None, Some(current)) => Some(current),
            (Some(home), Some(current)) => Some(home.merge_with(current)),
        };
        let mut config = command_line;
        let view_options = match base {
            None => config.view_options,
            Some(base) => base.merge_with(config.view_options),
        };
        config.view_options = view_options;
        config
    }

    /// The configuration, where `home`, `current` and `command_line` are what came of reading the
    /// file in the user's configuration directory, the file in the current directory and the command
    /// line. Errors come in this order.
    pub fn parse_files<E>(
        home: Result<Option<ViewOptions>, E>,
        current: Result<Option<ViewOptions>, E>,
        command_line: Result<Config, E>,
    ) -> (r: Result<Self, E>)
        ensures
            match (home, current, command_line) {
                (Err(error), _, _) => r == Err::<Config, E>(error),
                (Ok(_), Err(error), _) => r == Err::<Config, E>(error),
                (Ok(_), Ok(_), Err(error)) => r == Err::<Config, E>(error),
                (Ok(home), Ok(current), Ok(command_line)) => r matches Ok(config) && config@
                    == command_line@.over_files(home, current),
            },
    {
        match (home, current, command_line) {
            (Err(error), _, _) => Err(error),
            (Ok(_), Err(error), _) => Err(error),
            (Ok(_), Ok(_), Err(error)) => Err(error),
            (Ok(home), Ok(current), Ok(command_line)) => Ok(
                Config::parse(home, current, command_line),
            ),
        }
    }

    /// The contents of a configuration file with the default options, overridden by those of this
    /// configuration. Color coding that is disabled here is disabled in the file.
    pub fn gen_config_file(self) -> (r: ConfigFile)
        ensures
            r@ == self@.view_options.generated_file(),
    {
        let mut view_options = self.view_options;
        view_options.toggles = view_options.toggles.turn();
        ConfigFile::from_view_options(ViewOptions::default().merge_with(view_options))
    }

    /// Where diagnostics are logged to: to the system journal if it could be connected to, so that
    /// they do not interfere with text output, otherwise to stderr, with ANSI escapes if that is a
    /// terminal. The filter is taken out of the configuration.
    pub fn trace_init(&mut self, journald: bool, stderr_is_terminal: bool) -> (r: TraceSetup)
        ensures
            r.filter@ == old(self)@.env_filter,
            r.journald == journald,
            r.stderr == (if journald {
                None
            } else {
                Some(StderrLog { ansi: stderr_is_terminal })
            }),
            final(self)@ == (ConfigModel { env_filter: Seq::empty(), ..old(self)@ }),
    {
        let mut filter = String::new();
        std::mem::swap(&mut filter, &mut self.env_filter);
        let stderr = if journald {
            None
        } else {
            Some(StderrLog { ansi: stderr_is_terminal })
        };
        TraceSetup { filter, journald, stderr }
    }

    /// How long to keep displaying completed tasks and dropped resources; `None` for no limit.
    pub fn retain_for(&self) -> (r: Option<TimeSpan>)
        ensures
            r == self@.retain_for.0,
    {
        self.retain_for.0
    }
}

} // verus!

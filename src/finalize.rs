use vstd::prelude::*;

use crate::config::{join_path, joined, Config, DEFAULT_FILE_NAME};
use crate::network::network_name;
use crate::step::{DaemonConfig, DAEMON_CONFIG_FILE_NAME};

verus! {

/// Why the finalization failed.
#[derive(Clone, Debug, PartialEq, Eq)]
pub enum Error {
    CannotCreateDatadir(String),
    CannotCreateFile(String),
    CannotWriteToFile(String),
    Unexpected(String),
}

impl Error {
    /// A sentence describing the error.
    pub fn message(&self) -> (r: String)
        ensures
            r@ == error_message(*self),
    {
        match self {
            Error::CannotCreateDatadir(e) => String::from_str("Failed to create datadir: ").concat(
                e.as_str(),
            ),
            Error::CannotWriteToFile(e) => String::from_str("Failed to write to file: ").concat(
                e.as_str(),
            ),
            Error::CannotCreateFile(e) => String::from_str("Failed to create file: ").concat(
                e.as_str(),
            ),
            Error::Unexpected(e) => String::from_str("Unexpected: ").concat(e.as_str()),
        }
    }
}

/// The sentence that describes a finalization error.
pub open spec fn error_message(e: Error) -> Seq<char> {
    match e {
        Error::CannotCreateDatadir(s) => "Failed to create datadir: "@ + s@,
        Error::CannotWriteToFile(s) => "Failed to write to file: "@ + s@,
        Error::CannotCreateFile(s) => "Failed to create file: "@ + s@,
        Error::Unexpected(s) => "Unexpected: "@ + s@,
    }
}

/// An error as its contracts speak of it.
pub enum ErrorView {
    CannotCreateDatadir(Seq<char>),
    CannotCreateFile(Seq<char>),
    CannotWriteToFile(Seq<char>),
    Unexpected(Seq<char>),
}

impl View for Error {
    type V = ErrorView;

    open spec fn view(&self) -> ErrorView {
        match self {
            Error::CannotCreateDatadir(s) => ErrorView::CannotCreateDatadir(s@),
            Error::CannotCreateFile(s) => ErrorView::CannotCreateFile(s@),
            Error::CannotWriteToFile(s) => ErrorView::CannotWriteToFile(s@),
            Error::Unexpected(s) => ErrorView::Unexpected(s@),
        }
    }
}

/// Where a finalization stands; each phase waits for the outcome of one action.
#[derive(Clone, Copy, Debug, PartialEq, Eq, Structural)]
pub enum Phase {
    /// The daemon is being started on the configuration, and shut down again.
    Validating,
    /// The data directory is being made absolute and canonical.
    ResolvingDatadir,
    /// The daemon configuration file is being created.
    CreatingDaemonFile,
    /// The daemon configuration is being written to its file.
    WritingDaemonFile,
    /// The application configuration file is being created.
    CreatingAppFile,
    /// The path of the daemon configuration file is being made canonical.
    ResolvingDaemonFile,
    /// The application configuration is being written to its file.
    WritingAppFile,
    /// Nothing is left to do.
    Finished,
}

/// What the caller performs next; its outcome goes back to `Finalization::resume`.
#[derive(Debug, PartialEq, Eq)]
pub enum Action {
    /// Start the daemon on `Finalization::daemon_config` and shut it down again.
    ValidateConfig,
    /// Resolve the path to its absolute, canonical form; the outcome carries it.
    Canonicalize(String),
    /// Create the file at the path, which must be new or writable.
    CreateFile(String),
    /// Write `Finalization::daemon_config`, serialized, in full to the file just created.
    WriteDaemonConfig,
    /// Write this configuration, serialized, in full to the file just created.
    WriteAppConfig(Config),
    /// The finalization ended: the path of the application configuration file, or why it failed.
    Done(Result<String, Error>),
}

/// An action as the contracts speak of it.
pub enum ActionView {
    ValidateConfig,
    Canonicalize(Seq<char>),
    CreateFile(Seq<char>),
    WriteDaemonConfig,
    /// The daemon configuration path that the application configuration holds.
    WriteAppConfig(Seq<char>),
    Done(Result<Seq<char>, ErrorView>),
}

impl View for Action {
    type V = ActionView;

    open spec fn view(&self) -> ActionView {
        match self {
            Action::ValidateConfig => ActionView::ValidateConfig,
            Action::Canonicalize(p) => ActionView::Canonicalize(p@),
            Action::CreateFile(p) => ActionView::CreateFile(p@),
            Action::WriteDaemonConfig => ActionView::WriteDaemonConfig,
            Action::WriteAppConfig(c) => ActionView::WriteAppConfig(c.minisafed_config_path@),
            Action::Done(Ok(p)) => ActionView::Done(Ok(p@)),
            Action::Done(Err(e)) => ActionView::Done(Err(e@)),
        }
    }
}

/// The finalization: validates the assembled daemon configuration by running
/// the daemon, then writes the daemon's and the application's configuration
/// files into `<data_dir>/<network>/`. The caller performs each action and
/// hands its outcome back.
pub struct Finalization {
    phase: Phase,
    config: DaemonConfig,
    daemon_config_path: String,
    app_config_path: String,
}

/// The state of a finalization, as its contracts speak of it.
pub struct FinalizationModel {
    pub phase: Phase,
    /// The configuration being persisted; its data directory is canonical once resolved.
    pub config: DaemonConfig,
    pub daemon_config_path: Seq<char>,
    pub app_config_path: Seq<char>,
}

impl View for Finalization {
    type V = FinalizationModel;

    closed spec fn view(&self) -> FinalizationModel {
        FinalizationModel {
            phase: self.phase,
            config: self.config,
            daemon_config_path: self.daemon_config_path@,
            app_config_path: self.app_config_path@,
        }
    }
}

/// A finalization of `config` before anything was done.
pub open spec fn initial(config: DaemonConfig) -> FinalizationModel {
    FinalizationModel {
        phase: Phase::Validating,
        config,
        daemon_config_path: Seq::empty(),
        app_config_path: Seq::empty(),
    }
}

/// The directory, inside the canonical data directory `datadir`, that holds both files.
pub open spec fn network_dir(datadir: Seq<char>, config: DaemonConfig) -> Seq<char> {
    joined(datadir, network_name(config.network))
}

/// A finalization that ends with `result`.
pub open spec fn finished(
    f: FinalizationModel,
    result: Result<Seq<char>, ErrorView>,
) -> (FinalizationModel, ActionView) {
    (FinalizationModel { phase: Phase::Finished, ..f }, ActionView::Done(result))
}

/// The state and the next action once the action of phase `f.phase` ended with
/// `outcome` (for a resolution, `Ok` carries the canonical path).
pub open spec fn after(f: FinalizationModel, outcome: Result<String, String>) -> (
    FinalizationModel,
    ActionView,
) {
    match f.phase {
        Phase::Validating => match outcome {
            Err(e) => finished(
                f,
                Err(ErrorView::Unexpected("Failed to start daemon with entered config: "@ + e@)),
            ),
            Ok(_) => match f.config.data_dir {
                Some(d) => (
                    FinalizationModel { phase: Phase::ResolvingDatadir, ..f },
                    ActionView::Canonicalize(d@),
                ),
                None => finished(f, Err(ErrorView::Unexpected("No data directory was given"@))),
            },
        },
        Phase::ResolvingDatadir => match outcome {
            Err(e) => finished(
                f,
                Err(ErrorView::Unexpected("Failed to canonicalize datadir path: "@ + e@)),
            ),
            Ok(d) => {
                let dir = network_dir(d@, f.config);
                let daemon_path = joined(dir, DAEMON_CONFIG_FILE_NAME@);
                (
                    FinalizationModel {
                        phase: Phase::CreatingDaemonFile,
                        config: DaemonConfig { data_dir: Some(d), ..f.config },
                        daemon_config_path: daemon_path,
                        app_config_path: joined(dir, DEFAULT_FILE_NAME@),
                    },
                    ActionView::CreateFile(daemon_path),
                )
            },
        },
        Phase::CreatingDaemonFile => match outcome {
            Err(e) => finished(f, Err(ErrorView::CannotCreateFile(e@))),
            Ok(_) => (
                FinalizationModel { phase: Phase::WritingDaemonFile, ..f },
                ActionView::WriteDaemonConfig,
            ),
        },
        Phase::WritingDaemonFile => match outcome {
            Err(e) => finished(f, Err(ErrorView::CannotWriteToFile(e@))),
            Ok(_) => (
                FinalizationModel { phase: Phase::CreatingAppFile, ..f },
                ActionView::CreateFile(f.app_config_path),
            ),
        },
        Phase::CreatingAppFile => match outcome {
            Err(e) => finished(f, Err(ErrorView::CannotCreateFile(e@))),
            Ok(_) => (
                FinalizationModel { phase: Phase::ResolvingDaemonFile, ..f },
                ActionView::Canonicalize(f.daemon_config_path),
            ),
        },
        Phase::ResolvingDaemonFile => match outcome {
            Err(e) => finished(
                f,
                Err(ErrorView::Unexpected("Failed to canonicalize minisafed config path: "@ + e@)),
            ),
            Ok(p) => (
                FinalizationModel { phase: Phase::WritingAppFile, ..f },
                ActionView::WriteAppConfig(p@),
            ),
        },
        Phase::WritingAppFile => match outcome {
            Err(e) => finished(f, Err(ErrorView::CannotWriteToFile(e@))),
            Ok(_) => finished(f, Ok(f.app_config_path)),
        },
        Phase::Finished => (f, ActionView::ValidateConfig),
    }
}

/// The application configuration file holds the canonical form of the very path
/// at which the daemon configuration file was created: once the data directory
/// resolves to `d`, the daemon file is created at `<d>/<network>/daemon.toml`,
/// that same path is the one made canonical after both files exist, and its
/// canonical form `p` is what the application configuration is written with.
pub proof fn lemma_app_config_names_daemon_file(
    f: FinalizationModel,
    d: String,
    created: String,
    written: String,
    app_created: String,
    p: String,
)
    requires
        f.phase is ResolvingDatadir,
    ensures
        ({
            let s1 = after(f, Ok(d));
            let s2 = after(s1.0, Ok(created));
            let s3 = after(s2.0, Ok(written));
            let s4 = after(s3.0, Ok(app_created));
            let s5 = after(s4.0, Ok(p));
            let daemon_path = joined(network_dir(d@, f.config), DAEMON_CONFIG_FILE_NAME@);
            &&& s1.1 == ActionView::CreateFile(daemon_path)
            &&& s2.1 == ActionView::WriteDaemonConfig
            &&& s3.1 == ActionView::CreateFile(joined(network_dir(d@, f.config), DEFAULT_FILE_NAME@))
            &&& s4.1 == ActionView::Canonicalize(daemon_path)
            &&& s5.1 == ActionView::WriteAppConfig(p@)
            &&& s5.0.config.data_dir == Some(d)
        }),
{
}

/// A configuration that the daemon refuses ends the finalization at once, with
/// the same error for the same cause each time, before any file is created or
/// written.
pub proof fn lemma_validation_failure_writes_nothing(config: DaemonConfig, cause: String)
    ensures
        after(initial(config), Err(cause)).0.phase is Finished,
        after(initial(config), Err(cause)).1 == ActionView::Done(
            Err(ErrorView::Unexpected("Failed to start daemon with entered config: "@ + cause@)),
        ),
{
}

impl Finalization {
    /// Starts the finalization of `config`: the first action is always the validation.
    pub fn start(config: DaemonConfig) -> (r: (Finalization, Action))
        ensures
            r.0@ == initial(config),
            r.1@ == ActionView::ValidateConfig,
    {
        (
            Finalization {
                phase: Phase::Validating,
                config,
                daemon_config_path: String::new(),
                app_config_path: String::new(),
            },
            Action::ValidateConfig,
        )
    }

    pub fn phase(&self) -> (r: Phase)
        ensures
            r == self@.phase,
    {
        self.phase
    }

    /// The configuration to validate and to write.
    pub fn daemon_config(&self) -> (r: &DaemonConfig)
        ensures
            *r == self@.config,
    {
        &self.config
    }

    /// Takes the outcome of the last action and gives the next one.
    pub fn resume(&mut self, outcome: Result<String, String>) -> (r: Action)
        requires
            !(old(self)@.phase is Finished),
        ensures
            (final(self)@, r@) == after(old(self)@, outcome),
    {
        match self.phase {
            Phase::Validating => match outcome {
                Err(e) => self.finish(
                    Err(
                        Error::Unexpected(
                            String::from_str("Failed to start daemon with entered config: ").concat(
                                e.as_str(),
                            ),
                        ),
                    ),
                ),
                Ok(_) => match &self.config.data_dir {
                    Some(d) => {
                        self.phase = Phase::ResolvingDatadir;
                        Action::Canonicalize(d.clone())
                    },
                    None => self.finish(
                        Err(Error::Unexpected(String::from_str("No data directory was given"))),
                    ),
                },
            },
            Phase::ResolvingDatadir => match outcome {
                Err(e) => self.finish(
                    Err(
                        Error::Unexpected(
                            String::from_str("Failed to canonicalize datadir path: ").concat(
                                e.as_str(),
                            ),
                        ),
                    ),
                ),
                Ok(d) => {
                    let net = self.config.network.name();
                    let dir = join_path(d.as_str(), net.as_str());
                    self.daemon_config_path = join_path(dir.as_str(), DAEMON_CONFIG_FILE_NAME);
                    self.app_config_path = join_path(dir.as_str(), DEFAULT_FILE_NAME);
                    self.config.data_dir = Some(d);
                    self.phase = Phase::CreatingDaemonFile;
                    Action::CreateFile(self.daemon_config_path.clone())
                },
            },
            Phase::CreatingDaemonFile => match outcome {
                Err(e) => self.finish(Err(Error::CannotCreateFile(e))),
                Ok(_) => {
                    self.phase = Phase::WritingDaemonFile;
                    Action::WriteDaemonConfig
                },
            },
            Phase::WritingDaemonFile => match outcome {
                Err(e) => self.finish(Err(Error::CannotWriteToFile(e))),
                Ok(_) => {
                    self.phase = Phase::CreatingAppFile;
                    Action::CreateFile(self.app_config_path.clone())
                },
            },
            Phase::CreatingAppFile => match outcome {
                Err(e) => self.finish(Err(Error::CannotCreateFile(e))),
                Ok(_) => {
                    self.phase = Phase::ResolvingDaemonFile;
                    Action::Canonicalize(self.daemon_config_path.clone())
                },
            },
            Phase::ResolvingDaemonFile => match outcome {
                Err(e) => self.finish(
                    Err(
                        Error::Unexpected(
                            String::from_str("Failed to canonicalize minisafed config path: ").concat(
                                e.as_str(),
                            ),
                        ),
                    ),
                ),
                Ok(p) => {
                    self.phase = Phase::WritingAppFile;
                    Action::WriteAppConfig(Config::new(p))
                },
            },
            Phase::WritingAppFile => match outcome {
                Err(e) => self.finish(Err(Error::CannotWriteToFile(e))),
                Ok(_) => {
                    let path = self.app_config_path.clone();
                    self.finish(Ok(path))
                },
            },
            Phase::Finished => Action::ValidateConfig,
        }
    }

    fn finish(&mut self, result: Result<String, Error>) -> (r: Action)
        ensures
            final(self)@ == (FinalizationModel { phase: Phase::Finished, ..old(self)@ }),
            r == Action::Done(result),
    {
        self.phase = Phase::Finished;
        Action::Done(result)
    }
}

} // verus!

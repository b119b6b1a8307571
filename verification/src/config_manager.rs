//! The configuration in use and the file it comes from: loading at start-up,
//! falling back to the defaults, and reloading. The caller inspects and reads
//! the file system; these functions decide what follows.

use vstd::prelude::*;

use crate::config::{Config, ConfigView};
use crate::config_error::ConfigError;
use crate::config_read::default_config;

verus! {

/// A configuration file's path: its bytes, and how it is displayed.
#[derive(Clone, Debug)]
pub struct ConfigPath {
    pub bytes: Vec<u8>,
    pub display: String,
}

/// What loading does with a configuration path.
#[derive(Clone, Copy, Debug, PartialEq, Eq, Structural)]
pub enum LoadStep {
    /// Read and parse the file.
    ReadFile,
    /// Use the built-in defaults.
    UseDefaults,
    /// Fail: the file that was asked for does not exist.
    Missing,
}

/// What loading does: an existing file is read; a missing file that was
/// asked for explicitly is an error; otherwise the defaults are used.
pub open spec fn load_step_for(has_path: bool, exists: bool, explicit: bool) -> LoadStep {
    if has_path && exists {
        LoadStep::ReadFile
    } else if has_path && explicit {
        LoadStep::Missing
    } else {
        LoadStep::UseDefaults
    }
}

/// Decides what loading does with a path (if there is one), whether it
/// exists, and whether it was given explicitly.
pub fn load_step(has_path: bool, exists: bool, explicit: bool) -> (step: LoadStep)
    ensures
        step == load_step_for(has_path, exists, explicit),
{
    if has_path && exists {
        LoadStep::ReadFile
    } else if has_path && explicit {
        LoadStep::Missing
    } else {
        LoadStep::UseDefaults
    }
}

/// The error for a configuration file that does not exist.
pub fn missing_file(display: &str) -> (error: ConfigError)
    ensures
        error.0@ == "configuration file does not exist: "@ + display@,
{
    let mut m = crate::text::chars_of("configuration file does not exist: ");
    crate::text::append_str(&mut m, display);
    ConfigError::from_chars(&m)
}

/// The configuration in use and the file it was loaded from.
#[derive(Debug)]
pub struct ConfigManager {
    config: Config,
    path: Option<ConfigPath>,
}

impl ConfigManager {
    /// The configuration in use.
    pub closed spec fn current(&self) -> ConfigView {
        self.config@
    }

    /// The displayed path of the file, if there is one.
    pub closed spec fn path_text(&self) -> Option<Seq<char>> {
        match &self.path {
            Some(p) => Some(p.display@),
            None => None,
        }
    }

    /// The bytes of the file's path, if there is one: what a reload reads.
    pub closed spec fn path_bytes(&self) -> Option<Seq<u8>> {
        match &self.path {
            Some(p) => Some(p.bytes@),
            None => None,
        }
    }

    /// A manager of `config`, loaded from `path`.
    pub fn new(config: Config, path: Option<ConfigPath>) -> (manager: ConfigManager)
        ensures
            manager.current() == config@,
            manager.path_text() == match path {
                Some(p) => Some(p.display@),
                None => None::<Seq<char>>,
            },
            manager.path_bytes() == match path {
                Some(p) => Some(p.bytes@),
                None => None::<Seq<u8>>,
            },
    {
        ConfigManager { config, path }
    }

    /// The manager used when loading failed: the defaults, with the path kept
    /// so that a later reload can read the file once it is fixed.
    pub fn fallback(path: Option<ConfigPath>) -> (manager: ConfigManager)
        ensures
            manager.current() == default_config(),
            manager.path_text() == match path {
                Some(p) => Some(p.display@),
                None => None::<Seq<char>>,
            },
            manager.path_bytes() == match path {
                Some(p) => Some(p.bytes@),
                None => None::<Seq<u8>>,
            },
    {
        ConfigManager { config: Config::default(), path }
    }

    /// The configuration in use.
    pub fn config(&self) -> (config: &Config)
        ensures
            config@ == self.current(),
    {
        &self.config
    }

    /// The path of the file, if there is one.
    pub fn path(&self) -> (path: Option<&ConfigPath>)
        ensures
            match path {
                Some(p) => self.path_text() == Some(p.display@) && self.path_bytes() == Some(p.bytes@),
                None => self.path_text() is None && self.path_bytes() is None,
            },
    {
        match &self.path {
            Some(p) => Some(p),
            None => None,
        }
    }

    /// Where the configuration comes from, for messages.
    pub fn display_path(&self) -> (text: String)
        ensures
            text@ == match self.path_text() {
                Some(p) => p,
                None => "built-in defaults"@,
            },
    {
        match &self.path {
            Some(p) => p.display.clone(),
            None => crate::text::owned("built-in defaults"),
        }
    }

    /// What a reload does, given whether the file at [`Self::path`] exists:
    /// without a file the defaults are used; a file that has gone is an
    /// error; otherwise it is read again.
    pub fn reload_step(&self, exists: bool) -> (step: LoadStep)
        ensures
            step == match self.path_bytes() {
                None => LoadStep::UseDefaults,
                Some(_) => if exists {
                    LoadStep::ReadFile
                } else {
                    LoadStep::Missing
                },
            },
    {
        match &self.path {
            None => LoadStep::UseDefaults,
            Some(_) => if exists {
                LoadStep::ReadFile
            } else {
                LoadStep::Missing
            },
        }
    }

    /// Reloads without a file: the defaults are used.
    pub fn reset(&mut self)
        ensures
            final(self).current() == default_config(),
            final(self).path_text() == old(self).path_text(),
            final(self).path_bytes() == old(self).path_bytes(),
    {
        self.config = Config::default();
    }

    /// Finishes a reload with the outcome of reading the file again: a new
    /// configuration replaces the one in use, and a failure leaves it as it
    /// was and is returned.
    pub fn finish_reload(&mut self, outcome: Result<Config, ConfigError>) -> (r: Result<(), ConfigError>)
        ensures
            final(self).path_text() == old(self).path_text(),
            final(self).path_bytes() == old(self).path_bytes(),
            match outcome {
                Ok(c) => r is Ok && final(self).current() == c@,
                Err(e) => r == Err::<(), ConfigError>(e) && final(self).current() == old(self).current(),
            },
    {
        match outcome {
            Ok(config) => {
                self.config = config;
                Ok(())
            },
            Err(error) => Err(error),
        }
    }
}

} // verus!

//! Bot settings: sharding, logging, database limits and worker threads.

pub mod bot;
pub mod database;
pub mod logging;
pub mod path;
pub mod sharding;
pub mod sources;

use vstd::prelude::*;
use crate::settings::bot::Bot;
use crate::settings::database::Database;
use crate::settings::logging::Logging;

verus! {

/// Everything the bot is configured with, and the file it was read from.
#[derive(Debug)]
pub struct Settings {
    pub bot: Bot,
    pub database: Database,
    pub logging: Logging,
    pub worker: crate::tasks::settings::Settings,
    /// The file the settings were read from, if any.
    pub path: Option<String>,
    /// How many threads the bot runs on.
    pub threads: usize,
}

impl Settings {
    /// The file the settings were read from, if any.
    pub open spec fn spec_path(&self) -> Option<Seq<char>> {
        match self.path {
            Some(p) => Some(p@),
            None => None,
        }
    }

    /// Settings read from no file: logging and worker as given or their
    /// defaults, and as many threads as given or half the physical cores
    /// (at least one).
    pub fn new(
        bot: Bot,
        database: Database,
        logging: Option<Logging>,
        worker: Option<crate::tasks::settings::Settings>,
        threads: Option<usize>,
    ) -> (s: Settings)
        ensures
            s.bot == bot,
            s.database == database,
            s.spec_path() is None,
            logging is Some ==> s.logging == logging->0,
            logging is None ==> s.logging.style == crate::settings::logging::LoggingStyle::Compact && s.logging.targets@.len() == 0,
            worker is Some ==> s.worker == worker->0,
            threads is Some ==> s.threads == threads->0,
            threads is None ==> s.threads >= 1,
    {
        let logging = match logging {
            Some(l) => l,
            None => Logging::default(),
        };
        let worker = match worker {
            Some(w) => w,
            None => crate::tasks::settings::Settings::default(),
        };
        let threads: usize = match threads {
            Some(n) => n,
            None => default_workers(),
        };
        Settings { bot, database, logging, worker, path: None, threads }
    }

    /// The same settings, read from the file at `path`.
    pub fn with_path(self, path: Option<String>) -> (s: Settings)
        ensures
            s.spec_path() == (match path {
                Some(p) => Some(p@),
                None => None,
            }),
            s.threads == self.threads,
            s.bot == self.bot,
            s.database == self.database,
            s.logging == self.logging,
            s.worker == self.worker,
    {
        Settings { path, ..self }
    }

    /// The file the settings were read from, if any.
    pub fn path(&self) -> (r: Option<&str>)
        ensures
            r is Some <==> self.spec_path() is Some,
            r matches Some(p) ==> p@ == self.spec_path()->0,
    {
        match &self.path {
            Some(p) => Some(p.as_str()),
            None => None,
        }
    }
}

/// The settings could not be loaded.
#[derive(Clone, Copy, Debug, PartialEq, Eq)]
pub struct SettingsLoadError;

impl SettingsLoadError {
    /// What went wrong, in words.
    pub fn message(&self) -> (r: &'static str)
        ensures
            r@ == "Could not load Eden settings"@,
    {
        "Could not load Eden settings"
    }
}

/// The number of worker threads for `physical_cores` cores: half of them,
/// and at least one.
pub open spec fn spec_default_workers(physical_cores: usize) -> usize {
    if physical_cores / 2 >= 1 { physical_cores / 2 } else { 1 }
}

/// The number of worker threads for `physical_cores` cores: half of them,
/// and at least one.
pub fn default_workers_for(physical_cores: usize) -> (n: usize)
    ensures
        n == spec_default_workers(physical_cores),
        n >= 1,
{
    let half = physical_cores / 2;
    if half >= 1 { half } else { 1 }
}

/// The number of physical cores of this machine, as `num_cpus::get_physical` counts them.
///
/// What it returns depends on the machine, so nothing is stated of it.
#[verifier::external_body]
fn physical_cores() -> usize {
    num_cpus::get_physical()
}

/// The number of worker threads for this machine: half of its physical
/// cores, and at least one.
pub fn default_workers() -> (n: usize)
    ensures
        n >= 1,
        exists|cores: usize| n == spec_default_workers(cores),
{
    let cores = physical_cores();
    let n = default_workers_for(cores);
    assert(n == spec_default_workers(cores));
    n
}

/// Two cores or more give one worker for every two cores, rounded down;
/// fewer give one worker.
pub proof fn law_one_worker_per_two_cores(cores: usize)
    ensures
        cores >= 2 ==> spec_default_workers(cores) * 2 <= cores < spec_default_workers(cores) * 2 + 2,
        cores < 2 ==> spec_default_workers(cores) == 1,
{
}

} // verus!

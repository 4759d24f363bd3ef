//! The command line of the launcher.
use std::path::PathBuf;
use vstd::prelude::*;

verus! {

/// The file in the current folder that the configuration is read from by default.
pub const CONFIG_NAME: &'static str = "config.json";

/// The arguments of the launcher.
#[derive(Debug)]
pub struct CliConfig {
    /// JSON config file.
    pub config_file: Option<PathBuf>,
    /// JSON config data.
    pub config_data: Option<String>,
}

impl Default for CliConfig {
    fn default() -> (res: Self)
        ensures
            res.config_file is None,
            res.config_data is None,
    {
        CliConfig { config_file: None, config_data: None }
    }
}

/// Where the configuration comes from.
#[derive(Debug)]
pub enum ConfigSource {
    /// The arguments hold it.
    Data(String),
    /// It is read from a file.
    File(PathBuf),
    /// There is none.
    Missing,
}

/// Where the configuration comes from: the arguments themselves, the file that they name, or the
/// default file, if there is a current folder that it could lie in.
pub fn config_source(cli: CliConfig, default_file: Option<PathBuf>) -> (res: ConfigSource)
    ensures
        res == (match (cli.config_data, cli.config_file, default_file) {
            (Some(data), _, _) => ConfigSource::Data(data),
            (None, Some(file), _) => ConfigSource::File(file),
            (None, None, Some(file)) => ConfigSource::File(file),
            (None, None, None) => ConfigSource::Missing,
        }),
{
    match cli.config_data {
        Some(data) => ConfigSource::Data(data),
        None => match cli.config_file {
            Some(file) => ConfigSource::File(file),
            None => match default_file {
                Some(file) => ConfigSource::File(file),
                None => ConfigSource::Missing,
            },
        },
    }
}

/// How a run of the launcher can end.
#[derive(Clone, Copy, Debug, PartialEq, Eq, Structural)]
pub enum Outcome {
    Success,
    /// The arguments could not be read.
    BadArguments,
    /// No configuration was found.
    NoConfig,
    /// The configuration could not be read.
    BadConfig,
    /// The launch failed.
    LaunchFailed,
}

/// The exit code that tells how a run ended.
pub fn exit_code(outcome: Outcome) -> (res: i32)
    ensures
        res == (match outcome {
            Outcome::Success => 0i32,
            Outcome::BadArguments => 1i32,
            Outcome::NoConfig => 2i32,
            Outcome::BadConfig => 3i32,
            Outcome::LaunchFailed => 4i32,
        }),
{
    match outcome {
        Outcome::Success => 0,
        Outcome::BadArguments => 1,
        Outcome::NoConfig => 2,
        Outcome::BadConfig => 3,
        Outcome::LaunchFailed => 4,
    }
}

/// A run that succeeded is told apart from every other by its exit code, which is 0, and so is each
/// way of failing from the others: the later it fails, the higher the code.
pub proof fn law_exit_codes(a: Outcome, b: Outcome, x: i32, y: i32)
    requires
        call_ensures(exit_code, (a,), x),
        call_ensures(exit_code, (b,), y),
    ensures
        x == y ==> a == b,
        x == 0 <==> a == Outcome::Success,
        a == Outcome::BadArguments ==> x == 1,
        a == Outcome::NoConfig ==> x == 2,
        a == Outcome::BadConfig ==> x == 3,
        a == Outcome::LaunchFailed ==> x == 4,
{
}

/// Data in the arguments wins over every file, and a file in the arguments over the default one. Only
/// where there is none of the three is there no configuration.
pub proof fn law_config_source(cli: CliConfig, default_file: Option<PathBuf>, res: ConfigSource)
    requires
        call_ensures(config_source, (cli, default_file), res),
    ensures
        cli.config_data is Some ==> res == ConfigSource::Data(cli.config_data.unwrap()),
        cli.config_data is None && cli.config_file is Some ==> res == ConfigSource::File(
            cli.config_file.unwrap(),
        ),
        cli.config_data is None && cli.config_file is None && default_file is Some ==> res
            == ConfigSource::File(default_file.unwrap()),
        res is Missing <==> cli.config_data is None && cli.config_file is None
            && default_file is None,
{
}

} // verus!

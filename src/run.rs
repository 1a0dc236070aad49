use vstd::prelude::*;
use crate::args::{args_spec, args_view, parse_args, ArgError, Options, OptionsModel};
use crate::config::{load_config, text_config, Config, ConfigError};
use crate::text::{lines_of, split_lines};

verus! {

/// Why a run stopped before any proxy was checked.
#[derive(Clone, Copy, Debug, PartialEq, Eq, Structural)]
pub enum RunError {
    /// The command line was refused.
    Args(ArgError),
    /// The configuration could not be had.
    Config(ConfigError),
    /// No `-proxy` file was named.
    ProxyFileUnspecified,
    /// The proxy file could not be read.
    ProxyFileMissing,
}

/// What a run needs before it reads the proxy file.
pub struct RunSetup {
    pub config: Config,
    pub options: Options,
    pub proxy_path: String,
}

/// The view of an optional text.
pub open spec fn opt_str(o: Option<&str>) -> Option<Seq<char>> {
    match o {
        Some(t) => Some(t@),
        None => None,
    }
}

/// What a run is set up with, from its command line and the text of its configuration
/// file: the configuration's three strings, the options and the proxy file path.
pub open spec fn setup_spec(args: Seq<Seq<char>>, config_text: Option<Seq<char>>) -> Result<
    ((Seq<char>, Seq<char>, Seq<char>), OptionsModel, Seq<char>),
    RunError,
> {
    if args.len() < 3 {
        Err(RunError::Args(ArgError::Usage))
    } else {
        match config_text {
            None => Err(RunError::Config(ConfigError::Missing)),
            Some(t) => match text_config(t) {
                Err(e) => Err(RunError::Config(e)),
                Ok(fields) => match args_spec(args) {
                    Err(e) => Err(RunError::Args(e)),
                    Ok(m) => match m.2 {
                        None => Err(RunError::ProxyFileUnspecified),
                        Some(path) => Ok((fields, m, path)),
                    },
                },
            },
        }
    }
}

/// Prepares a run from the command line and the text of the configuration file (`None`
/// where it could not be read). A short command line is refused first; then a missing or
/// bad configuration, before the other arguments are looked at; then a bad argument; then
/// a command line that names no proxy file. Only a run that passes all of these learns the
/// path of the proxy file, so nothing else is read before.
pub fn start_run(args: &Vec<String>, config_text: Option<&str>) -> (r: Result<RunSetup, RunError>)
    ensures
        match setup_spec(args_view(args@), opt_str(config_text)) {
            Ok((fields, m, path)) => r matches Ok(s) && {
                &&& s.config.fields() == fields
                &&& s.options.model() == m
                &&& s.proxy_path@ == path
            },
            Err(e) => r matches Err(e2) && e2 == e,
        },
{
    if args.len() < 3 {
        return Err(RunError::Args(ArgError::Usage));
    }
    let text = match config_text {
        Some(t) => t,
        None => return Err(RunError::Config(ConfigError::Missing)),
    };
    let config = match load_config(text) {
        Ok(c) => c,
        Err(e) => return Err(RunError::Config(e)),
    };
    let options = match parse_args(args) {
        Ok(o) => o,
        Err(e) => return Err(RunError::Args(e)),
    };
    let proxy_path = match &options.proxy_path {
        Some(p) => p.clone(),
        None => return Err(RunError::ProxyFileUnspecified),
    };
    Ok(RunSetup { config, options, proxy_path })
}

/// The entries of a run, from the text of the proxy file (`None` where it could not be
/// read): its non-empty lines, in order.
pub fn proxy_entries(proxy_text: Option<&str>) -> (r: Result<Vec<String>, RunError>)
    ensures
        proxy_text is None <==> r == Err::<Vec<String>, RunError>(RunError::ProxyFileMissing),
        proxy_text matches Some(t) ==> (r matches Ok(lines) && lines@.map_values(|l: String| l@)
            == lines_of(t@)),
{
    match proxy_text {
        Some(t) => Ok(split_lines(t)),
        None => Err(RunError::ProxyFileMissing),
    }
}

} // verus!

use vstd::prelude::*;
use vstd::string::StringExecFns;
use crate::config::{Config, is_default_config};
use crate::error::RunError;
use crate::report::{OutputFormat, Platform, JsonReport, text_report, json_report, text_lines, success_status};

verus! {

/// What became of the attempt to load a configuration file.
#[derive(Debug, Clone)]
pub enum ConfigLoad {
    /// No file was named.
    NotGiven,
    /// The file at this path could not be read.
    Unreadable(String),
    /// The file was read and held this configuration.
    Parsed(Config),
    /// The file was read but did not hold a configuration; carries the
    /// parser's message.
    Malformed(String),
}

/// The configuration a run goes on with, and the warning to print first, if any.
#[derive(Debug, Clone)]
pub struct Resolved {
    pub config: Config,
    pub warning: Option<String>,
}

/// The warning printed when the named configuration file cannot be read.
pub open spec fn unreadable_warning(path: Seq<char>) -> Seq<char> {
    "Warning: Could not read config file '"@ + path + "', using defaults"@
}

/// Decides the configuration of a run: the built-in one when no file is
/// named, the built-in one with a warning when the file cannot be read, the
/// file's own when it parsed, and a `Parse` error when it did not.
pub fn resolve_config(load: ConfigLoad) -> (r: Result<Resolved, RunError>)
    ensures
        match load {
            ConfigLoad::NotGiven => r matches Ok(res) && is_default_config(res.config) && res.warning
                is None,
            ConfigLoad::Unreadable(path) => r matches Ok(res) && is_default_config(res.config)
                && (res.warning matches Some(w) && w@ == unreadable_warning(path@)),
            ConfigLoad::Parsed(c) => r matches Ok(res) && res.config.same_as(&c)
                && res.warning is None,
            ConfigLoad::Malformed(m) => r matches Err(RunError::Parse(e)) && e@ == m@,
        },
{
    match load {
        ConfigLoad::NotGiven => Ok(Resolved { config: Config::default(), warning: None }),
        ConfigLoad::Unreadable(path) => {
            let mut w = String::from_str("Warning: Could not read config file '");
            w.append(path.as_str());
            w.append("', using defaults");
            Ok(Resolved { config: Config::default(), warning: Some(w) })
        },
        ConfigLoad::Parsed(c) => Ok(Resolved { config: c, warning: None }),
        ConfigLoad::Malformed(m) => Err(RunError::Parse(m)),
    }
}

/// A report ready to be written.
#[derive(Debug, Clone)]
pub enum Rendered {
    /// The lines of a text report.
    Text(Vec<String>),
    /// The content of a JSON report.
    Json(JsonReport),
}

/// Renders the report for `c` in the format named `format`. The platform is
/// part of the report exactly when `show_platform` holds. An unknown format
/// gives an `UnsupportedFormat` error and no report.
pub fn render(format: &str, c: &Config, show_platform: bool, platform: Platform) -> (r: Result<
    Rendered,
    RunError,
>)
    ensures
        format@ == "text"@ ==> (r matches Ok(Rendered::Text(lines)) && lines@.map_values(
            |s: String| s@,
        ) == text_lines(*c, if show_platform { Some(platform) } else { None })),
        format@ == "json"@ ==> (r matches Ok(Rendered::Json(j)) && j.name@ == c.name@
            && j.version@ == c.version@ && j.features@.map_values(|s: String| s@)
            == c.features_view() && j.status@ == success_status() && (j.platform is Some
            <==> show_platform) && (show_platform ==> j.platform == Some(platform))),
        format@ != "text"@ && format@ != "json"@ ==> (r matches Err(RunError::UnsupportedFormat(
            f,
        )) && f@ == format@),
{
    let shown = if show_platform {
        Some(platform)
    } else {
        None
    };
    match OutputFormat::parse(format) {
        Ok(OutputFormat::Text) => Ok(Rendered::Text(text_report(c, &shown))),
        Ok(OutputFormat::Json) => Ok(Rendered::Json(json_report(c, shown))),
        Err(e) => Err(e),
    }
}

} // verus!

use vstd::prelude::*;
use vstd::string::StringExecFns;
use crate::config::{Config, joined};
use crate::error::RunError;

verus! {

/// How the status report is written.
#[derive(Debug, Clone, Copy, PartialEq, Eq)]
pub enum OutputFormat {
    /// Human-readable lines.
    Text,
    /// One JSON object.
    Json,
}

impl OutputFormat {
    /// Reads an output format by its name: `text` or `json`; any other name
    /// is an `UnsupportedFormat` error carrying that name.
    pub fn parse(name: &str) -> (r: Result<OutputFormat, RunError>)
        ensures
            name@ == "text"@ ==> r == Ok::<OutputFormat, RunError>(OutputFormat::Text),
            name@ == "json"@ ==> r == Ok::<OutputFormat, RunError>(OutputFormat::Json),
            name@ != "text"@ && name@ != "json"@ ==> (r matches Err(RunError::UnsupportedFormat(
                f,
            )) && f@ == name@),
    {
        proof {
            reveal_strlit("text");
            reveal_strlit("json");
            assert("text"@[0] != "json"@[0]);
        }
        let given = String::from_str(name);
        if given == String::from_str("text") {
            Ok(OutputFormat::Text)
        } else if given == String::from_str("json") {
            Ok(OutputFormat::Json)
        } else {
            Err(RunError::UnsupportedFormat(given))
        }
    }
}

/// The machine the reporter runs on.
#[derive(Debug, Clone)]
pub struct Platform {
    /// Operating system name.
    pub os: String,
    /// CPU architecture.
    pub arch: String,
    /// Operating system family.
    pub family: String,
}

/// The title line: the name and the version.
pub open spec fn title_line(c: Config) -> Seq<char> {
    "🚀 "@ + c.name@ + " v"@ + c.version@
}

/// The features line: the labels joined by a comma and a space.
pub open spec fn features_text_line(c: Config) -> Seq<char> {
    "Features: "@ + joined(c.features_view(), ", "@)
}

/// The platform line: system, architecture and family.
pub open spec fn platform_line(p: Platform) -> Seq<char> {
    "Platform: "@ + p.os@ + " "@ + p.arch@ + " ("@ + p.family@ + ")"@
}

/// The closing line of a text report.
pub open spec fn status_line() -> Seq<char> {
    "Status: ✅ Success"@
}

/// The lines of a text report: title, features, the platform line where a
/// platform is given, and the status line.
pub open spec fn text_lines(c: Config, p: Option<Platform>) -> Seq<Seq<char>> {
    match p {
        Some(p) => seq![title_line(c), features_text_line(c), platform_line(p), status_line()],
        None => seq![title_line(c), features_text_line(c), status_line()],
    }
}

/// The lines of a text report for `c`, with a platform line where `platform`
/// is given.
pub fn text_report(c: &Config, platform: &Option<Platform>) -> (r: Vec<String>)
    ensures
        r@.map_values(|s: String| s@) == text_lines(*c, *platform),
{
    let mut lines: Vec<String> = Vec::new();
    let mut title = String::from_str("🚀 ");
    title.append(c.name.as_str());
    title.append(" v");
    title.append(c.version.as_str());
    lines.push(title);
    let mut features = String::from_str("Features: ");
    let joined_labels = c.features_line();
    features.append(joined_labels.as_str());
    lines.push(features);
    match platform {
        Some(p) => {
            let mut line = String::from_str("Platform: ");
            line.append(p.os.as_str());
            line.append(" ");
            line.append(p.arch.as_str());
            line.append(" (");
            line.append(p.family.as_str());
            line.append(")");
            lines.push(line);
        },
        None => {},
    }
    lines.push(String::from_str("Status: ✅ Success"));
    assert(lines@.map_values(|s: String| s@) =~= text_lines(*c, *platform));
    lines
}

/// The content of a JSON report: the configuration's fields, a status and,
/// where asked for, the platform.
#[derive(Debug, Clone)]
pub struct JsonReport {
    pub name: String,
    pub version: String,
    pub features: Vec<String>,
    /// Always `success` in a report that is written.
    pub status: String,
    pub platform: Option<Platform>,
}

/// The status a written report carries.
pub open spec fn success_status() -> Seq<char> {
    "success"@
}

/// The content of a JSON report for `c`, with `platform` where it is given.
pub fn json_report(c: &Config, platform: Option<Platform>) -> (r: JsonReport)
    ensures
        r.name@ == c.name@,
        r.version@ == c.version@,
        r.features@.map_values(|s: String| s@) == c.features_view(),
        r.status@ == success_status(),
        r.platform == platform,
{
    let mut features: Vec<String> = Vec::new();
    let n = c.features.len();
    let mut i: usize = 0;
    while i < n
        invariant
            n == c.features@.len(),
            i <= n,
            features@.len() == i,
            forall|j: int| 0 <= j < i ==> features@[j]@ == c.features@[j]@,
        decreases n - i,
    {
        features.push(c.features[i].clone());
        i += 1;
    }
    assert(features@.map_values(|s: String| s@) =~= c.features_view());
    JsonReport {
        name: c.name.clone(),
        version: c.version.clone(),
        features,
        status: String::from_str("success"),
        platform,
    }
}

} // verus!

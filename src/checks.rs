use vstd::prelude::*;
use vstd::string::StringExecFns;
use crate::config::Config;
use crate::error::RunError;

verus! {

/// How much a run tells on standard error, from the number of verbosity
/// flags: nothing at 0, progress from 1 on, details from 2 on.
#[derive(Debug, Clone, Copy)]
pub struct Diagnostics {
    pub progress: bool,
    pub details: bool,
}

impl Diagnostics {
    /// The diagnostics that `level` verbosity flags ask for.
    pub fn from_level(level: u8) -> (r: Diagnostics)
        ensures
            r.progress == (level >= 1),
            r.details == (level >= 2),
    {
        Diagnostics { progress: level >= 1, details: level >= 2 }
    }
}

/// The name of the sample configuration.
pub open spec fn sample_name() -> Seq<char> {
    "test"@
}

/// The version of the sample configuration.
pub open spec fn sample_version() -> Seq<char> {
    "1.0.0"@
}

/// The feature labels of the sample configuration.
pub open spec fn sample_features() -> Seq<Seq<char>> {
    seq!["test"@, "io"@]
}

/// The configuration that the serialization check sends through a round trip.
pub fn sample_config() -> (r: Config)
    ensures
        r.name@ == sample_name(),
        r.version@ == sample_version(),
        r.features_view() == sample_features(),
{
    let features: Vec<String> = vec![String::from_str("test"), String::from_str("io")];
    let r = Config::new(String::from_str("test"), String::from_str("1.0.0"), features);
    assert(r.features_view() =~= sample_features());
    r
}

/// What the self-checks observed: the result of sending `sample_config()`
/// through serialization and back (the configuration read back, or the
/// serializer's message), whether reading a missing file failed, and whether
/// a home directory variable was found.
#[derive(Debug)]
pub struct CheckObservations {
    pub round_trip: Result<Config, String>,
    pub missing_file_refused: bool,
    pub home_found: bool,
}

/// What the self-checks report: the lines for standard error and, where the
/// serialization check failed, the error that ends the run.
#[derive(Debug, Clone)]
pub struct CheckReport {
    pub notes: Vec<String>,
    pub failure: Option<RunError>,
}

/// The message of a round trip that handed back another configuration.
pub open spec fn round_trip_changed_message() -> Seq<char> {
    "serialization round trip changed the configuration"@
}

/// Whether the round trip handed back the sample configuration unchanged.
pub open spec fn round_trip_passed(o: CheckObservations) -> bool {
    o.round_trip matches Ok(back) && back.name@ == sample_name() && back.version@
        == sample_version() && back.features_view() == sample_features()
}

/// The lines the self-checks print, given that the serialization check passed.
pub open spec fn passing_notes(d: Diagnostics, o: CheckObservations) -> Seq<Seq<char>> {
    let start: Seq<Seq<char>> = if d.progress {
        seq!["Running basic operations test..."@]
    } else {
        seq![]
    };
    if d.details {
        let env_line = if o.home_found {
            "✅ Environment variable test passed"@
        } else {
            "⚠️ Environment variable test skipped"@
        };
        let error_line = if o.missing_file_refused {
            "✅ Error handling test passed"@
        } else {
            "⚠️ Error handling test: the missing file was readable"@
        };
        start + seq!["✅ Serialization test passed"@, error_line, env_line]
    } else {
        start
    }
}

/// Judges the self-checks. The serialization check passes only when the
/// sample configuration came back unchanged; otherwise the run ends with the
/// serializer's message as a `Parse` error, after the progress line. The
/// other two checks never end the run; at the detailed level a missing file
/// that could be read is reported as a warning line.
pub fn judge_checks(d: Diagnostics, o: &CheckObservations) -> (r: CheckReport)
    ensures
        round_trip_passed(*o) ==> r.failure is None && r.notes@.map_values(|s: String| s@)
            == passing_notes(d, *o),
        !round_trip_passed(*o) ==> r.notes@.map_values(|s: String| s@) == (if d.progress {
            seq!["Running basic operations test..."@]
        } else {
            Seq::<Seq<char>>::empty()
        }),
        o.round_trip matches Err(m) ==> (r.failure matches Some(RunError::Parse(e)) && e@
            == m@),
        (o.round_trip is Ok && !round_trip_passed(*o)) ==> (r.failure matches Some(
            RunError::Parse(e),
        ) && e@ == round_trip_changed_message()),
{
    let mut notes: Vec<String> = Vec::new();
    if d.progress {
        notes.push(String::from_str("Running basic operations test..."));
    }
    let failure = match &o.round_trip {
        Err(m) => Some(RunError::Parse(m.clone())),
        Ok(back) => {
            let sample = sample_config();
            if back.same_fields(&sample) {
                None
            } else {
                Some(RunError::Parse(String::from_str("serialization round trip changed the configuration")))
            }
        },
    };
    if failure.is_some() {
        assert(notes@.map_values(|s: String| s@) =~= (if d.progress {
            seq!["Running basic operations test..."@]
        } else {
            Seq::<Seq<char>>::empty()
        }));
        return CheckReport { notes, failure };
    }
    if d.details {
        notes.push(String::from_str("✅ Serialization test passed"));
        if o.missing_file_refused {
            notes.push(String::from_str("✅ Error handling test passed"));
        } else {
            notes.push(String::from_str("⚠️ Error handling test: the missing file was readable"));
        }
        if o.home_found {
            notes.push(String::from_str("✅ Environment variable test passed"));
        } else {
            notes.push(String::from_str("⚠️ Environment variable test skipped"));
        }
    }
    assert(notes@.map_values(|s: String| s@) =~= passing_notes(d, *o));
    CheckReport { notes, failure }
}

} // verus!

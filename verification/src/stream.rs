//! The stream type a federated search is scoped to, and the parsing of the
//! optional query-string selector for it.

use vstd::prelude::*;

verus! {

/// The kind of stream a query runs against. A request that names none
/// runs against logs.
#[derive(Clone, Copy, Debug, PartialEq, Eq, Structural)]
pub enum StreamType {
    Logs,
    Metrics,
    Traces,
    EnrichmentTables,
}

/// The wire name of each stream type.
pub open spec fn stream_type_name(st: StreamType) -> Seq<char> {
    match st {
        StreamType::Logs => "logs"@,
        StreamType::Metrics => "metrics"@,
        StreamType::Traces => "traces"@,
        StreamType::EnrichmentTables => "enrichment_tables"@,
    }
}

/// What the optional `type` query-string parameter denotes: absent means
/// logs; an unrecognized name denotes nothing.
pub open spec fn stream_type_of(param: Option<Seq<char>>) -> Option<StreamType> {
    match param {
        Option::None => Option::Some(StreamType::Logs),
        Option::Some(s) => if s == "logs"@ {
            Option::Some(StreamType::Logs)
        } else if s == "metrics"@ {
            Option::Some(StreamType::Metrics)
        } else if s == "traces"@ {
            Option::Some(StreamType::Traces)
        } else if s == "enrichment_tables"@ {
            Option::Some(StreamType::EnrichmentTables)
        } else {
            Option::None
        },
    }
}

/// Relies on `<str as PartialEq>::eq`: two string slices are equal exactly
/// when they hold the same characters.
#[verifier::external_body]
fn str_equal(a: &str, b: &str) -> (r: bool)
    ensures
        r == (a@ == b@),
{
    a == b
}

impl StreamType {
    /// The wire name, as used in metric labels and the `type` parameter.
    pub fn as_str(&self) -> (r: &'static str)
        ensures
            r@ == stream_type_name(*self),
    {
        match self {
            StreamType::Logs => "logs",
            StreamType::Metrics => "metrics",
            StreamType::Traces => "traces",
            StreamType::EnrichmentTables => "enrichment_tables",
        }
    }
}

/// Reads the stream type out of the optional `type` query-string
/// parameter. Absence defaults to logs; an unrecognized name is rejected,
/// and the whole request with it.
pub fn parse_stream_type(param: Option<&String>) -> (r: Result<StreamType, String>)
    ensures
        match r {
            Ok(st) => stream_type_of(view_param(param)) == Option::Some(st),
            Err(e) => stream_type_of(view_param(param)) is None && e@ == "unrecognized stream type"@,
        },
{
    match param {
        Option::None => Ok(StreamType::Logs),
        Option::Some(s) => {
            if str_equal(s.as_str(), "logs") {
                Ok(StreamType::Logs)
            } else if str_equal(s.as_str(), "metrics") {
                Ok(StreamType::Metrics)
            } else if str_equal(s.as_str(), "traces") {
                Ok(StreamType::Traces)
            } else if str_equal(s.as_str(), "enrichment_tables") {
                Ok(StreamType::EnrichmentTables)
            } else {
                Err(String::from_str("unrecognized stream type"))
            }
        },
    }
}

/// The view of the optional parameter.
pub open spec fn view_param(param: Option<&String>) -> Option<Seq<char>> {
    match param {
        Option::Some(s) => Option::Some(s@),
        Option::None => Option::None,
    }
}

} // verus!

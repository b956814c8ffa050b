//! The records that the container runtime prints for `stats` and
//! `inspect`, and their parsing.

use vstd::prelude::*;
use vstd::string::*;
use crate::clock::rfc3339_accepts;
use crate::output::OutputError;
use crate::text::{fields, split, split_whitespace, strip_leading, without_leading, words, CharClass};
use crate::uptime::{calc_uptime, uptime_text};

verus! {

/// Shape of stats data.
#[derive(Debug, Clone)]
pub struct StatsData {
    pub container_name: String,
    pub cpu: String,
    pub memory: String,
}

/// What a `StatsData` holds.
pub struct StatsView {
    pub container_name: Seq<char>,
    pub cpu: Seq<char>,
    pub memory: Seq<char>,
}

impl View for StatsData {
    type V = StatsView;

    open spec fn view(&self) -> StatsView {
        StatsView {
            container_name: self.container_name@,
            cpu: self.cpu@,
            memory: self.memory@,
        }
    }
}

/// The fields of an inspect record as the runtime printed them, the start
/// time still a date and time.
#[derive(Debug, Clone)]
pub struct InspectRecord {
    pub container_name: String,
    pub status: String,
    pub restart_policy: String,
    pub health: String,
    pub start_time: String,
    pub ports: String,
}

/// What an `InspectRecord` holds.
pub struct InspectRecordView {
    pub container_name: Seq<char>,
    pub status: Seq<char>,
    pub restart_policy: Seq<char>,
    pub health: Seq<char>,
    pub start_time: Seq<char>,
    pub ports: Seq<char>,
}

impl View for InspectRecord {
    type V = InspectRecordView;

    open spec fn view(&self) -> InspectRecordView {
        InspectRecordView {
            container_name: self.container_name@,
            status: self.status@,
            restart_policy: self.restart_policy@,
            health: self.health@,
            start_time: self.start_time@,
            ports: self.ports@,
        }
    }
}

/// Shape of inspected data.
#[derive(Debug, Clone)]
pub struct InspectData {
    pub container_name: String,
    pub status: String,
    pub restart_policy: String,
    pub health: String,
    pub uptime: String,
    pub ports: String,
}

/// What an `InspectData` holds.
pub struct InspectView {
    pub container_name: Seq<char>,
    pub status: Seq<char>,
    pub restart_policy: Seq<char>,
    pub health: Seq<char>,
    pub uptime: Seq<char>,
    pub ports: Seq<char>,
}

impl View for InspectData {
    type V = InspectView;

    open spec fn view(&self) -> InspectView {
        InspectView {
            container_name: self.container_name@,
            status: self.status@,
            restart_policy: self.restart_policy@,
            health: self.health@,
            uptime: self.uptime@,
            ports: self.ports@,
        }
    }
}

impl InspectRecordView {
    /// The inspected data of this record for a container whose uptime
    /// reads `uptime`.
    pub open spec fn with_uptime(self, uptime: Seq<char>) -> InspectView {
        InspectView {
            container_name: self.container_name,
            status: self.status,
            restart_policy: self.restart_policy,
            health: self.health,
            uptime,
            ports: self.ports,
        }
    }
}

/// The stats record in `stats`: after the slashes in front, the first three
/// words are the name, the processor share and the memory. There is none
/// where `stats` has fewer than three words.
pub open spec fn stats_record(stats: Seq<char>) -> Option<StatsView> {
    let w = words(without_leading(stats, CharClass::Exactly('/')));
    if w.len() >= 3 {
        Some(StatsView { container_name: w[0], cpu: w[1], memory: w[2] })
    } else {
        None
    }
}

/// The inspect record in `stats`: after the slashes in front, the first six
/// fields between commas are the name, the status, the restart policy, the
/// health, the start time and the ports. There is none where `stats` has
/// fewer than six fields.
pub open spec fn inspect_record(stats: Seq<char>) -> Option<InspectRecordView> {
    let f = fields(without_leading(stats, CharClass::Exactly('/')), CharClass::Exactly(','));
    if f.len() >= 6 {
        Some(
            InspectRecordView {
                container_name: f[0],
                status: f[1],
                restart_policy: f[2],
                health: f[3],
                start_time: f[4],
                ports: f[5],
            },
        )
    } else {
        None
    }
}

/// Parse stats data.
pub fn parse_stats_data(stats: &str) -> (r: Result<StatsData, OutputError>)
    ensures
        match r {
            Ok(data) => stats_record(stats@) == Some(data@),
            Err(e) => stats_record(stats@) is None && e == OutputError::MissingField,
        },
{
    let parsed = split_whitespace(strip_leading(stats, CharClass::Exactly('/')));
    if parsed.len() < 3 {
        return Err(OutputError::MissingField);
    }
    Ok(
        StatsData {
            container_name: parsed[0].clone(),
            cpu: parsed[1].clone(),
            memory: parsed[2].clone(),
        },
    )
}

/// Splits an inspect record into its fields.
pub fn parse_inspect_record(stats: &str) -> (r: Result<InspectRecord, OutputError>)
    ensures
        match r {
            Ok(record) => inspect_record(stats@) == Some(record@),
            Err(e) => inspect_record(stats@) is None && e == OutputError::MissingField,
        },
{
    let parsed = split(strip_leading(stats, CharClass::Exactly('/')), CharClass::Exactly(','));
    if parsed.len() < 6 {
        return Err(OutputError::MissingField);
    }
    Ok(
        InspectRecord {
            container_name: parsed[0].clone(),
            status: parsed[1].clone(),
            restart_policy: parsed[2].clone(),
            health: parsed[3].clone(),
            start_time: parsed[4].clone(),
            ports: parsed[5].clone(),
        },
    )
}

impl InspectRecord {
    /// Puts `uptime` in the place of the start time.
    pub fn with_uptime(self, uptime: String) -> (data: InspectData)
        ensures
            data@ == self@.with_uptime(uptime@),
    {
        InspectData {
            container_name: self.container_name,
            status: self.status,
            restart_policy: self.restart_policy,
            health: self.health,
            uptime,
            ports: self.ports,
        }
    }
}

/// Parses inspected data: the fields of the record, with the uptime of the
/// container in the place of its start time.
///
/// The uptime is measured against the clock, so the contract says of it
/// only that it is the text of some number of seconds.
pub fn parse_inspect_data(stats: &str) -> (r: Result<InspectData, OutputError>)
    ensures
        match r {
            Ok(data) => inspect_record(stats@) matches Some(record) && rfc3339_accepts(
                record.start_time,
            ) && exists|secs: i64|
                data@ == record.with_uptime(#[trigger] uptime_text(secs as int)),
            Err(OutputError::MissingField) => inspect_record(stats@) is None,
            Err(OutputError::InvalidStartTime) => inspect_record(stats@) matches Some(record)
                && !rfc3339_accepts(record.start_time),
            Err(_) => false,
        },
{
    match parse_inspect_record(stats) {
        Ok(record) => match calc_uptime(record.start_time.as_str()) {
            Ok(uptime) => {
                let ghost secs = choose|secs: i64| uptime@ == #[trigger] uptime_text(secs as int);
                let data = record.with_uptime(uptime);
                assert(data@ == record@.with_uptime(uptime_text(secs as int)));
                Ok(data)
            },
            Err(e) => Err(e),
        },
        Err(e) => Err(e),
    }
}

} // verus!

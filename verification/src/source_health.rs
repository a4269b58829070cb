//! Health of the alert sources: healthy, degraded, offline or unknown, by
//! how long ago each was last seen working.
use vstd::prelude::*;
use crate::event_contracts::{SourceState, SourceStatusRecord, EVENT_CONTRACT_SCHEMA_VERSION};

verus! {

/// A source last seen working longer ago than this is degraded.
pub const SOURCE_HEALTH_DEGRADED_AFTER_SECS: u64 = 300;

/// A source last seen working longer ago than this is offline.
pub const SOURCE_HEALTH_OFFLINE_AFTER_SECS: u64 = 900;

/// An alert source.
#[derive(Debug, Clone, Copy, PartialEq, Eq, Structural)]
pub enum SourceKind {
    NwsApi,
    SameRadio,
}

/// The name of a source in status records.
pub open spec fn source_kind_name(k: SourceKind) -> Seq<char> {
    match k {
        SourceKind::NwsApi => "nws_api"@,
        SourceKind::SameRadio => "same_radio"@,
    }
}

impl SourceKind {
    /// The name of the source in status records.
    pub fn as_str(self) -> (s: &'static str)
        ensures
            s@ == source_kind_name(self),
    {
        match self {
            SourceKind::NwsApi => "nws_api",
            SourceKind::SameRadio => "same_radio",
        }
    }
}

/// What is known of a source at a point in time.
#[derive(Debug, Clone, PartialEq, Eq)]
pub struct SourceHealthInput {
    pub source: SourceKind,
    pub now_unix_secs: u64,
    pub last_success_unix_secs: Option<u64>,
    pub last_failure_unix_secs: Option<u64>,
    pub last_decoded_message_unix_secs: Option<u64>,
    pub last_accepted_alert_unix_secs: Option<u64>,
    pub error: Option<String>,
}

impl SourceHealthInput {
    /// The API answered at `now_unix_secs`.
    pub fn nws_api_success(now_unix_secs: u64) -> (i: Self)
        ensures
            i.source == SourceKind::NwsApi,
            i.now_unix_secs == now_unix_secs,
            i.last_success_unix_secs == Some(now_unix_secs),
            i.last_failure_unix_secs is None,
            i.last_decoded_message_unix_secs is None,
            i.last_accepted_alert_unix_secs is None,
            i.error is None,
    {
        SourceHealthInput {
            source: SourceKind::NwsApi,
            now_unix_secs,
            last_success_unix_secs: Some(now_unix_secs),
            last_failure_unix_secs: None,
            last_decoded_message_unix_secs: None,
            last_accepted_alert_unix_secs: None,
            error: None,
        }
    }

    /// The API failed at `now_unix_secs` with `error`.
    pub fn nws_api_failure(now_unix_secs: u64, error: String) -> (i: Self)
        ensures
            i.source == SourceKind::NwsApi,
            i.now_unix_secs == now_unix_secs,
            i.last_success_unix_secs is None,
            i.last_failure_unix_secs == Some(now_unix_secs),
            i.last_decoded_message_unix_secs is None,
            i.last_accepted_alert_unix_secs is None,
            i.error == Some(error),
    {
        SourceHealthInput {
            source: SourceKind::NwsApi,
            now_unix_secs,
            last_success_unix_secs: None,
            last_failure_unix_secs: Some(now_unix_secs),
            last_decoded_message_unix_secs: None,
            last_accepted_alert_unix_secs: None,
            error: Some(error),
        }
    }

    /// The SAME radio at `now_unix_secs`, with when it last decoded a
    /// message (which counts as its last success) and last accepted an alert.
    pub fn same_radio(
        now_unix_secs: u64,
        last_decoded_message_unix_secs: Option<u64>,
        last_accepted_alert_unix_secs: Option<u64>,
    ) -> (i: Self)
        ensures
            i.source == SourceKind::SameRadio,
            i.now_unix_secs == now_unix_secs,
            i.last_success_unix_secs == last_decoded_message_unix_secs,
            i.last_failure_unix_secs is None,
            i.last_decoded_message_unix_secs == last_decoded_message_unix_secs,
            i.last_accepted_alert_unix_secs == last_accepted_alert_unix_secs,
            i.error is None,
    {
        SourceHealthInput {
            source: SourceKind::SameRadio,
            now_unix_secs,
            last_success_unix_secs: last_decoded_message_unix_secs,
            last_failure_unix_secs: None,
            last_decoded_message_unix_secs,
            last_accepted_alert_unix_secs,
            error: None,
        }
    }
}

/// The state of a source last seen working at `last`, at time `now`: unknown
/// when never seen; else, by the age `now - last` (0 when `last` is later),
/// healthy up to five minutes, degraded up to fifteen, offline after.
pub open spec fn source_state_spec(now: u64, last: Option<u64>) -> SourceState {
    match last {
        None => SourceState::Unknown,
        Some(l) => {
            let age: int = if now >= l {
                now - l
            } else {
                0
            };
            if age <= SOURCE_HEALTH_DEGRADED_AFTER_SECS {
                SourceState::Healthy
            } else if age <= SOURCE_HEALTH_OFFLINE_AFTER_SECS {
                SourceState::Degraded
            } else {
                SourceState::Offline
            }
        },
    }
}

/// How bad a state is: healthy 0, degraded 1, offline 2 (unknown 3).
pub open spec fn state_rank(s: SourceState) -> int {
    match s {
        SourceState::Healthy => 0,
        SourceState::Degraded => 1,
        SourceState::Offline => 2,
        SourceState::Unknown => 3,
    }
}

/// A source never seen working is unknown; one seen working now (or later)
/// is healthy; and of two observations, the older never gives a better
/// state than the newer.
pub proof fn law_source_state_by_age(now: u64, older: u64, newer: u64)
    requires
        older <= newer,
    ensures
        source_state_spec(now, None) == SourceState::Unknown,
        newer >= now ==> source_state_spec(now, Some(newer)) == SourceState::Healthy,
        state_rank(source_state_spec(now, Some(older))) >= state_rank(source_state_spec(now, Some(newer))),
{
}

/// The state of a source last seen working at `last_observed_unix_secs`.
pub fn source_state(now_unix_secs: u64, last_observed_unix_secs: Option<u64>) -> (s: SourceState)
    ensures
        s == source_state_spec(now_unix_secs, last_observed_unix_secs),
{
    let last = match last_observed_unix_secs {
        None => {
            return SourceState::Unknown;
        },
        Some(l) => l,
    };
    let age_secs = now_unix_secs.saturating_sub(last);
    if age_secs <= SOURCE_HEALTH_DEGRADED_AFTER_SECS {
        SourceState::Healthy
    } else if age_secs <= SOURCE_HEALTH_OFFLINE_AFTER_SECS {
        SourceState::Degraded
    } else {
        SourceState::Offline
    }
}

/// When a source was last seen working: the API by its last success, the
/// SAME radio by its last decoded message, or else its last accepted alert.
pub open spec fn last_observed(input: SourceHealthInput) -> Option<u64> {
    match input.source {
        SourceKind::NwsApi => input.last_success_unix_secs,
        SourceKind::SameRadio => match input.last_decoded_message_unix_secs {
            Some(t) => Some(t),
            None => input.last_accepted_alert_unix_secs,
        },
    }
}

/// `r` is the status record of `input`.
pub open spec fn status_record_of(r: SourceStatusRecord, input: SourceHealthInput) -> bool {
    &&& r.schema_version == EVENT_CONTRACT_SCHEMA_VERSION
    &&& r.record_type@ == "source_status"@
    &&& r.timestamp_unix_secs == input.now_unix_secs
    &&& r.source@ == source_kind_name(input.source)
    &&& r.state == source_state_spec(input.now_unix_secs, last_observed(input))
    &&& r.last_success_unix_secs == input.last_success_unix_secs
    &&& r.last_failure_unix_secs == input.last_failure_unix_secs
    &&& r.last_decoded_message_unix_secs == input.last_decoded_message_unix_secs
    &&& r.last_accepted_alert_unix_secs == input.last_accepted_alert_unix_secs
    &&& r.error == input.error
}

/// Law: the SAME radio is judged by its last decoded message whenever it has
/// decoded one, whatever its last accepted alert: healthy when that message
/// is at most five minutes old, degraded up to fifteen, offline after; only
/// a radio that never decoded a message is judged by its last accepted
/// alert. The API is judged by its last success.
pub proof fn law_source_judged_by_its_last_sign_of_life(r: SourceStatusRecord, input: SourceHealthInput)
    requires
        status_record_of(r, input),
    ensures
        input.source == SourceKind::SameRadio && input.last_decoded_message_unix_secs is Some ==> {
            let t = input.last_decoded_message_unix_secs.unwrap();
            let now = input.now_unix_secs;
            &&& now <= t + 300 ==> r.state == SourceState::Healthy
            &&& t + 300 < now <= t + 900 ==> r.state == SourceState::Degraded
            &&& t + 900 < now ==> r.state == SourceState::Offline
        },
        input.source == SourceKind::SameRadio && input.last_decoded_message_unix_secs is None ==> {
            let now = input.now_unix_secs;
            match input.last_accepted_alert_unix_secs {
                None => r.state == SourceState::Unknown,
                Some(t) => {
                    &&& now <= t + 300 ==> r.state == SourceState::Healthy
                    &&& t + 300 < now <= t + 900 ==> r.state == SourceState::Degraded
                    &&& t + 900 < now ==> r.state == SourceState::Offline
                },
            }
        },
        input.source == SourceKind::NwsApi ==> {
            let now = input.now_unix_secs;
            match input.last_success_unix_secs {
                None => r.state == SourceState::Unknown,
                Some(t) => {
                    &&& now <= t + 300 ==> r.state == SourceState::Healthy
                    &&& t + 300 < now <= t + 900 ==> r.state == SourceState::Degraded
                    &&& t + 900 < now ==> r.state == SourceState::Offline
                },
            }
        },
{
}

/// The status record of a source.
pub fn source_status_record(input: SourceHealthInput) -> (r: SourceStatusRecord)
    ensures
        status_record_of(r, input),
{
    let last = match input.source {
        SourceKind::NwsApi => input.last_success_unix_secs,
        SourceKind::SameRadio => match input.last_decoded_message_unix_secs {
            Some(t) => Some(t),
            None => input.last_accepted_alert_unix_secs,
        },
    };
    SourceStatusRecord {
        schema_version: EVENT_CONTRACT_SCHEMA_VERSION,
        record_type: "source_status".to_owned(),
        timestamp_unix_secs: input.now_unix_secs,
        source: input.source.as_str().to_owned(),
        state: source_state(input.now_unix_secs, last),
        last_success_unix_secs: input.last_success_unix_secs,
        last_failure_unix_secs: input.last_failure_unix_secs,
        last_decoded_message_unix_secs: input.last_decoded_message_unix_secs,
        last_accepted_alert_unix_secs: input.last_accepted_alert_unix_secs,
        error: input.error,
    }
}

} // verus!

//! The source-independent alert model that SAME and NWS API alerts share.
use vstd::prelude::*;
use crate::nws_client::{clone_option, NwsAlertFeature};
use crate::spool::clone_strings;
use crate::text::{join_strings, join_with, push_str, trim, trimmed};

verus! {

/// Where an alert came from.
#[derive(Debug, Clone, Copy, PartialEq, Eq, Structural)]
pub enum AlertSource {
    Same,
    NwsApi,
}

/// An alert normalized from one of the sources.
#[derive(Debug, Clone, PartialEq, Eq)]
pub struct NormalizedAlert {
    pub source: AlertSource,
    pub source_id: String,
    pub event: String,
    pub headline: Option<String>,
    pub description: Option<String>,
    pub instruction: Option<String>,
    pub severity: Option<String>,
    pub urgency: Option<String>,
    pub certainty: Option<String>,
    pub effective: Option<String>,
    pub expires: Option<String>,
    pub area_desc: Option<String>,
    pub same_codes: Vec<String>,
    pub ugc_codes: Vec<String>,
    pub message_text: String,
}

/// The line `label: value` for a value that is present and not blank after
/// trimming (the value trimmed), else no line.
pub open spec fn optional_line(label: Seq<char>, value: Option<String>) -> Seq<Seq<char>> {
    match value {
        Some(v) => if trim(v@).len() > 0 {
            seq![label + ": "@ + trim(v@)]
        } else {
            seq![]
        },
        None => seq![],
    }
}

/// The lines of an NWS alert's message: the event, then area, severity,
/// urgency, certainty, headline, description and instruction, each where
/// present.
pub open spec fn nws_message_lines(a: NormalizedAlert) -> Seq<Seq<char>> {
    seq!["NWS Alert: "@ + a.event@] + optional_line("Area"@, a.area_desc) + optional_line(
        "Severity"@,
        a.severity,
    ) + optional_line("Urgency"@, a.urgency) + optional_line("Certainty"@, a.certainty)
        + optional_line("Headline"@, a.headline) + optional_line("Description"@, a.description)
        + optional_line("Instruction"@, a.instruction)
}

/// The message of an NWS alert: its lines separated by newlines.
pub open spec fn nws_message(a: NormalizedAlert) -> Seq<char> {
    join_with(nws_message_lines(a), seq!['\n'])
}

/// The message of an NWS alert begins with `NWS Alert: ` and its event.
pub proof fn law_nws_message_leads_with_event(a: NormalizedAlert)
    ensures
        nws_message(a).take(("NWS Alert: "@ + a.event@).len() as int) == "NWS Alert: "@ + a.event@,
{
    let lines = nws_message_lines(a);
    let first = "NWS Alert: "@ + a.event@;
    assert(lines[0] == first);
    if lines.len() == 1 {
        assert(nws_message(a) == first);
        assert(first.take(first.len() as int) =~= first);
    } else {
        assert(nws_message(a) == lines[0] + seq!['\n'] + join_with(lines.drop_first(), seq!['\n']));
        assert(nws_message(a).take(first.len() as int) =~= first);
    }
}

/// Appends the line `label: value` when the value is present and not blank.
fn push_optional_line(lines: &mut Vec<String>, label: &str, value: &Option<String>)
    ensures
        final(lines)@.map_values(|x: String| x@) == old(lines)@.map_values(|x: String| x@)
            + optional_line(label@, *value),
{
    if let Some(v) = value {
        let t = trimmed(v.as_str());
        if !t.as_str().is_empty() {
            let mut line = String::new();
            push_str(&mut line, label);
            push_str(&mut line, ": ");
            push_str(&mut line, t.as_str());
            lines.push(line);
            assert(lines@.map_values(|x: String| x@) =~= old(lines)@.map_values(|x: String| x@)
                + optional_line(label@, *value));
            return;
        }
    }
    assert(lines@.map_values(|x: String| x@) =~= old(lines)@.map_values(|x: String| x@)
        + optional_line(label@, *value));
}

/// The message of an NWS alert: the event line, then each present field,
/// in a fixed order, joined by newlines.
pub fn format_nws_message(alert: &NormalizedAlert) -> (m: String)
    ensures
        m@ == nws_message(*alert),
{
    let mut first = String::new();
    push_str(&mut first, "NWS Alert: ");
    push_str(&mut first, alert.event.as_str());
    let mut lines: Vec<String> = Vec::new();
    lines.push(first);
    let ghost l0 = lines@.map_values(|x: String| x@);
    assert(l0 =~= seq!["NWS Alert: "@ + alert.event@]);
    push_optional_line(&mut lines, "Area", &alert.area_desc);
    push_optional_line(&mut lines, "Severity", &alert.severity);
    push_optional_line(&mut lines, "Urgency", &alert.urgency);
    push_optional_line(&mut lines, "Certainty", &alert.certainty);
    push_optional_line(&mut lines, "Headline", &alert.headline);
    push_optional_line(&mut lines, "Description", &alert.description);
    push_optional_line(&mut lines, "Instruction", &alert.instruction);
    assert(lines@.map_values(|x: String| x@) =~= nws_message_lines(*alert));
    let sep = "\n";
    proof {
        reveal_strlit("\n");
        assert(sep@ =~= seq!['\n']);
    }
    let m = join_strings(&lines, sep);
    assert(m@ == join_with(nws_message_lines(*alert), seq!['\n']));
    m
}

/// The text of an optional value, or `alt`.
pub open spec fn text_or(o: Option<String>, alt: Seq<char>) -> Seq<char> {
    match o {
        Some(s) => s@,
        None => alt,
    }
}

/// The codes of an optional list, or none.
pub open spec fn codes_or_empty(o: Option<Vec<String>>) -> Seq<String> {
    match o {
        Some(v) => v@,
        None => seq![],
    }
}

/// Whether an NWS alert has no event (absent, or blank after trimming).
pub open spec fn event_missing(feature: NwsAlertFeature) -> bool {
    match feature.properties.event {
        Some(e) => trim(e@).len() == 0,
        None => true,
    }
}

/// `a` is the normalization of `feature`.
pub open spec fn normalized_from(feature: NwsAlertFeature, a: NormalizedAlert) -> bool {
    let p = feature.properties;
    &&& a.source == AlertSource::NwsApi
    &&& a.source_id@ == trim(text_or(p.id, feature.id@))
    &&& a.event@ == trim(text_or(p.event, seq![]))
    &&& a.headline == p.headline
    &&& a.description == p.description
    &&& a.instruction == p.instruction
    &&& a.severity == p.severity
    &&& a.urgency == p.urgency
    &&& a.certainty == p.certainty
    &&& a.effective == p.effective
    &&& a.expires == p.expires
    &&& a.area_desc == p.area_desc
    &&& a.same_codes@ == match p.geocode {
        Some(g) => codes_or_empty(g.same),
        None => seq![],
    }
    &&& a.ugc_codes@ == match p.geocode {
        Some(g) => codes_or_empty(g.ugc),
        None => seq![],
    }
    &&& a.message_text@ == nws_message(a)
}

/// A copy of an optional list of codes, or an empty list.
fn codes_of(o: &Option<Vec<String>>) -> (r: Vec<String>)
    ensures
        r@ == match o {
            Some(v) => v@,
            None => seq![],
        },
{
    match o {
        Some(v) => clone_strings(v),
        None => Vec::new(),
    }
}

impl NormalizedAlert {
    /// Normalizes an NWS API alert: the source id is the properties' id, or
    /// else the feature's id, trimmed; the event, trimmed, is required; the
    /// other fields are kept as they are; the message is formatted from them.
    pub fn from_nws_alert(feature: &NwsAlertFeature) -> (r: Result<Self, String>)
        ensures
            event_missing(*feature) <==> r is Err,
            r matches Err(e) ==> e@ == "NWS alert event is required for normalization"@,
            r matches Ok(a) ==> normalized_from(*feature, a),
    {
        let properties = &feature.properties;
        let source_id = match &properties.id {
            Some(id) => trimmed(id.as_str()),
            None => trimmed(feature.id.as_str()),
        };
        let event = match &properties.event {
            Some(e) => {
                let t = trimmed(e.as_str());
                if t.as_str().is_empty() {
                    return Err("NWS alert event is required for normalization".to_owned());
                }
                t
            },
            None => {
                return Err("NWS alert event is required for normalization".to_owned());
            },
        };
        let (same_codes, ugc_codes) = match &properties.geocode {
            Some(g) => (codes_of(&g.same), codes_of(&g.ugc)),
            None => (Vec::new(), Vec::new()),
        };
        let mut alert = NormalizedAlert {
            source: AlertSource::NwsApi,
            source_id,
            event,
            headline: clone_option(&properties.headline),
            description: clone_option(&properties.description),
            instruction: clone_option(&properties.instruction),
            severity: clone_option(&properties.severity),
            urgency: clone_option(&properties.urgency),
            certainty: clone_option(&properties.certainty),
            effective: clone_option(&properties.effective),
            expires: clone_option(&properties.expires),
            area_desc: clone_option(&properties.area_desc),
            same_codes,
            ugc_codes,
            message_text: String::new(),
        };
        alert.message_text = format_nws_message(&alert);
        Ok(alert)
    }
}

} // verus!

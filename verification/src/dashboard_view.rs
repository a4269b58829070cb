//! The read-only dashboard page: one self-contained HTML document with no
//! scripts and no outside assets, refreshed by a meta tag.
use vstd::prelude::*;
use crate::event_contracts::{
    AlertRecord, DeliveryAttemptRecord, DeliveryAttemptStatus, SenderStatusRecord,
};
use crate::event_log_reader::{find_group, lemma_find_group, AttemptGroup, DashboardData};
use crate::spool::significance_name;
use crate::spool::significance_text;
use crate::text::{decimal, join_strings, join_with, push_char, push_str, write_decimal};

verus! {

/// Everything before the page's sections: document head, inline style,
/// meta refresh every 30 seconds and page header.
pub const DASHBOARD_HEAD: &'static str = "<!doctype html><html lang=\"en\"><head><meta charset=\"utf-8\">\
     <meta name=\"viewport\" content=\"width=device-width, initial-scale=1\">\
     <meta http-equiv=\"refresh\" content=\"30\"><title>Sentinel Dashboard</title><style>\
     :root{color-scheme:light;--bg:#eef2f6;--panel:#ffffff;--ink:#18212f;--muted:#5d6b7c;\
     --line:#d8e0ea;--head:#12263a;--ok:#166534;--bad:#b42318;--warn:#a15c00;--chip:#e8eef5}\
     *{box-sizing:border-box}body{font-family:Arial,sans-serif;margin:0;background:var(--bg);color:var(--ink)}\
     header{background:var(--head);color:#fff;padding:18px 22px}header h1{margin:0;font-size:1.55rem}\
     header div{margin-top:4px;color:#d5dee8}main{padding:18px;max-width:1280px;margin:0 auto}\
     section{background:var(--panel);border:1px solid var(--line);border-radius:8px;margin:0 0 16px;padding:16px}\
     h2{font-size:1.15rem;margin:0 0 12px}h3{font-size:1rem;margin:0 0 8px}p{margin:0 0 10px;line-height:1.4}\
     table{width:100%;border-collapse:collapse}th,td{border-bottom:1px solid #e7edf4;padding:8px;text-align:left;vertical-align:top}\
     th{background:#f1f5f9;color:#26384c;font-size:.78rem;text-transform:uppercase;letter-spacing:.03em}\
     .summary{display:grid;grid-template-columns:repeat(5,minmax(0,1fr));gap:12px}\
     .metric{background:#f8fafc;border:1px solid var(--line);border-radius:8px;padding:12px}.metric strong{display:block;font-size:1.55rem}.metric span{color:var(--muted)}\
     .status-grid{display:grid;grid-template-columns:repeat(auto-fit,minmax(190px,1fr));gap:10px}.status-card{border:1px solid var(--line);border-radius:8px;padding:12px;background:#fbfdff}\
     .status-card strong{display:block;margin-bottom:6px}.alert-card{border:1px solid var(--line);border-radius:8px;background:#fff;margin:0 0 14px;overflow:hidden}\
     .alert-head{display:flex;gap:10px;justify-content:space-between;align-items:flex-start;background:#f8fafc;border-bottom:1px solid var(--line);padding:12px}\
     .alert-title{font-size:1.05rem;font-weight:bold}.alert-meta{color:var(--muted);font-size:.9rem}.alert-body{padding:12px}.message{white-space:pre-wrap;background:#f8fafc;border:1px solid var(--line);border-radius:6px;padding:10px}\
     .pill{display:inline-block;border-radius:999px;padding:3px 9px;background:var(--chip);font-size:.82rem;font-weight:bold}.ok{color:var(--ok);font-weight:bold}.bad{color:var(--bad);font-weight:bold}.warn{color:var(--warn);font-weight:bold}.muted{color:var(--muted)}\
     .error{border-color:#ffb4ab;background:#fff7f5}.health-list{display:grid;grid-template-columns:repeat(auto-fit,minmax(190px,1fr));gap:8px}.health-item{background:#f8fafc;border:1px solid var(--line);border-radius:6px;padding:9px}.health-item span{display:block;color:var(--muted);font-size:.82rem}\
     .table-wrap{overflow-x:auto}@media(max-width:760px){main{padding:12px}.summary{grid-template-columns:repeat(2,minmax(0,1fr))}.alert-head{display:block}.metric strong{font-size:1.35rem}th,td{padding:7px}}\
     @media(max-width:480px){.summary{grid-template-columns:1fr}header{padding:14px}section{padding:12px}}\
     </style></head><body><header><h1>Sentinel Dashboard</h1>\
     <div>Read-only local event log view</div></header><main>";

/// The HTML escape of one character.
pub open spec fn html_escape_char(c: char) -> Seq<char> {
    if c == '&' {
        "&amp;"@
    } else if c == '<' {
        "&lt;"@
    } else if c == '>' {
        "&gt;"@
    } else if c == '"' {
        "&quot;"@
    } else if c == '\'' {
        "&#39;"@
    } else {
        seq![c]
    }
}

/// The HTML escape of a character sequence, character by character.
pub open spec fn html_escaped(s: Seq<char>) -> Seq<char>
    decreases s.len(),
{
    if s.len() == 0 {
        seq![]
    } else {
        html_escaped(s.drop_last()) + html_escape_char(s.last())
    }
}

/// Escaped text cannot open or close markup or an attribute value: it holds
/// no `<`, `>`, `"` or `'`.
pub proof fn law_escaped_text_has_no_markup(s: Seq<char>)
    ensures
        forall|i: int|
            0 <= i < html_escaped(s).len() ==> {
                let c = #[trigger] html_escaped(s)[i];
                c != '<' && c != '>' && c != '"' && c != '\''
            },
    decreases s.len(),
{
    if s.len() > 0 {
        law_escaped_text_has_no_markup(s.drop_last());
        let a = html_escaped(s.drop_last());
        let b = html_escape_char(s.last());
        reveal_strlit("&amp;");
        reveal_strlit("&lt;");
        reveal_strlit("&gt;");
        reveal_strlit("&quot;");
        reveal_strlit("&#39;");
        assert forall|i: int| 0 <= i < (a + b).len() implies {
            let c = #[trigger] (a + b)[i];
            c != '<' && c != '>' && c != '"' && c != '\''
        } by {
            if i >= a.len() {
                assert((a + b)[i] == b[i - a.len()]);
            } else {
                assert((a + b)[i] == a[i]);
            }
        }
    }
}

/// Appends the HTML escape of `value`.
fn write_escaped(out: &mut String, value: &str)
    ensures
        final(out)@ == old(out)@ + html_escaped(value@),
{
    let cs = crate::text::chars_of(value);
    let ghost start = out@;
    let mut i: usize = 0;
    while i < cs.len()
        invariant
            cs@ == value@,
            i <= cs@.len(),
            out@ == start + html_escaped(cs@.take(i as int)),
        decreases cs@.len() - i,
    {
        let c = cs[i];
        if c == '&' {
            push_str(out, "&amp;");
        } else if c == '<' {
            push_str(out, "&lt;");
        } else if c == '>' {
            push_str(out, "&gt;");
        } else if c == '"' {
            push_str(out, "&quot;");
        } else if c == '\'' {
            push_str(out, "&#39;");
        } else {
            push_char(out, c);
        }
        proof {
            assert(cs@.take(i + 1).drop_last() =~= cs@.take(i as int));
            assert(cs@.take(i + 1).last() == c);
        }
        i = i + 1;
    }
    assert(cs@.take(cs@.len() as int) =~= cs@);
}

/// The HTML escape of `value`: `&`, `<`, `>`, `"` and `'` become entities.
pub fn escape_html(value: &str) -> (r: String)
    ensures
        r@ == html_escaped(value@),
{
    let mut r = String::new();
    write_escaped(&mut r, value);
    r
}

/// A table row with an escaped label and a value taken as HTML.
pub open spec fn row_html(label: Seq<char>, value: Seq<char>) -> Seq<char> {
    "<tr><th>"@ + html_escaped(label) + "</th><td>"@ + value + "</td></tr>"@
}

/// A table row with an escaped label and a value taken as HTML.
pub fn row(label: &str, value: &str) -> (r: String)
    ensures
        r@ == row_html(label@, value@),
{
    let mut r = String::new();
    push_str(&mut r, "<tr><th>");
    write_escaped(&mut r, label);
    push_str(&mut r, "</th><td>");
    push_str(&mut r, value);
    push_str(&mut r, "</td></tr>");
    r
}

/// A table cell holding `value` as HTML.
pub open spec fn cell_html(value: Seq<char>) -> Seq<char> {
    "<td>"@ + value + "</td>"@
}

/// A table cell holding `value` as HTML.
pub fn cell(value: &str) -> (r: String)
    ensures
        r@ == cell_html(value@),
{
    let mut r = String::new();
    push_str(&mut r, "<td>");
    push_str(&mut r, value);
    push_str(&mut r, "</td>");
    r
}

/// The decimal form of a present value, nothing for an absent one.
pub open spec fn option_text(value: Option<u64>) -> Seq<char> {
    match value {
        Some(v) => decimal(v as nat),
        None => seq![],
    }
}

/// The decimal form of a present value, the empty string for an absent one.
pub fn option_u64(value: Option<u64>) -> (r: String)
    ensures
        r@ == option_text(value),
{
    let mut r = String::new();
    if let Some(v) = value {
        write_decimal(&mut r, v);
    }
    r
}

/// The decimal form of a present value, the empty string for an absent one.
pub fn option_u32(value: Option<u32>) -> (r: String)
    ensures
        r@ == option_text(match value {
            Some(v) => Some(v as u64),
            None => None,
        }),
{
    let mut r = String::new();
    if let Some(v) = value {
        write_decimal(&mut r, v as u64);
    }
    r
}

/// The label of a delivery outcome.
pub open spec fn status_label_html(status: DeliveryAttemptStatus) -> Seq<char> {
    match status {
        DeliveryAttemptStatus::Success => "<span class=\"ok\">success</span>"@,
        DeliveryAttemptStatus::Failure => "<span class=\"bad\">failure</span>"@,
        DeliveryAttemptStatus::Skipped => "<span class=\"muted\">skipped</span>"@,
    }
}

/// The label of a delivery outcome.
pub fn status_label(status: &DeliveryAttemptStatus) -> (r: String)
    ensures
        r@ == status_label_html(*status),
{
    let mut r = String::new();
    match status {
        DeliveryAttemptStatus::Success => push_str(&mut r, "<span class=\"ok\">success</span>"),
        DeliveryAttemptStatus::Failure => push_str(&mut r, "<span class=\"bad\">failure</span>"),
        DeliveryAttemptStatus::Skipped => push_str(&mut r, "<span class=\"muted\">skipped</span>"),
    }
    r
}

/// Counts shown in the operator summary band.
struct DashboardSummary {
    alert_count: usize,
    sender_ready_count: usize,
    sender_not_ready_count: usize,
    delivery_success_count: usize,
    delivery_failure_count: usize,
    delivery_skipped_count: usize,
}

/// Number of statuses that are ready (`ready`) or not ready (`!ready`).
pub open spec fn count_ready(s: Seq<SenderStatusRecord>, ready: bool) -> nat
    decreases s.len(),
{
    if s.len() == 0 {
        0
    } else {
        count_ready(s.drop_last(), ready) + if s.last().ready == ready {
            1nat
        } else {
            0nat
        }
    }
}

/// Number of attempts with outcome `status`.
pub open spec fn count_status(s: Seq<DeliveryAttemptRecord>, status: DeliveryAttemptStatus) -> nat
    decreases s.len(),
{
    if s.len() == 0 {
        0
    } else {
        count_status(s.drop_last(), status) + if s.last().status == status {
            1nat
        } else {
            0nat
        }
    }
}

/// Number of attempts with outcome `status` over all groups.
pub open spec fn count_group_status(g: Seq<AttemptGroup>, status: DeliveryAttemptStatus) -> nat
    decreases g.len(),
{
    if g.len() == 0 {
        0
    } else {
        count_group_status(g.drop_last(), status) + count_status(g.last().attempts@, status)
    }
}

/// Total number of delivery attempts over all groups.
pub open spec fn total_attempts(g: Seq<AttemptGroup>) -> nat
    decreases g.len(),
{
    if g.len() == 0 {
        0
    } else {
        total_attempts(g.drop_last()) + g.last().attempts@.len()
    }
}

proof fn lemma_status_counts_split(s: Seq<DeliveryAttemptRecord>)
    ensures
        count_status(s, DeliveryAttemptStatus::Success) + count_status(s, DeliveryAttemptStatus::Failure)
            + count_status(s, DeliveryAttemptStatus::Skipped) == s.len(),
    decreases s.len(),
{
    if s.len() > 0 {
        lemma_status_counts_split(s.drop_last());
    }
}

/// Law: the summary's delivery counts count attempts, not alerts: over all
/// groups, the successful, failed and skipped attempts together are every
/// delivery attempt, each counted once. Two successful attempts for one
/// alert count two successes.
pub proof fn law_delivery_counts_cover_every_attempt(g: Seq<AttemptGroup>)
    ensures
        count_group_status(g, DeliveryAttemptStatus::Success) + count_group_status(g, DeliveryAttemptStatus::Failure)
            + count_group_status(g, DeliveryAttemptStatus::Skipped) == total_attempts(g),
        total_attempts(g) == g.fold_left(0nat, |n: nat, x: AttemptGroup| n + x.attempts@.len()),
    decreases g.len(),
{
    if g.len() > 0 {
        law_delivery_counts_cover_every_attempt(g.drop_last());
        lemma_status_counts_split(g.last().attempts@);
        g.lemma_fold_left_split(0nat, |n: nat, x: AttemptGroup| n + x.attempts@.len(), g.len() - 1);
        assert(g.subrange(0, g.len() - 1) =~= g.drop_last());
        let tail = g.subrange(g.len() - 1, g.len() as int);
        assert(tail =~= seq![g.last()]);
        reveal_with_fuel(vstd::seq::Seq::fold_left, 2);
    }
}

proof fn lemma_count_status_bound(s: Seq<DeliveryAttemptRecord>, status: DeliveryAttemptStatus)
    ensures
        count_status(s, status) <= s.len(),
    decreases s.len(),
{
    if s.len() > 0 {
        lemma_count_status_bound(s.drop_last(), status);
    }
}

proof fn lemma_count_group_bound(g: Seq<AttemptGroup>, status: DeliveryAttemptStatus)
    ensures
        count_group_status(g, status) <= total_attempts(g),
    decreases g.len(),
{
    if g.len() > 0 {
        lemma_count_group_bound(g.drop_last(), status);
        lemma_count_status_bound(g.last().attempts@, status);
    }
}

proof fn lemma_count_ready_bound(s: Seq<SenderStatusRecord>, ready: bool)
    ensures
        count_ready(s, ready) <= s.len(),
    decreases s.len(),
{
    if s.len() > 0 {
        lemma_count_ready_bound(s.drop_last(), ready);
    }
}

/// Number of delivery attempts with outcome `status` in `attempts`.
fn count_attempts(attempts: &Vec<DeliveryAttemptRecord>, status: DeliveryAttemptStatus) -> (n: usize)
    ensures
        n == count_status(attempts@, status),
{
    let mut n: usize = 0;
    let mut i: usize = 0;
    while i < attempts.len()
        invariant
            i <= attempts@.len(),
            n == count_status(attempts@.take(i as int), status),
        decreases attempts@.len() - i,
    {
        proof {
            assert(attempts@.take(i + 1).drop_last() =~= attempts@.take(i as int));
            lemma_count_status_bound(attempts@.take(i as int), status);
        }
        if attempts[i].status == status {
            n = n + 1;
        }
        i = i + 1;
    }
    assert(attempts@.take(attempts@.len() as int) =~= attempts@);
    n
}

/// Number of sender statuses whose readiness is `ready`.
fn count_statuses(statuses: &Vec<SenderStatusRecord>, ready: bool) -> (n: usize)
    ensures
        n == count_ready(statuses@, ready),
{
    let mut n: usize = 0;
    let mut i: usize = 0;
    while i < statuses.len()
        invariant
            i <= statuses@.len(),
            n == count_ready(statuses@.take(i as int), ready),
        decreases statuses@.len() - i,
    {
        proof {
            assert(statuses@.take(i + 1).drop_last() =~= statuses@.take(i as int));
            lemma_count_ready_bound(statuses@.take(i as int), ready);
        }
        if statuses[i].ready == ready {
            n = n + 1;
        }
        i = i + 1;
    }
    assert(statuses@.take(statuses@.len() as int) =~= statuses@);
    n
}

/// Number of delivery attempts with outcome `status` over all groups.
fn count_group_attempts(groups: &Vec<AttemptGroup>, status: DeliveryAttemptStatus) -> (n: usize)
    requires
        total_attempts(groups@) <= usize::MAX,
    ensures
        n == count_group_status(groups@, status),
{
    let mut n: usize = 0;
    let mut i: usize = 0;
    while i < groups.len()
        invariant
            i <= groups@.len(),
            n == count_group_status(groups@.take(i as int), status),
            total_attempts(groups@) <= usize::MAX,
        decreases groups@.len() - i,
    {
        proof {
            assert(groups@.take(i + 1).drop_last() =~= groups@.take(i as int));
            lemma_count_group_bound(groups@.take(i + 1), status);
            lemma_total_prefix(groups@, i + 1);
        }
        let c = count_attempts(&groups[i].attempts, status);
        n = n + c;
        i = i + 1;
    }
    assert(groups@.take(groups@.len() as int) =~= groups@);
    n
}

proof fn lemma_total_prefix(g: Seq<AttemptGroup>, k: int)
    requires
        0 <= k <= g.len(),
    ensures
        total_attempts(g.take(k)) <= total_attempts(g),
    decreases g.len(),
{
    if k < g.len() {
        assert(g.drop_last().take(k) =~= g.take(k));
        lemma_total_prefix(g.drop_last(), k);
    } else {
        assert(g.take(k) =~= g);
    }
}

impl DashboardSummary {
    /// The summary counts of `data`.
    fn from_data(data: &DashboardData) -> (s: Self)
        requires
            total_attempts(data.delivery_attempts_by_alert@) <= usize::MAX,
        ensures
            s.alert_count == data.alerts@.len(),
            s.sender_ready_count == count_ready(data.sender_statuses@, true),
            s.sender_not_ready_count == count_ready(data.sender_statuses@, false),
            s.delivery_success_count == count_group_status(
                data.delivery_attempts_by_alert@,
                DeliveryAttemptStatus::Success,
            ),
            s.delivery_failure_count == count_group_status(
                data.delivery_attempts_by_alert@,
                DeliveryAttemptStatus::Failure,
            ),
            s.delivery_skipped_count == count_group_status(
                data.delivery_attempts_by_alert@,
                DeliveryAttemptStatus::Skipped,
            ),
    {
        DashboardSummary {
            alert_count: data.alerts.len(),
            sender_ready_count: count_statuses(&data.sender_statuses, true),
            sender_not_ready_count: count_statuses(&data.sender_statuses, false),
            delivery_success_count: count_group_attempts(
                &data.delivery_attempts_by_alert,
                DeliveryAttemptStatus::Success,
            ),
            delivery_failure_count: count_group_attempts(
                &data.delivery_attempts_by_alert,
                DeliveryAttemptStatus::Failure,
            ),
            delivery_skipped_count: count_group_attempts(
                &data.delivery_attempts_by_alert,
                DeliveryAttemptStatus::Skipped,
            ),
        }
    }
}

/// One metric of the summary band.
pub open spec fn metric_html(label: Seq<char>, value: nat) -> Seq<char> {
    "<div class=\"metric\"><strong>"@ + decimal(value) + "</strong><span>"@ + html_escaped(label)
        + "</span></div>"@
}

fn render_metric(html: &mut String, label: &str, value: usize)
    ensures
        final(html)@ == old(html)@ + metric_html(label@, value as nat),
{
    push_str(html, "<div class=\"metric\"><strong>");
    write_decimal(html, value as u64);
    push_str(html, "</strong><span>");
    write_escaped(html, label);
    push_str(html, "</span></div>");
}

/// The operator summary band for the given counts.
pub open spec fn summary_band_html(
    alerts: nat,
    ready: nat,
    not_ready: nat,
    success: nat,
    failure: nat,
    skipped: nat,
) -> Seq<char> {
    "<section><h2>Operator Summary</h2><div class=\"summary\">"@ + metric_html(
        "Recent Alerts"@,
        alerts,
    ) + metric_html("Senders Ready"@, ready) + metric_html("Senders Not Ready"@, not_ready)
        + metric_html("Delivery Success"@, success) + metric_html("Delivery Failure"@, failure)
        + "</div>"@ + (if skipped > 0 {
        "<p class=\"muted\">Skipped delivery attempts: "@ + decimal(skipped) + "</p>"@
    } else {
        seq![]
    }) + "</section>"@
}

fn render_summary_band(html: &mut String, summary: &DashboardSummary)
    ensures
        final(html)@ == old(html)@ + summary_band_html(
            summary.alert_count as nat,
            summary.sender_ready_count as nat,
            summary.sender_not_ready_count as nat,
            summary.delivery_success_count as nat,
            summary.delivery_failure_count as nat,
            summary.delivery_skipped_count as nat,
        ),
{
    let ghost start = html@;
    push_str(html, "<section><h2>Operator Summary</h2><div class=\"summary\">");
    render_metric(html, "Recent Alerts", summary.alert_count);
    render_metric(html, "Senders Ready", summary.sender_ready_count);
    render_metric(html, "Senders Not Ready", summary.sender_not_ready_count);
    render_metric(html, "Delivery Success", summary.delivery_success_count);
    render_metric(html, "Delivery Failure", summary.delivery_failure_count);
    push_str(html, "</div>");
    if summary.delivery_skipped_count > 0 {
        push_str(html, "<p class=\"muted\">Skipped delivery attempts: ");
        write_decimal(html, summary.delivery_skipped_count as u64);
        push_str(html, "</p>");
    }
    push_str(html, "</section>");
    assert(html@ =~= start + summary_band_html(
        summary.alert_count as nat,
        summary.sender_ready_count as nat,
        summary.sender_not_ready_count as nat,
        summary.delivery_success_count as nat,
        summary.delivery_failure_count as nat,
        summary.delivery_skipped_count as nat,
    ));
}

/// One item of the event log health list; `value` is taken as HTML.
pub open spec fn health_item_html(label: Seq<char>, value: Seq<char>) -> Seq<char> {
    "<div class=\"health-item\"><span>"@ + html_escaped(label) + "</span>"@ + value + "</div>"@
}

fn render_health_item(html: &mut String, label: &str, value: &str)
    ensures
        final(html)@ == old(html)@ + health_item_html(label@, value@),
{
    push_str(html, "<div class=\"health-item\"><span>");
    write_escaped(html, label);
    push_str(html, "</span>");
    push_str(html, value);
    push_str(html, "</div>");
}

/// The text of the read status: the read error, or `OK`.
pub open spec fn read_status_text(read_error: Option<String>) -> Seq<char> {
    match read_error {
        Some(e) => e@,
        None => "OK"@,
    }
}

/// `acc` followed by the event log health section.
pub open spec fn health_section_into(acc: Seq<char>, path: Seq<char>, data: DashboardData) -> Seq<char> {
    let a1 = acc + "<section"@;
    let a2 = if data.read_error is Some {
        a1 + " class=\"error\""@
    } else {
        a1
    };
    let a3 = a2 + "><h2>Event Log Health</h2>"@ + "<div class=\"health-list\">"@;
    let a4 = a3 + health_item_html("Path"@, html_escaped(path)) + health_item_html(
        "Parsed records"@,
        decimal(data.parsed_records as nat),
    ) + health_item_html("Malformed lines"@, decimal(data.malformed_lines as nat));
    let a5 = a4 + health_item_html("Truncated records"@, decimal(data.truncated_records as nat))
        + health_item_html("Read status"@, html_escaped(read_status_text(data.read_error)))
        + health_item_html("Refresh"@, "Local meta refresh every 30 seconds"@) + "</div>"@;
    let a6 = if data.malformed_lines > 0 {
        a5 + "<p class=\"warn\">Malformed event log lines were skipped.</p>"@
    } else {
        a5
    };
    let a7 = if data.truncated_records > 0 {
        a6 + "<p class=\"warn\">Display cap reached; newer dashboard pages may omit older records.</p>"@
    } else {
        a6
    };
    a7 + "</section>"@
}

fn render_health_section(html: &mut String, event_log_path: &str, data: &DashboardData)
    ensures
        final(html)@ == health_section_into(old(html)@, event_log_path@, *data),
{
    push_str(html, "<section");
    if data.read_error.is_some() {
        push_str(html, " class=\"error\"");
    }
    push_str(html, "><h2>Event Log Health</h2>");
    push_str(html, "<div class=\"health-list\">");
    let path = escape_html(event_log_path);
    render_health_item(html, "Path", path.as_str());
    let parsed = crate::text::decimal_string(data.parsed_records as u64);
    render_health_item(html, "Parsed records", parsed.as_str());
    let malformed = crate::text::decimal_string(data.malformed_lines as u64);
    render_health_item(html, "Malformed lines", malformed.as_str());
    let truncated = crate::text::decimal_string(data.truncated_records as u64);
    render_health_item(html, "Truncated records", truncated.as_str());
    let status = match &data.read_error {
        Some(e) => escape_html(e.as_str()),
        None => escape_html("OK"),
    };
    render_health_item(html, "Read status", status.as_str());
    render_health_item(html, "Refresh", "Local meta refresh every 30 seconds");
    push_str(html, "</div>");
    if data.malformed_lines > 0 {
        push_str(html, "<p class=\"warn\">Malformed event log lines were skipped.</p>");
    }
    if data.truncated_records > 0 {
        push_str(
            html,
            "<p class=\"warn\">Display cap reached; newer dashboard pages may omit older records.</p>",
        );
    }
    push_str(html, "</section>");
}

/// The error text of a status, empty when there is none.
pub open spec fn error_text(error: Option<String>) -> Seq<char> {
    match error {
        Some(e) => e@,
        None => seq![],
    }
}

/// `acc` followed by the card of one sender's latest status.
pub open spec fn sender_card_into(acc: Seq<char>, st: SenderStatusRecord) -> Seq<char> {
    let a1 = acc + "<div class=\"status-card\">"@ + "<strong>"@ + html_escaped(st.sender@)
        + "</strong><span class=\""@;
    let a2 = a1 + (if st.ready {
        "ok"@
    } else {
        "bad"@
    }) + "\">"@;
    let a3 = a2 + (if st.ready {
        "ready"@
    } else {
        "not ready"@
    }) + "</span>"@ + "<p class=\"muted\">"@;
    let a4 = a3 + (if st.required {
        "required"@
    } else {
        "best-effort"@
    }) + " sender</p>"@ + "<table><tbody>"@;
    let a5 = a4 + row_html("Last status"@, decimal(st.timestamp_unix_secs as nat)) + row_html(
        "Last success"@,
        option_text(st.last_success_unix_secs),
    ) + row_html("Last failure"@, option_text(st.last_failure_unix_secs));
    a5 + row_html("Error"@, html_escaped(error_text(st.error))) + "</tbody></table></div>"@
}

/// `acc` followed by the cards of `s`, in order.
pub open spec fn sender_cards_into(acc: Seq<char>, s: Seq<SenderStatusRecord>) -> Seq<char>
    decreases s.len(),
{
    if s.len() == 0 {
        acc
    } else {
        sender_card_into(sender_cards_into(acc, s.drop_last()), s.last())
    }
}

/// `acc` followed by the sender status section.
pub open spec fn sender_section_into(acc: Seq<char>, s: Seq<SenderStatusRecord>) -> Seq<char> {
    let a1 = acc + "<section><h2>Sender Status</h2>"@;
    if s.len() == 0 {
        a1 + "<p class=\"muted\">No sender status records found.</p></section>"@
    } else {
        sender_cards_into(a1 + "<div class=\"status-grid\">"@, s) + "</div></section>"@
    }
}

fn render_sender_card(html: &mut String, status: &SenderStatusRecord)
    ensures
        final(html)@ == sender_card_into(old(html)@, *status),
{
    push_str(html, "<div class=\"status-card\">");
    push_str(html, "<strong>");
    write_escaped(html, status.sender.as_str());
    push_str(html, "</strong><span class=\"");
    push_str(html, if status.ready { "ok" } else { "bad" });
    push_str(html, "\">");
    push_str(html, if status.ready { "ready" } else { "not ready" });
    push_str(html, "</span>");
    push_str(html, "<p class=\"muted\">");
    push_str(html, if status.required { "required" } else { "best-effort" });
    push_str(html, " sender</p>");
    push_str(html, "<table><tbody>");
    let ts = crate::text::decimal_string(status.timestamp_unix_secs);
    let r1 = row("Last status", ts.as_str());
    push_str(html, r1.as_str());
    let success = option_u64(status.last_success_unix_secs);
    let r2 = row("Last success", success.as_str());
    push_str(html, r2.as_str());
    let failure = option_u64(status.last_failure_unix_secs);
    let r3 = row("Last failure", failure.as_str());
    push_str(html, r3.as_str());
    let error = match &status.error {
        Some(e) => escape_html(e.as_str()),
        None => escape_html(""),
    };
    proof {
        reveal_strlit("");
    }
    let r4 = row("Error", error.as_str());
    push_str(html, r4.as_str());
    push_str(html, "</tbody></table></div>");
}

fn render_sender_status_section(html: &mut String, statuses: &Vec<SenderStatusRecord>)
    ensures
        final(html)@ == sender_section_into(old(html)@, statuses@),
{
    push_str(html, "<section><h2>Sender Status</h2>");
    if statuses.len() == 0 {
        push_str(html, "<p class=\"muted\">No sender status records found.</p></section>");
        return;
    }
    push_str(html, "<div class=\"status-grid\">");
    let ghost mid = html@;
    let mut i: usize = 0;
    while i < statuses.len()
        invariant
            i <= statuses@.len(),
            html@ == sender_cards_into(mid, statuses@.take(i as int)),
        decreases statuses@.len() - i,
    {
        render_sender_card(html, &statuses[i]);
        proof {
            assert(statuses@.take(i + 1).drop_last() =~= statuses@.take(i as int));
        }
        i = i + 1;
    }
    push_str(html, "</div></section>");
    assert(statuses@.take(statuses@.len() as int) =~= statuses@);
}

/// The role of a sender: required or best-effort.
pub open spec fn role_text(required: bool) -> Seq<char> {
    if required {
        "required"@
    } else {
        "best-effort"@
    }
}

/// `acc` followed by the table row of one delivery attempt.
pub open spec fn attempt_row_into(acc: Seq<char>, a: DeliveryAttemptRecord) -> Seq<char> {
    acc + "<tr>"@ + cell_html(decimal(a.timestamp_unix_secs as nat)) + cell_html(
        html_escaped(a.sender@),
    ) + cell_html(role_text(a.required)) + cell_html(status_label_html(a.status)) + cell_html(
        option_text(
            match a.channel {
                Some(c) => Some(c as u64),
                None => None,
            },
        ),
    ) + cell_html(html_escaped(error_text(a.error))) + "</tr>"@
}

/// `acc` followed by the rows of `s`, in order.
pub open spec fn attempt_rows_into(acc: Seq<char>, s: Seq<DeliveryAttemptRecord>) -> Seq<char>
    decreases s.len(),
{
    if s.len() == 0 {
        acc
    } else {
        attempt_row_into(attempt_rows_into(acc, s.drop_last()), s.last())
    }
}

/// Head of the delivery attempts table.
pub open spec fn attempts_table_head() -> Seq<char> {
    "<div class=\"table-wrap\"><table><thead><tr><th>Time</th><th>Sender</th><th>Role</th><th>Status</th><th>Channel</th><th>Error</th></tr></thead><tbody>"@
}

/// `acc` followed by the table of the delivery attempts `s`.
pub open spec fn attempts_into(acc: Seq<char>, s: Seq<DeliveryAttemptRecord>) -> Seq<char> {
    attempt_rows_into(acc + attempts_table_head(), s) + "</tbody></table></div>"@
}

fn render_attempt_row(html: &mut String, attempt: &DeliveryAttemptRecord)
    ensures
        final(html)@ == attempt_row_into(old(html)@, *attempt),
{
    push_str(html, "<tr>");
    let ts = crate::text::decimal_string(attempt.timestamp_unix_secs);
    let c1 = cell(ts.as_str());
    push_str(html, c1.as_str());
    let sender = escape_html(attempt.sender.as_str());
    let c2 = cell(sender.as_str());
    push_str(html, c2.as_str());
    let c3 = cell(if attempt.required { "required" } else { "best-effort" });
    push_str(html, c3.as_str());
    let label = status_label(&attempt.status);
    let c4 = cell(label.as_str());
    push_str(html, c4.as_str());
    let channel = option_u32(attempt.channel);
    let c5 = cell(channel.as_str());
    push_str(html, c5.as_str());
    let error = match &attempt.error {
        Some(e) => escape_html(e.as_str()),
        None => escape_html(""),
    };
    proof {
        reveal_strlit("");
    }
    let c6 = cell(error.as_str());
    push_str(html, c6.as_str());
    push_str(html, "</tr>");
}

fn render_attempts(html: &mut String, attempts: &Vec<DeliveryAttemptRecord>)
    ensures
        final(html)@ == attempts_into(old(html)@, attempts@),
{
    push_str(
        html,
        "<div class=\"table-wrap\"><table><thead><tr><th>Time</th><th>Sender</th><th>Role</th><th>Status</th><th>Channel</th><th>Error</th></tr></thead><tbody>",
    );
    let ghost mid = html@;
    let mut i: usize = 0;
    while i < attempts.len()
        invariant
            i <= attempts@.len(),
            html@ == attempt_rows_into(mid, attempts@.take(i as int)),
        decreases attempts@.len() - i,
    {
        render_attempt_row(html, &attempts[i]);
        proof {
            assert(attempts@.take(i + 1).drop_last() =~= attempts@.take(i as int));
        }
        i = i + 1;
    }
    push_str(html, "</tbody></table></div>");
    assert(attempts@.take(attempts@.len() as int) =~= attempts@);
}

/// `acc` followed by the card of one alert with its delivery attempts,
/// looked up in `groups` by alert id.
pub open spec fn alert_card_into(acc: Seq<char>, alert: AlertRecord, groups: Seq<AttemptGroup>) -> Seq<char> {
    let a1 = acc + "<article class=\"alert-card\">"@ + "<div class=\"alert-head\"><div>"@
        + "<div class=\"alert-title\">"@ + html_escaped(alert.event@)
        + "</div><div class=\"alert-meta\">"@ + html_escaped(alert.alert_id@) + " | "@ + decimal(
        alert.timestamp_unix_secs as nat,
    ) + "</div>"@;
    let a2 = a1 + "</div><div>"@ + "<span class=\"pill\">"@ + html_escaped(
        significance_name(alert.significance),
    ) + "</span> "@;
    let a3 = if alert.is_national {
        a2 + "<span class=\"pill\">national</span> "@
    } else {
        a2
    };
    let a4 = if alert.is_test {
        a3 + "<span class=\"pill\">test</span>"@
    } else {
        a3
    };
    let a5 = a4 + "</div></div><div class=\"alert-body\">"@ + "<table><tbody>"@ + row_html(
        "Originator"@,
        html_escaped(alert.originator@),
    ) + row_html("Callsign"@, html_escaped(alert.callsign@)) + row_html(
        "Locations"@,
        html_escaped(join_with(alert.location_names@.map_values(|x: String| x@), ", "@)),
    ) + "</tbody></table>"@;
    let a6 = a5 + "<h3>Message</h3><div class=\"message\">"@ + html_escaped(alert.message_text@)
        + "</div>"@ + "<h3>Delivery Attempts</h3>"@;
    let k = find_group(groups, alert.alert_id@);
    let a7 = if k >= 0 {
        attempts_into(a6, groups[k].attempts@)
    } else {
        a6 + "<p class=\"muted\">No delivery attempts recorded for this alert.</p>"@
    };
    a7 + "</div></article>"@
}

fn render_alert(html: &mut String, alert: &AlertRecord, data: &DashboardData)
    ensures
        final(html)@ == alert_card_into(old(html)@, *alert, data.delivery_attempts_by_alert@),
{
    push_str(html, "<article class=\"alert-card\">");
    push_str(html, "<div class=\"alert-head\"><div>");
    push_str(html, "<div class=\"alert-title\">");
    write_escaped(html, alert.event.as_str());
    push_str(html, "</div><div class=\"alert-meta\">");
    write_escaped(html, alert.alert_id.as_str());
    push_str(html, " | ");
    write_decimal(html, alert.timestamp_unix_secs);
    push_str(html, "</div>");
    push_str(html, "</div><div>");
    push_str(html, "<span class=\"pill\">");
    write_escaped(html, significance_text(alert.significance));
    push_str(html, "</span> ");
    if alert.is_national {
        push_str(html, "<span class=\"pill\">national</span> ");
    }
    if alert.is_test {
        push_str(html, "<span class=\"pill\">test</span>");
    }
    push_str(html, "</div></div><div class=\"alert-body\">");
    push_str(html, "<table><tbody>");
    let originator = escape_html(alert.originator.as_str());
    let r1 = row("Originator", originator.as_str());
    push_str(html, r1.as_str());
    let callsign = escape_html(alert.callsign.as_str());
    let r2 = row("Callsign", callsign.as_str());
    push_str(html, r2.as_str());
    let joined = join_strings(&alert.location_names, ", ");
    let locations = escape_html(joined.as_str());
    let r3 = row("Locations", locations.as_str());
    push_str(html, r3.as_str());
    push_str(html, "</tbody></table>");
    push_str(html, "<h3>Message</h3><div class=\"message\">");
    write_escaped(html, alert.message_text.as_str());
    push_str(html, "</div>");
    push_str(html, "<h3>Delivery Attempts</h3>");
    proof {
        lemma_find_group(data.delivery_attempts_by_alert@, alert.alert_id@);
    }
    match data.attempts_for(alert.alert_id.as_str()) {
        Some(attempts) => render_attempts(html, attempts),
        None => push_str(html, "<p class=\"muted\">No delivery attempts recorded for this alert.</p>"),
    }
    push_str(html, "</div></article>");
}

/// `acc` followed by the cards of `alerts`, in order.
pub open spec fn alert_cards_into(acc: Seq<char>, alerts: Seq<AlertRecord>, groups: Seq<AttemptGroup>) -> Seq<char>
    decreases alerts.len(),
{
    if alerts.len() == 0 {
        acc
    } else {
        alert_card_into(alert_cards_into(acc, alerts.drop_last(), groups), alerts.last(), groups)
    }
}

/// `acc` followed by the recent alerts section.
pub open spec fn alerts_section_into(acc: Seq<char>, data: DashboardData) -> Seq<char> {
    let a1 = acc + "<section><h2>Recent Alerts</h2>"@;
    if data.alerts@.len() == 0 {
        a1 + "<p class=\"muted\">No alert records found.</p></section>"@
    } else {
        alert_cards_into(a1, data.alerts@, data.delivery_attempts_by_alert@) + "</section>"@
    }
}

fn render_alerts_section(html: &mut String, data: &DashboardData)
    ensures
        final(html)@ == alerts_section_into(old(html)@, *data),
{
    push_str(html, "<section><h2>Recent Alerts</h2>");
    if data.alerts.len() == 0 {
        push_str(html, "<p class=\"muted\">No alert records found.</p></section>");
        return;
    }
    let ghost mid = html@;
    let mut i: usize = 0;
    while i < data.alerts.len()
        invariant
            i <= data.alerts@.len(),
            html@ == alert_cards_into(mid, data.alerts@.take(i as int), data.delivery_attempts_by_alert@),
        decreases data.alerts@.len() - i,
    {
        render_alert(html, &data.alerts[i], data);
        proof {
            assert(data.alerts@.take(i + 1).drop_last() =~= data.alerts@.take(i as int));
        }
        i = i + 1;
    }
    push_str(html, "</section>");
    assert(data.alerts@.take(data.alerts@.len() as int) =~= data.alerts@);
}

/// The whole dashboard page for the event log at `path` and what was read
/// of it: head, summary band, event log health, sender status and recent
/// alerts.
pub open spec fn dashboard_html(path: Seq<char>, data: DashboardData) -> Seq<char> {
    let summary = summary_band_html(
        data.alerts@.len(),
        count_ready(data.sender_statuses@, true),
        count_ready(data.sender_statuses@, false),
        count_group_status(data.delivery_attempts_by_alert@, DeliveryAttemptStatus::Success),
        count_group_status(data.delivery_attempts_by_alert@, DeliveryAttemptStatus::Failure),
        count_group_status(data.delivery_attempts_by_alert@, DeliveryAttemptStatus::Skipped),
    );
    let a1 = DASHBOARD_HEAD@ + summary;
    let a2 = health_section_into(a1, path, data);
    let a3 = sender_section_into(a2, data.sender_statuses@);
    alerts_section_into(a3, data) + "</main></body></html>"@
}

/// Renders the dashboard page.
pub fn render_dashboard(event_log_path: &str, data: &DashboardData) -> (html: String)
    requires
        total_attempts(data.delivery_attempts_by_alert@) <= usize::MAX,
    ensures
        html@ == dashboard_html(event_log_path@, *data),
{
    let summary = DashboardSummary::from_data(data);
    let mut html = String::new();
    push_str(&mut html, DASHBOARD_HEAD);
    render_summary_band(&mut html, &summary);
    render_health_section(&mut html, event_log_path, data);
    render_sender_status_section(&mut html, &data.sender_statuses);
    render_alerts_section(&mut html, data);
    push_str(&mut html, "</main></body></html>");
    html
}

} // verus!

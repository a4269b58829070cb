//! The dashboard page cannot be made to run a script: every text the event
//! log supplies is escaped, so no `<script` can arise from it.
use vstd::prelude::*;
use crate::dashboard_view::{
    alert_card_into, alert_cards_into, alerts_section_into, attempt_row_into, attempt_rows_into,
    attempts_into, attempts_table_head, cell_html, dashboard_html, error_text, health_item_html,
    health_section_into, html_escaped, law_escaped_text_has_no_markup, metric_html, option_text,
    read_status_text, role_text, row_html, sender_card_into, sender_cards_into,
    sender_section_into, status_label_html, summary_band_html, DASHBOARD_HEAD,
};
use crate::event_contracts::{AlertRecord, DeliveryAttemptRecord, DeliveryAttemptStatus, SenderStatusRecord};
use crate::event_log_reader::{find_group, AttemptGroup, DashboardData};
use crate::text::decimal;

verus! {

/// The characters of an opening script tag.
pub open spec fn script_open() -> Seq<char> {
    seq!['<', 's', 'c', 'r', 'i', 'p', 't']
}

/// Whether `<script` occurs in `s`.
pub open spec fn has_script_tag(s: Seq<char>) -> bool {
    exists|i: int| 0 <= i && i + 7 <= s.len() && #[trigger] s.subrange(i, i + 7) == script_open()
}

/// How much of `<script` has just been read, after reading `c` with `q`
/// characters of it read before; 7 once all of it has been read.
pub open spec fn script_step(q: nat, c: char) -> nat {
    if q >= 7 {
        7
    } else if c == script_open()[q as int] {
        q + 1
    } else if c == '<' {
        1
    } else {
        0
    }
}

/// The state after reading `s` from state `q`.
pub open spec fn script_scan(q: nat, s: Seq<char>) -> nat
    decreases s.len(),
{
    if s.len() == 0 {
        q
    } else {
        script_step(script_scan(q, s.drop_last()), s.last())
    }
}

/// Text that, read from the start, holds no `<script` and leaves no part of
/// one pending at its end.
pub open spec fn tag_safe(s: Seq<char>) -> bool {
    script_scan(0, s) == 0
}

proof fn lemma_scan_concat(q: nat, a: Seq<char>, b: Seq<char>)
    ensures
        script_scan(q, a + b) == script_scan(script_scan(q, a), b),
    decreases b.len(),
{
    if b.len() == 0 {
        assert(a + b =~= a);
    } else {
        lemma_scan_concat(q, a, b.drop_last());
        assert((a + b).drop_last() =~= a + b.drop_last());
        assert((a + b).last() == b.last());
    }
}

broadcast proof fn lemma_safe_concat(a: Seq<char>, b: Seq<char>)
    requires
        tag_safe(a),
        tag_safe(b),
    ensures
        #[trigger] tag_safe(a + b),
{
    lemma_scan_concat(0, a, b);
}

proof fn lemma_scan_final(s: Seq<char>)
    ensures
        script_scan(7, s) == 7,
    decreases s.len(),
{
    if s.len() > 0 {
        lemma_scan_final(s.drop_last());
    }
}

proof fn lemma_scan_script_open(q: nat)
    ensures
        script_scan(q, script_open()) == 7,
{
    reveal_with_fuel(script_scan, 8);
    let p = script_open();
    assert(p.drop_last().drop_last().drop_last().drop_last().drop_last().drop_last() =~= seq!['<']);
    assert(p.drop_last().drop_last().drop_last().drop_last().drop_last() =~= seq!['<', 's']);
    assert(p.drop_last().drop_last().drop_last().drop_last() =~= seq!['<', 's', 'c']);
    assert(p.drop_last().drop_last().drop_last() =~= seq!['<', 's', 'c', 'r']);
    assert(p.drop_last().drop_last() =~= seq!['<', 's', 'c', 'r', 'i']);
    assert(p.drop_last() =~= seq!['<', 's', 'c', 'r', 'i', 'p']);
    assert(seq!['<'].drop_last() =~= Seq::<char>::empty());
}

proof fn lemma_script_tag_scans_to_end(s: Seq<char>)
    requires
        has_script_tag(s),
    ensures
        script_scan(0, s) == 7,
{
    let i = choose|i: int| 0 <= i && i + 7 <= s.len() && #[trigger] s.subrange(i, i + 7) == script_open();
    let x = s.subrange(0, i);
    let y = s.subrange(i + 7, s.len() as int);
    assert(s =~= x + script_open() + y);
    lemma_scan_concat(0, x + script_open(), y);
    lemma_scan_concat(0, x, script_open());
    lemma_scan_script_open(script_scan(0, x));
    lemma_scan_final(y);
}

proof fn lemma_no_lt_safe(s: Seq<char>)
    requires
        forall|i: int| 0 <= i < s.len() ==> #[trigger] s[i] != '<',
    ensures
        tag_safe(s),
    decreases s.len(),
{
    if s.len() > 0 {
        assert forall|i: int| 0 <= i < s.drop_last().len() implies #[trigger] s.drop_last()[i] != '<' by {
            assert(s.drop_last()[i] == s[i]);
        }
        lemma_no_lt_safe(s.drop_last());
        assert(s.last() == s[s.len() - 1]);
    }
}

broadcast proof fn lemma_escaped_safe(t: Seq<char>)
    ensures
        #[trigger] tag_safe(html_escaped(t)),
{
    law_escaped_text_has_no_markup(t);
    lemma_no_lt_safe(html_escaped(t));
}

broadcast proof fn lemma_decimal_safe(n: nat)
    ensures
        #[trigger] tag_safe(decimal(n)),
    decreases n,
{
    if n < 10 {
        assert(decimal(n) =~= seq![crate::text::digit_char(n)]);
        assert(crate::text::digit_char(n) != '<');
        lemma_no_lt_safe(decimal(n));
    } else {
        lemma_decimal_safe(n / 10);
        let d = decimal(n / 10);
        assert(decimal(n) == d.push(crate::text::digit_char(n % 10)));
        assert(decimal(n).drop_last() =~= d);
        assert(crate::text::digit_char(n % 10) != '<');
    }
}

proof fn lemma_empty_safe()
    ensures
        tag_safe(Seq::<char>::empty()),
{
}

proof fn lemma_literal_0()
    ensures
        tag_safe("<tr><th>"@),
{
    reveal_strlit("<tr><th>");
    reveal_with_fuel(script_scan, 10);
}

proof fn lemma_literal_1()
    ensures
        tag_safe("</th><td>"@),
{
    reveal_strlit("</th><td>");
    reveal_with_fuel(script_scan, 11);
}

proof fn lemma_literal_2()
    ensures
        tag_safe("</td></tr>"@),
{
    reveal_strlit("</td></tr>");
    reveal_with_fuel(script_scan, 12);
}

proof fn lemma_literal_3()
    ensures
        tag_safe("<td>"@),
{
    reveal_strlit("<td>");
    reveal_with_fuel(script_scan, 6);
}

proof fn lemma_literal_4()
    ensures
        tag_safe("</td>"@),
{
    reveal_strlit("</td>");
    reveal_with_fuel(script_scan, 7);
}

proof fn lemma_literal_5_0()
    ensures
        tag_safe("<span cl"@),
{
    reveal_strlit("<span cl");
    reveal_with_fuel(script_scan, 10);
}

proof fn lemma_literal_5_1()
    ensures
        tag_safe("ass=\"ok\""@),
{
    reveal_strlit("ass=\"ok\"");
    reveal_with_fuel(script_scan, 10);
}

proof fn lemma_literal_5_2()
    ensures
        tag_safe(">success"@),
{
    reveal_strlit(">success");
    reveal_with_fuel(script_scan, 10);
}

proof fn lemma_literal_5_3()
    ensures
        tag_safe("</span>"@),
{
    reveal_strlit("</span>");
    reveal_with_fuel(script_scan, 9);
}

proof fn lemma_literal_5()
    ensures
        tag_safe("<span class=\"ok\">success</span>"@),
{
    broadcast use lemma_safe_concat;

    lemma_literal_5_0();
    lemma_literal_5_1();
    lemma_literal_5_2();
    lemma_literal_5_3();
    reveal_strlit("<span class=\"ok\">success</span>");
    reveal_strlit("<span cl");
    reveal_strlit("ass=\"ok\"");
    reveal_strlit(">success");
    reveal_strlit("</span>");
    assert("<span class=\"ok\">success</span>"@ =~= "<span cl"@ + "ass=\"ok\""@ + ">success"@ + "</span>"@);
}

proof fn lemma_literal_6_0()
    ensures
        tag_safe("<span cl"@),
{
    reveal_strlit("<span cl");
    reveal_with_fuel(script_scan, 10);
}

proof fn lemma_literal_6_1()
    ensures
        tag_safe("ass=\"bad"@),
{
    reveal_strlit("ass=\"bad");
    reveal_with_fuel(script_scan, 10);
}

proof fn lemma_literal_6_2()
    ensures
        tag_safe("\">failur"@),
{
    reveal_strlit("\">failur");
    reveal_with_fuel(script_scan, 10);
}

proof fn lemma_literal_6_3()
    ensures
        tag_safe("e</span>"@),
{
    reveal_strlit("e</span>");
    reveal_with_fuel(script_scan, 10);
}

proof fn lemma_literal_6()
    ensures
        tag_safe("<span class=\"bad\">failure</span>"@),
{
    broadcast use lemma_safe_concat;

    lemma_literal_6_0();
    lemma_literal_6_1();
    lemma_literal_6_2();
    lemma_literal_6_3();
    reveal_strlit("<span class=\"bad\">failure</span>");
    reveal_strlit("<span cl");
    reveal_strlit("ass=\"bad");
    reveal_strlit("\">failur");
    reveal_strlit("e</span>");
    assert("<span class=\"bad\">failure</span>"@ =~= "<span cl"@ + "ass=\"bad"@ + "\">failur"@ + "e</span>"@);
}

proof fn lemma_literal_7_0()
    ensures
        tag_safe("<span cl"@),
{
    reveal_strlit("<span cl");
    reveal_with_fuel(script_scan, 10);
}

proof fn lemma_literal_7_1()
    ensures
        tag_safe("ass=\"mut"@),
{
    reveal_strlit("ass=\"mut");
    reveal_with_fuel(script_scan, 10);
}

proof fn lemma_literal_7_2()
    ensures
        tag_safe("ed\">skip"@),
{
    reveal_strlit("ed\">skip");
    reveal_with_fuel(script_scan, 10);
}

proof fn lemma_literal_7_3()
    ensures
        tag_safe("ped</spa"@),
{
    reveal_strlit("ped</spa");
    reveal_with_fuel(script_scan, 10);
}

proof fn lemma_literal_7_4()
    ensures
        tag_safe("n>"@),
{
    reveal_strlit("n>");
    reveal_with_fuel(script_scan, 4);
}

proof fn lemma_literal_7()
    ensures
        tag_safe("<span class=\"muted\">skipped</span>"@),
{
    broadcast use lemma_safe_concat;

    lemma_literal_7_0();
    lemma_literal_7_1();
    lemma_literal_7_2();
    lemma_literal_7_3();
    lemma_literal_7_4();
    reveal_strlit("<span class=\"muted\">skipped</span>");
    reveal_strlit("<span cl");
    reveal_strlit("ass=\"mut");
    reveal_strlit("ed\">skip");
    reveal_strlit("ped</spa");
    reveal_strlit("n>");
    assert("<span class=\"muted\">skipped</span>"@ =~= "<span cl"@ + "ass=\"mut"@ + "ed\">skip"@ + "ped</spa"@ + "n>"@);
}

proof fn lemma_literal_8_0()
    ensures
        tag_safe("<div cla"@),
{
    reveal_strlit("<div cla");
    reveal_with_fuel(script_scan, 10);
}

proof fn lemma_literal_8_1()
    ensures
        tag_safe("ss=\"metr"@),
{
    reveal_strlit("ss=\"metr");
    reveal_with_fuel(script_scan, 10);
}

proof fn lemma_literal_8_2()
    ensures
        tag_safe("ic\"><str"@),
{
    reveal_strlit("ic\"><str");
    reveal_with_fuel(script_scan, 10);
}

proof fn lemma_literal_8_3()
    ensures
        tag_safe("ong>"@),
{
    reveal_strlit("ong>");
    reveal_with_fuel(script_scan, 6);
}

proof fn lemma_literal_8()
    ensures
        tag_safe("<div class=\"metric\"><strong>"@),
{
    broadcast use lemma_safe_concat;

    lemma_literal_8_0();
    lemma_literal_8_1();
    lemma_literal_8_2();
    lemma_literal_8_3();
    reveal_strlit("<div class=\"metric\"><strong>");
    reveal_strlit("<div cla");
    reveal_strlit("ss=\"metr");
    reveal_strlit("ic\"><str");
    reveal_strlit("ong>");
    assert("<div class=\"metric\"><strong>"@ =~= "<div cla"@ + "ss=\"metr"@ + "ic\"><str"@ + "ong>"@);
}

proof fn lemma_literal_9_0()
    ensures
        tag_safe("</strong"@),
{
    reveal_strlit("</strong");
    reveal_with_fuel(script_scan, 10);
}

proof fn lemma_literal_9_1()
    ensures
        tag_safe("><span>"@),
{
    reveal_strlit("><span>");
    reveal_with_fuel(script_scan, 9);
}

proof fn lemma_literal_9()
    ensures
        tag_safe("</strong><span>"@),
{
    broadcast use lemma_safe_concat;

    lemma_literal_9_0();
    lemma_literal_9_1();
    reveal_strlit("</strong><span>");
    reveal_strlit("</strong");
    reveal_strlit("><span>");
    assert("</strong><span>"@ =~= "</strong"@ + "><span>"@);
}

proof fn lemma_literal_10()
    ensures
        tag_safe("</span></div>"@),
{
    reveal_strlit("</span></div>");
    reveal_with_fuel(script_scan, 15);
}

proof fn lemma_literal_11_0()
    ensures
        tag_safe("<section"@),
{
    reveal_strlit("<section");
    reveal_with_fuel(script_scan, 10);
}

proof fn lemma_literal_11_1()
    ensures
        tag_safe("><h2>Ope"@),
{
    reveal_strlit("><h2>Ope");
    reveal_with_fuel(script_scan, 10);
}

proof fn lemma_literal_11_2()
    ensures
        tag_safe("rator Su"@),
{
    reveal_strlit("rator Su");
    reveal_with_fuel(script_scan, 10);
}

proof fn lemma_literal_11_3()
    ensures
        tag_safe("mmary</h"@),
{
    reveal_strlit("mmary</h");
    reveal_with_fuel(script_scan, 10);
}

proof fn lemma_literal_11_4()
    ensures
        tag_safe("2><div c"@),
{
    reveal_strlit("2><div c");
    reveal_with_fuel(script_scan, 10);
}

proof fn lemma_literal_11_5()
    ensures
        tag_safe("lass=\"su"@),
{
    reveal_strlit("lass=\"su");
    reveal_with_fuel(script_scan, 10);
}

proof fn lemma_literal_11_6()
    ensures
        tag_safe("mmary\">"@),
{
    reveal_strlit("mmary\">");
    reveal_with_fuel(script_scan, 9);
}

proof fn lemma_literal_11()
    ensures
        tag_safe("<section><h2>Operator Summary</h2><div class=\"summary\">"@),
{
    broadcast use lemma_safe_concat;

    lemma_literal_11_0();
    lemma_literal_11_1();
    lemma_literal_11_2();
    lemma_literal_11_3();
    lemma_literal_11_4();
    lemma_literal_11_5();
    lemma_literal_11_6();
    reveal_strlit("<section><h2>Operator Summary</h2><div class=\"summary\">");
    reveal_strlit("<section");
    reveal_strlit("><h2>Ope");
    reveal_strlit("rator Su");
    reveal_strlit("mmary</h");
    reveal_strlit("2><div c");
    reveal_strlit("lass=\"su");
    reveal_strlit("mmary\">");
    assert("<section><h2>Operator Summary</h2><div class=\"summary\">"@ =~= "<section"@ + "><h2>Ope"@ + "rator Su"@ + "mmary</h"@ + "2><div c"@ + "lass=\"su"@ + "mmary\">"@);
}

proof fn lemma_literal_12()
    ensures
        tag_safe("Recent Alerts"@),
{
    reveal_strlit("Recent Alerts");
    reveal_with_fuel(script_scan, 15);
}

proof fn lemma_literal_13()
    ensures
        tag_safe("Senders Ready"@),
{
    reveal_strlit("Senders Ready");
    reveal_with_fuel(script_scan, 15);
}

proof fn lemma_literal_14_0()
    ensures
        tag_safe("Senders "@),
{
    reveal_strlit("Senders ");
    reveal_with_fuel(script_scan, 10);
}

proof fn lemma_literal_14_1()
    ensures
        tag_safe("Not Read"@),
{
    reveal_strlit("Not Read");
    reveal_with_fuel(script_scan, 10);
}

proof fn lemma_literal_14_2()
    ensures
        tag_safe("y"@),
{
    reveal_strlit("y");
    reveal_with_fuel(script_scan, 3);
}

proof fn lemma_literal_14()
    ensures
        tag_safe("Senders Not Ready"@),
{
    broadcast use lemma_safe_concat;

    lemma_literal_14_0();
    lemma_literal_14_1();
    lemma_literal_14_2();
    reveal_strlit("Senders Not Ready");
    reveal_strlit("Senders ");
    reveal_strlit("Not Read");
    reveal_strlit("y");
    assert("Senders Not Ready"@ =~= "Senders "@ + "Not Read"@ + "y"@);
}

proof fn lemma_literal_15_0()
    ensures
        tag_safe("Delivery"@),
{
    reveal_strlit("Delivery");
    reveal_with_fuel(script_scan, 10);
}

proof fn lemma_literal_15_1()
    ensures
        tag_safe(" Success"@),
{
    reveal_strlit(" Success");
    reveal_with_fuel(script_scan, 10);
}

proof fn lemma_literal_15()
    ensures
        tag_safe("Delivery Success"@),
{
    broadcast use lemma_safe_concat;

    lemma_literal_15_0();
    lemma_literal_15_1();
    reveal_strlit("Delivery Success");
    reveal_strlit("Delivery");
    reveal_strlit(" Success");
    assert("Delivery Success"@ =~= "Delivery"@ + " Success"@);
}

proof fn lemma_literal_16_0()
    ensures
        tag_safe("Delivery"@),
{
    reveal_strlit("Delivery");
    reveal_with_fuel(script_scan, 10);
}

proof fn lemma_literal_16_1()
    ensures
        tag_safe(" Failure"@),
{
    reveal_strlit(" Failure");
    reveal_with_fuel(script_scan, 10);
}

proof fn lemma_literal_16()
    ensures
        tag_safe("Delivery Failure"@),
{
    broadcast use lemma_safe_concat;

    lemma_literal_16_0();
    lemma_literal_16_1();
    reveal_strlit("Delivery Failure");
    reveal_strlit("Delivery");
    reveal_strlit(" Failure");
    assert("Delivery Failure"@ =~= "Delivery"@ + " Failure"@);
}

proof fn lemma_literal_17()
    ensures
        tag_safe("</div>"@),
{
    reveal_strlit("</div>");
    reveal_with_fuel(script_scan, 8);
}

proof fn lemma_literal_18_0()
    ensures
        tag_safe("<p class"@),
{
    reveal_strlit("<p class");
    reveal_with_fuel(script_scan, 10);
}

proof fn lemma_literal_18_1()
    ensures
        tag_safe("=\"muted\""@),
{
    reveal_strlit("=\"muted\"");
    reveal_with_fuel(script_scan, 10);
}

proof fn lemma_literal_18_2()
    ensures
        tag_safe(">Skipped"@),
{
    reveal_strlit(">Skipped");
    reveal_with_fuel(script_scan, 10);
}

proof fn lemma_literal_18_3()
    ensures
        tag_safe(" deliver"@),
{
    reveal_strlit(" deliver");
    reveal_with_fuel(script_scan, 10);
}

proof fn lemma_literal_18_4()
    ensures
        tag_safe("y attemp"@),
{
    reveal_strlit("y attemp");
    reveal_with_fuel(script_scan, 10);
}

proof fn lemma_literal_18_5()
    ensures
        tag_safe("ts: "@),
{
    reveal_strlit("ts: ");
    reveal_with_fuel(script_scan, 6);
}

proof fn lemma_literal_18()
    ensures
        tag_safe("<p class=\"muted\">Skipped delivery attempts: "@),
{
    broadcast use lemma_safe_concat;

    lemma_literal_18_0();
    lemma_literal_18_1();
    lemma_literal_18_2();
    lemma_literal_18_3();
    lemma_literal_18_4();
    lemma_literal_18_5();
    reveal_strlit("<p class=\"muted\">Skipped delivery attempts: ");
    reveal_strlit("<p class");
    reveal_strlit("=\"muted\"");
    reveal_strlit(">Skipped");
    reveal_strlit(" deliver");
    reveal_strlit("y attemp");
    reveal_strlit("ts: ");
    assert("<p class=\"muted\">Skipped delivery attempts: "@ =~= "<p class"@ + "=\"muted\""@ + ">Skipped"@ + " deliver"@ + "y attemp"@ + "ts: "@);
}

proof fn lemma_literal_19()
    ensures
        tag_safe("</p>"@),
{
    reveal_strlit("</p>");
    reveal_with_fuel(script_scan, 6);
}

proof fn lemma_literal_20()
    ensures
        tag_safe("</section>"@),
{
    reveal_strlit("</section>");
    reveal_with_fuel(script_scan, 12);
}

proof fn lemma_literal_21_0()
    ensures
        tag_safe("<div cla"@),
{
    reveal_strlit("<div cla");
    reveal_with_fuel(script_scan, 10);
}

proof fn lemma_literal_21_1()
    ensures
        tag_safe("ss=\"heal"@),
{
    reveal_strlit("ss=\"heal");
    reveal_with_fuel(script_scan, 10);
}

proof fn lemma_literal_21_2()
    ensures
        tag_safe("th-item\""@),
{
    reveal_strlit("th-item\"");
    reveal_with_fuel(script_scan, 10);
}

proof fn lemma_literal_21_3()
    ensures
        tag_safe("><span>"@),
{
    reveal_strlit("><span>");
    reveal_with_fuel(script_scan, 9);
}

proof fn lemma_literal_21()
    ensures
        tag_safe("<div class=\"health-item\"><span>"@),
{
    broadcast use lemma_safe_concat;

    lemma_literal_21_0();
    lemma_literal_21_1();
    lemma_literal_21_2();
    lemma_literal_21_3();
    reveal_strlit("<div class=\"health-item\"><span>");
    reveal_strlit("<div cla");
    reveal_strlit("ss=\"heal");
    reveal_strlit("th-item\"");
    reveal_strlit("><span>");
    assert("<div class=\"health-item\"><span>"@ =~= "<div cla"@ + "ss=\"heal"@ + "th-item\""@ + "><span>"@);
}

proof fn lemma_literal_22()
    ensures
        tag_safe("</span>"@),
{
    reveal_strlit("</span>");
    reveal_with_fuel(script_scan, 9);
}

proof fn lemma_literal_23()
    ensures
        tag_safe("<section"@),
{
    reveal_strlit("<section");
    reveal_with_fuel(script_scan, 10);
}

proof fn lemma_literal_24()
    ensures
        tag_safe(" class=\"error\""@),
{
    reveal_strlit(" class=\"error\"");
    reveal_with_fuel(script_scan, 16);
}

proof fn lemma_literal_25_0()
    ensures
        tag_safe("><h2>Eve"@),
{
    reveal_strlit("><h2>Eve");
    reveal_with_fuel(script_scan, 10);
}

proof fn lemma_literal_25_1()
    ensures
        tag_safe("nt Log H"@),
{
    reveal_strlit("nt Log H");
    reveal_with_fuel(script_scan, 10);
}

proof fn lemma_literal_25_2()
    ensures
        tag_safe("ealth</h"@),
{
    reveal_strlit("ealth</h");
    reveal_with_fuel(script_scan, 10);
}

proof fn lemma_literal_25_3()
    ensures
        tag_safe("2>"@),
{
    reveal_strlit("2>");
    reveal_with_fuel(script_scan, 4);
}

proof fn lemma_literal_25()
    ensures
        tag_safe("><h2>Event Log Health</h2>"@),
{
    broadcast use lemma_safe_concat;

    lemma_literal_25_0();
    lemma_literal_25_1();
    lemma_literal_25_2();
    lemma_literal_25_3();
    reveal_strlit("><h2>Event Log Health</h2>");
    reveal_strlit("><h2>Eve");
    reveal_strlit("nt Log H");
    reveal_strlit("ealth</h");
    reveal_strlit("2>");
    assert("><h2>Event Log Health</h2>"@ =~= "><h2>Eve"@ + "nt Log H"@ + "ealth</h"@ + "2>"@);
}

proof fn lemma_literal_26_0()
    ensures
        tag_safe("<div cla"@),
{
    reveal_strlit("<div cla");
    reveal_with_fuel(script_scan, 10);
}

proof fn lemma_literal_26_1()
    ensures
        tag_safe("ss=\"heal"@),
{
    reveal_strlit("ss=\"heal");
    reveal_with_fuel(script_scan, 10);
}

proof fn lemma_literal_26_2()
    ensures
        tag_safe("th-list\""@),
{
    reveal_strlit("th-list\"");
    reveal_with_fuel(script_scan, 10);
}

proof fn lemma_literal_26_3()
    ensures
        tag_safe(">"@),
{
    reveal_strlit(">");
    reveal_with_fuel(script_scan, 3);
}

proof fn lemma_literal_26()
    ensures
        tag_safe("<div class=\"health-list\">"@),
{
    broadcast use lemma_safe_concat;

    lemma_literal_26_0();
    lemma_literal_26_1();
    lemma_literal_26_2();
    lemma_literal_26_3();
    reveal_strlit("<div class=\"health-list\">");
    reveal_strlit("<div cla");
    reveal_strlit("ss=\"heal");
    reveal_strlit("th-list\"");
    reveal_strlit(">");
    assert("<div class=\"health-list\">"@ =~= "<div cla"@ + "ss=\"heal"@ + "th-list\""@ + ">"@);
}

proof fn lemma_literal_27()
    ensures
        tag_safe("Path"@),
{
    reveal_strlit("Path");
    reveal_with_fuel(script_scan, 6);
}

proof fn lemma_literal_28()
    ensures
        tag_safe("Parsed records"@),
{
    reveal_strlit("Parsed records");
    reveal_with_fuel(script_scan, 16);
}

proof fn lemma_literal_29_0()
    ensures
        tag_safe("Malforme"@),
{
    reveal_strlit("Malforme");
    reveal_with_fuel(script_scan, 10);
}

proof fn lemma_literal_29_1()
    ensures
        tag_safe("d lines"@),
{
    reveal_strlit("d lines");
    reveal_with_fuel(script_scan, 9);
}

proof fn lemma_literal_29()
    ensures
        tag_safe("Malformed lines"@),
{
    broadcast use lemma_safe_concat;

    lemma_literal_29_0();
    lemma_literal_29_1();
    reveal_strlit("Malformed lines");
    reveal_strlit("Malforme");
    reveal_strlit("d lines");
    assert("Malformed lines"@ =~= "Malforme"@ + "d lines"@);
}

proof fn lemma_literal_30_0()
    ensures
        tag_safe("Truncate"@),
{
    reveal_strlit("Truncate");
    reveal_with_fuel(script_scan, 10);
}

proof fn lemma_literal_30_1()
    ensures
        tag_safe("d record"@),
{
    reveal_strlit("d record");
    reveal_with_fuel(script_scan, 10);
}

proof fn lemma_literal_30_2()
    ensures
        tag_safe("s"@),
{
    reveal_strlit("s");
    reveal_with_fuel(script_scan, 3);
}

proof fn lemma_literal_30()
    ensures
        tag_safe("Truncated records"@),
{
    broadcast use lemma_safe_concat;

    lemma_literal_30_0();
    lemma_literal_30_1();
    lemma_literal_30_2();
    reveal_strlit("Truncated records");
    reveal_strlit("Truncate");
    reveal_strlit("d record");
    reveal_strlit("s");
    assert("Truncated records"@ =~= "Truncate"@ + "d record"@ + "s"@);
}

proof fn lemma_literal_31()
    ensures
        tag_safe("Read status"@),
{
    reveal_strlit("Read status");
    reveal_with_fuel(script_scan, 13);
}

proof fn lemma_literal_32()
    ensures
        tag_safe("Refresh"@),
{
    reveal_strlit("Refresh");
    reveal_with_fuel(script_scan, 9);
}

proof fn lemma_literal_33_0()
    ensures
        tag_safe("Local me"@),
{
    reveal_strlit("Local me");
    reveal_with_fuel(script_scan, 10);
}

proof fn lemma_literal_33_1()
    ensures
        tag_safe("ta refre"@),
{
    reveal_strlit("ta refre");
    reveal_with_fuel(script_scan, 10);
}

proof fn lemma_literal_33_2()
    ensures
        tag_safe("sh every"@),
{
    reveal_strlit("sh every");
    reveal_with_fuel(script_scan, 10);
}

proof fn lemma_literal_33_3()
    ensures
        tag_safe(" 30 seco"@),
{
    reveal_strlit(" 30 seco");
    reveal_with_fuel(script_scan, 10);
}

proof fn lemma_literal_33_4()
    ensures
        tag_safe("nds"@),
{
    reveal_strlit("nds");
    reveal_with_fuel(script_scan, 5);
}

proof fn lemma_literal_33()
    ensures
        tag_safe("Local meta refresh every 30 seconds"@),
{
    broadcast use lemma_safe_concat;

    lemma_literal_33_0();
    lemma_literal_33_1();
    lemma_literal_33_2();
    lemma_literal_33_3();
    lemma_literal_33_4();
    reveal_strlit("Local meta refresh every 30 seconds");
    reveal_strlit("Local me");
    reveal_strlit("ta refre");
    reveal_strlit("sh every");
    reveal_strlit(" 30 seco");
    reveal_strlit("nds");
    assert("Local meta refresh every 30 seconds"@ =~= "Local me"@ + "ta refre"@ + "sh every"@ + " 30 seco"@ + "nds"@);
}

proof fn lemma_literal_34_0()
    ensures
        tag_safe("<p class"@),
{
    reveal_strlit("<p class");
    reveal_with_fuel(script_scan, 10);
}

proof fn lemma_literal_34_1()
    ensures
        tag_safe("=\"warn\">"@),
{
    reveal_strlit("=\"warn\">");
    reveal_with_fuel(script_scan, 10);
}

proof fn lemma_literal_34_2()
    ensures
        tag_safe("Malforme"@),
{
    reveal_strlit("Malforme");
    reveal_with_fuel(script_scan, 10);
}

proof fn lemma_literal_34_3()
    ensures
        tag_safe("d event "@),
{
    reveal_strlit("d event ");
    reveal_with_fuel(script_scan, 10);
}

proof fn lemma_literal_34_4()
    ensures
        tag_safe("log line"@),
{
    reveal_strlit("log line");
    reveal_with_fuel(script_scan, 10);
}

proof fn lemma_literal_34_5()
    ensures
        tag_safe("s were s"@),
{
    reveal_strlit("s were s");
    reveal_with_fuel(script_scan, 10);
}

proof fn lemma_literal_34_6()
    ensures
        tag_safe("kipped.</"@),
{
    reveal_strlit("kipped.</");
    reveal_with_fuel(script_scan, 11);
}

proof fn lemma_literal_34_7()
    ensures
        tag_safe("p>"@),
{
    reveal_strlit("p>");
    reveal_with_fuel(script_scan, 4);
}

proof fn lemma_literal_34()
    ensures
        tag_safe("<p class=\"warn\">Malformed event log lines were skipped.</p>"@),
{
    broadcast use lemma_safe_concat;

    lemma_literal_34_0();
    lemma_literal_34_1();
    lemma_literal_34_2();
    lemma_literal_34_3();
    lemma_literal_34_4();
    lemma_literal_34_5();
    lemma_literal_34_6();
    lemma_literal_34_7();
    reveal_strlit("<p class=\"warn\">Malformed event log lines were skipped.</p>");
    reveal_strlit("<p class");
    reveal_strlit("=\"warn\">");
    reveal_strlit("Malforme");
    reveal_strlit("d event ");
    reveal_strlit("log line");
    reveal_strlit("s were s");
    reveal_strlit("kipped.</");
    reveal_strlit("p>");
    assert("<p class=\"warn\">Malformed event log lines were skipped.</p>"@ =~= "<p class"@ + "=\"warn\">"@ + "Malforme"@ + "d event "@ + "log line"@ + "s were s"@ + "kipped.</"@ + "p>"@);
}

proof fn lemma_literal_35_0()
    ensures
        tag_safe("<p class"@),
{
    reveal_strlit("<p class");
    reveal_with_fuel(script_scan, 10);
}

proof fn lemma_literal_35_1()
    ensures
        tag_safe("=\"warn\">"@),
{
    reveal_strlit("=\"warn\">");
    reveal_with_fuel(script_scan, 10);
}

proof fn lemma_literal_35_2()
    ensures
        tag_safe("Display "@),
{
    reveal_strlit("Display ");
    reveal_with_fuel(script_scan, 10);
}

proof fn lemma_literal_35_3()
    ensures
        tag_safe("cap reac"@),
{
    reveal_strlit("cap reac");
    reveal_with_fuel(script_scan, 10);
}

proof fn lemma_literal_35_4()
    ensures
        tag_safe("hed; new"@),
{
    reveal_strlit("hed; new");
    reveal_with_fuel(script_scan, 10);
}

proof fn lemma_literal_35_5()
    ensures
        tag_safe("er dashb"@),
{
    reveal_strlit("er dashb");
    reveal_with_fuel(script_scan, 10);
}

proof fn lemma_literal_35_6()
    ensures
        tag_safe("oard pag"@),
{
    reveal_strlit("oard pag");
    reveal_with_fuel(script_scan, 10);
}

proof fn lemma_literal_35_7()
    ensures
        tag_safe("es may o"@),
{
    reveal_strlit("es may o");
    reveal_with_fuel(script_scan, 10);
}

proof fn lemma_literal_35_8()
    ensures
        tag_safe("mit olde"@),
{
    reveal_strlit("mit olde");
    reveal_with_fuel(script_scan, 10);
}

proof fn lemma_literal_35_9()
    ensures
        tag_safe("r record"@),
{
    reveal_strlit("r record");
    reveal_with_fuel(script_scan, 10);
}

proof fn lemma_literal_35_10()
    ensures
        tag_safe("s.</p>"@),
{
    reveal_strlit("s.</p>");
    reveal_with_fuel(script_scan, 8);
}

proof fn lemma_literal_35()
    ensures
        tag_safe("<p class=\"warn\">Display cap reached; newer dashboard pages may omit older records.</p>"@),
{
    broadcast use lemma_safe_concat;

    lemma_literal_35_0();
    lemma_literal_35_1();
    lemma_literal_35_2();
    lemma_literal_35_3();
    lemma_literal_35_4();
    lemma_literal_35_5();
    lemma_literal_35_6();
    lemma_literal_35_7();
    lemma_literal_35_8();
    lemma_literal_35_9();
    lemma_literal_35_10();
    reveal_strlit("<p class=\"warn\">Display cap reached; newer dashboard pages may omit older records.</p>");
    reveal_strlit("<p class");
    reveal_strlit("=\"warn\">");
    reveal_strlit("Display ");
    reveal_strlit("cap reac");
    reveal_strlit("hed; new");
    reveal_strlit("er dashb");
    reveal_strlit("oard pag");
    reveal_strlit("es may o");
    reveal_strlit("mit olde");
    reveal_strlit("r record");
    reveal_strlit("s.</p>");
    assert("<p class=\"warn\">Display cap reached; newer dashboard pages may omit older records.</p>"@ =~= "<p class"@ + "=\"warn\">"@ + "Display "@ + "cap reac"@ + "hed; new"@ + "er dashb"@ + "oard pag"@ + "es may o"@ + "mit olde"@ + "r record"@ + "s.</p>"@);
}

proof fn lemma_literal_36_0()
    ensures
        tag_safe("<div cla"@),
{
    reveal_strlit("<div cla");
    reveal_with_fuel(script_scan, 10);
}

proof fn lemma_literal_36_1()
    ensures
        tag_safe("ss=\"stat"@),
{
    reveal_strlit("ss=\"stat");
    reveal_with_fuel(script_scan, 10);
}

proof fn lemma_literal_36_2()
    ensures
        tag_safe("us-card\""@),
{
    reveal_strlit("us-card\"");
    reveal_with_fuel(script_scan, 10);
}

proof fn lemma_literal_36_3()
    ensures
        tag_safe(">"@),
{
    reveal_strlit(">");
    reveal_with_fuel(script_scan, 3);
}

proof fn lemma_literal_36()
    ensures
        tag_safe("<div class=\"status-card\">"@),
{
    broadcast use lemma_safe_concat;

    lemma_literal_36_0();
    lemma_literal_36_1();
    lemma_literal_36_2();
    lemma_literal_36_3();
    reveal_strlit("<div class=\"status-card\">");
    reveal_strlit("<div cla");
    reveal_strlit("ss=\"stat");
    reveal_strlit("us-card\"");
    reveal_strlit(">");
    assert("<div class=\"status-card\">"@ =~= "<div cla"@ + "ss=\"stat"@ + "us-card\""@ + ">"@);
}

proof fn lemma_literal_37()
    ensures
        tag_safe("<strong>"@),
{
    reveal_strlit("<strong>");
    reveal_with_fuel(script_scan, 10);
}

proof fn lemma_literal_38_0()
    ensures
        tag_safe("</strong"@),
{
    reveal_strlit("</strong");
    reveal_with_fuel(script_scan, 10);
}

proof fn lemma_literal_38_1()
    ensures
        tag_safe("><span c"@),
{
    reveal_strlit("><span c");
    reveal_with_fuel(script_scan, 10);
}

proof fn lemma_literal_38_2()
    ensures
        tag_safe("lass=\""@),
{
    reveal_strlit("lass=\"");
    reveal_with_fuel(script_scan, 8);
}

proof fn lemma_literal_38()
    ensures
        tag_safe("</strong><span class=\""@),
{
    broadcast use lemma_safe_concat;

    lemma_literal_38_0();
    lemma_literal_38_1();
    lemma_literal_38_2();
    reveal_strlit("</strong><span class=\"");
    reveal_strlit("</strong");
    reveal_strlit("><span c");
    reveal_strlit("lass=\"");
    assert("</strong><span class=\""@ =~= "</strong"@ + "><span c"@ + "lass=\""@);
}

proof fn lemma_literal_39()
    ensures
        tag_safe("ok"@),
{
    reveal_strlit("ok");
    reveal_with_fuel(script_scan, 4);
}

proof fn lemma_literal_40()
    ensures
        tag_safe("bad"@),
{
    reveal_strlit("bad");
    reveal_with_fuel(script_scan, 5);
}

proof fn lemma_literal_41()
    ensures
        tag_safe("\">"@),
{
    reveal_strlit("\">");
    reveal_with_fuel(script_scan, 4);
}

proof fn lemma_literal_42()
    ensures
        tag_safe("ready"@),
{
    reveal_strlit("ready");
    reveal_with_fuel(script_scan, 7);
}

proof fn lemma_literal_43()
    ensures
        tag_safe("not ready"@),
{
    reveal_strlit("not ready");
    reveal_with_fuel(script_scan, 11);
}

proof fn lemma_literal_44_0()
    ensures
        tag_safe("<p class"@),
{
    reveal_strlit("<p class");
    reveal_with_fuel(script_scan, 10);
}

proof fn lemma_literal_44_1()
    ensures
        tag_safe("=\"muted\""@),
{
    reveal_strlit("=\"muted\"");
    reveal_with_fuel(script_scan, 10);
}

proof fn lemma_literal_44_2()
    ensures
        tag_safe(">"@),
{
    reveal_strlit(">");
    reveal_with_fuel(script_scan, 3);
}

proof fn lemma_literal_44()
    ensures
        tag_safe("<p class=\"muted\">"@),
{
    broadcast use lemma_safe_concat;

    lemma_literal_44_0();
    lemma_literal_44_1();
    lemma_literal_44_2();
    reveal_strlit("<p class=\"muted\">");
    reveal_strlit("<p class");
    reveal_strlit("=\"muted\"");
    reveal_strlit(">");
    assert("<p class=\"muted\">"@ =~= "<p class"@ + "=\"muted\""@ + ">"@);
}

proof fn lemma_literal_45()
    ensures
        tag_safe("required"@),
{
    reveal_strlit("required");
    reveal_with_fuel(script_scan, 10);
}

proof fn lemma_literal_46()
    ensures
        tag_safe("best-effort"@),
{
    reveal_strlit("best-effort");
    reveal_with_fuel(script_scan, 13);
}

proof fn lemma_literal_47()
    ensures
        tag_safe(" sender</p>"@),
{
    reveal_strlit(" sender</p>");
    reveal_with_fuel(script_scan, 13);
}

proof fn lemma_literal_48()
    ensures
        tag_safe("<table><tbody>"@),
{
    reveal_strlit("<table><tbody>");
    reveal_with_fuel(script_scan, 16);
}

proof fn lemma_literal_49()
    ensures
        tag_safe("Last status"@),
{
    reveal_strlit("Last status");
    reveal_with_fuel(script_scan, 13);
}

proof fn lemma_literal_50()
    ensures
        tag_safe("Last success"@),
{
    reveal_strlit("Last success");
    reveal_with_fuel(script_scan, 14);
}

proof fn lemma_literal_51()
    ensures
        tag_safe("Last failure"@),
{
    reveal_strlit("Last failure");
    reveal_with_fuel(script_scan, 14);
}

proof fn lemma_literal_52()
    ensures
        tag_safe("Error"@),
{
    reveal_strlit("Error");
    reveal_with_fuel(script_scan, 7);
}

proof fn lemma_literal_53_0()
    ensures
        tag_safe("</tbody>"@),
{
    reveal_strlit("</tbody>");
    reveal_with_fuel(script_scan, 10);
}

proof fn lemma_literal_53_1()
    ensures
        tag_safe("</table>"@),
{
    reveal_strlit("</table>");
    reveal_with_fuel(script_scan, 10);
}

proof fn lemma_literal_53_2()
    ensures
        tag_safe("</div>"@),
{
    reveal_strlit("</div>");
    reveal_with_fuel(script_scan, 8);
}

proof fn lemma_literal_53()
    ensures
        tag_safe("</tbody></table></div>"@),
{
    broadcast use lemma_safe_concat;

    lemma_literal_53_0();
    lemma_literal_53_1();
    lemma_literal_53_2();
    reveal_strlit("</tbody></table></div>");
    reveal_strlit("</tbody>");
    reveal_strlit("</table>");
    reveal_strlit("</div>");
    assert("</tbody></table></div>"@ =~= "</tbody>"@ + "</table>"@ + "</div>"@);
}

proof fn lemma_literal_54_0()
    ensures
        tag_safe("<section"@),
{
    reveal_strlit("<section");
    reveal_with_fuel(script_scan, 10);
}

proof fn lemma_literal_54_1()
    ensures
        tag_safe("><h2>Sen"@),
{
    reveal_strlit("><h2>Sen");
    reveal_with_fuel(script_scan, 10);
}

proof fn lemma_literal_54_2()
    ensures
        tag_safe("der Stat"@),
{
    reveal_strlit("der Stat");
    reveal_with_fuel(script_scan, 10);
}

proof fn lemma_literal_54_3()
    ensures
        tag_safe("us</h2>"@),
{
    reveal_strlit("us</h2>");
    reveal_with_fuel(script_scan, 9);
}

proof fn lemma_literal_54()
    ensures
        tag_safe("<section><h2>Sender Status</h2>"@),
{
    broadcast use lemma_safe_concat;

    lemma_literal_54_0();
    lemma_literal_54_1();
    lemma_literal_54_2();
    lemma_literal_54_3();
    reveal_strlit("<section><h2>Sender Status</h2>");
    reveal_strlit("<section");
    reveal_strlit("><h2>Sen");
    reveal_strlit("der Stat");
    reveal_strlit("us</h2>");
    assert("<section><h2>Sender Status</h2>"@ =~= "<section"@ + "><h2>Sen"@ + "der Stat"@ + "us</h2>"@);
}

proof fn lemma_literal_55_0()
    ensures
        tag_safe("<p class"@),
{
    reveal_strlit("<p class");
    reveal_with_fuel(script_scan, 10);
}

proof fn lemma_literal_55_1()
    ensures
        tag_safe("=\"muted\""@),
{
    reveal_strlit("=\"muted\"");
    reveal_with_fuel(script_scan, 10);
}

proof fn lemma_literal_55_2()
    ensures
        tag_safe(">No send"@),
{
    reveal_strlit(">No send");
    reveal_with_fuel(script_scan, 10);
}

proof fn lemma_literal_55_3()
    ensures
        tag_safe("er statu"@),
{
    reveal_strlit("er statu");
    reveal_with_fuel(script_scan, 10);
}

proof fn lemma_literal_55_4()
    ensures
        tag_safe("s record"@),
{
    reveal_strlit("s record");
    reveal_with_fuel(script_scan, 10);
}

proof fn lemma_literal_55_5()
    ensures
        tag_safe("s found."@),
{
    reveal_strlit("s found.");
    reveal_with_fuel(script_scan, 10);
}

proof fn lemma_literal_55_6()
    ensures
        tag_safe("</p></se"@),
{
    reveal_strlit("</p></se");
    reveal_with_fuel(script_scan, 10);
}

proof fn lemma_literal_55_7()
    ensures
        tag_safe("ction>"@),
{
    reveal_strlit("ction>");
    reveal_with_fuel(script_scan, 8);
}

proof fn lemma_literal_55()
    ensures
        tag_safe("<p class=\"muted\">No sender status records found.</p></section>"@),
{
    broadcast use lemma_safe_concat;

    lemma_literal_55_0();
    lemma_literal_55_1();
    lemma_literal_55_2();
    lemma_literal_55_3();
    lemma_literal_55_4();
    lemma_literal_55_5();
    lemma_literal_55_6();
    lemma_literal_55_7();
    reveal_strlit("<p class=\"muted\">No sender status records found.</p></section>");
    reveal_strlit("<p class");
    reveal_strlit("=\"muted\"");
    reveal_strlit(">No send");
    reveal_strlit("er statu");
    reveal_strlit("s record");
    reveal_strlit("s found.");
    reveal_strlit("</p></se");
    reveal_strlit("ction>");
    assert("<p class=\"muted\">No sender status records found.</p></section>"@ =~= "<p class"@ + "=\"muted\""@ + ">No send"@ + "er statu"@ + "s record"@ + "s found."@ + "</p></se"@ + "ction>"@);
}

proof fn lemma_literal_56_0()
    ensures
        tag_safe("<div cla"@),
{
    reveal_strlit("<div cla");
    reveal_with_fuel(script_scan, 10);
}

proof fn lemma_literal_56_1()
    ensures
        tag_safe("ss=\"stat"@),
{
    reveal_strlit("ss=\"stat");
    reveal_with_fuel(script_scan, 10);
}

proof fn lemma_literal_56_2()
    ensures
        tag_safe("us-grid\""@),
{
    reveal_strlit("us-grid\"");
    reveal_with_fuel(script_scan, 10);
}

proof fn lemma_literal_56_3()
    ensures
        tag_safe(">"@),
{
    reveal_strlit(">");
    reveal_with_fuel(script_scan, 3);
}

proof fn lemma_literal_56()
    ensures
        tag_safe("<div class=\"status-grid\">"@),
{
    broadcast use lemma_safe_concat;

    lemma_literal_56_0();
    lemma_literal_56_1();
    lemma_literal_56_2();
    lemma_literal_56_3();
    reveal_strlit("<div class=\"status-grid\">");
    reveal_strlit("<div cla");
    reveal_strlit("ss=\"stat");
    reveal_strlit("us-grid\"");
    reveal_strlit(">");
    assert("<div class=\"status-grid\">"@ =~= "<div cla"@ + "ss=\"stat"@ + "us-grid\""@ + ">"@);
}

proof fn lemma_literal_57_0()
    ensures
        tag_safe("</div></"@),
{
    reveal_strlit("</div></");
    reveal_with_fuel(script_scan, 10);
}

proof fn lemma_literal_57_1()
    ensures
        tag_safe("section>"@),
{
    reveal_strlit("section>");
    reveal_with_fuel(script_scan, 10);
}

proof fn lemma_literal_57()
    ensures
        tag_safe("</div></section>"@),
{
    broadcast use lemma_safe_concat;

    lemma_literal_57_0();
    lemma_literal_57_1();
    reveal_strlit("</div></section>");
    reveal_strlit("</div></");
    reveal_strlit("section>");
    assert("</div></section>"@ =~= "</div></"@ + "section>"@);
}

proof fn lemma_literal_58()
    ensures
        tag_safe("<tr>"@),
{
    reveal_strlit("<tr>");
    reveal_with_fuel(script_scan, 6);
}

proof fn lemma_literal_59()
    ensures
        tag_safe("</tr>"@),
{
    reveal_strlit("</tr>");
    reveal_with_fuel(script_scan, 7);
}

proof fn lemma_literal_60_0()
    ensures
        tag_safe("<div cla"@),
{
    reveal_strlit("<div cla");
    reveal_with_fuel(script_scan, 10);
}

proof fn lemma_literal_60_1()
    ensures
        tag_safe("ss=\"tabl"@),
{
    reveal_strlit("ss=\"tabl");
    reveal_with_fuel(script_scan, 10);
}

proof fn lemma_literal_60_2()
    ensures
        tag_safe("e-wrap\">"@),
{
    reveal_strlit("e-wrap\">");
    reveal_with_fuel(script_scan, 10);
}

proof fn lemma_literal_60_3()
    ensures
        tag_safe("<table><t"@),
{
    reveal_strlit("<table><t");
    reveal_with_fuel(script_scan, 11);
}

proof fn lemma_literal_60_4()
    ensures
        tag_safe("head><tr"@),
{
    reveal_strlit("head><tr");
    reveal_with_fuel(script_scan, 10);
}

proof fn lemma_literal_60_5()
    ensures
        tag_safe("><th>Tim"@),
{
    reveal_strlit("><th>Tim");
    reveal_with_fuel(script_scan, 10);
}

proof fn lemma_literal_60_6()
    ensures
        tag_safe("e</th><t"@),
{
    reveal_strlit("e</th><t");
    reveal_with_fuel(script_scan, 10);
}

proof fn lemma_literal_60_7()
    ensures
        tag_safe("h>Sender"@),
{
    reveal_strlit("h>Sender");
    reveal_with_fuel(script_scan, 10);
}

proof fn lemma_literal_60_8()
    ensures
        tag_safe("</th><th"@),
{
    reveal_strlit("</th><th");
    reveal_with_fuel(script_scan, 10);
}

proof fn lemma_literal_60_9()
    ensures
        tag_safe(">Role</t"@),
{
    reveal_strlit(">Role</t");
    reveal_with_fuel(script_scan, 10);
}

proof fn lemma_literal_60_10()
    ensures
        tag_safe("h><th>St"@),
{
    reveal_strlit("h><th>St");
    reveal_with_fuel(script_scan, 10);
}

proof fn lemma_literal_60_11()
    ensures
        tag_safe("atus</th"@),
{
    reveal_strlit("atus</th");
    reveal_with_fuel(script_scan, 10);
}

proof fn lemma_literal_60_12()
    ensures
        tag_safe("><th>Cha"@),
{
    reveal_strlit("><th>Cha");
    reveal_with_fuel(script_scan, 10);
}

proof fn lemma_literal_60_13()
    ensures
        tag_safe("nnel</th"@),
{
    reveal_strlit("nnel</th");
    reveal_with_fuel(script_scan, 10);
}

proof fn lemma_literal_60_14()
    ensures
        tag_safe("><th>Err"@),
{
    reveal_strlit("><th>Err");
    reveal_with_fuel(script_scan, 10);
}

proof fn lemma_literal_60_15()
    ensures
        tag_safe("or</th></"@),
{
    reveal_strlit("or</th></");
    reveal_with_fuel(script_scan, 11);
}

proof fn lemma_literal_60_16()
    ensures
        tag_safe("tr></the"@),
{
    reveal_strlit("tr></the");
    reveal_with_fuel(script_scan, 10);
}

proof fn lemma_literal_60_17()
    ensures
        tag_safe("ad><tbod"@),
{
    reveal_strlit("ad><tbod");
    reveal_with_fuel(script_scan, 10);
}

proof fn lemma_literal_60_18()
    ensures
        tag_safe("y>"@),
{
    reveal_strlit("y>");
    reveal_with_fuel(script_scan, 4);
}

proof fn lemma_literal_60()
    ensures
        tag_safe("<div class=\"table-wrap\"><table><thead><tr><th>Time</th><th>Sender</th><th>Role</th><th>Status</th><th>Channel</th><th>Error</th></tr></thead><tbody>"@),
{
    broadcast use lemma_safe_concat;

    lemma_literal_60_0();
    lemma_literal_60_1();
    lemma_literal_60_2();
    lemma_literal_60_3();
    lemma_literal_60_4();
    lemma_literal_60_5();
    lemma_literal_60_6();
    lemma_literal_60_7();
    lemma_literal_60_8();
    lemma_literal_60_9();
    lemma_literal_60_10();
    lemma_literal_60_11();
    lemma_literal_60_12();
    lemma_literal_60_13();
    lemma_literal_60_14();
    lemma_literal_60_15();
    lemma_literal_60_16();
    lemma_literal_60_17();
    lemma_literal_60_18();
    reveal_strlit("<div class=\"table-wrap\"><table><thead><tr><th>Time</th><th>Sender</th><th>Role</th><th>Status</th><th>Channel</th><th>Error</th></tr></thead><tbody>");
    reveal_strlit("<div cla");
    reveal_strlit("ss=\"tabl");
    reveal_strlit("e-wrap\">");
    reveal_strlit("<table><t");
    reveal_strlit("head><tr");
    reveal_strlit("><th>Tim");
    reveal_strlit("e</th><t");
    reveal_strlit("h>Sender");
    reveal_strlit("</th><th");
    reveal_strlit(">Role</t");
    reveal_strlit("h><th>St");
    reveal_strlit("atus</th");
    reveal_strlit("><th>Cha");
    reveal_strlit("nnel</th");
    reveal_strlit("><th>Err");
    reveal_strlit("or</th></");
    reveal_strlit("tr></the");
    reveal_strlit("ad><tbod");
    reveal_strlit("y>");
    assert("<div class=\"table-wrap\"><table><thead><tr><th>Time</th><th>Sender</th><th>Role</th><th>Status</th><th>Channel</th><th>Error</th></tr></thead><tbody>"@ =~= "<div cla"@ + "ss=\"tabl"@ + "e-wrap\">"@ + "<table><t"@ + "head><tr"@ + "><th>Tim"@ + "e</th><t"@ + "h>Sender"@ + "</th><th"@ + ">Role</t"@ + "h><th>St"@ + "atus</th"@ + "><th>Cha"@ + "nnel</th"@ + "><th>Err"@ + "or</th></"@ + "tr></the"@ + "ad><tbod"@ + "y>"@);
}

proof fn lemma_literal_61_0()
    ensures
        tag_safe("<article"@),
{
    reveal_strlit("<article");
    reveal_with_fuel(script_scan, 10);
}

proof fn lemma_literal_61_1()
    ensures
        tag_safe(" class=\""@),
{
    reveal_strlit(" class=\"");
    reveal_with_fuel(script_scan, 10);
}

proof fn lemma_literal_61_2()
    ensures
        tag_safe("alert-ca"@),
{
    reveal_strlit("alert-ca");
    reveal_with_fuel(script_scan, 10);
}

proof fn lemma_literal_61_3()
    ensures
        tag_safe("rd\">"@),
{
    reveal_strlit("rd\">");
    reveal_with_fuel(script_scan, 6);
}

proof fn lemma_literal_61()
    ensures
        tag_safe("<article class=\"alert-card\">"@),
{
    broadcast use lemma_safe_concat;

    lemma_literal_61_0();
    lemma_literal_61_1();
    lemma_literal_61_2();
    lemma_literal_61_3();
    reveal_strlit("<article class=\"alert-card\">");
    reveal_strlit("<article");
    reveal_strlit(" class=\"");
    reveal_strlit("alert-ca");
    reveal_strlit("rd\">");
    assert("<article class=\"alert-card\">"@ =~= "<article"@ + " class=\""@ + "alert-ca"@ + "rd\">"@);
}

proof fn lemma_literal_62_0()
    ensures
        tag_safe("<div cla"@),
{
    reveal_strlit("<div cla");
    reveal_with_fuel(script_scan, 10);
}

proof fn lemma_literal_62_1()
    ensures
        tag_safe("ss=\"aler"@),
{
    reveal_strlit("ss=\"aler");
    reveal_with_fuel(script_scan, 10);
}

proof fn lemma_literal_62_2()
    ensures
        tag_safe("t-head\">"@),
{
    reveal_strlit("t-head\">");
    reveal_with_fuel(script_scan, 10);
}

proof fn lemma_literal_62_3()
    ensures
        tag_safe("<div>"@),
{
    reveal_strlit("<div>");
    reveal_with_fuel(script_scan, 7);
}

proof fn lemma_literal_62()
    ensures
        tag_safe("<div class=\"alert-head\"><div>"@),
{
    broadcast use lemma_safe_concat;

    lemma_literal_62_0();
    lemma_literal_62_1();
    lemma_literal_62_2();
    lemma_literal_62_3();
    reveal_strlit("<div class=\"alert-head\"><div>");
    reveal_strlit("<div cla");
    reveal_strlit("ss=\"aler");
    reveal_strlit("t-head\">");
    reveal_strlit("<div>");
    assert("<div class=\"alert-head\"><div>"@ =~= "<div cla"@ + "ss=\"aler"@ + "t-head\">"@ + "<div>"@);
}

proof fn lemma_literal_63_0()
    ensures
        tag_safe("<div cla"@),
{
    reveal_strlit("<div cla");
    reveal_with_fuel(script_scan, 10);
}

proof fn lemma_literal_63_1()
    ensures
        tag_safe("ss=\"aler"@),
{
    reveal_strlit("ss=\"aler");
    reveal_with_fuel(script_scan, 10);
}

proof fn lemma_literal_63_2()
    ensures
        tag_safe("t-title\""@),
{
    reveal_strlit("t-title\"");
    reveal_with_fuel(script_scan, 10);
}

proof fn lemma_literal_63_3()
    ensures
        tag_safe(">"@),
{
    reveal_strlit(">");
    reveal_with_fuel(script_scan, 3);
}

proof fn lemma_literal_63()
    ensures
        tag_safe("<div class=\"alert-title\">"@),
{
    broadcast use lemma_safe_concat;

    lemma_literal_63_0();
    lemma_literal_63_1();
    lemma_literal_63_2();
    lemma_literal_63_3();
    reveal_strlit("<div class=\"alert-title\">");
    reveal_strlit("<div cla");
    reveal_strlit("ss=\"aler");
    reveal_strlit("t-title\"");
    reveal_strlit(">");
    assert("<div class=\"alert-title\">"@ =~= "<div cla"@ + "ss=\"aler"@ + "t-title\""@ + ">"@);
}

proof fn lemma_literal_64_0()
    ensures
        tag_safe("</div><d"@),
{
    reveal_strlit("</div><d");
    reveal_with_fuel(script_scan, 10);
}

proof fn lemma_literal_64_1()
    ensures
        tag_safe("iv class"@),
{
    reveal_strlit("iv class");
    reveal_with_fuel(script_scan, 10);
}

proof fn lemma_literal_64_2()
    ensures
        tag_safe("=\"alert-"@),
{
    reveal_strlit("=\"alert-");
    reveal_with_fuel(script_scan, 10);
}

proof fn lemma_literal_64_3()
    ensures
        tag_safe("meta\">"@),
{
    reveal_strlit("meta\">");
    reveal_with_fuel(script_scan, 8);
}

proof fn lemma_literal_64()
    ensures
        tag_safe("</div><div class=\"alert-meta\">"@),
{
    broadcast use lemma_safe_concat;

    lemma_literal_64_0();
    lemma_literal_64_1();
    lemma_literal_64_2();
    lemma_literal_64_3();
    reveal_strlit("</div><div class=\"alert-meta\">");
    reveal_strlit("</div><d");
    reveal_strlit("iv class");
    reveal_strlit("=\"alert-");
    reveal_strlit("meta\">");
    assert("</div><div class=\"alert-meta\">"@ =~= "</div><d"@ + "iv class"@ + "=\"alert-"@ + "meta\">"@);
}

proof fn lemma_literal_65()
    ensures
        tag_safe(" | "@),
{
    reveal_strlit(" | ");
    reveal_with_fuel(script_scan, 5);
}

proof fn lemma_literal_66()
    ensures
        tag_safe("</div><div>"@),
{
    reveal_strlit("</div><div>");
    reveal_with_fuel(script_scan, 13);
}

proof fn lemma_literal_67_0()
    ensures
        tag_safe("<span cl"@),
{
    reveal_strlit("<span cl");
    reveal_with_fuel(script_scan, 10);
}

proof fn lemma_literal_67_1()
    ensures
        tag_safe("ass=\"pil"@),
{
    reveal_strlit("ass=\"pil");
    reveal_with_fuel(script_scan, 10);
}

proof fn lemma_literal_67_2()
    ensures
        tag_safe("l\">"@),
{
    reveal_strlit("l\">");
    reveal_with_fuel(script_scan, 5);
}

proof fn lemma_literal_67()
    ensures
        tag_safe("<span class=\"pill\">"@),
{
    broadcast use lemma_safe_concat;

    lemma_literal_67_0();
    lemma_literal_67_1();
    lemma_literal_67_2();
    reveal_strlit("<span class=\"pill\">");
    reveal_strlit("<span cl");
    reveal_strlit("ass=\"pil");
    reveal_strlit("l\">");
    assert("<span class=\"pill\">"@ =~= "<span cl"@ + "ass=\"pil"@ + "l\">"@);
}

proof fn lemma_literal_68()
    ensures
        tag_safe("</span> "@),
{
    reveal_strlit("</span> ");
    reveal_with_fuel(script_scan, 10);
}

proof fn lemma_literal_69_0()
    ensures
        tag_safe("<span cl"@),
{
    reveal_strlit("<span cl");
    reveal_with_fuel(script_scan, 10);
}

proof fn lemma_literal_69_1()
    ensures
        tag_safe("ass=\"pil"@),
{
    reveal_strlit("ass=\"pil");
    reveal_with_fuel(script_scan, 10);
}

proof fn lemma_literal_69_2()
    ensures
        tag_safe("l\">natio"@),
{
    reveal_strlit("l\">natio");
    reveal_with_fuel(script_scan, 10);
}

proof fn lemma_literal_69_3()
    ensures
        tag_safe("nal</spa"@),
{
    reveal_strlit("nal</spa");
    reveal_with_fuel(script_scan, 10);
}

proof fn lemma_literal_69_4()
    ensures
        tag_safe("n> "@),
{
    reveal_strlit("n> ");
    reveal_with_fuel(script_scan, 5);
}

proof fn lemma_literal_69()
    ensures
        tag_safe("<span class=\"pill\">national</span> "@),
{
    broadcast use lemma_safe_concat;

    lemma_literal_69_0();
    lemma_literal_69_1();
    lemma_literal_69_2();
    lemma_literal_69_3();
    lemma_literal_69_4();
    reveal_strlit("<span class=\"pill\">national</span> ");
    reveal_strlit("<span cl");
    reveal_strlit("ass=\"pil");
    reveal_strlit("l\">natio");
    reveal_strlit("nal</spa");
    reveal_strlit("n> ");
    assert("<span class=\"pill\">national</span> "@ =~= "<span cl"@ + "ass=\"pil"@ + "l\">natio"@ + "nal</spa"@ + "n> "@);
}

proof fn lemma_literal_70_0()
    ensures
        tag_safe("<span cl"@),
{
    reveal_strlit("<span cl");
    reveal_with_fuel(script_scan, 10);
}

proof fn lemma_literal_70_1()
    ensures
        tag_safe("ass=\"pil"@),
{
    reveal_strlit("ass=\"pil");
    reveal_with_fuel(script_scan, 10);
}

proof fn lemma_literal_70_2()
    ensures
        tag_safe("l\">test</"@),
{
    reveal_strlit("l\">test</");
    reveal_with_fuel(script_scan, 11);
}

proof fn lemma_literal_70_3()
    ensures
        tag_safe("span>"@),
{
    reveal_strlit("span>");
    reveal_with_fuel(script_scan, 7);
}

proof fn lemma_literal_70()
    ensures
        tag_safe("<span class=\"pill\">test</span>"@),
{
    broadcast use lemma_safe_concat;

    lemma_literal_70_0();
    lemma_literal_70_1();
    lemma_literal_70_2();
    lemma_literal_70_3();
    reveal_strlit("<span class=\"pill\">test</span>");
    reveal_strlit("<span cl");
    reveal_strlit("ass=\"pil");
    reveal_strlit("l\">test</");
    reveal_strlit("span>");
    assert("<span class=\"pill\">test</span>"@ =~= "<span cl"@ + "ass=\"pil"@ + "l\">test</"@ + "span>"@);
}

proof fn lemma_literal_71_0()
    ensures
        tag_safe("</div></"@),
{
    reveal_strlit("</div></");
    reveal_with_fuel(script_scan, 10);
}

proof fn lemma_literal_71_1()
    ensures
        tag_safe("div><div"@),
{
    reveal_strlit("div><div");
    reveal_with_fuel(script_scan, 10);
}

proof fn lemma_literal_71_2()
    ensures
        tag_safe(" class=\""@),
{
    reveal_strlit(" class=\"");
    reveal_with_fuel(script_scan, 10);
}

proof fn lemma_literal_71_3()
    ensures
        tag_safe("alert-bo"@),
{
    reveal_strlit("alert-bo");
    reveal_with_fuel(script_scan, 10);
}

proof fn lemma_literal_71_4()
    ensures
        tag_safe("dy\">"@),
{
    reveal_strlit("dy\">");
    reveal_with_fuel(script_scan, 6);
}

proof fn lemma_literal_71()
    ensures
        tag_safe("</div></div><div class=\"alert-body\">"@),
{
    broadcast use lemma_safe_concat;

    lemma_literal_71_0();
    lemma_literal_71_1();
    lemma_literal_71_2();
    lemma_literal_71_3();
    lemma_literal_71_4();
    reveal_strlit("</div></div><div class=\"alert-body\">");
    reveal_strlit("</div></");
    reveal_strlit("div><div");
    reveal_strlit(" class=\"");
    reveal_strlit("alert-bo");
    reveal_strlit("dy\">");
    assert("</div></div><div class=\"alert-body\">"@ =~= "</div></"@ + "div><div"@ + " class=\""@ + "alert-bo"@ + "dy\">"@);
}

proof fn lemma_literal_72()
    ensures
        tag_safe("Originator"@),
{
    reveal_strlit("Originator");
    reveal_with_fuel(script_scan, 12);
}

proof fn lemma_literal_73()
    ensures
        tag_safe("Callsign"@),
{
    reveal_strlit("Callsign");
    reveal_with_fuel(script_scan, 10);
}

proof fn lemma_literal_74()
    ensures
        tag_safe("Locations"@),
{
    reveal_strlit("Locations");
    reveal_with_fuel(script_scan, 11);
}

proof fn lemma_literal_75()
    ensures
        tag_safe(", "@),
{
    reveal_strlit(", ");
    reveal_with_fuel(script_scan, 4);
}

proof fn lemma_literal_76_0()
    ensures
        tag_safe("</tbody>"@),
{
    reveal_strlit("</tbody>");
    reveal_with_fuel(script_scan, 10);
}

proof fn lemma_literal_76_1()
    ensures
        tag_safe("</table>"@),
{
    reveal_strlit("</table>");
    reveal_with_fuel(script_scan, 10);
}

proof fn lemma_literal_76()
    ensures
        tag_safe("</tbody></table>"@),
{
    broadcast use lemma_safe_concat;

    lemma_literal_76_0();
    lemma_literal_76_1();
    reveal_strlit("</tbody></table>");
    reveal_strlit("</tbody>");
    reveal_strlit("</table>");
    assert("</tbody></table>"@ =~= "</tbody>"@ + "</table>"@);
}

proof fn lemma_literal_77_0()
    ensures
        tag_safe("<h3>Mess"@),
{
    reveal_strlit("<h3>Mess");
    reveal_with_fuel(script_scan, 10);
}

proof fn lemma_literal_77_1()
    ensures
        tag_safe("age</h3>"@),
{
    reveal_strlit("age</h3>");
    reveal_with_fuel(script_scan, 10);
}

proof fn lemma_literal_77_2()
    ensures
        tag_safe("<div cla"@),
{
    reveal_strlit("<div cla");
    reveal_with_fuel(script_scan, 10);
}

proof fn lemma_literal_77_3()
    ensures
        tag_safe("ss=\"mess"@),
{
    reveal_strlit("ss=\"mess");
    reveal_with_fuel(script_scan, 10);
}

proof fn lemma_literal_77_4()
    ensures
        tag_safe("age\">"@),
{
    reveal_strlit("age\">");
    reveal_with_fuel(script_scan, 7);
}

proof fn lemma_literal_77()
    ensures
        tag_safe("<h3>Message</h3><div class=\"message\">"@),
{
    broadcast use lemma_safe_concat;

    lemma_literal_77_0();
    lemma_literal_77_1();
    lemma_literal_77_2();
    lemma_literal_77_3();
    lemma_literal_77_4();
    reveal_strlit("<h3>Message</h3><div class=\"message\">");
    reveal_strlit("<h3>Mess");
    reveal_strlit("age</h3>");
    reveal_strlit("<div cla");
    reveal_strlit("ss=\"mess");
    reveal_strlit("age\">");
    assert("<h3>Message</h3><div class=\"message\">"@ =~= "<h3>Mess"@ + "age</h3>"@ + "<div cla"@ + "ss=\"mess"@ + "age\">"@);
}

proof fn lemma_literal_78_0()
    ensures
        tag_safe("<h3>Deli"@),
{
    reveal_strlit("<h3>Deli");
    reveal_with_fuel(script_scan, 10);
}

proof fn lemma_literal_78_1()
    ensures
        tag_safe("very Att"@),
{
    reveal_strlit("very Att");
    reveal_with_fuel(script_scan, 10);
}

proof fn lemma_literal_78_2()
    ensures
        tag_safe("empts</h"@),
{
    reveal_strlit("empts</h");
    reveal_with_fuel(script_scan, 10);
}

proof fn lemma_literal_78_3()
    ensures
        tag_safe("3>"@),
{
    reveal_strlit("3>");
    reveal_with_fuel(script_scan, 4);
}

proof fn lemma_literal_78()
    ensures
        tag_safe("<h3>Delivery Attempts</h3>"@),
{
    broadcast use lemma_safe_concat;

    lemma_literal_78_0();
    lemma_literal_78_1();
    lemma_literal_78_2();
    lemma_literal_78_3();
    reveal_strlit("<h3>Delivery Attempts</h3>");
    reveal_strlit("<h3>Deli");
    reveal_strlit("very Att");
    reveal_strlit("empts</h");
    reveal_strlit("3>");
    assert("<h3>Delivery Attempts</h3>"@ =~= "<h3>Deli"@ + "very Att"@ + "empts</h"@ + "3>"@);
}

proof fn lemma_literal_79_0()
    ensures
        tag_safe("<p class"@),
{
    reveal_strlit("<p class");
    reveal_with_fuel(script_scan, 10);
}

proof fn lemma_literal_79_1()
    ensures
        tag_safe("=\"muted\""@),
{
    reveal_strlit("=\"muted\"");
    reveal_with_fuel(script_scan, 10);
}

proof fn lemma_literal_79_2()
    ensures
        tag_safe(">No deli"@),
{
    reveal_strlit(">No deli");
    reveal_with_fuel(script_scan, 10);
}

proof fn lemma_literal_79_3()
    ensures
        tag_safe("very att"@),
{
    reveal_strlit("very att");
    reveal_with_fuel(script_scan, 10);
}

proof fn lemma_literal_79_4()
    ensures
        tag_safe("empts re"@),
{
    reveal_strlit("empts re");
    reveal_with_fuel(script_scan, 10);
}

proof fn lemma_literal_79_5()
    ensures
        tag_safe("corded f"@),
{
    reveal_strlit("corded f");
    reveal_with_fuel(script_scan, 10);
}

proof fn lemma_literal_79_6()
    ensures
        tag_safe("or this "@),
{
    reveal_strlit("or this ");
    reveal_with_fuel(script_scan, 10);
}

proof fn lemma_literal_79_7()
    ensures
        tag_safe("alert.</"@),
{
    reveal_strlit("alert.</");
    reveal_with_fuel(script_scan, 10);
}

proof fn lemma_literal_79_8()
    ensures
        tag_safe("p>"@),
{
    reveal_strlit("p>");
    reveal_with_fuel(script_scan, 4);
}

proof fn lemma_literal_79()
    ensures
        tag_safe("<p class=\"muted\">No delivery attempts recorded for this alert.</p>"@),
{
    broadcast use lemma_safe_concat;

    lemma_literal_79_0();
    lemma_literal_79_1();
    lemma_literal_79_2();
    lemma_literal_79_3();
    lemma_literal_79_4();
    lemma_literal_79_5();
    lemma_literal_79_6();
    lemma_literal_79_7();
    lemma_literal_79_8();
    reveal_strlit("<p class=\"muted\">No delivery attempts recorded for this alert.</p>");
    reveal_strlit("<p class");
    reveal_strlit("=\"muted\"");
    reveal_strlit(">No deli");
    reveal_strlit("very att");
    reveal_strlit("empts re");
    reveal_strlit("corded f");
    reveal_strlit("or this ");
    reveal_strlit("alert.</");
    reveal_strlit("p>");
    assert("<p class=\"muted\">No delivery attempts recorded for this alert.</p>"@ =~= "<p class"@ + "=\"muted\""@ + ">No deli"@ + "very att"@ + "empts re"@ + "corded f"@ + "or this "@ + "alert.</"@ + "p>"@);
}

proof fn lemma_literal_80_0()
    ensures
        tag_safe("</div></"@),
{
    reveal_strlit("</div></");
    reveal_with_fuel(script_scan, 10);
}

proof fn lemma_literal_80_1()
    ensures
        tag_safe("article>"@),
{
    reveal_strlit("article>");
    reveal_with_fuel(script_scan, 10);
}

proof fn lemma_literal_80()
    ensures
        tag_safe("</div></article>"@),
{
    broadcast use lemma_safe_concat;

    lemma_literal_80_0();
    lemma_literal_80_1();
    reveal_strlit("</div></article>");
    reveal_strlit("</div></");
    reveal_strlit("article>");
    assert("</div></article>"@ =~= "</div></"@ + "article>"@);
}

proof fn lemma_literal_81_0()
    ensures
        tag_safe("<section"@),
{
    reveal_strlit("<section");
    reveal_with_fuel(script_scan, 10);
}

proof fn lemma_literal_81_1()
    ensures
        tag_safe("><h2>Rec"@),
{
    reveal_strlit("><h2>Rec");
    reveal_with_fuel(script_scan, 10);
}

proof fn lemma_literal_81_2()
    ensures
        tag_safe("ent Aler"@),
{
    reveal_strlit("ent Aler");
    reveal_with_fuel(script_scan, 10);
}

proof fn lemma_literal_81_3()
    ensures
        tag_safe("ts</h2>"@),
{
    reveal_strlit("ts</h2>");
    reveal_with_fuel(script_scan, 9);
}

proof fn lemma_literal_81()
    ensures
        tag_safe("<section><h2>Recent Alerts</h2>"@),
{
    broadcast use lemma_safe_concat;

    lemma_literal_81_0();
    lemma_literal_81_1();
    lemma_literal_81_2();
    lemma_literal_81_3();
    reveal_strlit("<section><h2>Recent Alerts</h2>");
    reveal_strlit("<section");
    reveal_strlit("><h2>Rec");
    reveal_strlit("ent Aler");
    reveal_strlit("ts</h2>");
    assert("<section><h2>Recent Alerts</h2>"@ =~= "<section"@ + "><h2>Rec"@ + "ent Aler"@ + "ts</h2>"@);
}

proof fn lemma_literal_82_0()
    ensures
        tag_safe("<p class"@),
{
    reveal_strlit("<p class");
    reveal_with_fuel(script_scan, 10);
}

proof fn lemma_literal_82_1()
    ensures
        tag_safe("=\"muted\""@),
{
    reveal_strlit("=\"muted\"");
    reveal_with_fuel(script_scan, 10);
}

proof fn lemma_literal_82_2()
    ensures
        tag_safe(">No aler"@),
{
    reveal_strlit(">No aler");
    reveal_with_fuel(script_scan, 10);
}

proof fn lemma_literal_82_3()
    ensures
        tag_safe("t record"@),
{
    reveal_strlit("t record");
    reveal_with_fuel(script_scan, 10);
}

proof fn lemma_literal_82_4()
    ensures
        tag_safe("s found."@),
{
    reveal_strlit("s found.");
    reveal_with_fuel(script_scan, 10);
}

proof fn lemma_literal_82_5()
    ensures
        tag_safe("</p></se"@),
{
    reveal_strlit("</p></se");
    reveal_with_fuel(script_scan, 10);
}

proof fn lemma_literal_82_6()
    ensures
        tag_safe("ction>"@),
{
    reveal_strlit("ction>");
    reveal_with_fuel(script_scan, 8);
}

proof fn lemma_literal_82()
    ensures
        tag_safe("<p class=\"muted\">No alert records found.</p></section>"@),
{
    broadcast use lemma_safe_concat;

    lemma_literal_82_0();
    lemma_literal_82_1();
    lemma_literal_82_2();
    lemma_literal_82_3();
    lemma_literal_82_4();
    lemma_literal_82_5();
    lemma_literal_82_6();
    reveal_strlit("<p class=\"muted\">No alert records found.</p></section>");
    reveal_strlit("<p class");
    reveal_strlit("=\"muted\"");
    reveal_strlit(">No aler");
    reveal_strlit("t record");
    reveal_strlit("s found.");
    reveal_strlit("</p></se");
    reveal_strlit("ction>");
    assert("<p class=\"muted\">No alert records found.</p></section>"@ =~= "<p class"@ + "=\"muted\""@ + ">No aler"@ + "t record"@ + "s found."@ + "</p></se"@ + "ction>"@);
}

proof fn lemma_literal_83_0()
    ensures
        tag_safe("</main></"@),
{
    reveal_strlit("</main></");
    reveal_with_fuel(script_scan, 11);
}

proof fn lemma_literal_83_1()
    ensures
        tag_safe("body></h"@),
{
    reveal_strlit("body></h");
    reveal_with_fuel(script_scan, 10);
}

proof fn lemma_literal_83_2()
    ensures
        tag_safe("tml>"@),
{
    reveal_strlit("tml>");
    reveal_with_fuel(script_scan, 6);
}

proof fn lemma_literal_83()
    ensures
        tag_safe("</main></body></html>"@),
{
    broadcast use lemma_safe_concat;

    lemma_literal_83_0();
    lemma_literal_83_1();
    lemma_literal_83_2();
    reveal_strlit("</main></body></html>");
    reveal_strlit("</main></");
    reveal_strlit("body></h");
    reveal_strlit("tml>");
    assert("</main></body></html>"@ =~= "</main></"@ + "body></h"@ + "tml>"@);
}

proof fn lemma_literals_row_html()
    ensures
        tag_safe("<tr><th>"@),
        tag_safe("</th><td>"@),
        tag_safe("</td></tr>"@),
{
    lemma_literal_0();
    lemma_literal_1();
    lemma_literal_2();
}

proof fn lemma_literals_cell_html()
    ensures
        tag_safe("<td>"@),
        tag_safe("</td>"@),
{
    lemma_literal_3();
    lemma_literal_4();
}

proof fn lemma_literals_status_label_html()
    ensures
        tag_safe("<span class=\"ok\">success</span>"@),
        tag_safe("<span class=\"bad\">failure</span>"@),
        tag_safe("<span class=\"muted\">skipped</span>"@),
{
    lemma_literal_5();
    lemma_literal_6();
    lemma_literal_7();
}

proof fn lemma_literals_metric_html()
    ensures
        tag_safe("<div class=\"metric\"><strong>"@),
        tag_safe("</strong><span>"@),
        tag_safe("</span></div>"@),
{
    lemma_literal_8();
    lemma_literal_9();
    lemma_literal_10();
}

proof fn lemma_literals_summary_band_html()
    ensures
        tag_safe("<section><h2>Operator Summary</h2><div class=\"summary\">"@),
        tag_safe("Recent Alerts"@),
        tag_safe("Senders Ready"@),
        tag_safe("Senders Not Ready"@),
        tag_safe("Delivery Success"@),
        tag_safe("Delivery Failure"@),
        tag_safe("</div>"@),
        tag_safe("<p class=\"muted\">Skipped delivery attempts: "@),
        tag_safe("</p>"@),
        tag_safe("</section>"@),
{
    lemma_literal_11();
    lemma_literal_12();
    lemma_literal_13();
    lemma_literal_14();
    lemma_literal_15();
    lemma_literal_16();
    lemma_literal_17();
    lemma_literal_18();
    lemma_literal_19();
    lemma_literal_20();
}

proof fn lemma_literals_health_item_html()
    ensures
        tag_safe("<div class=\"health-item\"><span>"@),
        tag_safe("</span>"@),
        tag_safe("</div>"@),
{
    lemma_literal_21();
    lemma_literal_22();
    lemma_literal_17();
}

proof fn lemma_literals_health_section_into()
    ensures
        tag_safe("<section"@),
        tag_safe(" class=\"error\""@),
        tag_safe("><h2>Event Log Health</h2>"@),
        tag_safe("<div class=\"health-list\">"@),
        tag_safe("Path"@),
        tag_safe("Parsed records"@),
        tag_safe("Malformed lines"@),
        tag_safe("Truncated records"@),
        tag_safe("Read status"@),
        tag_safe("Refresh"@),
        tag_safe("Local meta refresh every 30 seconds"@),
        tag_safe("</div>"@),
        tag_safe("<p class=\"warn\">Malformed event log lines were skipped.</p>"@),
        tag_safe("<p class=\"warn\">Display cap reached; newer dashboard pages may omit older records.</p>"@),
        tag_safe("</section>"@),
{
    lemma_literal_23();
    lemma_literal_24();
    lemma_literal_25();
    lemma_literal_26();
    lemma_literal_27();
    lemma_literal_28();
    lemma_literal_29();
    lemma_literal_30();
    lemma_literal_31();
    lemma_literal_32();
    lemma_literal_33();
    lemma_literal_17();
    lemma_literal_34();
    lemma_literal_35();
    lemma_literal_20();
}

proof fn lemma_literals_sender_card_into()
    ensures
        tag_safe("<div class=\"status-card\">"@),
        tag_safe("<strong>"@),
        tag_safe("</strong><span class=\""@),
        tag_safe("ok"@),
        tag_safe("bad"@),
        tag_safe("\">"@),
        tag_safe("ready"@),
        tag_safe("not ready"@),
        tag_safe("</span>"@),
        tag_safe("<p class=\"muted\">"@),
        tag_safe("required"@),
        tag_safe("best-effort"@),
        tag_safe(" sender</p>"@),
        tag_safe("<table><tbody>"@),
        tag_safe("Last status"@),
        tag_safe("Last success"@),
        tag_safe("Last failure"@),
        tag_safe("Error"@),
        tag_safe("</tbody></table></div>"@),
{
    lemma_literal_36();
    lemma_literal_37();
    lemma_literal_38();
    lemma_literal_39();
    lemma_literal_40();
    lemma_literal_41();
    lemma_literal_42();
    lemma_literal_43();
    lemma_literal_22();
    lemma_literal_44();
    lemma_literal_45();
    lemma_literal_46();
    lemma_literal_47();
    lemma_literal_48();
    lemma_literal_49();
    lemma_literal_50();
    lemma_literal_51();
    lemma_literal_52();
    lemma_literal_53();
}

proof fn lemma_literals_sender_section_into()
    ensures
        tag_safe("<section><h2>Sender Status</h2>"@),
        tag_safe("<p class=\"muted\">No sender status records found.</p></section>"@),
        tag_safe("<div class=\"status-grid\">"@),
        tag_safe("</div></section>"@),
{
    lemma_literal_54();
    lemma_literal_55();
    lemma_literal_56();
    lemma_literal_57();
}

proof fn lemma_literals_role_text()
    ensures
        tag_safe("required"@),
        tag_safe("best-effort"@),
{
    lemma_literal_45();
    lemma_literal_46();
}

proof fn lemma_literals_attempt_row_into()
    ensures
        tag_safe("<tr>"@),
        tag_safe("</tr>"@),
{
    lemma_literal_58();
    lemma_literal_59();
}

proof fn lemma_literals_attempts_table_head()
    ensures
        tag_safe("<div class=\"table-wrap\"><table><thead><tr><th>Time</th><th>Sender</th><th>Role</th><th>Status</th><th>Channel</th><th>Error</th></tr></thead><tbody>"@),
{
    lemma_literal_60();
}

proof fn lemma_literals_attempts_into()
    ensures
        tag_safe("</tbody></table></div>"@),
{
    lemma_literal_53();
}

proof fn lemma_literals_alert_card_into()
    ensures
        tag_safe("<article class=\"alert-card\">"@),
        tag_safe("<div class=\"alert-head\"><div>"@),
        tag_safe("<div class=\"alert-title\">"@),
        tag_safe("</div><div class=\"alert-meta\">"@),
        tag_safe(" | "@),
        tag_safe("</div>"@),
        tag_safe("</div><div>"@),
        tag_safe("<span class=\"pill\">"@),
        tag_safe("</span> "@),
        tag_safe("<span class=\"pill\">national</span> "@),
        tag_safe("<span class=\"pill\">test</span>"@),
        tag_safe("</div></div><div class=\"alert-body\">"@),
        tag_safe("<table><tbody>"@),
        tag_safe("Originator"@),
        tag_safe("Callsign"@),
        tag_safe("Locations"@),
        tag_safe(", "@),
        tag_safe("</tbody></table>"@),
        tag_safe("<h3>Message</h3><div class=\"message\">"@),
        tag_safe("<h3>Delivery Attempts</h3>"@),
        tag_safe("<p class=\"muted\">No delivery attempts recorded for this alert.</p>"@),
        tag_safe("</div></article>"@),
{
    lemma_literal_61();
    lemma_literal_62();
    lemma_literal_63();
    lemma_literal_64();
    lemma_literal_65();
    lemma_literal_17();
    lemma_literal_66();
    lemma_literal_67();
    lemma_literal_68();
    lemma_literal_69();
    lemma_literal_70();
    lemma_literal_71();
    lemma_literal_48();
    lemma_literal_72();
    lemma_literal_73();
    lemma_literal_74();
    lemma_literal_75();
    lemma_literal_76();
    lemma_literal_77();
    lemma_literal_78();
    lemma_literal_79();
    lemma_literal_80();
}

proof fn lemma_literals_alerts_section_into()
    ensures
        tag_safe("<section><h2>Recent Alerts</h2>"@),
        tag_safe("<p class=\"muted\">No alert records found.</p></section>"@),
        tag_safe("</section>"@),
{
    lemma_literal_81();
    lemma_literal_82();
    lemma_literal_20();
}

proof fn lemma_literals_dashboard_html()
    ensures
        tag_safe("</main></body></html>"@),
{
    lemma_literal_83();
}


proof fn lemma_option_text_safe(v: Option<u64>)
    ensures
        tag_safe(option_text(v)),
{
    broadcast use lemma_decimal_safe;

    if v is None {
        lemma_empty_safe();
        assert(option_text(v) =~= Seq::<char>::empty());
    }
}

proof fn lemma_row_safe(label: Seq<char>, value: Seq<char>)
    requires
        tag_safe(value),
    ensures
        tag_safe(row_html(label, value)),
{
    broadcast use lemma_safe_concat, lemma_escaped_safe;

    lemma_literals_row_html();
}

proof fn lemma_cell_safe(value: Seq<char>)
    requires
        tag_safe(value),
    ensures
        tag_safe(cell_html(value)),
{
    broadcast use lemma_safe_concat;

    lemma_literals_cell_html();
}

proof fn lemma_metric_safe(label: Seq<char>, value: nat)
    ensures
        tag_safe(metric_html(label, value)),
{
    broadcast use lemma_safe_concat, lemma_escaped_safe, lemma_decimal_safe;

    lemma_literals_metric_html();
}

proof fn lemma_health_item_safe(label: Seq<char>, value: Seq<char>)
    requires
        tag_safe(value),
    ensures
        tag_safe(health_item_html(label, value)),
{
    broadcast use lemma_safe_concat, lemma_escaped_safe;

    lemma_literals_health_item_html();
}

proof fn lemma_summary_safe(alerts: nat, ready: nat, not_ready: nat, success: nat, failure: nat, skipped: nat)
    ensures
        tag_safe(summary_band_html(alerts, ready, not_ready, success, failure, skipped)),
{
    broadcast use lemma_safe_concat, lemma_decimal_safe;

    lemma_literals_summary_band_html();
    lemma_metric_safe("Recent Alerts"@, alerts);
    lemma_metric_safe("Senders Ready"@, ready);
    lemma_metric_safe("Senders Not Ready"@, not_ready);
    lemma_metric_safe("Delivery Success"@, success);
    lemma_metric_safe("Delivery Failure"@, failure);
    if skipped == 0 {
        lemma_empty_safe();
    }
}

proof fn lemma_health_section_safe(acc: Seq<char>, path: Seq<char>, data: DashboardData)
    requires
        tag_safe(acc),
    ensures
        tag_safe(health_section_into(acc, path, data)),
{
    broadcast use lemma_safe_concat, lemma_escaped_safe, lemma_decimal_safe;

    lemma_literals_health_section_into();
    lemma_health_item_safe("Path"@, html_escaped(path));
    lemma_health_item_safe("Parsed records"@, decimal(data.parsed_records as nat));
    lemma_health_item_safe("Malformed lines"@, decimal(data.malformed_lines as nat));
    lemma_health_item_safe("Truncated records"@, decimal(data.truncated_records as nat));
    lemma_health_item_safe("Read status"@, html_escaped(read_status_text(data.read_error)));
    lemma_health_item_safe("Refresh"@, "Local meta refresh every 30 seconds"@);
}

proof fn lemma_sender_card_safe(acc: Seq<char>, st: SenderStatusRecord)
    requires
        tag_safe(acc),
    ensures
        tag_safe(sender_card_into(acc, st)),
{
    broadcast use lemma_safe_concat, lemma_escaped_safe, lemma_decimal_safe;

    lemma_literals_sender_card_into();
    lemma_row_safe("Last status"@, decimal(st.timestamp_unix_secs as nat));
    lemma_option_text_safe(st.last_success_unix_secs);
    lemma_row_safe("Last success"@, option_text(st.last_success_unix_secs));
    lemma_option_text_safe(st.last_failure_unix_secs);
    lemma_row_safe("Last failure"@, option_text(st.last_failure_unix_secs));
    lemma_row_safe("Error"@, html_escaped(error_text(st.error)));
}

proof fn lemma_sender_cards_safe(acc: Seq<char>, s: Seq<SenderStatusRecord>)
    requires
        tag_safe(acc),
    ensures
        tag_safe(sender_cards_into(acc, s)),
    decreases s.len(),
{
    if s.len() > 0 {
        lemma_sender_cards_safe(acc, s.drop_last());
        lemma_sender_card_safe(sender_cards_into(acc, s.drop_last()), s.last());
    }
}

proof fn lemma_sender_section_safe(acc: Seq<char>, s: Seq<SenderStatusRecord>)
    requires
        tag_safe(acc),
    ensures
        tag_safe(sender_section_into(acc, s)),
{
    broadcast use lemma_safe_concat;

    lemma_literals_sender_section_into();
    if s.len() > 0 {
        lemma_sender_cards_safe(acc + "<section><h2>Sender Status</h2>"@ + "<div class=\"status-grid\">"@, s);
    }
}

proof fn lemma_status_label_safe(status: DeliveryAttemptStatus)
    ensures
        tag_safe(status_label_html(status)),
{
    lemma_literals_status_label_html();
}

proof fn lemma_attempt_row_safe(acc: Seq<char>, a: DeliveryAttemptRecord)
    requires
        tag_safe(acc),
    ensures
        tag_safe(attempt_row_into(acc, a)),
{
    broadcast use lemma_safe_concat, lemma_escaped_safe, lemma_decimal_safe;

    lemma_literals_attempt_row_into();
    lemma_literals_role_text();
    lemma_cell_safe(decimal(a.timestamp_unix_secs as nat));
    lemma_cell_safe(html_escaped(a.sender@));
    lemma_cell_safe(role_text(a.required));
    lemma_status_label_safe(a.status);
    lemma_cell_safe(status_label_html(a.status));
    let ch = match a.channel {
        Some(c) => Some(c as u64),
        None => None,
    };
    lemma_option_text_safe(ch);
    lemma_cell_safe(option_text(ch));
    lemma_cell_safe(html_escaped(error_text(a.error)));
}

proof fn lemma_attempt_rows_safe(acc: Seq<char>, s: Seq<DeliveryAttemptRecord>)
    requires
        tag_safe(acc),
    ensures
        tag_safe(attempt_rows_into(acc, s)),
    decreases s.len(),
{
    if s.len() > 0 {
        lemma_attempt_rows_safe(acc, s.drop_last());
        lemma_attempt_row_safe(attempt_rows_into(acc, s.drop_last()), s.last());
    }
}

proof fn lemma_attempts_safe(acc: Seq<char>, s: Seq<DeliveryAttemptRecord>)
    requires
        tag_safe(acc),
    ensures
        tag_safe(attempts_into(acc, s)),
{
    broadcast use lemma_safe_concat;

    lemma_literals_attempts_into();
    lemma_literals_attempts_table_head();
    lemma_attempt_rows_safe(acc + attempts_table_head(), s);
}

proof fn lemma_alert_card_safe(acc: Seq<char>, alert: AlertRecord, groups: Seq<AttemptGroup>)
    requires
        tag_safe(acc),
    ensures
        tag_safe(alert_card_into(acc, alert, groups)),
{
    broadcast use lemma_safe_concat, lemma_escaped_safe, lemma_decimal_safe;

    lemma_literals_alert_card_into();
    lemma_row_safe("Originator"@, html_escaped(alert.originator@));
    lemma_row_safe("Callsign"@, html_escaped(alert.callsign@));
    lemma_row_safe(
        "Locations"@,
        html_escaped(crate::text::join_with(alert.location_names@.map_values(|x: String| x@), ", "@)),
    );
    let a1 = acc + "<article class=\"alert-card\">"@ + "<div class=\"alert-head\"><div>"@
        + "<div class=\"alert-title\">"@ + html_escaped(alert.event@)
        + "</div><div class=\"alert-meta\">"@ + html_escaped(alert.alert_id@) + " | "@ + decimal(
        alert.timestamp_unix_secs as nat,
    ) + "</div>"@;
    let a2 = a1 + "</div><div>"@ + "<span class=\"pill\">"@ + html_escaped(
        crate::spool::significance_name(alert.significance),
    ) + "</span> "@;
    let a3 = if alert.is_national {
        a2 + "<span class=\"pill\">national</span> "@
    } else {
        a2
    };
    let a4 = if alert.is_test {
        a3 + "<span class=\"pill\">test</span>"@
    } else {
        a3
    };
    let a5 = a4 + "</div></div><div class=\"alert-body\">"@ + "<table><tbody>"@ + row_html(
        "Originator"@,
        html_escaped(alert.originator@),
    ) + row_html("Callsign"@, html_escaped(alert.callsign@)) + row_html(
        "Locations"@,
        html_escaped(crate::text::join_with(alert.location_names@.map_values(|x: String| x@), ", "@)),
    ) + "</tbody></table>"@;
    let a6 = a5 + "<h3>Message</h3><div class=\"message\">"@ + html_escaped(alert.message_text@)
        + "</div>"@ + "<h3>Delivery Attempts</h3>"@;
    assert(tag_safe(a1));
    assert(tag_safe(a2));
    assert(tag_safe(a4));
    assert(tag_safe(a5));
    assert(tag_safe(a6));
    let k = find_group(groups, alert.alert_id@);
    if k >= 0 {
        lemma_attempts_safe(a6, groups[k].attempts@);
    }
}

proof fn lemma_alert_cards_safe(acc: Seq<char>, alerts: Seq<AlertRecord>, groups: Seq<AttemptGroup>)
    requires
        tag_safe(acc),
    ensures
        tag_safe(alert_cards_into(acc, alerts, groups)),
    decreases alerts.len(),
{
    if alerts.len() > 0 {
        lemma_alert_cards_safe(acc, alerts.drop_last(), groups);
        lemma_alert_card_safe(alert_cards_into(acc, alerts.drop_last(), groups), alerts.last(), groups);
    }
}

proof fn lemma_alerts_section_safe(acc: Seq<char>, data: DashboardData)
    requires
        tag_safe(acc),
    ensures
        tag_safe(alerts_section_into(acc, data)),
{
    broadcast use lemma_safe_concat;

    lemma_literals_alerts_section_into();
    if data.alerts@.len() > 0 {
        lemma_alert_cards_safe(acc + "<section><h2>Recent Alerts</h2>"@, data.alerts@, data.delivery_attempts_by_alert@);
    }
}

proof fn lemma_head_0_0()
    ensures
        tag_safe("<!doctype "@),
{
    reveal_strlit("<!doctype ");
    reveal_with_fuel(script_scan, 12);
}

proof fn lemma_head_0_1()
    ensures
        tag_safe("html><html"@),
{
    reveal_strlit("html><html");
    reveal_with_fuel(script_scan, 12);
}

proof fn lemma_head_0_2()
    ensures
        tag_safe(" lang=\"en\""@),
{
    reveal_strlit(" lang=\"en\"");
    reveal_with_fuel(script_scan, 12);
}

proof fn lemma_head_0_3()
    ensures
        tag_safe("><head><me"@),
{
    reveal_strlit("><head><me");
    reveal_with_fuel(script_scan, 12);
}

proof fn lemma_head_0_4()
    ensures
        tag_safe("ta charset"@),
{
    reveal_strlit("ta charset");
    reveal_with_fuel(script_scan, 12);
}

proof fn lemma_head_0_5()
    ensures
        tag_safe("=\"utf-8\"><m"@),
{
    reveal_strlit("=\"utf-8\"><m");
    reveal_with_fuel(script_scan, 13);
}

proof fn lemma_head_0_6()
    ensures
        tag_safe("eta name=\""@),
{
    reveal_strlit("eta name=\"");
    reveal_with_fuel(script_scan, 12);
}

proof fn lemma_head_0_7()
    ensures
        tag_safe("viewport\" "@),
{
    reveal_strlit("viewport\" ");
    reveal_with_fuel(script_scan, 12);
}

proof fn lemma_head_0_8()
    ensures
        tag_safe("content=\"w"@),
{
    reveal_strlit("content=\"w");
    reveal_with_fuel(script_scan, 12);
}

proof fn lemma_head_0_9()
    ensures
        tag_safe("idth=devic"@),
{
    reveal_strlit("idth=devic");
    reveal_with_fuel(script_scan, 12);
}

proof fn lemma_head_0_10()
    ensures
        tag_safe("e-width, i"@),
{
    reveal_strlit("e-width, i");
    reveal_with_fuel(script_scan, 12);
}

proof fn lemma_head_0_11()
    ensures
        tag_safe("nitial-sca"@),
{
    reveal_strlit("nitial-sca");
    reveal_with_fuel(script_scan, 12);
}

proof fn lemma_head_0()
    ensures
        tag_safe("<!doctype html><html lang=\"en\"><head><meta charset=\"utf-8\"><meta name=\"viewport\" content=\"width=device-width, initial-sca"@),
{
    broadcast use lemma_safe_concat;

    lemma_head_0_0();
    lemma_head_0_1();
    lemma_head_0_2();
    lemma_head_0_3();
    lemma_head_0_4();
    lemma_head_0_5();
    lemma_head_0_6();
    lemma_head_0_7();
    lemma_head_0_8();
    lemma_head_0_9();
    lemma_head_0_10();
    lemma_head_0_11();
    reveal_strlit("<!doctype html><html lang=\"en\"><head><meta charset=\"utf-8\"><meta name=\"viewport\" content=\"width=device-width, initial-sca");
    reveal_strlit("<!doctype ");
    reveal_strlit("html><html");
    reveal_strlit(" lang=\"en\"");
    reveal_strlit("><head><me");
    reveal_strlit("ta charset");
    reveal_strlit("=\"utf-8\"><m");
    reveal_strlit("eta name=\"");
    reveal_strlit("viewport\" ");
    reveal_strlit("content=\"w");
    reveal_strlit("idth=devic");
    reveal_strlit("e-width, i");
    reveal_strlit("nitial-sca");
    assert("<!doctype html><html lang=\"en\"><head><meta charset=\"utf-8\"><meta name=\"viewport\" content=\"width=device-width, initial-sca"@ =~= "<!doctype "@ + "html><html"@ + " lang=\"en\""@ + "><head><me"@ + "ta charset"@ + "=\"utf-8\"><m"@ + "eta name=\""@ + "viewport\" "@ + "content=\"w"@ + "idth=devic"@ + "e-width, i"@ + "nitial-sca"@);
}

proof fn lemma_head_1_0()
    ensures
        tag_safe("le=1\"><met"@),
{
    reveal_strlit("le=1\"><met");
    reveal_with_fuel(script_scan, 12);
}

proof fn lemma_head_1_1()
    ensures
        tag_safe("a http-equ"@),
{
    reveal_strlit("a http-equ");
    reveal_with_fuel(script_scan, 12);
}

proof fn lemma_head_1_2()
    ensures
        tag_safe("iv=\"refres"@),
{
    reveal_strlit("iv=\"refres");
    reveal_with_fuel(script_scan, 12);
}

proof fn lemma_head_1_3()
    ensures
        tag_safe("h\" content"@),
{
    reveal_strlit("h\" content");
    reveal_with_fuel(script_scan, 12);
}

proof fn lemma_head_1_4()
    ensures
        tag_safe("=\"30\"><tit"@),
{
    reveal_strlit("=\"30\"><tit");
    reveal_with_fuel(script_scan, 12);
}

proof fn lemma_head_1_5()
    ensures
        tag_safe("le>Sentine"@),
{
    reveal_strlit("le>Sentine");
    reveal_with_fuel(script_scan, 12);
}

proof fn lemma_head_1_6()
    ensures
        tag_safe("l Dashboar"@),
{
    reveal_strlit("l Dashboar");
    reveal_with_fuel(script_scan, 12);
}

proof fn lemma_head_1_7()
    ensures
        tag_safe("d</title><st"@),
{
    reveal_strlit("d</title><st");
    reveal_with_fuel(script_scan, 14);
}

proof fn lemma_head_1_8()
    ensures
        tag_safe("yle>:root{"@),
{
    reveal_strlit("yle>:root{");
    reveal_with_fuel(script_scan, 12);
}

proof fn lemma_head_1_9()
    ensures
        tag_safe("color-sche"@),
{
    reveal_strlit("color-sche");
    reveal_with_fuel(script_scan, 12);
}

proof fn lemma_head_1_10()
    ensures
        tag_safe("me:light;-"@),
{
    reveal_strlit("me:light;-");
    reveal_with_fuel(script_scan, 12);
}

proof fn lemma_head_1_11()
    ensures
        tag_safe("-bg:#eef2f"@),
{
    reveal_strlit("-bg:#eef2f");
    reveal_with_fuel(script_scan, 12);
}

proof fn lemma_head_1()
    ensures
        tag_safe("le=1\"><meta http-equiv=\"refresh\" content=\"30\"><title>Sentinel Dashboard</title><style>:root{color-scheme:light;--bg:#eef2f"@),
{
    broadcast use lemma_safe_concat;

    lemma_head_1_0();
    lemma_head_1_1();
    lemma_head_1_2();
    lemma_head_1_3();
    lemma_head_1_4();
    lemma_head_1_5();
    lemma_head_1_6();
    lemma_head_1_7();
    lemma_head_1_8();
    lemma_head_1_9();
    lemma_head_1_10();
    lemma_head_1_11();
    reveal_strlit("le=1\"><meta http-equiv=\"refresh\" content=\"30\"><title>Sentinel Dashboard</title><style>:root{color-scheme:light;--bg:#eef2f");
    reveal_strlit("le=1\"><met");
    reveal_strlit("a http-equ");
    reveal_strlit("iv=\"refres");
    reveal_strlit("h\" content");
    reveal_strlit("=\"30\"><tit");
    reveal_strlit("le>Sentine");
    reveal_strlit("l Dashboar");
    reveal_strlit("d</title><st");
    reveal_strlit("yle>:root{");
    reveal_strlit("color-sche");
    reveal_strlit("me:light;-");
    reveal_strlit("-bg:#eef2f");
    assert("le=1\"><meta http-equiv=\"refresh\" content=\"30\"><title>Sentinel Dashboard</title><style>:root{color-scheme:light;--bg:#eef2f"@ =~= "le=1\"><met"@ + "a http-equ"@ + "iv=\"refres"@ + "h\" content"@ + "=\"30\"><tit"@ + "le>Sentine"@ + "l Dashboar"@ + "d</title><st"@ + "yle>:root{"@ + "color-sche"@ + "me:light;-"@ + "-bg:#eef2f"@);
}

proof fn lemma_head_2_0()
    ensures
        tag_safe("6;--panel:"@),
{
    reveal_strlit("6;--panel:");
    reveal_with_fuel(script_scan, 12);
}

proof fn lemma_head_2_1()
    ensures
        tag_safe("#ffffff;--"@),
{
    reveal_strlit("#ffffff;--");
    reveal_with_fuel(script_scan, 12);
}

proof fn lemma_head_2_2()
    ensures
        tag_safe("ink:#18212"@),
{
    reveal_strlit("ink:#18212");
    reveal_with_fuel(script_scan, 12);
}

proof fn lemma_head_2_3()
    ensures
        tag_safe("f;--muted:"@),
{
    reveal_strlit("f;--muted:");
    reveal_with_fuel(script_scan, 12);
}

proof fn lemma_head_2_4()
    ensures
        tag_safe("#5d6b7c;--"@),
{
    reveal_strlit("#5d6b7c;--");
    reveal_with_fuel(script_scan, 12);
}

proof fn lemma_head_2_5()
    ensures
        tag_safe("line:#d8e0"@),
{
    reveal_strlit("line:#d8e0");
    reveal_with_fuel(script_scan, 12);
}

proof fn lemma_head_2_6()
    ensures
        tag_safe("ea;--head:"@),
{
    reveal_strlit("ea;--head:");
    reveal_with_fuel(script_scan, 12);
}

proof fn lemma_head_2_7()
    ensures
        tag_safe("#12263a;--"@),
{
    reveal_strlit("#12263a;--");
    reveal_with_fuel(script_scan, 12);
}

proof fn lemma_head_2_8()
    ensures
        tag_safe("ok:#166534"@),
{
    reveal_strlit("ok:#166534");
    reveal_with_fuel(script_scan, 12);
}

proof fn lemma_head_2_9()
    ensures
        tag_safe(";--bad:#b4"@),
{
    reveal_strlit(";--bad:#b4");
    reveal_with_fuel(script_scan, 12);
}

proof fn lemma_head_2_10()
    ensures
        tag_safe("2318;--war"@),
{
    reveal_strlit("2318;--war");
    reveal_with_fuel(script_scan, 12);
}

proof fn lemma_head_2_11()
    ensures
        tag_safe("n:#a15c00;"@),
{
    reveal_strlit("n:#a15c00;");
    reveal_with_fuel(script_scan, 12);
}

proof fn lemma_head_2()
    ensures
        tag_safe("6;--panel:#ffffff;--ink:#18212f;--muted:#5d6b7c;--line:#d8e0ea;--head:#12263a;--ok:#166534;--bad:#b42318;--warn:#a15c00;"@),
{
    broadcast use lemma_safe_concat;

    lemma_head_2_0();
    lemma_head_2_1();
    lemma_head_2_2();
    lemma_head_2_3();
    lemma_head_2_4();
    lemma_head_2_5();
    lemma_head_2_6();
    lemma_head_2_7();
    lemma_head_2_8();
    lemma_head_2_9();
    lemma_head_2_10();
    lemma_head_2_11();
    reveal_strlit("6;--panel:#ffffff;--ink:#18212f;--muted:#5d6b7c;--line:#d8e0ea;--head:#12263a;--ok:#166534;--bad:#b42318;--warn:#a15c00;");
    reveal_strlit("6;--panel:");
    reveal_strlit("#ffffff;--");
    reveal_strlit("ink:#18212");
    reveal_strlit("f;--muted:");
    reveal_strlit("#5d6b7c;--");
    reveal_strlit("line:#d8e0");
    reveal_strlit("ea;--head:");
    reveal_strlit("#12263a;--");
    reveal_strlit("ok:#166534");
    reveal_strlit(";--bad:#b4");
    reveal_strlit("2318;--war");
    reveal_strlit("n:#a15c00;");
    assert("6;--panel:#ffffff;--ink:#18212f;--muted:#5d6b7c;--line:#d8e0ea;--head:#12263a;--ok:#166534;--bad:#b42318;--warn:#a15c00;"@ =~= "6;--panel:"@ + "#ffffff;--"@ + "ink:#18212"@ + "f;--muted:"@ + "#5d6b7c;--"@ + "line:#d8e0"@ + "ea;--head:"@ + "#12263a;--"@ + "ok:#166534"@ + ";--bad:#b4"@ + "2318;--war"@ + "n:#a15c00;"@);
}

proof fn lemma_head_3_0()
    ensures
        tag_safe("--chip:#e8"@),
{
    reveal_strlit("--chip:#e8");
    reveal_with_fuel(script_scan, 12);
}

proof fn lemma_head_3_1()
    ensures
        tag_safe("eef5}*{box"@),
{
    reveal_strlit("eef5}*{box");
    reveal_with_fuel(script_scan, 12);
}

proof fn lemma_head_3_2()
    ensures
        tag_safe("-sizing:bo"@),
{
    reveal_strlit("-sizing:bo");
    reveal_with_fuel(script_scan, 12);
}

proof fn lemma_head_3_3()
    ensures
        tag_safe("rder-box}b"@),
{
    reveal_strlit("rder-box}b");
    reveal_with_fuel(script_scan, 12);
}

proof fn lemma_head_3_4()
    ensures
        tag_safe("ody{font-f"@),
{
    reveal_strlit("ody{font-f");
    reveal_with_fuel(script_scan, 12);
}

proof fn lemma_head_3_5()
    ensures
        tag_safe("amily:Aria"@),
{
    reveal_strlit("amily:Aria");
    reveal_with_fuel(script_scan, 12);
}

proof fn lemma_head_3_6()
    ensures
        tag_safe("l,sans-ser"@),
{
    reveal_strlit("l,sans-ser");
    reveal_with_fuel(script_scan, 12);
}

proof fn lemma_head_3_7()
    ensures
        tag_safe("if;margin:"@),
{
    reveal_strlit("if;margin:");
    reveal_with_fuel(script_scan, 12);
}

proof fn lemma_head_3_8()
    ensures
        tag_safe("0;backgrou"@),
{
    reveal_strlit("0;backgrou");
    reveal_with_fuel(script_scan, 12);
}

proof fn lemma_head_3_9()
    ensures
        tag_safe("nd:var(--b"@),
{
    reveal_strlit("nd:var(--b");
    reveal_with_fuel(script_scan, 12);
}

proof fn lemma_head_3_10()
    ensures
        tag_safe("g);color:v"@),
{
    reveal_strlit("g);color:v");
    reveal_with_fuel(script_scan, 12);
}

proof fn lemma_head_3_11()
    ensures
        tag_safe("ar(--ink)}"@),
{
    reveal_strlit("ar(--ink)}");
    reveal_with_fuel(script_scan, 12);
}

proof fn lemma_head_3()
    ensures
        tag_safe("--chip:#e8eef5}*{box-sizing:border-box}body{font-family:Arial,sans-serif;margin:0;background:var(--bg);color:var(--ink)}"@),
{
    broadcast use lemma_safe_concat;

    lemma_head_3_0();
    lemma_head_3_1();
    lemma_head_3_2();
    lemma_head_3_3();
    lemma_head_3_4();
    lemma_head_3_5();
    lemma_head_3_6();
    lemma_head_3_7();
    lemma_head_3_8();
    lemma_head_3_9();
    lemma_head_3_10();
    lemma_head_3_11();
    reveal_strlit("--chip:#e8eef5}*{box-sizing:border-box}body{font-family:Arial,sans-serif;margin:0;background:var(--bg);color:var(--ink)}");
    reveal_strlit("--chip:#e8");
    reveal_strlit("eef5}*{box");
    reveal_strlit("-sizing:bo");
    reveal_strlit("rder-box}b");
    reveal_strlit("ody{font-f");
    reveal_strlit("amily:Aria");
    reveal_strlit("l,sans-ser");
    reveal_strlit("if;margin:");
    reveal_strlit("0;backgrou");
    reveal_strlit("nd:var(--b");
    reveal_strlit("g);color:v");
    reveal_strlit("ar(--ink)}");
    assert("--chip:#e8eef5}*{box-sizing:border-box}body{font-family:Arial,sans-serif;margin:0;background:var(--bg);color:var(--ink)}"@ =~= "--chip:#e8"@ + "eef5}*{box"@ + "-sizing:bo"@ + "rder-box}b"@ + "ody{font-f"@ + "amily:Aria"@ + "l,sans-ser"@ + "if;margin:"@ + "0;backgrou"@ + "nd:var(--b"@ + "g);color:v"@ + "ar(--ink)}"@);
}

proof fn lemma_head_4_0()
    ensures
        tag_safe("header{bac"@),
{
    reveal_strlit("header{bac");
    reveal_with_fuel(script_scan, 12);
}

proof fn lemma_head_4_1()
    ensures
        tag_safe("kground:va"@),
{
    reveal_strlit("kground:va");
    reveal_with_fuel(script_scan, 12);
}

proof fn lemma_head_4_2()
    ensures
        tag_safe("r(--head);"@),
{
    reveal_strlit("r(--head);");
    reveal_with_fuel(script_scan, 12);
}

proof fn lemma_head_4_3()
    ensures
        tag_safe("color:#fff"@),
{
    reveal_strlit("color:#fff");
    reveal_with_fuel(script_scan, 12);
}

proof fn lemma_head_4_4()
    ensures
        tag_safe(";padding:1"@),
{
    reveal_strlit(";padding:1");
    reveal_with_fuel(script_scan, 12);
}

proof fn lemma_head_4_5()
    ensures
        tag_safe("8px 22px}h"@),
{
    reveal_strlit("8px 22px}h");
    reveal_with_fuel(script_scan, 12);
}

proof fn lemma_head_4_6()
    ensures
        tag_safe("eader h1{m"@),
{
    reveal_strlit("eader h1{m");
    reveal_with_fuel(script_scan, 12);
}

proof fn lemma_head_4_7()
    ensures
        tag_safe("argin:0;fo"@),
{
    reveal_strlit("argin:0;fo");
    reveal_with_fuel(script_scan, 12);
}

proof fn lemma_head_4_8()
    ensures
        tag_safe("nt-size:1."@),
{
    reveal_strlit("nt-size:1.");
    reveal_with_fuel(script_scan, 12);
}

proof fn lemma_head_4_9()
    ensures
        tag_safe("55rem}head"@),
{
    reveal_strlit("55rem}head");
    reveal_with_fuel(script_scan, 12);
}

proof fn lemma_head_4_10()
    ensures
        tag_safe("er div{mar"@),
{
    reveal_strlit("er div{mar");
    reveal_with_fuel(script_scan, 12);
}

proof fn lemma_head_4_11()
    ensures
        tag_safe("gin-top:4p"@),
{
    reveal_strlit("gin-top:4p");
    reveal_with_fuel(script_scan, 12);
}

proof fn lemma_head_4()
    ensures
        tag_safe("header{background:var(--head);color:#fff;padding:18px 22px}header h1{margin:0;font-size:1.55rem}header div{margin-top:4p"@),
{
    broadcast use lemma_safe_concat;

    lemma_head_4_0();
    lemma_head_4_1();
    lemma_head_4_2();
    lemma_head_4_3();
    lemma_head_4_4();
    lemma_head_4_5();
    lemma_head_4_6();
    lemma_head_4_7();
    lemma_head_4_8();
    lemma_head_4_9();
    lemma_head_4_10();
    lemma_head_4_11();
    reveal_strlit("header{background:var(--head);color:#fff;padding:18px 22px}header h1{margin:0;font-size:1.55rem}header div{margin-top:4p");
    reveal_strlit("header{bac");
    reveal_strlit("kground:va");
    reveal_strlit("r(--head);");
    reveal_strlit("color:#fff");
    reveal_strlit(";padding:1");
    reveal_strlit("8px 22px}h");
    reveal_strlit("eader h1{m");
    reveal_strlit("argin:0;fo");
    reveal_strlit("nt-size:1.");
    reveal_strlit("55rem}head");
    reveal_strlit("er div{mar");
    reveal_strlit("gin-top:4p");
    assert("header{background:var(--head);color:#fff;padding:18px 22px}header h1{margin:0;font-size:1.55rem}header div{margin-top:4p"@ =~= "header{bac"@ + "kground:va"@ + "r(--head);"@ + "color:#fff"@ + ";padding:1"@ + "8px 22px}h"@ + "eader h1{m"@ + "argin:0;fo"@ + "nt-size:1."@ + "55rem}head"@ + "er div{mar"@ + "gin-top:4p"@);
}

proof fn lemma_head_5_0()
    ensures
        tag_safe("x;color:#d"@),
{
    reveal_strlit("x;color:#d");
    reveal_with_fuel(script_scan, 12);
}

proof fn lemma_head_5_1()
    ensures
        tag_safe("5dee8}main"@),
{
    reveal_strlit("5dee8}main");
    reveal_with_fuel(script_scan, 12);
}

proof fn lemma_head_5_2()
    ensures
        tag_safe("{padding:1"@),
{
    reveal_strlit("{padding:1");
    reveal_with_fuel(script_scan, 12);
}

proof fn lemma_head_5_3()
    ensures
        tag_safe("8px;max-wi"@),
{
    reveal_strlit("8px;max-wi");
    reveal_with_fuel(script_scan, 12);
}

proof fn lemma_head_5_4()
    ensures
        tag_safe("dth:1280px"@),
{
    reveal_strlit("dth:1280px");
    reveal_with_fuel(script_scan, 12);
}

proof fn lemma_head_5_5()
    ensures
        tag_safe(";margin:0 "@),
{
    reveal_strlit(";margin:0 ");
    reveal_with_fuel(script_scan, 12);
}

proof fn lemma_head_5_6()
    ensures
        tag_safe("auto}secti"@),
{
    reveal_strlit("auto}secti");
    reveal_with_fuel(script_scan, 12);
}

proof fn lemma_head_5_7()
    ensures
        tag_safe("on{backgro"@),
{
    reveal_strlit("on{backgro");
    reveal_with_fuel(script_scan, 12);
}

proof fn lemma_head_5_8()
    ensures
        tag_safe("und:var(--"@),
{
    reveal_strlit("und:var(--");
    reveal_with_fuel(script_scan, 12);
}

proof fn lemma_head_5_9()
    ensures
        tag_safe("panel);bor"@),
{
    reveal_strlit("panel);bor");
    reveal_with_fuel(script_scan, 12);
}

proof fn lemma_head_5_10()
    ensures
        tag_safe("der:1px so"@),
{
    reveal_strlit("der:1px so");
    reveal_with_fuel(script_scan, 12);
}

proof fn lemma_head_5_11()
    ensures
        tag_safe("lid var(--"@),
{
    reveal_strlit("lid var(--");
    reveal_with_fuel(script_scan, 12);
}

proof fn lemma_head_5()
    ensures
        tag_safe("x;color:#d5dee8}main{padding:18px;max-width:1280px;margin:0 auto}section{background:var(--panel);border:1px solid var(--"@),
{
    broadcast use lemma_safe_concat;

    lemma_head_5_0();
    lemma_head_5_1();
    lemma_head_5_2();
    lemma_head_5_3();
    lemma_head_5_4();
    lemma_head_5_5();
    lemma_head_5_6();
    lemma_head_5_7();
    lemma_head_5_8();
    lemma_head_5_9();
    lemma_head_5_10();
    lemma_head_5_11();
    reveal_strlit("x;color:#d5dee8}main{padding:18px;max-width:1280px;margin:0 auto}section{background:var(--panel);border:1px solid var(--");
    reveal_strlit("x;color:#d");
    reveal_strlit("5dee8}main");
    reveal_strlit("{padding:1");
    reveal_strlit("8px;max-wi");
    reveal_strlit("dth:1280px");
    reveal_strlit(";margin:0 ");
    reveal_strlit("auto}secti");
    reveal_strlit("on{backgro");
    reveal_strlit("und:var(--");
    reveal_strlit("panel);bor");
    reveal_strlit("der:1px so");
    reveal_strlit("lid var(--");
    assert("x;color:#d5dee8}main{padding:18px;max-width:1280px;margin:0 auto}section{background:var(--panel);border:1px solid var(--"@ =~= "x;color:#d"@ + "5dee8}main"@ + "{padding:1"@ + "8px;max-wi"@ + "dth:1280px"@ + ";margin:0 "@ + "auto}secti"@ + "on{backgro"@ + "und:var(--"@ + "panel);bor"@ + "der:1px so"@ + "lid var(--"@);
}

proof fn lemma_head_6_0()
    ensures
        tag_safe("line);bord"@),
{
    reveal_strlit("line);bord");
    reveal_with_fuel(script_scan, 12);
}

proof fn lemma_head_6_1()
    ensures
        tag_safe("er-radius:"@),
{
    reveal_strlit("er-radius:");
    reveal_with_fuel(script_scan, 12);
}

proof fn lemma_head_6_2()
    ensures
        tag_safe("8px;margin"@),
{
    reveal_strlit("8px;margin");
    reveal_with_fuel(script_scan, 12);
}

proof fn lemma_head_6_3()
    ensures
        tag_safe(":0 0 16px;"@),
{
    reveal_strlit(":0 0 16px;");
    reveal_with_fuel(script_scan, 12);
}

proof fn lemma_head_6_4()
    ensures
        tag_safe("padding:16"@),
{
    reveal_strlit("padding:16");
    reveal_with_fuel(script_scan, 12);
}

proof fn lemma_head_6_5()
    ensures
        tag_safe("px}h2{font"@),
{
    reveal_strlit("px}h2{font");
    reveal_with_fuel(script_scan, 12);
}

proof fn lemma_head_6_6()
    ensures
        tag_safe("-size:1.15"@),
{
    reveal_strlit("-size:1.15");
    reveal_with_fuel(script_scan, 12);
}

proof fn lemma_head_6_7()
    ensures
        tag_safe("rem;margin"@),
{
    reveal_strlit("rem;margin");
    reveal_with_fuel(script_scan, 12);
}

proof fn lemma_head_6_8()
    ensures
        tag_safe(":0 0 12px}"@),
{
    reveal_strlit(":0 0 12px}");
    reveal_with_fuel(script_scan, 12);
}

proof fn lemma_head_6_9()
    ensures
        tag_safe("h3{font-si"@),
{
    reveal_strlit("h3{font-si");
    reveal_with_fuel(script_scan, 12);
}

proof fn lemma_head_6_10()
    ensures
        tag_safe("ze:1rem;ma"@),
{
    reveal_strlit("ze:1rem;ma");
    reveal_with_fuel(script_scan, 12);
}

proof fn lemma_head_6_11()
    ensures
        tag_safe("rgin:0 0 8"@),
{
    reveal_strlit("rgin:0 0 8");
    reveal_with_fuel(script_scan, 12);
}

proof fn lemma_head_6()
    ensures
        tag_safe("line);border-radius:8px;margin:0 0 16px;padding:16px}h2{font-size:1.15rem;margin:0 0 12px}h3{font-size:1rem;margin:0 0 8"@),
{
    broadcast use lemma_safe_concat;

    lemma_head_6_0();
    lemma_head_6_1();
    lemma_head_6_2();
    lemma_head_6_3();
    lemma_head_6_4();
    lemma_head_6_5();
    lemma_head_6_6();
    lemma_head_6_7();
    lemma_head_6_8();
    lemma_head_6_9();
    lemma_head_6_10();
    lemma_head_6_11();
    reveal_strlit("line);border-radius:8px;margin:0 0 16px;padding:16px}h2{font-size:1.15rem;margin:0 0 12px}h3{font-size:1rem;margin:0 0 8");
    reveal_strlit("line);bord");
    reveal_strlit("er-radius:");
    reveal_strlit("8px;margin");
    reveal_strlit(":0 0 16px;");
    reveal_strlit("padding:16");
    reveal_strlit("px}h2{font");
    reveal_strlit("-size:1.15");
    reveal_strlit("rem;margin");
    reveal_strlit(":0 0 12px}");
    reveal_strlit("h3{font-si");
    reveal_strlit("ze:1rem;ma");
    reveal_strlit("rgin:0 0 8");
    assert("line);border-radius:8px;margin:0 0 16px;padding:16px}h2{font-size:1.15rem;margin:0 0 12px}h3{font-size:1rem;margin:0 0 8"@ =~= "line);bord"@ + "er-radius:"@ + "8px;margin"@ + ":0 0 16px;"@ + "padding:16"@ + "px}h2{font"@ + "-size:1.15"@ + "rem;margin"@ + ":0 0 12px}"@ + "h3{font-si"@ + "ze:1rem;ma"@ + "rgin:0 0 8"@);
}

proof fn lemma_head_7_0()
    ensures
        tag_safe("px}p{margi"@),
{
    reveal_strlit("px}p{margi");
    reveal_with_fuel(script_scan, 12);
}

proof fn lemma_head_7_1()
    ensures
        tag_safe("n:0 0 10px"@),
{
    reveal_strlit("n:0 0 10px");
    reveal_with_fuel(script_scan, 12);
}

proof fn lemma_head_7_2()
    ensures
        tag_safe(";line-heig"@),
{
    reveal_strlit(";line-heig");
    reveal_with_fuel(script_scan, 12);
}

proof fn lemma_head_7_3()
    ensures
        tag_safe("ht:1.4}tab"@),
{
    reveal_strlit("ht:1.4}tab");
    reveal_with_fuel(script_scan, 12);
}

proof fn lemma_head_7_4()
    ensures
        tag_safe("le{width:1"@),
{
    reveal_strlit("le{width:1");
    reveal_with_fuel(script_scan, 12);
}

proof fn lemma_head_7_5()
    ensures
        tag_safe("00%;border"@),
{
    reveal_strlit("00%;border");
    reveal_with_fuel(script_scan, 12);
}

proof fn lemma_head_7_6()
    ensures
        tag_safe("-collapse:"@),
{
    reveal_strlit("-collapse:");
    reveal_with_fuel(script_scan, 12);
}

proof fn lemma_head_7_7()
    ensures
        tag_safe("collapse}t"@),
{
    reveal_strlit("collapse}t");
    reveal_with_fuel(script_scan, 12);
}

proof fn lemma_head_7_8()
    ensures
        tag_safe("h,td{borde"@),
{
    reveal_strlit("h,td{borde");
    reveal_with_fuel(script_scan, 12);
}

proof fn lemma_head_7_9()
    ensures
        tag_safe("r-bottom:1"@),
{
    reveal_strlit("r-bottom:1");
    reveal_with_fuel(script_scan, 12);
}

proof fn lemma_head_7_10()
    ensures
        tag_safe("px solid #"@),
{
    reveal_strlit("px solid #");
    reveal_with_fuel(script_scan, 12);
}

proof fn lemma_head_7_11()
    ensures
        tag_safe("e7edf4;pad"@),
{
    reveal_strlit("e7edf4;pad");
    reveal_with_fuel(script_scan, 12);
}

proof fn lemma_head_7()
    ensures
        tag_safe("px}p{margin:0 0 10px;line-height:1.4}table{width:100%;border-collapse:collapse}th,td{border-bottom:1px solid #e7edf4;pad"@),
{
    broadcast use lemma_safe_concat;

    lemma_head_7_0();
    lemma_head_7_1();
    lemma_head_7_2();
    lemma_head_7_3();
    lemma_head_7_4();
    lemma_head_7_5();
    lemma_head_7_6();
    lemma_head_7_7();
    lemma_head_7_8();
    lemma_head_7_9();
    lemma_head_7_10();
    lemma_head_7_11();
    reveal_strlit("px}p{margin:0 0 10px;line-height:1.4}table{width:100%;border-collapse:collapse}th,td{border-bottom:1px solid #e7edf4;pad");
    reveal_strlit("px}p{margi");
    reveal_strlit("n:0 0 10px");
    reveal_strlit(";line-heig");
    reveal_strlit("ht:1.4}tab");
    reveal_strlit("le{width:1");
    reveal_strlit("00%;border");
    reveal_strlit("-collapse:");
    reveal_strlit("collapse}t");
    reveal_strlit("h,td{borde");
    reveal_strlit("r-bottom:1");
    reveal_strlit("px solid #");
    reveal_strlit("e7edf4;pad");
    assert("px}p{margin:0 0 10px;line-height:1.4}table{width:100%;border-collapse:collapse}th,td{border-bottom:1px solid #e7edf4;pad"@ =~= "px}p{margi"@ + "n:0 0 10px"@ + ";line-heig"@ + "ht:1.4}tab"@ + "le{width:1"@ + "00%;border"@ + "-collapse:"@ + "collapse}t"@ + "h,td{borde"@ + "r-bottom:1"@ + "px solid #"@ + "e7edf4;pad"@);
}

proof fn lemma_head_8_0()
    ensures
        tag_safe("ding:8px;t"@),
{
    reveal_strlit("ding:8px;t");
    reveal_with_fuel(script_scan, 12);
}

proof fn lemma_head_8_1()
    ensures
        tag_safe("ext-align:"@),
{
    reveal_strlit("ext-align:");
    reveal_with_fuel(script_scan, 12);
}

proof fn lemma_head_8_2()
    ensures
        tag_safe("left;verti"@),
{
    reveal_strlit("left;verti");
    reveal_with_fuel(script_scan, 12);
}

proof fn lemma_head_8_3()
    ensures
        tag_safe("cal-align:"@),
{
    reveal_strlit("cal-align:");
    reveal_with_fuel(script_scan, 12);
}

proof fn lemma_head_8_4()
    ensures
        tag_safe("top}th{bac"@),
{
    reveal_strlit("top}th{bac");
    reveal_with_fuel(script_scan, 12);
}

proof fn lemma_head_8_5()
    ensures
        tag_safe("kground:#f"@),
{
    reveal_strlit("kground:#f");
    reveal_with_fuel(script_scan, 12);
}

proof fn lemma_head_8_6()
    ensures
        tag_safe("1f5f9;colo"@),
{
    reveal_strlit("1f5f9;colo");
    reveal_with_fuel(script_scan, 12);
}

proof fn lemma_head_8_7()
    ensures
        tag_safe("r:#26384c;"@),
{
    reveal_strlit("r:#26384c;");
    reveal_with_fuel(script_scan, 12);
}

proof fn lemma_head_8_8()
    ensures
        tag_safe("font-size:"@),
{
    reveal_strlit("font-size:");
    reveal_with_fuel(script_scan, 12);
}

proof fn lemma_head_8_9()
    ensures
        tag_safe(".78rem;tex"@),
{
    reveal_strlit(".78rem;tex");
    reveal_with_fuel(script_scan, 12);
}

proof fn lemma_head_8_10()
    ensures
        tag_safe("t-transfor"@),
{
    reveal_strlit("t-transfor");
    reveal_with_fuel(script_scan, 12);
}

proof fn lemma_head_8_11()
    ensures
        tag_safe("m:uppercas"@),
{
    reveal_strlit("m:uppercas");
    reveal_with_fuel(script_scan, 12);
}

proof fn lemma_head_8()
    ensures
        tag_safe("ding:8px;text-align:left;vertical-align:top}th{background:#f1f5f9;color:#26384c;font-size:.78rem;text-transform:uppercas"@),
{
    broadcast use lemma_safe_concat;

    lemma_head_8_0();
    lemma_head_8_1();
    lemma_head_8_2();
    lemma_head_8_3();
    lemma_head_8_4();
    lemma_head_8_5();
    lemma_head_8_6();
    lemma_head_8_7();
    lemma_head_8_8();
    lemma_head_8_9();
    lemma_head_8_10();
    lemma_head_8_11();
    reveal_strlit("ding:8px;text-align:left;vertical-align:top}th{background:#f1f5f9;color:#26384c;font-size:.78rem;text-transform:uppercas");
    reveal_strlit("ding:8px;t");
    reveal_strlit("ext-align:");
    reveal_strlit("left;verti");
    reveal_strlit("cal-align:");
    reveal_strlit("top}th{bac");
    reveal_strlit("kground:#f");
    reveal_strlit("1f5f9;colo");
    reveal_strlit("r:#26384c;");
    reveal_strlit("font-size:");
    reveal_strlit(".78rem;tex");
    reveal_strlit("t-transfor");
    reveal_strlit("m:uppercas");
    assert("ding:8px;text-align:left;vertical-align:top}th{background:#f1f5f9;color:#26384c;font-size:.78rem;text-transform:uppercas"@ =~= "ding:8px;t"@ + "ext-align:"@ + "left;verti"@ + "cal-align:"@ + "top}th{bac"@ + "kground:#f"@ + "1f5f9;colo"@ + "r:#26384c;"@ + "font-size:"@ + ".78rem;tex"@ + "t-transfor"@ + "m:uppercas"@);
}

proof fn lemma_head_9_0()
    ensures
        tag_safe("e;letter-s"@),
{
    reveal_strlit("e;letter-s");
    reveal_with_fuel(script_scan, 12);
}

proof fn lemma_head_9_1()
    ensures
        tag_safe("pacing:.03"@),
{
    reveal_strlit("pacing:.03");
    reveal_with_fuel(script_scan, 12);
}

proof fn lemma_head_9_2()
    ensures
        tag_safe("em}.summar"@),
{
    reveal_strlit("em}.summar");
    reveal_with_fuel(script_scan, 12);
}

proof fn lemma_head_9_3()
    ensures
        tag_safe("y{display:"@),
{
    reveal_strlit("y{display:");
    reveal_with_fuel(script_scan, 12);
}

proof fn lemma_head_9_4()
    ensures
        tag_safe("grid;grid-"@),
{
    reveal_strlit("grid;grid-");
    reveal_with_fuel(script_scan, 12);
}

proof fn lemma_head_9_5()
    ensures
        tag_safe("template-c"@),
{
    reveal_strlit("template-c");
    reveal_with_fuel(script_scan, 12);
}

proof fn lemma_head_9_6()
    ensures
        tag_safe("olumns:rep"@),
{
    reveal_strlit("olumns:rep");
    reveal_with_fuel(script_scan, 12);
}

proof fn lemma_head_9_7()
    ensures
        tag_safe("eat(5,minm"@),
{
    reveal_strlit("eat(5,minm");
    reveal_with_fuel(script_scan, 12);
}

proof fn lemma_head_9_8()
    ensures
        tag_safe("ax(0,1fr))"@),
{
    reveal_strlit("ax(0,1fr))");
    reveal_with_fuel(script_scan, 12);
}

proof fn lemma_head_9_9()
    ensures
        tag_safe(";gap:12px}"@),
{
    reveal_strlit(";gap:12px}");
    reveal_with_fuel(script_scan, 12);
}

proof fn lemma_head_9_10()
    ensures
        tag_safe(".metric{ba"@),
{
    reveal_strlit(".metric{ba");
    reveal_with_fuel(script_scan, 12);
}

proof fn lemma_head_9_11()
    ensures
        tag_safe("ckground:#"@),
{
    reveal_strlit("ckground:#");
    reveal_with_fuel(script_scan, 12);
}

proof fn lemma_head_9()
    ensures
        tag_safe("e;letter-spacing:.03em}.summary{display:grid;grid-template-columns:repeat(5,minmax(0,1fr));gap:12px}.metric{background:#"@),
{
    broadcast use lemma_safe_concat;

    lemma_head_9_0();
    lemma_head_9_1();
    lemma_head_9_2();
    lemma_head_9_3();
    lemma_head_9_4();
    lemma_head_9_5();
    lemma_head_9_6();
    lemma_head_9_7();
    lemma_head_9_8();
    lemma_head_9_9();
    lemma_head_9_10();
    lemma_head_9_11();
    reveal_strlit("e;letter-spacing:.03em}.summary{display:grid;grid-template-columns:repeat(5,minmax(0,1fr));gap:12px}.metric{background:#");
    reveal_strlit("e;letter-s");
    reveal_strlit("pacing:.03");
    reveal_strlit("em}.summar");
    reveal_strlit("y{display:");
    reveal_strlit("grid;grid-");
    reveal_strlit("template-c");
    reveal_strlit("olumns:rep");
    reveal_strlit("eat(5,minm");
    reveal_strlit("ax(0,1fr))");
    reveal_strlit(";gap:12px}");
    reveal_strlit(".metric{ba");
    reveal_strlit("ckground:#");
    assert("e;letter-spacing:.03em}.summary{display:grid;grid-template-columns:repeat(5,minmax(0,1fr));gap:12px}.metric{background:#"@ =~= "e;letter-s"@ + "pacing:.03"@ + "em}.summar"@ + "y{display:"@ + "grid;grid-"@ + "template-c"@ + "olumns:rep"@ + "eat(5,minm"@ + "ax(0,1fr))"@ + ";gap:12px}"@ + ".metric{ba"@ + "ckground:#"@);
}

proof fn lemma_head_10_0()
    ensures
        tag_safe("f8fafc;bor"@),
{
    reveal_strlit("f8fafc;bor");
    reveal_with_fuel(script_scan, 12);
}

proof fn lemma_head_10_1()
    ensures
        tag_safe("der:1px so"@),
{
    reveal_strlit("der:1px so");
    reveal_with_fuel(script_scan, 12);
}

proof fn lemma_head_10_2()
    ensures
        tag_safe("lid var(--"@),
{
    reveal_strlit("lid var(--");
    reveal_with_fuel(script_scan, 12);
}

proof fn lemma_head_10_3()
    ensures
        tag_safe("line);bord"@),
{
    reveal_strlit("line);bord");
    reveal_with_fuel(script_scan, 12);
}

proof fn lemma_head_10_4()
    ensures
        tag_safe("er-radius:"@),
{
    reveal_strlit("er-radius:");
    reveal_with_fuel(script_scan, 12);
}

proof fn lemma_head_10_5()
    ensures
        tag_safe("8px;paddin"@),
{
    reveal_strlit("8px;paddin");
    reveal_with_fuel(script_scan, 12);
}

proof fn lemma_head_10_6()
    ensures
        tag_safe("g:12px}.me"@),
{
    reveal_strlit("g:12px}.me");
    reveal_with_fuel(script_scan, 12);
}

proof fn lemma_head_10_7()
    ensures
        tag_safe("tric stron"@),
{
    reveal_strlit("tric stron");
    reveal_with_fuel(script_scan, 12);
}

proof fn lemma_head_10_8()
    ensures
        tag_safe("g{display:"@),
{
    reveal_strlit("g{display:");
    reveal_with_fuel(script_scan, 12);
}

proof fn lemma_head_10_9()
    ensures
        tag_safe("block;font"@),
{
    reveal_strlit("block;font");
    reveal_with_fuel(script_scan, 12);
}

proof fn lemma_head_10_10()
    ensures
        tag_safe("-size:1.55"@),
{
    reveal_strlit("-size:1.55");
    reveal_with_fuel(script_scan, 12);
}

proof fn lemma_head_10_11()
    ensures
        tag_safe("rem}.metri"@),
{
    reveal_strlit("rem}.metri");
    reveal_with_fuel(script_scan, 12);
}

proof fn lemma_head_10()
    ensures
        tag_safe("f8fafc;border:1px solid var(--line);border-radius:8px;padding:12px}.metric strong{display:block;font-size:1.55rem}.metri"@),
{
    broadcast use lemma_safe_concat;

    lemma_head_10_0();
    lemma_head_10_1();
    lemma_head_10_2();
    lemma_head_10_3();
    lemma_head_10_4();
    lemma_head_10_5();
    lemma_head_10_6();
    lemma_head_10_7();
    lemma_head_10_8();
    lemma_head_10_9();
    lemma_head_10_10();
    lemma_head_10_11();
    reveal_strlit("f8fafc;border:1px solid var(--line);border-radius:8px;padding:12px}.metric strong{display:block;font-size:1.55rem}.metri");
    reveal_strlit("f8fafc;bor");
    reveal_strlit("der:1px so");
    reveal_strlit("lid var(--");
    reveal_strlit("line);bord");
    reveal_strlit("er-radius:");
    reveal_strlit("8px;paddin");
    reveal_strlit("g:12px}.me");
    reveal_strlit("tric stron");
    reveal_strlit("g{display:");
    reveal_strlit("block;font");
    reveal_strlit("-size:1.55");
    reveal_strlit("rem}.metri");
    assert("f8fafc;border:1px solid var(--line);border-radius:8px;padding:12px}.metric strong{display:block;font-size:1.55rem}.metri"@ =~= "f8fafc;bor"@ + "der:1px so"@ + "lid var(--"@ + "line);bord"@ + "er-radius:"@ + "8px;paddin"@ + "g:12px}.me"@ + "tric stron"@ + "g{display:"@ + "block;font"@ + "-size:1.55"@ + "rem}.metri"@);
}

proof fn lemma_head_11_0()
    ensures
        tag_safe("c span{col"@),
{
    reveal_strlit("c span{col");
    reveal_with_fuel(script_scan, 12);
}

proof fn lemma_head_11_1()
    ensures
        tag_safe("or:var(--m"@),
{
    reveal_strlit("or:var(--m");
    reveal_with_fuel(script_scan, 12);
}

proof fn lemma_head_11_2()
    ensures
        tag_safe("uted)}.sta"@),
{
    reveal_strlit("uted)}.sta");
    reveal_with_fuel(script_scan, 12);
}

proof fn lemma_head_11_3()
    ensures
        tag_safe("tus-grid{d"@),
{
    reveal_strlit("tus-grid{d");
    reveal_with_fuel(script_scan, 12);
}

proof fn lemma_head_11_4()
    ensures
        tag_safe("isplay:gri"@),
{
    reveal_strlit("isplay:gri");
    reveal_with_fuel(script_scan, 12);
}

proof fn lemma_head_11_5()
    ensures
        tag_safe("d;grid-tem"@),
{
    reveal_strlit("d;grid-tem");
    reveal_with_fuel(script_scan, 12);
}

proof fn lemma_head_11_6()
    ensures
        tag_safe("plate-colu"@),
{
    reveal_strlit("plate-colu");
    reveal_with_fuel(script_scan, 12);
}

proof fn lemma_head_11_7()
    ensures
        tag_safe("mns:repeat"@),
{
    reveal_strlit("mns:repeat");
    reveal_with_fuel(script_scan, 12);
}

proof fn lemma_head_11_8()
    ensures
        tag_safe("(auto-fit,"@),
{
    reveal_strlit("(auto-fit,");
    reveal_with_fuel(script_scan, 12);
}

proof fn lemma_head_11_9()
    ensures
        tag_safe("minmax(190"@),
{
    reveal_strlit("minmax(190");
    reveal_with_fuel(script_scan, 12);
}

proof fn lemma_head_11_10()
    ensures
        tag_safe("px,1fr));g"@),
{
    reveal_strlit("px,1fr));g");
    reveal_with_fuel(script_scan, 12);
}

proof fn lemma_head_11_11()
    ensures
        tag_safe("ap:10px}.s"@),
{
    reveal_strlit("ap:10px}.s");
    reveal_with_fuel(script_scan, 12);
}

proof fn lemma_head_11()
    ensures
        tag_safe("c span{color:var(--muted)}.status-grid{display:grid;grid-template-columns:repeat(auto-fit,minmax(190px,1fr));gap:10px}.s"@),
{
    broadcast use lemma_safe_concat;

    lemma_head_11_0();
    lemma_head_11_1();
    lemma_head_11_2();
    lemma_head_11_3();
    lemma_head_11_4();
    lemma_head_11_5();
    lemma_head_11_6();
    lemma_head_11_7();
    lemma_head_11_8();
    lemma_head_11_9();
    lemma_head_11_10();
    lemma_head_11_11();
    reveal_strlit("c span{color:var(--muted)}.status-grid{display:grid;grid-template-columns:repeat(auto-fit,minmax(190px,1fr));gap:10px}.s");
    reveal_strlit("c span{col");
    reveal_strlit("or:var(--m");
    reveal_strlit("uted)}.sta");
    reveal_strlit("tus-grid{d");
    reveal_strlit("isplay:gri");
    reveal_strlit("d;grid-tem");
    reveal_strlit("plate-colu");
    reveal_strlit("mns:repeat");
    reveal_strlit("(auto-fit,");
    reveal_strlit("minmax(190");
    reveal_strlit("px,1fr));g");
    reveal_strlit("ap:10px}.s");
    assert("c span{color:var(--muted)}.status-grid{display:grid;grid-template-columns:repeat(auto-fit,minmax(190px,1fr));gap:10px}.s"@ =~= "c span{col"@ + "or:var(--m"@ + "uted)}.sta"@ + "tus-grid{d"@ + "isplay:gri"@ + "d;grid-tem"@ + "plate-colu"@ + "mns:repeat"@ + "(auto-fit,"@ + "minmax(190"@ + "px,1fr));g"@ + "ap:10px}.s"@);
}

proof fn lemma_head_12_0()
    ensures
        tag_safe("tatus-card"@),
{
    reveal_strlit("tatus-card");
    reveal_with_fuel(script_scan, 12);
}

proof fn lemma_head_12_1()
    ensures
        tag_safe("{border:1p"@),
{
    reveal_strlit("{border:1p");
    reveal_with_fuel(script_scan, 12);
}

proof fn lemma_head_12_2()
    ensures
        tag_safe("x solid va"@),
{
    reveal_strlit("x solid va");
    reveal_with_fuel(script_scan, 12);
}

proof fn lemma_head_12_3()
    ensures
        tag_safe("r(--line);"@),
{
    reveal_strlit("r(--line);");
    reveal_with_fuel(script_scan, 12);
}

proof fn lemma_head_12_4()
    ensures
        tag_safe("border-rad"@),
{
    reveal_strlit("border-rad");
    reveal_with_fuel(script_scan, 12);
}

proof fn lemma_head_12_5()
    ensures
        tag_safe("ius:8px;pa"@),
{
    reveal_strlit("ius:8px;pa");
    reveal_with_fuel(script_scan, 12);
}

proof fn lemma_head_12_6()
    ensures
        tag_safe("dding:12px"@),
{
    reveal_strlit("dding:12px");
    reveal_with_fuel(script_scan, 12);
}

proof fn lemma_head_12_7()
    ensures
        tag_safe(";backgroun"@),
{
    reveal_strlit(";backgroun");
    reveal_with_fuel(script_scan, 12);
}

proof fn lemma_head_12_8()
    ensures
        tag_safe("d:#fbfdff}"@),
{
    reveal_strlit("d:#fbfdff}");
    reveal_with_fuel(script_scan, 12);
}

proof fn lemma_head_12_9()
    ensures
        tag_safe(".status-ca"@),
{
    reveal_strlit(".status-ca");
    reveal_with_fuel(script_scan, 12);
}

proof fn lemma_head_12_10()
    ensures
        tag_safe("rd strong{"@),
{
    reveal_strlit("rd strong{");
    reveal_with_fuel(script_scan, 12);
}

proof fn lemma_head_12_11()
    ensures
        tag_safe("display:bl"@),
{
    reveal_strlit("display:bl");
    reveal_with_fuel(script_scan, 12);
}

proof fn lemma_head_12()
    ensures
        tag_safe("tatus-card{border:1px solid var(--line);border-radius:8px;padding:12px;background:#fbfdff}.status-card strong{display:bl"@),
{
    broadcast use lemma_safe_concat;

    lemma_head_12_0();
    lemma_head_12_1();
    lemma_head_12_2();
    lemma_head_12_3();
    lemma_head_12_4();
    lemma_head_12_5();
    lemma_head_12_6();
    lemma_head_12_7();
    lemma_head_12_8();
    lemma_head_12_9();
    lemma_head_12_10();
    lemma_head_12_11();
    reveal_strlit("tatus-card{border:1px solid var(--line);border-radius:8px;padding:12px;background:#fbfdff}.status-card strong{display:bl");
    reveal_strlit("tatus-card");
    reveal_strlit("{border:1p");
    reveal_strlit("x solid va");
    reveal_strlit("r(--line);");
    reveal_strlit("border-rad");
    reveal_strlit("ius:8px;pa");
    reveal_strlit("dding:12px");
    reveal_strlit(";backgroun");
    reveal_strlit("d:#fbfdff}");
    reveal_strlit(".status-ca");
    reveal_strlit("rd strong{");
    reveal_strlit("display:bl");
    assert("tatus-card{border:1px solid var(--line);border-radius:8px;padding:12px;background:#fbfdff}.status-card strong{display:bl"@ =~= "tatus-card"@ + "{border:1p"@ + "x solid va"@ + "r(--line);"@ + "border-rad"@ + "ius:8px;pa"@ + "dding:12px"@ + ";backgroun"@ + "d:#fbfdff}"@ + ".status-ca"@ + "rd strong{"@ + "display:bl"@);
}

proof fn lemma_head_13_0()
    ensures
        tag_safe("ock;margin"@),
{
    reveal_strlit("ock;margin");
    reveal_with_fuel(script_scan, 12);
}

proof fn lemma_head_13_1()
    ensures
        tag_safe("-bottom:6p"@),
{
    reveal_strlit("-bottom:6p");
    reveal_with_fuel(script_scan, 12);
}

proof fn lemma_head_13_2()
    ensures
        tag_safe("x}.alert-c"@),
{
    reveal_strlit("x}.alert-c");
    reveal_with_fuel(script_scan, 12);
}

proof fn lemma_head_13_3()
    ensures
        tag_safe("ard{border"@),
{
    reveal_strlit("ard{border");
    reveal_with_fuel(script_scan, 12);
}

proof fn lemma_head_13_4()
    ensures
        tag_safe(":1px solid"@),
{
    reveal_strlit(":1px solid");
    reveal_with_fuel(script_scan, 12);
}

proof fn lemma_head_13_5()
    ensures
        tag_safe(" var(--lin"@),
{
    reveal_strlit(" var(--lin");
    reveal_with_fuel(script_scan, 12);
}

proof fn lemma_head_13_6()
    ensures
        tag_safe("e);border-"@),
{
    reveal_strlit("e);border-");
    reveal_with_fuel(script_scan, 12);
}

proof fn lemma_head_13_7()
    ensures
        tag_safe("radius:8px"@),
{
    reveal_strlit("radius:8px");
    reveal_with_fuel(script_scan, 12);
}

proof fn lemma_head_13_8()
    ensures
        tag_safe(";backgroun"@),
{
    reveal_strlit(";backgroun");
    reveal_with_fuel(script_scan, 12);
}

proof fn lemma_head_13_9()
    ensures
        tag_safe("d:#fff;mar"@),
{
    reveal_strlit("d:#fff;mar");
    reveal_with_fuel(script_scan, 12);
}

proof fn lemma_head_13_10()
    ensures
        tag_safe("gin:0 0 14"@),
{
    reveal_strlit("gin:0 0 14");
    reveal_with_fuel(script_scan, 12);
}

proof fn lemma_head_13_11()
    ensures
        tag_safe("px;overflo"@),
{
    reveal_strlit("px;overflo");
    reveal_with_fuel(script_scan, 12);
}

proof fn lemma_head_13()
    ensures
        tag_safe("ock;margin-bottom:6px}.alert-card{border:1px solid var(--line);border-radius:8px;background:#fff;margin:0 0 14px;overflo"@),
{
    broadcast use lemma_safe_concat;

    lemma_head_13_0();
    lemma_head_13_1();
    lemma_head_13_2();
    lemma_head_13_3();
    lemma_head_13_4();
    lemma_head_13_5();
    lemma_head_13_6();
    lemma_head_13_7();
    lemma_head_13_8();
    lemma_head_13_9();
    lemma_head_13_10();
    lemma_head_13_11();
    reveal_strlit("ock;margin-bottom:6px}.alert-card{border:1px solid var(--line);border-radius:8px;background:#fff;margin:0 0 14px;overflo");
    reveal_strlit("ock;margin");
    reveal_strlit("-bottom:6p");
    reveal_strlit("x}.alert-c");
    reveal_strlit("ard{border");
    reveal_strlit(":1px solid");
    reveal_strlit(" var(--lin");
    reveal_strlit("e);border-");
    reveal_strlit("radius:8px");
    reveal_strlit(";backgroun");
    reveal_strlit("d:#fff;mar");
    reveal_strlit("gin:0 0 14");
    reveal_strlit("px;overflo");
    assert("ock;margin-bottom:6px}.alert-card{border:1px solid var(--line);border-radius:8px;background:#fff;margin:0 0 14px;overflo"@ =~= "ock;margin"@ + "-bottom:6p"@ + "x}.alert-c"@ + "ard{border"@ + ":1px solid"@ + " var(--lin"@ + "e);border-"@ + "radius:8px"@ + ";backgroun"@ + "d:#fff;mar"@ + "gin:0 0 14"@ + "px;overflo"@);
}

proof fn lemma_head_14_0()
    ensures
        tag_safe("w:hidden}."@),
{
    reveal_strlit("w:hidden}.");
    reveal_with_fuel(script_scan, 12);
}

proof fn lemma_head_14_1()
    ensures
        tag_safe("alert-head"@),
{
    reveal_strlit("alert-head");
    reveal_with_fuel(script_scan, 12);
}

proof fn lemma_head_14_2()
    ensures
        tag_safe("{display:f"@),
{
    reveal_strlit("{display:f");
    reveal_with_fuel(script_scan, 12);
}

proof fn lemma_head_14_3()
    ensures
        tag_safe("lex;gap:10"@),
{
    reveal_strlit("lex;gap:10");
    reveal_with_fuel(script_scan, 12);
}

proof fn lemma_head_14_4()
    ensures
        tag_safe("px;justify"@),
{
    reveal_strlit("px;justify");
    reveal_with_fuel(script_scan, 12);
}

proof fn lemma_head_14_5()
    ensures
        tag_safe("-content:s"@),
{
    reveal_strlit("-content:s");
    reveal_with_fuel(script_scan, 12);
}

proof fn lemma_head_14_6()
    ensures
        tag_safe("pace-betwe"@),
{
    reveal_strlit("pace-betwe");
    reveal_with_fuel(script_scan, 12);
}

proof fn lemma_head_14_7()
    ensures
        tag_safe("en;align-i"@),
{
    reveal_strlit("en;align-i");
    reveal_with_fuel(script_scan, 12);
}

proof fn lemma_head_14_8()
    ensures
        tag_safe("tems:flex-"@),
{
    reveal_strlit("tems:flex-");
    reveal_with_fuel(script_scan, 12);
}

proof fn lemma_head_14_9()
    ensures
        tag_safe("start;back"@),
{
    reveal_strlit("start;back");
    reveal_with_fuel(script_scan, 12);
}

proof fn lemma_head_14_10()
    ensures
        tag_safe("ground:#f8"@),
{
    reveal_strlit("ground:#f8");
    reveal_with_fuel(script_scan, 12);
}

proof fn lemma_head_14_11()
    ensures
        tag_safe("fafc;borde"@),
{
    reveal_strlit("fafc;borde");
    reveal_with_fuel(script_scan, 12);
}

proof fn lemma_head_14()
    ensures
        tag_safe("w:hidden}.alert-head{display:flex;gap:10px;justify-content:space-between;align-items:flex-start;background:#f8fafc;borde"@),
{
    broadcast use lemma_safe_concat;

    lemma_head_14_0();
    lemma_head_14_1();
    lemma_head_14_2();
    lemma_head_14_3();
    lemma_head_14_4();
    lemma_head_14_5();
    lemma_head_14_6();
    lemma_head_14_7();
    lemma_head_14_8();
    lemma_head_14_9();
    lemma_head_14_10();
    lemma_head_14_11();
    reveal_strlit("w:hidden}.alert-head{display:flex;gap:10px;justify-content:space-between;align-items:flex-start;background:#f8fafc;borde");
    reveal_strlit("w:hidden}.");
    reveal_strlit("alert-head");
    reveal_strlit("{display:f");
    reveal_strlit("lex;gap:10");
    reveal_strlit("px;justify");
    reveal_strlit("-content:s");
    reveal_strlit("pace-betwe");
    reveal_strlit("en;align-i");
    reveal_strlit("tems:flex-");
    reveal_strlit("start;back");
    reveal_strlit("ground:#f8");
    reveal_strlit("fafc;borde");
    assert("w:hidden}.alert-head{display:flex;gap:10px;justify-content:space-between;align-items:flex-start;background:#f8fafc;borde"@ =~= "w:hidden}."@ + "alert-head"@ + "{display:f"@ + "lex;gap:10"@ + "px;justify"@ + "-content:s"@ + "pace-betwe"@ + "en;align-i"@ + "tems:flex-"@ + "start;back"@ + "ground:#f8"@ + "fafc;borde"@);
}

proof fn lemma_head_15_0()
    ensures
        tag_safe("r-bottom:1"@),
{
    reveal_strlit("r-bottom:1");
    reveal_with_fuel(script_scan, 12);
}

proof fn lemma_head_15_1()
    ensures
        tag_safe("px solid v"@),
{
    reveal_strlit("px solid v");
    reveal_with_fuel(script_scan, 12);
}

proof fn lemma_head_15_2()
    ensures
        tag_safe("ar(--line)"@),
{
    reveal_strlit("ar(--line)");
    reveal_with_fuel(script_scan, 12);
}

proof fn lemma_head_15_3()
    ensures
        tag_safe(";padding:1"@),
{
    reveal_strlit(";padding:1");
    reveal_with_fuel(script_scan, 12);
}

proof fn lemma_head_15_4()
    ensures
        tag_safe("2px}.alert"@),
{
    reveal_strlit("2px}.alert");
    reveal_with_fuel(script_scan, 12);
}

proof fn lemma_head_15_5()
    ensures
        tag_safe("-title{fon"@),
{
    reveal_strlit("-title{fon");
    reveal_with_fuel(script_scan, 12);
}

proof fn lemma_head_15_6()
    ensures
        tag_safe("t-size:1.0"@),
{
    reveal_strlit("t-size:1.0");
    reveal_with_fuel(script_scan, 12);
}

proof fn lemma_head_15_7()
    ensures
        tag_safe("5rem;font-"@),
{
    reveal_strlit("5rem;font-");
    reveal_with_fuel(script_scan, 12);
}

proof fn lemma_head_15_8()
    ensures
        tag_safe("weight:bol"@),
{
    reveal_strlit("weight:bol");
    reveal_with_fuel(script_scan, 12);
}

proof fn lemma_head_15_9()
    ensures
        tag_safe("d}.alert-m"@),
{
    reveal_strlit("d}.alert-m");
    reveal_with_fuel(script_scan, 12);
}

proof fn lemma_head_15_10()
    ensures
        tag_safe("eta{color:"@),
{
    reveal_strlit("eta{color:");
    reveal_with_fuel(script_scan, 12);
}

proof fn lemma_head_15_11()
    ensures
        tag_safe("var(--mute"@),
{
    reveal_strlit("var(--mute");
    reveal_with_fuel(script_scan, 12);
}

proof fn lemma_head_15()
    ensures
        tag_safe("r-bottom:1px solid var(--line);padding:12px}.alert-title{font-size:1.05rem;font-weight:bold}.alert-meta{color:var(--mute"@),
{
    broadcast use lemma_safe_concat;

    lemma_head_15_0();
    lemma_head_15_1();
    lemma_head_15_2();
    lemma_head_15_3();
    lemma_head_15_4();
    lemma_head_15_5();
    lemma_head_15_6();
    lemma_head_15_7();
    lemma_head_15_8();
    lemma_head_15_9();
    lemma_head_15_10();
    lemma_head_15_11();
    reveal_strlit("r-bottom:1px solid var(--line);padding:12px}.alert-title{font-size:1.05rem;font-weight:bold}.alert-meta{color:var(--mute");
    reveal_strlit("r-bottom:1");
    reveal_strlit("px solid v");
    reveal_strlit("ar(--line)");
    reveal_strlit(";padding:1");
    reveal_strlit("2px}.alert");
    reveal_strlit("-title{fon");
    reveal_strlit("t-size:1.0");
    reveal_strlit("5rem;font-");
    reveal_strlit("weight:bol");
    reveal_strlit("d}.alert-m");
    reveal_strlit("eta{color:");
    reveal_strlit("var(--mute");
    assert("r-bottom:1px solid var(--line);padding:12px}.alert-title{font-size:1.05rem;font-weight:bold}.alert-meta{color:var(--mute"@ =~= "r-bottom:1"@ + "px solid v"@ + "ar(--line)"@ + ";padding:1"@ + "2px}.alert"@ + "-title{fon"@ + "t-size:1.0"@ + "5rem;font-"@ + "weight:bol"@ + "d}.alert-m"@ + "eta{color:"@ + "var(--mute"@);
}

proof fn lemma_head_16_0()
    ensures
        tag_safe("d);font-si"@),
{
    reveal_strlit("d);font-si");
    reveal_with_fuel(script_scan, 12);
}

proof fn lemma_head_16_1()
    ensures
        tag_safe("ze:.9rem}."@),
{
    reveal_strlit("ze:.9rem}.");
    reveal_with_fuel(script_scan, 12);
}

proof fn lemma_head_16_2()
    ensures
        tag_safe("alert-body"@),
{
    reveal_strlit("alert-body");
    reveal_with_fuel(script_scan, 12);
}

proof fn lemma_head_16_3()
    ensures
        tag_safe("{padding:1"@),
{
    reveal_strlit("{padding:1");
    reveal_with_fuel(script_scan, 12);
}

proof fn lemma_head_16_4()
    ensures
        tag_safe("2px}.messa"@),
{
    reveal_strlit("2px}.messa");
    reveal_with_fuel(script_scan, 12);
}

proof fn lemma_head_16_5()
    ensures
        tag_safe("ge{white-s"@),
{
    reveal_strlit("ge{white-s");
    reveal_with_fuel(script_scan, 12);
}

proof fn lemma_head_16_6()
    ensures
        tag_safe("pace:pre-w"@),
{
    reveal_strlit("pace:pre-w");
    reveal_with_fuel(script_scan, 12);
}

proof fn lemma_head_16_7()
    ensures
        tag_safe("rap;backgr"@),
{
    reveal_strlit("rap;backgr");
    reveal_with_fuel(script_scan, 12);
}

proof fn lemma_head_16_8()
    ensures
        tag_safe("ound:#f8fa"@),
{
    reveal_strlit("ound:#f8fa");
    reveal_with_fuel(script_scan, 12);
}

proof fn lemma_head_16_9()
    ensures
        tag_safe("fc;border:"@),
{
    reveal_strlit("fc;border:");
    reveal_with_fuel(script_scan, 12);
}

proof fn lemma_head_16_10()
    ensures
        tag_safe("1px solid "@),
{
    reveal_strlit("1px solid ");
    reveal_with_fuel(script_scan, 12);
}

proof fn lemma_head_16_11()
    ensures
        tag_safe("var(--line"@),
{
    reveal_strlit("var(--line");
    reveal_with_fuel(script_scan, 12);
}

proof fn lemma_head_16()
    ensures
        tag_safe("d);font-size:.9rem}.alert-body{padding:12px}.message{white-space:pre-wrap;background:#f8fafc;border:1px solid var(--line"@),
{
    broadcast use lemma_safe_concat;

    lemma_head_16_0();
    lemma_head_16_1();
    lemma_head_16_2();
    lemma_head_16_3();
    lemma_head_16_4();
    lemma_head_16_5();
    lemma_head_16_6();
    lemma_head_16_7();
    lemma_head_16_8();
    lemma_head_16_9();
    lemma_head_16_10();
    lemma_head_16_11();
    reveal_strlit("d);font-size:.9rem}.alert-body{padding:12px}.message{white-space:pre-wrap;background:#f8fafc;border:1px solid var(--line");
    reveal_strlit("d);font-si");
    reveal_strlit("ze:.9rem}.");
    reveal_strlit("alert-body");
    reveal_strlit("{padding:1");
    reveal_strlit("2px}.messa");
    reveal_strlit("ge{white-s");
    reveal_strlit("pace:pre-w");
    reveal_strlit("rap;backgr");
    reveal_strlit("ound:#f8fa");
    reveal_strlit("fc;border:");
    reveal_strlit("1px solid ");
    reveal_strlit("var(--line");
    assert("d);font-size:.9rem}.alert-body{padding:12px}.message{white-space:pre-wrap;background:#f8fafc;border:1px solid var(--line"@ =~= "d);font-si"@ + "ze:.9rem}."@ + "alert-body"@ + "{padding:1"@ + "2px}.messa"@ + "ge{white-s"@ + "pace:pre-w"@ + "rap;backgr"@ + "ound:#f8fa"@ + "fc;border:"@ + "1px solid "@ + "var(--line"@);
}

proof fn lemma_head_17_0()
    ensures
        tag_safe(");border-r"@),
{
    reveal_strlit(");border-r");
    reveal_with_fuel(script_scan, 12);
}

proof fn lemma_head_17_1()
    ensures
        tag_safe("adius:6px;"@),
{
    reveal_strlit("adius:6px;");
    reveal_with_fuel(script_scan, 12);
}

proof fn lemma_head_17_2()
    ensures
        tag_safe("padding:10"@),
{
    reveal_strlit("padding:10");
    reveal_with_fuel(script_scan, 12);
}

proof fn lemma_head_17_3()
    ensures
        tag_safe("px}.pill{d"@),
{
    reveal_strlit("px}.pill{d");
    reveal_with_fuel(script_scan, 12);
}

proof fn lemma_head_17_4()
    ensures
        tag_safe("isplay:inl"@),
{
    reveal_strlit("isplay:inl");
    reveal_with_fuel(script_scan, 12);
}

proof fn lemma_head_17_5()
    ensures
        tag_safe("ine-block;"@),
{
    reveal_strlit("ine-block;");
    reveal_with_fuel(script_scan, 12);
}

proof fn lemma_head_17_6()
    ensures
        tag_safe("border-rad"@),
{
    reveal_strlit("border-rad");
    reveal_with_fuel(script_scan, 12);
}

proof fn lemma_head_17_7()
    ensures
        tag_safe("ius:999px;"@),
{
    reveal_strlit("ius:999px;");
    reveal_with_fuel(script_scan, 12);
}

proof fn lemma_head_17_8()
    ensures
        tag_safe("padding:3p"@),
{
    reveal_strlit("padding:3p");
    reveal_with_fuel(script_scan, 12);
}

proof fn lemma_head_17_9()
    ensures
        tag_safe("x 9px;back"@),
{
    reveal_strlit("x 9px;back");
    reveal_with_fuel(script_scan, 12);
}

proof fn lemma_head_17_10()
    ensures
        tag_safe("ground:var"@),
{
    reveal_strlit("ground:var");
    reveal_with_fuel(script_scan, 12);
}

proof fn lemma_head_17_11()
    ensures
        tag_safe("(--chip);f"@),
{
    reveal_strlit("(--chip);f");
    reveal_with_fuel(script_scan, 12);
}

proof fn lemma_head_17()
    ensures
        tag_safe(");border-radius:6px;padding:10px}.pill{display:inline-block;border-radius:999px;padding:3px 9px;background:var(--chip);f"@),
{
    broadcast use lemma_safe_concat;

    lemma_head_17_0();
    lemma_head_17_1();
    lemma_head_17_2();
    lemma_head_17_3();
    lemma_head_17_4();
    lemma_head_17_5();
    lemma_head_17_6();
    lemma_head_17_7();
    lemma_head_17_8();
    lemma_head_17_9();
    lemma_head_17_10();
    lemma_head_17_11();
    reveal_strlit(");border-radius:6px;padding:10px}.pill{display:inline-block;border-radius:999px;padding:3px 9px;background:var(--chip);f");
    reveal_strlit(");border-r");
    reveal_strlit("adius:6px;");
    reveal_strlit("padding:10");
    reveal_strlit("px}.pill{d");
    reveal_strlit("isplay:inl");
    reveal_strlit("ine-block;");
    reveal_strlit("border-rad");
    reveal_strlit("ius:999px;");
    reveal_strlit("padding:3p");
    reveal_strlit("x 9px;back");
    reveal_strlit("ground:var");
    reveal_strlit("(--chip);f");
    assert(");border-radius:6px;padding:10px}.pill{display:inline-block;border-radius:999px;padding:3px 9px;background:var(--chip);f"@ =~= ");border-r"@ + "adius:6px;"@ + "padding:10"@ + "px}.pill{d"@ + "isplay:inl"@ + "ine-block;"@ + "border-rad"@ + "ius:999px;"@ + "padding:3p"@ + "x 9px;back"@ + "ground:var"@ + "(--chip);f"@);
}

proof fn lemma_head_18_0()
    ensures
        tag_safe("ont-size:."@),
{
    reveal_strlit("ont-size:.");
    reveal_with_fuel(script_scan, 12);
}

proof fn lemma_head_18_1()
    ensures
        tag_safe("82rem;font"@),
{
    reveal_strlit("82rem;font");
    reveal_with_fuel(script_scan, 12);
}

proof fn lemma_head_18_2()
    ensures
        tag_safe("-weight:bo"@),
{
    reveal_strlit("-weight:bo");
    reveal_with_fuel(script_scan, 12);
}

proof fn lemma_head_18_3()
    ensures
        tag_safe("ld}.ok{col"@),
{
    reveal_strlit("ld}.ok{col");
    reveal_with_fuel(script_scan, 12);
}

proof fn lemma_head_18_4()
    ensures
        tag_safe("or:var(--o"@),
{
    reveal_strlit("or:var(--o");
    reveal_with_fuel(script_scan, 12);
}

proof fn lemma_head_18_5()
    ensures
        tag_safe("k);font-we"@),
{
    reveal_strlit("k);font-we");
    reveal_with_fuel(script_scan, 12);
}

proof fn lemma_head_18_6()
    ensures
        tag_safe("ight:bold}"@),
{
    reveal_strlit("ight:bold}");
    reveal_with_fuel(script_scan, 12);
}

proof fn lemma_head_18_7()
    ensures
        tag_safe(".bad{color"@),
{
    reveal_strlit(".bad{color");
    reveal_with_fuel(script_scan, 12);
}

proof fn lemma_head_18_8()
    ensures
        tag_safe(":var(--bad"@),
{
    reveal_strlit(":var(--bad");
    reveal_with_fuel(script_scan, 12);
}

proof fn lemma_head_18_9()
    ensures
        tag_safe(");font-wei"@),
{
    reveal_strlit(");font-wei");
    reveal_with_fuel(script_scan, 12);
}

proof fn lemma_head_18_10()
    ensures
        tag_safe("ght:bold}."@),
{
    reveal_strlit("ght:bold}.");
    reveal_with_fuel(script_scan, 12);
}

proof fn lemma_head_18_11()
    ensures
        tag_safe("warn{color"@),
{
    reveal_strlit("warn{color");
    reveal_with_fuel(script_scan, 12);
}

proof fn lemma_head_18()
    ensures
        tag_safe("ont-size:.82rem;font-weight:bold}.ok{color:var(--ok);font-weight:bold}.bad{color:var(--bad);font-weight:bold}.warn{color"@),
{
    broadcast use lemma_safe_concat;

    lemma_head_18_0();
    lemma_head_18_1();
    lemma_head_18_2();
    lemma_head_18_3();
    lemma_head_18_4();
    lemma_head_18_5();
    lemma_head_18_6();
    lemma_head_18_7();
    lemma_head_18_8();
    lemma_head_18_9();
    lemma_head_18_10();
    lemma_head_18_11();
    reveal_strlit("ont-size:.82rem;font-weight:bold}.ok{color:var(--ok);font-weight:bold}.bad{color:var(--bad);font-weight:bold}.warn{color");
    reveal_strlit("ont-size:.");
    reveal_strlit("82rem;font");
    reveal_strlit("-weight:bo");
    reveal_strlit("ld}.ok{col");
    reveal_strlit("or:var(--o");
    reveal_strlit("k);font-we");
    reveal_strlit("ight:bold}");
    reveal_strlit(".bad{color");
    reveal_strlit(":var(--bad");
    reveal_strlit(");font-wei");
    reveal_strlit("ght:bold}.");
    reveal_strlit("warn{color");
    assert("ont-size:.82rem;font-weight:bold}.ok{color:var(--ok);font-weight:bold}.bad{color:var(--bad);font-weight:bold}.warn{color"@ =~= "ont-size:."@ + "82rem;font"@ + "-weight:bo"@ + "ld}.ok{col"@ + "or:var(--o"@ + "k);font-we"@ + "ight:bold}"@ + ".bad{color"@ + ":var(--bad"@ + ");font-wei"@ + "ght:bold}."@ + "warn{color"@);
}

proof fn lemma_head_19_0()
    ensures
        tag_safe(":var(--war"@),
{
    reveal_strlit(":var(--war");
    reveal_with_fuel(script_scan, 12);
}

proof fn lemma_head_19_1()
    ensures
        tag_safe("n);font-we"@),
{
    reveal_strlit("n);font-we");
    reveal_with_fuel(script_scan, 12);
}

proof fn lemma_head_19_2()
    ensures
        tag_safe("ight:bold}"@),
{
    reveal_strlit("ight:bold}");
    reveal_with_fuel(script_scan, 12);
}

proof fn lemma_head_19_3()
    ensures
        tag_safe(".muted{col"@),
{
    reveal_strlit(".muted{col");
    reveal_with_fuel(script_scan, 12);
}

proof fn lemma_head_19_4()
    ensures
        tag_safe("or:var(--m"@),
{
    reveal_strlit("or:var(--m");
    reveal_with_fuel(script_scan, 12);
}

proof fn lemma_head_19_5()
    ensures
        tag_safe("uted)}.err"@),
{
    reveal_strlit("uted)}.err");
    reveal_with_fuel(script_scan, 12);
}

proof fn lemma_head_19_6()
    ensures
        tag_safe("or{border-"@),
{
    reveal_strlit("or{border-");
    reveal_with_fuel(script_scan, 12);
}

proof fn lemma_head_19_7()
    ensures
        tag_safe("color:#ffb"@),
{
    reveal_strlit("color:#ffb");
    reveal_with_fuel(script_scan, 12);
}

proof fn lemma_head_19_8()
    ensures
        tag_safe("4ab;backgr"@),
{
    reveal_strlit("4ab;backgr");
    reveal_with_fuel(script_scan, 12);
}

proof fn lemma_head_19_9()
    ensures
        tag_safe("ound:#fff7"@),
{
    reveal_strlit("ound:#fff7");
    reveal_with_fuel(script_scan, 12);
}

proof fn lemma_head_19_10()
    ensures
        tag_safe("f5}.health"@),
{
    reveal_strlit("f5}.health");
    reveal_with_fuel(script_scan, 12);
}

proof fn lemma_head_19_11()
    ensures
        tag_safe("-list{disp"@),
{
    reveal_strlit("-list{disp");
    reveal_with_fuel(script_scan, 12);
}

proof fn lemma_head_19()
    ensures
        tag_safe(":var(--warn);font-weight:bold}.muted{color:var(--muted)}.error{border-color:#ffb4ab;background:#fff7f5}.health-list{disp"@),
{
    broadcast use lemma_safe_concat;

    lemma_head_19_0();
    lemma_head_19_1();
    lemma_head_19_2();
    lemma_head_19_3();
    lemma_head_19_4();
    lemma_head_19_5();
    lemma_head_19_6();
    lemma_head_19_7();
    lemma_head_19_8();
    lemma_head_19_9();
    lemma_head_19_10();
    lemma_head_19_11();
    reveal_strlit(":var(--warn);font-weight:bold}.muted{color:var(--muted)}.error{border-color:#ffb4ab;background:#fff7f5}.health-list{disp");
    reveal_strlit(":var(--war");
    reveal_strlit("n);font-we");
    reveal_strlit("ight:bold}");
    reveal_strlit(".muted{col");
    reveal_strlit("or:var(--m");
    reveal_strlit("uted)}.err");
    reveal_strlit("or{border-");
    reveal_strlit("color:#ffb");
    reveal_strlit("4ab;backgr");
    reveal_strlit("ound:#fff7");
    reveal_strlit("f5}.health");
    reveal_strlit("-list{disp");
    assert(":var(--warn);font-weight:bold}.muted{color:var(--muted)}.error{border-color:#ffb4ab;background:#fff7f5}.health-list{disp"@ =~= ":var(--war"@ + "n);font-we"@ + "ight:bold}"@ + ".muted{col"@ + "or:var(--m"@ + "uted)}.err"@ + "or{border-"@ + "color:#ffb"@ + "4ab;backgr"@ + "ound:#fff7"@ + "f5}.health"@ + "-list{disp"@);
}

proof fn lemma_head_20_0()
    ensures
        tag_safe("lay:grid;g"@),
{
    reveal_strlit("lay:grid;g");
    reveal_with_fuel(script_scan, 12);
}

proof fn lemma_head_20_1()
    ensures
        tag_safe("rid-templa"@),
{
    reveal_strlit("rid-templa");
    reveal_with_fuel(script_scan, 12);
}

proof fn lemma_head_20_2()
    ensures
        tag_safe("te-columns"@),
{
    reveal_strlit("te-columns");
    reveal_with_fuel(script_scan, 12);
}

proof fn lemma_head_20_3()
    ensures
        tag_safe(":repeat(au"@),
{
    reveal_strlit(":repeat(au");
    reveal_with_fuel(script_scan, 12);
}

proof fn lemma_head_20_4()
    ensures
        tag_safe("to-fit,min"@),
{
    reveal_strlit("to-fit,min");
    reveal_with_fuel(script_scan, 12);
}

proof fn lemma_head_20_5()
    ensures
        tag_safe("max(190px,"@),
{
    reveal_strlit("max(190px,");
    reveal_with_fuel(script_scan, 12);
}

proof fn lemma_head_20_6()
    ensures
        tag_safe("1fr));gap:"@),
{
    reveal_strlit("1fr));gap:");
    reveal_with_fuel(script_scan, 12);
}

proof fn lemma_head_20_7()
    ensures
        tag_safe("8px}.healt"@),
{
    reveal_strlit("8px}.healt");
    reveal_with_fuel(script_scan, 12);
}

proof fn lemma_head_20_8()
    ensures
        tag_safe("h-item{bac"@),
{
    reveal_strlit("h-item{bac");
    reveal_with_fuel(script_scan, 12);
}

proof fn lemma_head_20_9()
    ensures
        tag_safe("kground:#f"@),
{
    reveal_strlit("kground:#f");
    reveal_with_fuel(script_scan, 12);
}

proof fn lemma_head_20_10()
    ensures
        tag_safe("8fafc;bord"@),
{
    reveal_strlit("8fafc;bord");
    reveal_with_fuel(script_scan, 12);
}

proof fn lemma_head_20_11()
    ensures
        tag_safe("er:1px sol"@),
{
    reveal_strlit("er:1px sol");
    reveal_with_fuel(script_scan, 12);
}

proof fn lemma_head_20()
    ensures
        tag_safe("lay:grid;grid-template-columns:repeat(auto-fit,minmax(190px,1fr));gap:8px}.health-item{background:#f8fafc;border:1px sol"@),
{
    broadcast use lemma_safe_concat;

    lemma_head_20_0();
    lemma_head_20_1();
    lemma_head_20_2();
    lemma_head_20_3();
    lemma_head_20_4();
    lemma_head_20_5();
    lemma_head_20_6();
    lemma_head_20_7();
    lemma_head_20_8();
    lemma_head_20_9();
    lemma_head_20_10();
    lemma_head_20_11();
    reveal_strlit("lay:grid;grid-template-columns:repeat(auto-fit,minmax(190px,1fr));gap:8px}.health-item{background:#f8fafc;border:1px sol");
    reveal_strlit("lay:grid;g");
    reveal_strlit("rid-templa");
    reveal_strlit("te-columns");
    reveal_strlit(":repeat(au");
    reveal_strlit("to-fit,min");
    reveal_strlit("max(190px,");
    reveal_strlit("1fr));gap:");
    reveal_strlit("8px}.healt");
    reveal_strlit("h-item{bac");
    reveal_strlit("kground:#f");
    reveal_strlit("8fafc;bord");
    reveal_strlit("er:1px sol");
    assert("lay:grid;grid-template-columns:repeat(auto-fit,minmax(190px,1fr));gap:8px}.health-item{background:#f8fafc;border:1px sol"@ =~= "lay:grid;g"@ + "rid-templa"@ + "te-columns"@ + ":repeat(au"@ + "to-fit,min"@ + "max(190px,"@ + "1fr));gap:"@ + "8px}.healt"@ + "h-item{bac"@ + "kground:#f"@ + "8fafc;bord"@ + "er:1px sol"@);
}

proof fn lemma_head_21_0()
    ensures
        tag_safe("id var(--l"@),
{
    reveal_strlit("id var(--l");
    reveal_with_fuel(script_scan, 12);
}

proof fn lemma_head_21_1()
    ensures
        tag_safe("ine);borde"@),
{
    reveal_strlit("ine);borde");
    reveal_with_fuel(script_scan, 12);
}

proof fn lemma_head_21_2()
    ensures
        tag_safe("r-radius:6"@),
{
    reveal_strlit("r-radius:6");
    reveal_with_fuel(script_scan, 12);
}

proof fn lemma_head_21_3()
    ensures
        tag_safe("px;padding"@),
{
    reveal_strlit("px;padding");
    reveal_with_fuel(script_scan, 12);
}

proof fn lemma_head_21_4()
    ensures
        tag_safe(":9px}.heal"@),
{
    reveal_strlit(":9px}.heal");
    reveal_with_fuel(script_scan, 12);
}

proof fn lemma_head_21_5()
    ensures
        tag_safe("th-item sp"@),
{
    reveal_strlit("th-item sp");
    reveal_with_fuel(script_scan, 12);
}

proof fn lemma_head_21_6()
    ensures
        tag_safe("an{display"@),
{
    reveal_strlit("an{display");
    reveal_with_fuel(script_scan, 12);
}

proof fn lemma_head_21_7()
    ensures
        tag_safe(":block;col"@),
{
    reveal_strlit(":block;col");
    reveal_with_fuel(script_scan, 12);
}

proof fn lemma_head_21_8()
    ensures
        tag_safe("or:var(--m"@),
{
    reveal_strlit("or:var(--m");
    reveal_with_fuel(script_scan, 12);
}

proof fn lemma_head_21_9()
    ensures
        tag_safe("uted);font"@),
{
    reveal_strlit("uted);font");
    reveal_with_fuel(script_scan, 12);
}

proof fn lemma_head_21_10()
    ensures
        tag_safe("-size:.82r"@),
{
    reveal_strlit("-size:.82r");
    reveal_with_fuel(script_scan, 12);
}

proof fn lemma_head_21_11()
    ensures
        tag_safe("em}.table-"@),
{
    reveal_strlit("em}.table-");
    reveal_with_fuel(script_scan, 12);
}

proof fn lemma_head_21()
    ensures
        tag_safe("id var(--line);border-radius:6px;padding:9px}.health-item span{display:block;color:var(--muted);font-size:.82rem}.table-"@),
{
    broadcast use lemma_safe_concat;

    lemma_head_21_0();
    lemma_head_21_1();
    lemma_head_21_2();
    lemma_head_21_3();
    lemma_head_21_4();
    lemma_head_21_5();
    lemma_head_21_6();
    lemma_head_21_7();
    lemma_head_21_8();
    lemma_head_21_9();
    lemma_head_21_10();
    lemma_head_21_11();
    reveal_strlit("id var(--line);border-radius:6px;padding:9px}.health-item span{display:block;color:var(--muted);font-size:.82rem}.table-");
    reveal_strlit("id var(--l");
    reveal_strlit("ine);borde");
    reveal_strlit("r-radius:6");
    reveal_strlit("px;padding");
    reveal_strlit(":9px}.heal");
    reveal_strlit("th-item sp");
    reveal_strlit("an{display");
    reveal_strlit(":block;col");
    reveal_strlit("or:var(--m");
    reveal_strlit("uted);font");
    reveal_strlit("-size:.82r");
    reveal_strlit("em}.table-");
    assert("id var(--line);border-radius:6px;padding:9px}.health-item span{display:block;color:var(--muted);font-size:.82rem}.table-"@ =~= "id var(--l"@ + "ine);borde"@ + "r-radius:6"@ + "px;padding"@ + ":9px}.heal"@ + "th-item sp"@ + "an{display"@ + ":block;col"@ + "or:var(--m"@ + "uted);font"@ + "-size:.82r"@ + "em}.table-"@);
}

proof fn lemma_head_22_0()
    ensures
        tag_safe("wrap{overf"@),
{
    reveal_strlit("wrap{overf");
    reveal_with_fuel(script_scan, 12);
}

proof fn lemma_head_22_1()
    ensures
        tag_safe("low-x:auto"@),
{
    reveal_strlit("low-x:auto");
    reveal_with_fuel(script_scan, 12);
}

proof fn lemma_head_22_2()
    ensures
        tag_safe("}@media(ma"@),
{
    reveal_strlit("}@media(ma");
    reveal_with_fuel(script_scan, 12);
}

proof fn lemma_head_22_3()
    ensures
        tag_safe("x-width:76"@),
{
    reveal_strlit("x-width:76");
    reveal_with_fuel(script_scan, 12);
}

proof fn lemma_head_22_4()
    ensures
        tag_safe("0px){main{"@),
{
    reveal_strlit("0px){main{");
    reveal_with_fuel(script_scan, 12);
}

proof fn lemma_head_22_5()
    ensures
        tag_safe("padding:12"@),
{
    reveal_strlit("padding:12");
    reveal_with_fuel(script_scan, 12);
}

proof fn lemma_head_22_6()
    ensures
        tag_safe("px}.summar"@),
{
    reveal_strlit("px}.summar");
    reveal_with_fuel(script_scan, 12);
}

proof fn lemma_head_22_7()
    ensures
        tag_safe("y{grid-tem"@),
{
    reveal_strlit("y{grid-tem");
    reveal_with_fuel(script_scan, 12);
}

proof fn lemma_head_22_8()
    ensures
        tag_safe("plate-colu"@),
{
    reveal_strlit("plate-colu");
    reveal_with_fuel(script_scan, 12);
}

proof fn lemma_head_22_9()
    ensures
        tag_safe("mns:repeat"@),
{
    reveal_strlit("mns:repeat");
    reveal_with_fuel(script_scan, 12);
}

proof fn lemma_head_22_10()
    ensures
        tag_safe("(2,minmax("@),
{
    reveal_strlit("(2,minmax(");
    reveal_with_fuel(script_scan, 12);
}

proof fn lemma_head_22_11()
    ensures
        tag_safe("0,1fr))}.a"@),
{
    reveal_strlit("0,1fr))}.a");
    reveal_with_fuel(script_scan, 12);
}

proof fn lemma_head_22()
    ensures
        tag_safe("wrap{overflow-x:auto}@media(max-width:760px){main{padding:12px}.summary{grid-template-columns:repeat(2,minmax(0,1fr))}.a"@),
{
    broadcast use lemma_safe_concat;

    lemma_head_22_0();
    lemma_head_22_1();
    lemma_head_22_2();
    lemma_head_22_3();
    lemma_head_22_4();
    lemma_head_22_5();
    lemma_head_22_6();
    lemma_head_22_7();
    lemma_head_22_8();
    lemma_head_22_9();
    lemma_head_22_10();
    lemma_head_22_11();
    reveal_strlit("wrap{overflow-x:auto}@media(max-width:760px){main{padding:12px}.summary{grid-template-columns:repeat(2,minmax(0,1fr))}.a");
    reveal_strlit("wrap{overf");
    reveal_strlit("low-x:auto");
    reveal_strlit("}@media(ma");
    reveal_strlit("x-width:76");
    reveal_strlit("0px){main{");
    reveal_strlit("padding:12");
    reveal_strlit("px}.summar");
    reveal_strlit("y{grid-tem");
    reveal_strlit("plate-colu");
    reveal_strlit("mns:repeat");
    reveal_strlit("(2,minmax(");
    reveal_strlit("0,1fr))}.a");
    assert("wrap{overflow-x:auto}@media(max-width:760px){main{padding:12px}.summary{grid-template-columns:repeat(2,minmax(0,1fr))}.a"@ =~= "wrap{overf"@ + "low-x:auto"@ + "}@media(ma"@ + "x-width:76"@ + "0px){main{"@ + "padding:12"@ + "px}.summar"@ + "y{grid-tem"@ + "plate-colu"@ + "mns:repeat"@ + "(2,minmax("@ + "0,1fr))}.a"@);
}

proof fn lemma_head_23_0()
    ensures
        tag_safe("lert-head{"@),
{
    reveal_strlit("lert-head{");
    reveal_with_fuel(script_scan, 12);
}

proof fn lemma_head_23_1()
    ensures
        tag_safe("display:bl"@),
{
    reveal_strlit("display:bl");
    reveal_with_fuel(script_scan, 12);
}

proof fn lemma_head_23_2()
    ensures
        tag_safe("ock}.metri"@),
{
    reveal_strlit("ock}.metri");
    reveal_with_fuel(script_scan, 12);
}

proof fn lemma_head_23_3()
    ensures
        tag_safe("c strong{f"@),
{
    reveal_strlit("c strong{f");
    reveal_with_fuel(script_scan, 12);
}

proof fn lemma_head_23_4()
    ensures
        tag_safe("ont-size:1"@),
{
    reveal_strlit("ont-size:1");
    reveal_with_fuel(script_scan, 12);
}

proof fn lemma_head_23_5()
    ensures
        tag_safe(".35rem}th,"@),
{
    reveal_strlit(".35rem}th,");
    reveal_with_fuel(script_scan, 12);
}

proof fn lemma_head_23_6()
    ensures
        tag_safe("td{padding"@),
{
    reveal_strlit("td{padding");
    reveal_with_fuel(script_scan, 12);
}

proof fn lemma_head_23_7()
    ensures
        tag_safe(":7px}}@med"@),
{
    reveal_strlit(":7px}}@med");
    reveal_with_fuel(script_scan, 12);
}

proof fn lemma_head_23_8()
    ensures
        tag_safe("ia(max-wid"@),
{
    reveal_strlit("ia(max-wid");
    reveal_with_fuel(script_scan, 12);
}

proof fn lemma_head_23_9()
    ensures
        tag_safe("th:480px){"@),
{
    reveal_strlit("th:480px){");
    reveal_with_fuel(script_scan, 12);
}

proof fn lemma_head_23_10()
    ensures
        tag_safe(".summary{g"@),
{
    reveal_strlit(".summary{g");
    reveal_with_fuel(script_scan, 12);
}

proof fn lemma_head_23_11()
    ensures
        tag_safe("rid-templa"@),
{
    reveal_strlit("rid-templa");
    reveal_with_fuel(script_scan, 12);
}

proof fn lemma_head_23()
    ensures
        tag_safe("lert-head{display:block}.metric strong{font-size:1.35rem}th,td{padding:7px}}@media(max-width:480px){.summary{grid-templa"@),
{
    broadcast use lemma_safe_concat;

    lemma_head_23_0();
    lemma_head_23_1();
    lemma_head_23_2();
    lemma_head_23_3();
    lemma_head_23_4();
    lemma_head_23_5();
    lemma_head_23_6();
    lemma_head_23_7();
    lemma_head_23_8();
    lemma_head_23_9();
    lemma_head_23_10();
    lemma_head_23_11();
    reveal_strlit("lert-head{display:block}.metric strong{font-size:1.35rem}th,td{padding:7px}}@media(max-width:480px){.summary{grid-templa");
    reveal_strlit("lert-head{");
    reveal_strlit("display:bl");
    reveal_strlit("ock}.metri");
    reveal_strlit("c strong{f");
    reveal_strlit("ont-size:1");
    reveal_strlit(".35rem}th,");
    reveal_strlit("td{padding");
    reveal_strlit(":7px}}@med");
    reveal_strlit("ia(max-wid");
    reveal_strlit("th:480px){");
    reveal_strlit(".summary{g");
    reveal_strlit("rid-templa");
    assert("lert-head{display:block}.metric strong{font-size:1.35rem}th,td{padding:7px}}@media(max-width:480px){.summary{grid-templa"@ =~= "lert-head{"@ + "display:bl"@ + "ock}.metri"@ + "c strong{f"@ + "ont-size:1"@ + ".35rem}th,"@ + "td{padding"@ + ":7px}}@med"@ + "ia(max-wid"@ + "th:480px){"@ + ".summary{g"@ + "rid-templa"@);
}

proof fn lemma_head_24_0()
    ensures
        tag_safe("te-columns"@),
{
    reveal_strlit("te-columns");
    reveal_with_fuel(script_scan, 12);
}

proof fn lemma_head_24_1()
    ensures
        tag_safe(":1fr}heade"@),
{
    reveal_strlit(":1fr}heade");
    reveal_with_fuel(script_scan, 12);
}

proof fn lemma_head_24_2()
    ensures
        tag_safe("r{padding:"@),
{
    reveal_strlit("r{padding:");
    reveal_with_fuel(script_scan, 12);
}

proof fn lemma_head_24_3()
    ensures
        tag_safe("14px}secti"@),
{
    reveal_strlit("14px}secti");
    reveal_with_fuel(script_scan, 12);
}

proof fn lemma_head_24_4()
    ensures
        tag_safe("on{padding"@),
{
    reveal_strlit("on{padding");
    reveal_with_fuel(script_scan, 12);
}

proof fn lemma_head_24_5()
    ensures
        tag_safe(":12px}}</s"@),
{
    reveal_strlit(":12px}}</s");
    reveal_with_fuel(script_scan, 12);
}

proof fn lemma_head_24_6()
    ensures
        tag_safe("tyle></hea"@),
{
    reveal_strlit("tyle></hea");
    reveal_with_fuel(script_scan, 12);
}

proof fn lemma_head_24_7()
    ensures
        tag_safe("d><body><h"@),
{
    reveal_strlit("d><body><h");
    reveal_with_fuel(script_scan, 12);
}

proof fn lemma_head_24_8()
    ensures
        tag_safe("eader><h1>"@),
{
    reveal_strlit("eader><h1>");
    reveal_with_fuel(script_scan, 12);
}

proof fn lemma_head_24_9()
    ensures
        tag_safe("Sentinel D"@),
{
    reveal_strlit("Sentinel D");
    reveal_with_fuel(script_scan, 12);
}

proof fn lemma_head_24_10()
    ensures
        tag_safe("ashboard</"@),
{
    reveal_strlit("ashboard</");
    reveal_with_fuel(script_scan, 12);
}

proof fn lemma_head_24_11()
    ensures
        tag_safe("h1><div>Re"@),
{
    reveal_strlit("h1><div>Re");
    reveal_with_fuel(script_scan, 12);
}

proof fn lemma_head_24()
    ensures
        tag_safe("te-columns:1fr}header{padding:14px}section{padding:12px}}</style></head><body><header><h1>Sentinel Dashboard</h1><div>Re"@),
{
    broadcast use lemma_safe_concat;

    lemma_head_24_0();
    lemma_head_24_1();
    lemma_head_24_2();
    lemma_head_24_3();
    lemma_head_24_4();
    lemma_head_24_5();
    lemma_head_24_6();
    lemma_head_24_7();
    lemma_head_24_8();
    lemma_head_24_9();
    lemma_head_24_10();
    lemma_head_24_11();
    reveal_strlit("te-columns:1fr}header{padding:14px}section{padding:12px}}</style></head><body><header><h1>Sentinel Dashboard</h1><div>Re");
    reveal_strlit("te-columns");
    reveal_strlit(":1fr}heade");
    reveal_strlit("r{padding:");
    reveal_strlit("14px}secti");
    reveal_strlit("on{padding");
    reveal_strlit(":12px}}</s");
    reveal_strlit("tyle></hea");
    reveal_strlit("d><body><h");
    reveal_strlit("eader><h1>");
    reveal_strlit("Sentinel D");
    reveal_strlit("ashboard</");
    reveal_strlit("h1><div>Re");
    assert("te-columns:1fr}header{padding:14px}section{padding:12px}}</style></head><body><header><h1>Sentinel Dashboard</h1><div>Re"@ =~= "te-columns"@ + ":1fr}heade"@ + "r{padding:"@ + "14px}secti"@ + "on{padding"@ + ":12px}}</s"@ + "tyle></hea"@ + "d><body><h"@ + "eader><h1>"@ + "Sentinel D"@ + "ashboard</"@ + "h1><div>Re"@);
}

proof fn lemma_head_25_0()
    ensures
        tag_safe("ad-only lo"@),
{
    reveal_strlit("ad-only lo");
    reveal_with_fuel(script_scan, 12);
}

proof fn lemma_head_25_1()
    ensures
        tag_safe("cal event "@),
{
    reveal_strlit("cal event ");
    reveal_with_fuel(script_scan, 12);
}

proof fn lemma_head_25_2()
    ensures
        tag_safe("log view</"@),
{
    reveal_strlit("log view</");
    reveal_with_fuel(script_scan, 12);
}

proof fn lemma_head_25_3()
    ensures
        tag_safe("div></head"@),
{
    reveal_strlit("div></head");
    reveal_with_fuel(script_scan, 12);
}

proof fn lemma_head_25_4()
    ensures
        tag_safe("er><main>"@),
{
    reveal_strlit("er><main>");
    reveal_with_fuel(script_scan, 11);
}

proof fn lemma_head_25()
    ensures
        tag_safe("ad-only local event log view</div></header><main>"@),
{
    broadcast use lemma_safe_concat;

    lemma_head_25_0();
    lemma_head_25_1();
    lemma_head_25_2();
    lemma_head_25_3();
    lemma_head_25_4();
    reveal_strlit("ad-only local event log view</div></header><main>");
    reveal_strlit("ad-only lo");
    reveal_strlit("cal event ");
    reveal_strlit("log view</");
    reveal_strlit("div></head");
    reveal_strlit("er><main>");
    assert("ad-only local event log view</div></header><main>"@ =~= "ad-only lo"@ + "cal event "@ + "log view</"@ + "div></head"@ + "er><main>"@);
}

/// The fixed head of the page holds no `<script` and leaves no tag
/// half-written.
proof fn lemma_head_safe()
    ensures
        tag_safe(DASHBOARD_HEAD@),
{
    broadcast use lemma_safe_concat;

    lemma_head_0();
    lemma_head_1();
    lemma_head_2();
    lemma_head_3();
    lemma_head_4();
    lemma_head_5();
    lemma_head_6();
    lemma_head_7();
    lemma_head_8();
    lemma_head_9();
    lemma_head_10();
    lemma_head_11();
    lemma_head_12();
    lemma_head_13();
    lemma_head_14();
    lemma_head_15();
    lemma_head_16();
    lemma_head_17();
    lemma_head_18();
    lemma_head_19();
    lemma_head_20();
    lemma_head_21();
    lemma_head_22();
    lemma_head_23();
    lemma_head_24();
    lemma_head_25();
    reveal_strlit("<!doctype html><html lang=\"en\"><head><meta charset=\"utf-8\"><meta name=\"viewport\" content=\"width=device-width, initial-scale=1\"><meta http-equiv=\"refresh\" content=\"30\"><title>Sentinel Dashboard</title><style>:root{color-scheme:light;--bg:#eef2f6;--panel:#ffffff;--ink:#18212f;--muted:#5d6b7c;--line:#d8e0ea;--head:#12263a;--ok:#166534;--bad:#b42318;--warn:#a15c00;--chip:#e8eef5}*{box-sizing:border-box}body{font-family:Arial,sans-serif;margin:0;background:var(--bg);color:var(--ink)}header{background:var(--head);color:#fff;padding:18px 22px}header h1{margin:0;font-size:1.55rem}header div{margin-top:4px;color:#d5dee8}main{padding:18px;max-width:1280px;margin:0 auto}section{background:var(--panel);border:1px solid var(--line);border-radius:8px;margin:0 0 16px;padding:16px}h2{font-size:1.15rem;margin:0 0 12px}h3{font-size:1rem;margin:0 0 8px}p{margin:0 0 10px;line-height:1.4}table{width:100%;border-collapse:collapse}th,td{border-bottom:1px solid #e7edf4;padding:8px;text-align:left;vertical-align:top}th{background:#f1f5f9;color:#26384c;font-size:.78rem;text-transform:uppercase;letter-spacing:.03em}.summary{display:grid;grid-template-columns:repeat(5,minmax(0,1fr));gap:12px}.metric{background:#f8fafc;border:1px solid var(--line);border-radius:8px;padding:12px}.metric strong{display:block;font-size:1.55rem}.metric span{color:var(--muted)}.status-grid{display:grid;grid-template-columns:repeat(auto-fit,minmax(190px,1fr));gap:10px}.status-card{border:1px solid var(--line);border-radius:8px;padding:12px;background:#fbfdff}.status-card strong{display:block;margin-bottom:6px}.alert-card{border:1px solid var(--line);border-radius:8px;background:#fff;margin:0 0 14px;overflow:hidden}.alert-head{display:flex;gap:10px;justify-content:space-between;align-items:flex-start;background:#f8fafc;border-bottom:1px solid var(--line);padding:12px}.alert-title{font-size:1.05rem;font-weight:bold}.alert-meta{color:var(--muted);font-size:.9rem}.alert-body{padding:12px}.message{white-space:pre-wrap;background:#f8fafc;border:1px solid var(--line);border-radius:6px;padding:10px}.pill{display:inline-block;border-radius:999px;padding:3px 9px;background:var(--chip);font-size:.82rem;font-weight:bold}.ok{color:var(--ok);font-weight:bold}.bad{color:var(--bad);font-weight:bold}.warn{color:var(--warn);font-weight:bold}.muted{color:var(--muted)}.error{border-color:#ffb4ab;background:#fff7f5}.health-list{display:grid;grid-template-columns:repeat(auto-fit,minmax(190px,1fr));gap:8px}.health-item{background:#f8fafc;border:1px solid var(--line);border-radius:6px;padding:9px}.health-item span{display:block;color:var(--muted);font-size:.82rem}.table-wrap{overflow-x:auto}@media(max-width:760px){main{padding:12px}.summary{grid-template-columns:repeat(2,minmax(0,1fr))}.alert-head{display:block}.metric strong{font-size:1.35rem}th,td{padding:7px}}@media(max-width:480px){.summary{grid-template-columns:1fr}header{padding:14px}section{padding:12px}}</style></head><body><header><h1>Sentinel Dashboard</h1><div>Read-only local event log view</div></header><main>");
    reveal_strlit("<!doctype html><html lang=\"en\"><head><meta charset=\"utf-8\"><meta name=\"viewport\" content=\"width=device-width, initial-sca");
    reveal_strlit("le=1\"><meta http-equiv=\"refresh\" content=\"30\"><title>Sentinel Dashboard</title><style>:root{color-scheme:light;--bg:#eef2f");
    reveal_strlit("6;--panel:#ffffff;--ink:#18212f;--muted:#5d6b7c;--line:#d8e0ea;--head:#12263a;--ok:#166534;--bad:#b42318;--warn:#a15c00;");
    reveal_strlit("--chip:#e8eef5}*{box-sizing:border-box}body{font-family:Arial,sans-serif;margin:0;background:var(--bg);color:var(--ink)}");
    reveal_strlit("header{background:var(--head);color:#fff;padding:18px 22px}header h1{margin:0;font-size:1.55rem}header div{margin-top:4p");
    reveal_strlit("x;color:#d5dee8}main{padding:18px;max-width:1280px;margin:0 auto}section{background:var(--panel);border:1px solid var(--");
    reveal_strlit("line);border-radius:8px;margin:0 0 16px;padding:16px}h2{font-size:1.15rem;margin:0 0 12px}h3{font-size:1rem;margin:0 0 8");
    reveal_strlit("px}p{margin:0 0 10px;line-height:1.4}table{width:100%;border-collapse:collapse}th,td{border-bottom:1px solid #e7edf4;pad");
    reveal_strlit("ding:8px;text-align:left;vertical-align:top}th{background:#f1f5f9;color:#26384c;font-size:.78rem;text-transform:uppercas");
    reveal_strlit("e;letter-spacing:.03em}.summary{display:grid;grid-template-columns:repeat(5,minmax(0,1fr));gap:12px}.metric{background:#");
    reveal_strlit("f8fafc;border:1px solid var(--line);border-radius:8px;padding:12px}.metric strong{display:block;font-size:1.55rem}.metri");
    reveal_strlit("c span{color:var(--muted)}.status-grid{display:grid;grid-template-columns:repeat(auto-fit,minmax(190px,1fr));gap:10px}.s");
    reveal_strlit("tatus-card{border:1px solid var(--line);border-radius:8px;padding:12px;background:#fbfdff}.status-card strong{display:bl");
    reveal_strlit("ock;margin-bottom:6px}.alert-card{border:1px solid var(--line);border-radius:8px;background:#fff;margin:0 0 14px;overflo");
    reveal_strlit("w:hidden}.alert-head{display:flex;gap:10px;justify-content:space-between;align-items:flex-start;background:#f8fafc;borde");
    reveal_strlit("r-bottom:1px solid var(--line);padding:12px}.alert-title{font-size:1.05rem;font-weight:bold}.alert-meta{color:var(--mute");
    reveal_strlit("d);font-size:.9rem}.alert-body{padding:12px}.message{white-space:pre-wrap;background:#f8fafc;border:1px solid var(--line");
    reveal_strlit(");border-radius:6px;padding:10px}.pill{display:inline-block;border-radius:999px;padding:3px 9px;background:var(--chip);f");
    reveal_strlit("ont-size:.82rem;font-weight:bold}.ok{color:var(--ok);font-weight:bold}.bad{color:var(--bad);font-weight:bold}.warn{color");
    reveal_strlit(":var(--warn);font-weight:bold}.muted{color:var(--muted)}.error{border-color:#ffb4ab;background:#fff7f5}.health-list{disp");
    reveal_strlit("lay:grid;grid-template-columns:repeat(auto-fit,minmax(190px,1fr));gap:8px}.health-item{background:#f8fafc;border:1px sol");
    reveal_strlit("id var(--line);border-radius:6px;padding:9px}.health-item span{display:block;color:var(--muted);font-size:.82rem}.table-");
    reveal_strlit("wrap{overflow-x:auto}@media(max-width:760px){main{padding:12px}.summary{grid-template-columns:repeat(2,minmax(0,1fr))}.a");
    reveal_strlit("lert-head{display:block}.metric strong{font-size:1.35rem}th,td{padding:7px}}@media(max-width:480px){.summary{grid-templa");
    reveal_strlit("te-columns:1fr}header{padding:14px}section{padding:12px}}</style></head><body><header><h1>Sentinel Dashboard</h1><div>Re");
    reveal_strlit("ad-only local event log view</div></header><main>");
    assert(DASHBOARD_HEAD@ =~= "<!doctype html><html lang=\"en\"><head><meta charset=\"utf-8\"><meta name=\"viewport\" content=\"width=device-width, initial-sca"@ + "le=1\"><meta http-equiv=\"refresh\" content=\"30\"><title>Sentinel Dashboard</title><style>:root{color-scheme:light;--bg:#eef2f"@ + "6;--panel:#ffffff;--ink:#18212f;--muted:#5d6b7c;--line:#d8e0ea;--head:#12263a;--ok:#166534;--bad:#b42318;--warn:#a15c00;"@ + "--chip:#e8eef5}*{box-sizing:border-box}body{font-family:Arial,sans-serif;margin:0;background:var(--bg);color:var(--ink)}"@ + "header{background:var(--head);color:#fff;padding:18px 22px}header h1{margin:0;font-size:1.55rem}header div{margin-top:4p"@ + "x;color:#d5dee8}main{padding:18px;max-width:1280px;margin:0 auto}section{background:var(--panel);border:1px solid var(--"@ + "line);border-radius:8px;margin:0 0 16px;padding:16px}h2{font-size:1.15rem;margin:0 0 12px}h3{font-size:1rem;margin:0 0 8"@ + "px}p{margin:0 0 10px;line-height:1.4}table{width:100%;border-collapse:collapse}th,td{border-bottom:1px solid #e7edf4;pad"@ + "ding:8px;text-align:left;vertical-align:top}th{background:#f1f5f9;color:#26384c;font-size:.78rem;text-transform:uppercas"@ + "e;letter-spacing:.03em}.summary{display:grid;grid-template-columns:repeat(5,minmax(0,1fr));gap:12px}.metric{background:#"@ + "f8fafc;border:1px solid var(--line);border-radius:8px;padding:12px}.metric strong{display:block;font-size:1.55rem}.metri"@ + "c span{color:var(--muted)}.status-grid{display:grid;grid-template-columns:repeat(auto-fit,minmax(190px,1fr));gap:10px}.s"@ + "tatus-card{border:1px solid var(--line);border-radius:8px;padding:12px;background:#fbfdff}.status-card strong{display:bl"@ + "ock;margin-bottom:6px}.alert-card{border:1px solid var(--line);border-radius:8px;background:#fff;margin:0 0 14px;overflo"@ + "w:hidden}.alert-head{display:flex;gap:10px;justify-content:space-between;align-items:flex-start;background:#f8fafc;borde"@ + "r-bottom:1px solid var(--line);padding:12px}.alert-title{font-size:1.05rem;font-weight:bold}.alert-meta{color:var(--mute"@ + "d);font-size:.9rem}.alert-body{padding:12px}.message{white-space:pre-wrap;background:#f8fafc;border:1px solid var(--line"@ + ");border-radius:6px;padding:10px}.pill{display:inline-block;border-radius:999px;padding:3px 9px;background:var(--chip);f"@ + "ont-size:.82rem;font-weight:bold}.ok{color:var(--ok);font-weight:bold}.bad{color:var(--bad);font-weight:bold}.warn{color"@ + ":var(--warn);font-weight:bold}.muted{color:var(--muted)}.error{border-color:#ffb4ab;background:#fff7f5}.health-list{disp"@ + "lay:grid;grid-template-columns:repeat(auto-fit,minmax(190px,1fr));gap:8px}.health-item{background:#f8fafc;border:1px sol"@ + "id var(--line);border-radius:6px;padding:9px}.health-item span{display:block;color:var(--muted);font-size:.82rem}.table-"@ + "wrap{overflow-x:auto}@media(max-width:760px){main{padding:12px}.summary{grid-template-columns:repeat(2,minmax(0,1fr))}.a"@ + "lert-head{display:block}.metric strong{font-size:1.35rem}th,td{padding:7px}}@media(max-width:480px){.summary{grid-templa"@ + "te-columns:1fr}header{padding:14px}section{padding:12px}}</style></head><body><header><h1>Sentinel Dashboard</h1><div>Re"@ + "ad-only local event log view</div></header><main>"@);
}

/// Law: the dashboard page never holds `<script`, whatever the event log
/// holds and whatever its path: every text from the log reaches the page
/// escaped, and the page's own markup never leaves a tag half-written before
/// such a text.
pub proof fn law_page_never_holds_a_script(path: Seq<char>, data: DashboardData)
    ensures
        !has_script_tag(dashboard_html(path, data)),
        tag_safe(dashboard_html(path, data)),
{
    broadcast use lemma_safe_concat;

    lemma_head_safe();
    lemma_summary_safe(
        data.alerts@.len(),
        crate::dashboard_view::count_ready(data.sender_statuses@, true),
        crate::dashboard_view::count_ready(data.sender_statuses@, false),
        crate::dashboard_view::count_group_status(data.delivery_attempts_by_alert@, DeliveryAttemptStatus::Success),
        crate::dashboard_view::count_group_status(data.delivery_attempts_by_alert@, DeliveryAttemptStatus::Failure),
        crate::dashboard_view::count_group_status(data.delivery_attempts_by_alert@, DeliveryAttemptStatus::Skipped),
    );
    let summary = crate::dashboard_view::summary_band_html(
        data.alerts@.len(),
        crate::dashboard_view::count_ready(data.sender_statuses@, true),
        crate::dashboard_view::count_ready(data.sender_statuses@, false),
        crate::dashboard_view::count_group_status(data.delivery_attempts_by_alert@, DeliveryAttemptStatus::Success),
        crate::dashboard_view::count_group_status(data.delivery_attempts_by_alert@, DeliveryAttemptStatus::Failure),
        crate::dashboard_view::count_group_status(data.delivery_attempts_by_alert@, DeliveryAttemptStatus::Skipped),
    );
    let a1 = DASHBOARD_HEAD@ + summary;
    assert(tag_safe(a1));
    lemma_health_section_safe(a1, path, data);
    let a2 = health_section_into(a1, path, data);
    lemma_sender_section_safe(a2, data.sender_statuses@);
    let a3 = sender_section_into(a2, data.sender_statuses@);
    lemma_alerts_section_safe(a3, data);
    lemma_literals_dashboard_html();
    assert(tag_safe(dashboard_html(path, data)));
    if has_script_tag(dashboard_html(path, data)) {
        lemma_script_tag_scans_to_end(dashboard_html(path, data));
    }
}

} // verus!

//! The periodic report: the traffic aggregate rendered as text.
//!
//! For each application-protocol label with a non-zero count, one line
//! `<label>: <count> packets (<percentage>%)`, the percentage taken of
//! the total admitted count with integer rounding; a snapshot with no
//! admitted packet renders as nothing at all.  The rendering is pinned
//! byte for byte by `report_spec`; only the final conversion of the
//! ASCII bytes into a `String` is taken on trust.

use vstd::prelude::*;
use crate::protocol::{AppProtocol, app_at_index, app_at_index_spec};
use crate::traffic::{TrafficSnapshot, lemma_sum_element_bound};

verus! {

/// One rendered report line, still structured.
#[derive(Clone, Copy, Debug, PartialEq, Eq, Structural)]
pub struct ReportLine {
    pub app: AppProtocol,
    pub count: u64,
    pub percentage: u64,
}

/// The share of the total, in whole percent, rounded down.
pub open spec fn percentage_spec(count: u64, total: u64) -> int {
    100 * (count as int) / (total as int)
}

/// Computes the whole-percent share of a label count in the admitted
/// total.
pub fn percentage(count: u64, total: u64) -> (r: u64)
    requires
        total > 0,
        count <= total,
    ensures
        r == percentage_spec(count, total),
        r <= 100,
{
    let p: u128 = (count as u128) * 100 / (total as u128);
    proof {
        assert(100 * (count as int) / (total as int) <= 100) by (nonlinear_arith)
            requires
                0 < total,
                count <= total,
        ;
    }
    p as u64
}

/// The report lines of the first `n` label slots: one line per non-zero
/// count, in the fixed enumeration order of the labels.
pub open spec fn report_lines_upto_spec(counts: Seq<u64>, total: u64, n: int) -> Seq<ReportLine>
    decreases n,
{
    if n <= 0 {
        Seq::empty()
    } else {
        let prefix = report_lines_upto_spec(counts, total, n - 1);
        if counts[n - 1] > 0 {
            prefix.push(
                ReportLine {
                    app: app_at_index_spec(n - 1),
                    count: counts[n - 1],
                    percentage: (100 * (counts[n - 1] as int) / (total as int)) as u64,
                },
            )
        } else {
            prefix
        }
    }
}

/// The structured report of a snapshot: nothing when no packet was
/// admitted, else one line per label with a non-zero count.
pub open spec fn report_lines_spec(counts: Seq<u64>, total: u64) -> Seq<ReportLine> {
    if total == 0 {
        Seq::empty()
    } else {
        report_lines_upto_spec(counts, total, counts.len() as int)
    }
}

/// Renders a snapshot into its structured report lines.
pub fn render_lines(snapshot: &TrafficSnapshot) -> (lines: Vec<ReportLine>)
    requires
        snapshot.wf(),
    ensures
        lines@ == report_lines_spec(snapshot.app_protocols@, snapshot.filtered_packets),
{
    let total = snapshot.filtered_packets;
    let mut lines: Vec<ReportLine> = Vec::new();
    if total == 0 {
        return lines;
    }
    let n = snapshot.app_protocols.len();
    for i in 0..n
        invariant
            n == snapshot.app_protocols@.len(),
            snapshot.wf(),
            total == snapshot.filtered_packets,
            total > 0,
            lines@ == report_lines_upto_spec(snapshot.app_protocols@, total, i as int),
    {
        let count = snapshot.app_protocols[i];
        if count > 0 {
            proof {
                lemma_sum_element_bound(snapshot.app_protocols@, i as int);
            }
            let p = percentage(count, total);
            lines.push(ReportLine { app: app_at_index(i), count, percentage: p });
        }
    }
    lines
}

/// The ASCII digit of one decimal place.
pub open spec fn digit_spec(d: int) -> u8 {
    (48 + d) as u8
}

/// The decimal spelling of a non-negative number, most significant
/// digit first.
pub open spec fn dec_spec(n: int) -> Seq<u8>
    decreases n,
{
    if n < 0 {
        Seq::empty()
    } else if n < 10 {
        seq![digit_spec(n)]
    } else {
        dec_spec(n / 10).push(digit_spec(n % 10))
    }
}

/// Appends the decimal spelling of `n`.
fn push_decimal(out: &mut Vec<u8>, n: u64)
    ensures
        final (out)@ == old(out)@ + dec_spec(n as int),
    decreases n,
{
    if n < 10 {
        out.push(48 + (n as u8));
        proof {
            assert(final (out)@ =~= old(out)@ + dec_spec(n as int));
        }
    } else {
        let q = n / 10;
        let r = n % 10;
        push_decimal(out, q);
        out.push(48 + (r as u8));
        proof {
            assert(final (out)@ =~= old(out)@ + dec_spec(n as int));
        }
    }
}

/// The label's spelling.
pub open spec fn label_spec(app: AppProtocol) -> Seq<u8> {
    match app {
        AppProtocol::FTP => seq![70u8, 84u8, 80u8],
        AppProtocol::SSH => seq![83u8, 83u8, 72u8],
        AppProtocol::Telnet => seq![84u8, 101u8, 108u8, 110u8, 101u8, 116u8],
        AppProtocol::SMTP => seq![83u8, 77u8, 84u8, 80u8],
        AppProtocol::DNS => seq![68u8, 78u8, 83u8],
        AppProtocol::DHCP => seq![68u8, 72u8, 67u8, 80u8],
        AppProtocol::HTTP => seq![72u8, 84u8, 84u8, 80u8],
        AppProtocol::POP => seq![80u8, 79u8, 80u8],
        AppProtocol::NTP => seq![78u8, 84u8, 80u8],
        AppProtocol::NetBIOS => seq![78u8, 101u8, 116u8, 66u8, 73u8, 79u8, 83u8],
        AppProtocol::IMAP => seq![73u8, 77u8, 65u8, 80u8],
        AppProtocol::SNMP => seq![83u8, 78u8, 77u8, 80u8],
        AppProtocol::HTTPS => seq![72u8, 84u8, 84u8, 80u8, 83u8],
        AppProtocol::SSDP => seq![83u8, 83u8, 68u8, 80u8],
        AppProtocol::XMPP => seq![88u8, 77u8, 80u8, 80u8],
        AppProtocol::MDNS => seq![109u8, 68u8, 78u8, 83u8],
        AppProtocol::Other => seq![79u8, 116u8, 104u8, 101u8, 114u8],
    }
}

/// Appends the label's spelling.
fn push_label(out: &mut Vec<u8>, app: AppProtocol)
    ensures
        final (out)@ == old(out)@ + label_spec(app),
{
    match app {
        AppProtocol::FTP => {
            out.push(70u8);
            out.push(84u8);
            out.push(80u8);
        },
        AppProtocol::SSH => {
            out.push(83u8);
            out.push(83u8);
            out.push(72u8);
        },
        AppProtocol::Telnet => {
            out.push(84u8);
            out.push(101u8);
            out.push(108u8);
            out.push(110u8);
            out.push(101u8);
            out.push(116u8);
        },
        AppProtocol::SMTP => {
            out.push(83u8);
            out.push(77u8);
            out.push(84u8);
            out.push(80u8);
        },
        AppProtocol::DNS => {
            out.push(68u8);
            out.push(78u8);
            out.push(83u8);
        },
        AppProtocol::DHCP => {
            out.push(68u8);
            out.push(72u8);
            out.push(67u8);
            out.push(80u8);
        },
        AppProtocol::HTTP => {
            out.push(72u8);
            out.push(84u8);
            out.push(84u8);
            out.push(80u8);
        },
        AppProtocol::POP => {
            out.push(80u8);
            out.push(79u8);
            out.push(80u8);
        },
        AppProtocol::NTP => {
            out.push(78u8);
            out.push(84u8);
            out.push(80u8);
        },
        AppProtocol::NetBIOS => {
            out.push(78u8);
            out.push(101u8);
            out.push(116u8);
            out.push(66u8);
            out.push(73u8);
            out.push(79u8);
            out.push(83u8);
        },
        AppProtocol::IMAP => {
            out.push(73u8);
            out.push(77u8);
            out.push(65u8);
            out.push(80u8);
        },
        AppProtocol::SNMP => {
            out.push(83u8);
            out.push(78u8);
            out.push(77u8);
            out.push(80u8);
        },
        AppProtocol::HTTPS => {
            out.push(72u8);
            out.push(84u8);
            out.push(84u8);
            out.push(80u8);
            out.push(83u8);
        },
        AppProtocol::SSDP => {
            out.push(83u8);
            out.push(83u8);
            out.push(68u8);
            out.push(80u8);
        },
        AppProtocol::XMPP => {
            out.push(88u8);
            out.push(77u8);
            out.push(80u8);
            out.push(80u8);
        },
        AppProtocol::MDNS => {
            out.push(109u8);
            out.push(68u8);
            out.push(78u8);
            out.push(83u8);
        },
        AppProtocol::Other => {
            out.push(79u8);
            out.push(116u8);
            out.push(104u8);
            out.push(101u8);
            out.push(114u8);
        },
    }
    proof {
        assert(final (out)@ =~= old(out)@ + label_spec(app));
    }
}

/// One report line's spelling:
/// `<label>: <count> packets (<percentage>%)` and a newline.
pub open spec fn line_spec(line: ReportLine) -> Seq<u8> {
    label_spec(line.app) + seq![58u8, 32u8] + dec_spec(line.count as int) + seq![
        32u8,
        112u8,
        97u8,
        99u8,
        107u8,
        101u8,
        116u8,
        115u8,
        32u8,
        40u8,
    ] + dec_spec(line.percentage as int) + seq![37u8, 41u8, 10u8]
}

/// Appends one line's spelling.
fn push_line(out: &mut Vec<u8>, line: &ReportLine)
    ensures
        final (out)@ == old(out)@ + line_spec(*line),
{
    push_label(out, line.app);
    out.push(58u8);
    out.push(32u8);
    push_decimal(out, line.count);
    out.push(32u8);
    out.push(112u8);
    out.push(97u8);
    out.push(99u8);
    out.push(107u8);
    out.push(101u8);
    out.push(116u8);
    out.push(115u8);
    out.push(32u8);
    out.push(40u8);
    push_decimal(out, line.percentage);
    out.push(37u8);
    out.push(41u8);
    out.push(10u8);
    proof {
        assert(final (out)@ =~= old(out)@ + line_spec(*line));
    }
}

/// The whole report's spelling: the lines, in order.
pub open spec fn report_spec(lines: Seq<ReportLine>) -> Seq<u8>
    decreases lines.len(),
{
    if lines.len() == 0 {
        Seq::empty()
    } else {
        report_spec(lines.drop_last()) + line_spec(lines.last())
    }
}

/// Renders a snapshot into the report's ASCII bytes, pinned byte for
/// byte: the spelling of `report_lines_spec`.
pub fn render_report(snapshot: &TrafficSnapshot) -> (out: Vec<u8>)
    requires
        snapshot.wf(),
    ensures
        out@ == report_spec(report_lines_spec(snapshot.app_protocols@, snapshot.filtered_packets)),
{
    let lines = render_lines(snapshot);
    let mut out: Vec<u8> = Vec::new();
    let n = lines.len();
    for i in 0..n
        invariant
            n == lines@.len(),
            out@ == report_spec(lines@.take(i as int)),
    {
        push_line(&mut out, &lines[i]);
        proof {
            assert(lines@.take(i + 1).drop_last() =~= lines@.take(i as int));
            assert(lines@.take(i + 1).last() == lines@[i as int]);
        }
    }
    proof {
        assert(lines@.take(n as int) =~= lines@);
    }
    out
}

/// Every byte of a decimal spelling is an ASCII digit.
proof fn lemma_dec_ascii(n: int)
    ensures
        forall|i: int| 0 <= i < dec_spec(n).len() ==> 48 <= #[trigger] dec_spec(n)[i] < 128,
    decreases n,
{
    if n < 0 {
    } else if n < 10 {
        assert(dec_spec(n).len() == 1);
        assert(dec_spec(n)[0] == digit_spec(n));
    } else {
        lemma_dec_ascii(n / 10);
        assert forall|i: int| 0 <= i < dec_spec(n).len() implies 48 <= #[trigger] dec_spec(
            n,
        )[i] < 128 by {
            if i < dec_spec(n / 10).len() {
                assert(dec_spec(n)[i] == dec_spec(n / 10)[i]);
            } else {
                assert(dec_spec(n)[i] == digit_spec(n % 10));
            }
        }
    }
}

/// Every byte of a line's spelling is ASCII.
proof fn lemma_line_ascii(line: ReportLine)
    ensures
        forall|i: int| 0 <= i < line_spec(line).len() ==> #[trigger] line_spec(line)[i] < 128,
{
    lemma_dec_ascii(line.count as int);
    lemma_dec_ascii(line.percentage as int);
}

/// Every byte of a report is ASCII.
proof fn lemma_report_ascii(lines: Seq<ReportLine>)
    ensures
        forall|i: int|
            0 <= i < report_spec(lines).len() ==> #[trigger] report_spec(lines)[i] < 128,
    decreases lines.len(),
{
    if lines.len() > 0 {
        lemma_report_ascii(lines.drop_last());
        lemma_line_ascii(lines.last());
        assert forall|i: int| 0 <= i < report_spec(lines).len() implies #[trigger] report_spec(
            lines,
        )[i] < 128 by {
            let prefix = report_spec(lines.drop_last());
            if i < prefix.len() {
                assert(report_spec(lines)[i] == prefix[i]);
            } else {
                assert(report_spec(lines)[i] == line_spec(lines.last())[i - prefix.len()]);
            }
        }
    }
}

/// Relies on String::from_utf8: bytes below 128 are valid UTF-8 and
/// convert to exactly one character each, the character of that code.
#[verifier::external_body]
fn ascii_to_string(bytes: Vec<u8>) -> (r: String)
    requires
        forall|i: int| 0 <= i < bytes@.len() ==> bytes@[i] < 128,
    ensures
        r@.len() == bytes@.len(),
        forall|i: int| 0 <= i < bytes@.len() ==> r@[i] == bytes@[i] as char,
{
    String::from_utf8(bytes).unwrap_or_default()
}

/// Renders a snapshot into the report text: character for character the
/// ASCII spelling that `render_report` yields.
pub fn render_report_text(snapshot: &TrafficSnapshot) -> (r: String)
    requires
        snapshot.wf(),
    ensures
        ({
            let bytes = report_spec(
                report_lines_spec(snapshot.app_protocols@, snapshot.filtered_packets),
            );
            r@.len() == bytes.len() && forall|i: int|
                0 <= i < bytes.len() ==> r@[i] == bytes[i] as char
        }),
{
    let bytes = render_report(snapshot);
    proof {
        lemma_report_ascii(
            report_lines_spec(snapshot.app_protocols@, snapshot.filtered_packets),
        );
    }
    ascii_to_string(bytes)
}

} // verus!

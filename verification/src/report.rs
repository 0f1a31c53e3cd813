//! The lines that the program prints: banners and status lines.

use vstd::prelude::*;
use crate::provider::{HttpMethod, ProviderError};
use crate::reconcile::{Command, CommandView, Notice, NoticeView, PassOutcome, Step};
use crate::text::chars_of;

verus! {

/// `n` times the character `fill`.
pub open spec fn padding(n: nat, fill: char) -> Seq<char> {
    Seq::new(n, |i: int| fill)
}

/// The number of bytes that `c` takes in UTF-8.
pub open spec fn utf8_width(c: char) -> nat {
    let n = c as u32;
    if n < 0x80 {
        1
    } else if n < 0x800 {
        2
    } else if n < 0x10000 {
        3
    } else {
        4
    }
}

/// The longest prefix of `s` that takes at most `limit` bytes in UTF-8.
pub open spec fn cut(s: Seq<char>, limit: nat) -> Seq<char>
    decreases s.len(),
{
    if s.len() == 0 || utf8_width(s[0]) > limit {
        Seq::empty()
    } else {
        seq![s[0]] + cut(s.drop_first(), (limit - utf8_width(s[0])) as nat)
    }
}

/// The banner for `msg`: the message between two equal runs of `fill`, as
/// long as fit beside it into `length` characters, the whole cut to
/// `length` bytes; the bare message where it has at least `length`
/// characters.
pub open spec fn banner(msg: Seq<char>, length: nat, fill: char) -> Seq<char> {
    if msg.len() >= length {
        msg
    } else {
        let side = ((length - msg.len()) / 2) as nat;
        cut(padding(side, fill) + msg + padding(side, fill), length)
    }
}

/// The icon that stands for a status: 0 is a success, 1 a failure, any
/// other number a piece of information.
pub open spec fn icon(status: u8) -> Seq<char> {
    if status == 0 {
        "✅"@
    } else if status == 1 {
        "❌"@
    } else {
        "ℹ️"@
    }
}

/// The width of the banners of a pass.
pub const BANNER_WIDTH: usize = 60;

/// Where a line is written.
#[derive(Debug, Clone, Copy, PartialEq, Eq, Structural)]
pub enum Sink {
    /// Standard output.
    Screen,
    /// The log, as information.
    InfoLog,
    /// The log, as an error.
    ErrorLog,
}

/// One line of the program's report.
#[derive(Debug, Clone, PartialEq, Eq)]
pub struct Line {
    pub sink: Sink,
    pub text: String,
}

/// The lines of a list, as mathematical values.
pub open spec fn line_views(lines: Seq<Line>) -> Seq<(Sink, Seq<char>)> {
    Seq::new(lines.len(), |i: int| (lines[i].sink, lines[i].text@))
}

/// A status line: the icon of `status`, a space, the message.
pub open spec fn status_text(body: Seq<char>, status: u8) -> Seq<char> {
    icon(status) + " "@ + body
}

/// A message with the time in front of it.
pub open spec fn stamped(now: Seq<char>, body: Seq<char>) -> Seq<char> {
    now + " - "@ + body
}

/// A status line on the screen, with the time in front of its message.
pub open spec fn screen(now: Seq<char>, body: Seq<char>, status: u8) -> (Sink, Seq<char>) {
    (Sink::Screen, status_text(stamped(now, body), status))
}

/// The lines that tell what a step found, at the time `now`.
pub open spec fn notice_lines(notice: NoticeView, now: Seq<char>) -> Seq<(Sink, Seq<char>)> {
    match notice {
        NoticeView::ProbeRejected => Seq::empty(),
        NoticeView::Resolved { ip } => seq![screen(now, "Public IP address "@ + ip, 0)],
        NoticeView::Unchanged { domain, ip } => seq![
            screen(now, "DNS record "@ + domain + " found"@, 0),
            screen(now, "IP not changed ("@ + ip + ") for "@ + domain, 0),
        ],
        NoticeView::Changed { domain, record_ip, ip } => seq![
            screen(now, "DNS record "@ + domain + " found"@, 0),
            screen(
                now,
                "IP change detected: Record IP "@ + record_ip + ", Current IP "@ + ip + " for "@
                    + domain,
                0,
            ),
            (Sink::Screen, banner("update DNS record for "@ + domain, BANNER_WIDTH as nat, '-')),
        ],
        NoticeView::NotFound { domain } => seq![
            screen(now, "DNS record "@ + domain + " not found, attempting to add"@, 1),
        ],
        NoticeView::Abandoned { domain, error } => seq![
            (Sink::ErrorLog, "❌ Failed to get DNS record for "@ + domain + ": "@ + error.text()),
        ],
        NoticeView::Written { domain, ip, created } => if created {
            seq![
                (Sink::InfoLog, "✅ Successfully added DNS record: "@ + domain + " -> "@ + ip),
                screen(now, "DNS record "@ + domain + " added successfully"@, 0),
            ]
        } else {
            seq![
                (Sink::InfoLog, "✅ Successfully updated DNS record: "@ + domain + " -> "@ + ip),
                screen(now, "DNS record "@ + domain + " updated to "@ + ip, 0),
            ]
        },
        NoticeView::WriteFailed { domain, created, error } => if created {
            seq![(Sink::ErrorLog, "❌ Failed to add domain "@ + domain + ": "@ + error.text())]
        } else {
            seq![(Sink::ErrorLog, "❌ Failed to update domain "@ + domain + ": "@ + error.text())]
        },
    }
}

/// The lines that announce a command, at the time `now`: the banner of a
/// lookup, named by the first query parameter of its request, and the
/// complaint where no service gave an address.
pub open spec fn command_lines(command: CommandView, now: Seq<char>) -> Seq<(Sink, Seq<char>)> {
    match command {
        CommandView::Call(request) => if request.method == HttpMethod::Get && request.query.len()
            > 0 {
            seq![
                (
                    Sink::Screen,
                    banner("get DNS record for "@ + request.query[0].1, BANNER_WIDTH as nat, '-'),
                ),
            ]
        } else {
            Seq::empty()
        },
        CommandView::Done(PassOutcome::NoServiceAvailable) => seq![
            screen(
                now,
                "Failed to get public IP address: Unable to obtain public IP from any service"@,
                1,
            ),
        ],
        _ => Seq::empty(),
    }
}

/// Text that takes one byte for each character is not cut where it is no
/// longer than the limit.
pub proof fn lemma_cut_keeps_short_text(s: Seq<char>, limit: nat)
    requires
        s.len() <= limit,
        forall|i: int| 0 <= i < s.len() ==> utf8_width(#[trigger] s[i]) == 1,
    ensures
        cut(s, limit) == s,
    decreases s.len(),
{
    if s.len() > 0 {
        let rest = s.drop_first();
        assert(forall|i: int| 0 <= i < rest.len() ==> utf8_width(#[trigger] rest[i]) == 1);
        lemma_cut_keeps_short_text(rest, (limit - 1) as nat);
        assert(seq![s[0]] + rest =~= s);
    }
}

/// What is cut is a prefix, and never longer than the limit.
pub proof fn lemma_cut_is_prefix(s: Seq<char>, limit: nat)
    ensures
        cut(s, limit).len() <= s.len(),
        cut(s, limit).len() <= limit,
        cut(s, limit) == s.take(cut(s, limit).len() as int),
    decreases s.len(),
{
    if s.len() > 0 && utf8_width(s[0]) <= limit {
        let rest = s.drop_first();
        let left = (limit - utf8_width(s[0])) as nat;
        lemma_cut_is_prefix(rest, left);
        assert(seq![s[0]] + rest.take(cut(rest, left).len() as int) =~= s.take(
            cut(s, limit).len() as int,
        ));
    } else {
        assert(s.take(0) =~= Seq::<char>::empty());
    }
}

/// The number of bytes that `c` takes in UTF-8.
pub fn char_width(c: char) -> (r: usize)
    ensures
        r == utf8_width(c),
        1 <= r <= 4,
{
    let n: u32 = c as u32;
    if n < 0x80 {
        1
    } else if n < 0x800 {
        2
    } else if n < 0x10000 {
        3
    } else {
        4
    }
}

/// The longest prefix of `cs` that takes at most `limit` bytes in UTF-8.
fn cut_text(cs: &Vec<char>, limit: usize) -> (r: String)
    ensures
        r@ == cut(cs@, limit as nat),
{
    let mut out: String = String::new();
    let mut left: usize = limit;
    let mut i: usize = 0;
    proof {
        assert(cs@.skip(0) =~= cs@);
        assert(out@ + cut(cs@, limit as nat) =~= cut(cs@, limit as nat));
    }
    while i < cs.len()
        invariant
            i <= cs.len(),
            cut(cs@, limit as nat) == out@ + cut(cs@.skip(i as int), left as nat),
        decreases cs.len() - i,
    {
        let width: usize = char_width(cs[i]);
        if width > left {
            return out;
        }
        proof {
            assert(cs@.skip(i as int).drop_first() =~= cs@.skip(i + 1));
        }
        out.push(cs[i]);
        left = left - width;
        i = i + 1;
    }
    out
}

/// The banner line of a step.
pub fn info_step(msg: &str, length: usize, fillchar: char) -> (r: String)
    ensures
        r@ == banner(msg@, length as nat, fillchar),
{
    let text: Vec<char> = chars_of(msg);
    if text.len() >= length {
        return msg.to_owned();
    }
    let side: usize = (length - text.len()) / 2;
    let mut formatted: Vec<char> = Vec::new();
    let mut i: usize = 0;
    while i < side
        invariant
            i <= side,
            formatted@ == padding(i as nat, fillchar),
        decreases side - i,
    {
        formatted.push(fillchar);
        i = i + 1;
    }
    let mut j: usize = 0;
    while j < text.len()
        invariant
            j <= text.len(),
            formatted@ == padding(side as nat, fillchar) + text@.take(j as int),
        decreases text.len() - j,
    {
        formatted.push(text[j]);
        j = j + 1;
    }
    let mut k: usize = 0;
    while k < side
        invariant
            k <= side,
            formatted@ == padding(side as nat, fillchar) + text@ + padding(k as nat, fillchar),
        decreases side - k,
    {
        formatted.push(fillchar);
        k = k + 1;
    }
    cut_text(&formatted, length)
}

/// The status line for `msg_body`: its icon, a space, the message.
pub fn info_status(msg_body: &str, status: u8) -> (r: String)
    ensures
        r@ == icon(status) + " "@ + msg_body@,
{
    let mut line: String = match status {
        0 => "✅".to_owned(),
        1 => "❌".to_owned(),
        _ => "ℹ️".to_owned(),
    };
    line.append(" ");
    line.append(msg_body);
    line
}

/// A status line for the screen, with the time in front of its message.
fn screen_line(now: &str, body: &str, status: u8) -> (r: Line)
    ensures
        (r.sink, r.text@) == screen(now@, body@, status),
{
    let mut message: String = now.to_owned();
    message.append(" - ");
    message.append(body);
    Line { sink: Sink::Screen, text: info_status(message.as_str(), status) }
}

/// The text `a`, `b`, `c`, `d` in a row.
fn row(a: &str, b: &str, c: &str, d: &str) -> (r: String)
    ensures
        r@ == a@ + b@ + c@ + d@,
{
    let mut out: String = a.to_owned();
    out.append(b);
    out.append(c);
    out.append(d);
    out
}

/// The lines that tell what a step found, at the time `now`.
pub fn describe_notice(notice: &Notice, now: &str) -> (r: Vec<Line>)
    ensures
        line_views(r@) == notice_lines(notice@, now@),
{
    let mut lines: Vec<Line> = Vec::new();
    match notice {
        Notice::ProbeRejected => {},
        Notice::Resolved { ip } => {
            let mut body: String = "Public IP address ".to_owned();
            body.append(ip.as_str());
            lines.push(screen_line(now, body.as_str(), 0));
        },
        Notice::Unchanged { domain, ip } => {
            let mut found: String = "DNS record ".to_owned();
            found.append(domain.as_str());
            found.append(" found");
            lines.push(screen_line(now, found.as_str(), 0));
            let same: String = row("IP not changed (", ip.as_str(), ") for ", domain.as_str());
            lines.push(screen_line(now, same.as_str(), 0));
        },
        Notice::Changed { domain, record_ip, ip } => {
            let mut found: String = "DNS record ".to_owned();
            found.append(domain.as_str());
            found.append(" found");
            lines.push(screen_line(now, found.as_str(), 0));
            let mut change: String = row(
                "IP change detected: Record IP ",
                record_ip.as_str(),
                ", Current IP ",
                ip.as_str(),
            );
            change.append(" for ");
            change.append(domain.as_str());
            lines.push(screen_line(now, change.as_str(), 0));
            let mut title: String = "update DNS record for ".to_owned();
            title.append(domain.as_str());
            let text: String = info_step(title.as_str(), BANNER_WIDTH, '-');
            lines.push(Line { sink: Sink::Screen, text });
        },
        Notice::NotFound { domain } => {
            let mut body: String = "DNS record ".to_owned();
            body.append(domain.as_str());
            body.append(" not found, attempting to add");
            lines.push(screen_line(now, body.as_str(), 1));
        },
        Notice::Abandoned { domain, error } => {
            let reason: String = error.message();
            let text: String = row(
                "❌ Failed to get DNS record for ",
                domain.as_str(),
                ": ",
                reason.as_str(),
            );
            lines.push(Line { sink: Sink::ErrorLog, text });
        },
        Notice::Written { domain, ip, created } => {
            if *created {
                let text: String = row(
                    "✅ Successfully added DNS record: ",
                    domain.as_str(),
                    " -> ",
                    ip.as_str(),
                );
                lines.push(Line { sink: Sink::InfoLog, text });
                let mut body: String = "DNS record ".to_owned();
                body.append(domain.as_str());
                body.append(" added successfully");
                lines.push(screen_line(now, body.as_str(), 0));
            } else {
                let text: String = row(
                    "✅ Successfully updated DNS record: ",
                    domain.as_str(),
                    " -> ",
                    ip.as_str(),
                );
                lines.push(Line { sink: Sink::InfoLog, text });
                let body: String = row("DNS record ", domain.as_str(), " updated to ", ip.as_str());
                lines.push(screen_line(now, body.as_str(), 0));
            }
        },
        Notice::WriteFailed { domain, created, error } => {
            let reason: String = error.message();
            let text: String = if *created {
                row("❌ Failed to add domain ", domain.as_str(), ": ", reason.as_str())
            } else {
                row("❌ Failed to update domain ", domain.as_str(), ": ", reason.as_str())
            };
            lines.push(Line { sink: Sink::ErrorLog, text });
        },
    }
    lines
}

/// The lines that announce a command, at the time `now`.
pub fn describe_command(command: &Command, now: &str) -> (r: Vec<Line>)
    ensures
        line_views(r@) == command_lines(command@, now@),
{
    let mut lines: Vec<Line> = Vec::new();
    match command {
        Command::Call(request) => {
            if request.method == HttpMethod::Get && request.query.len() > 0 {
                let mut title: String = "get DNS record for ".to_owned();
                title.append(request.query[0].1.as_str());
                let text: String = info_step(title.as_str(), BANNER_WIDTH, '-');
                lines.push(Line { sink: Sink::Screen, text });
            }
        },
        Command::Done(PassOutcome::NoServiceAvailable) => {
            lines.push(
                screen_line(
                    now,
                    "Failed to get public IP address: Unable to obtain public IP from any service",
                    1,
                ),
            );
        },
        _ => {},
    }
    lines
}

/// The lines of a step, at the time `now`: what it found, then what it
/// asks for.
pub fn describe(step: &Step, now: &str) -> (r: Vec<Line>)
    ensures
        line_views(r@) == notice_lines(step.notice@, now@) + command_lines(step.command@, now@),
{
    let mut lines: Vec<Line> = describe_notice(&step.notice, now);
    let mut more: Vec<Line> = describe_command(&step.command, now);
    lines.append(&mut more);
    lines
}

} // verus!

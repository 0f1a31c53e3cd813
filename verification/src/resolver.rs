//! Finding the public address: which services are asked, in which order,
//! and which answer is taken.

use vstd::prelude::*;
use crate::text::{same_text, trim_text, trimmed, views};

verus! {

/// The seconds after which a service that does not answer is given up.
pub const PROBE_TIMEOUT_SECS: u64 = 5;

/// What became of asking one service.
#[derive(Debug, Clone, PartialEq, Eq)]
pub enum ProbeOutcome {
    /// No answer: the request failed or timed out, or its body was unreadable.
    Failed,
    /// An answer: whether its status was a success, and its body.
    Replied { success: bool, body: String },
}

/// The outcome of asking one service, as a mathematical value.
pub enum ProbeView {
    Failed,
    Replied { success: bool, body: Seq<char> },
}

impl View for ProbeOutcome {
    type V = ProbeView;

    open spec fn view(&self) -> ProbeView {
        match self {
            ProbeOutcome::Failed => ProbeView::Failed,
            ProbeOutcome::Replied { success, body } => ProbeView::Replied {
                success: *success,
                body: body@,
            },
        }
    }
}

/// The services that are asked for an address of the family of
/// `record_type`, in the order in which they are asked. The two lists differ
/// in their first service only.
pub open spec fn services_of(record_type: Seq<char>) -> Seq<Seq<char>> {
    if record_type == "AAAA"@ {
        seq!["https://api6.ipify.org"@, "https://ident.me"@, "https://ifconfig.me/ip"@]
    } else {
        seq!["https://api.ipify.org"@, "https://ident.me"@, "https://ifconfig.me/ip"@]
    }
}

/// The address that an outcome gives: the trimmed body of an answer with a
/// success status, where that is not empty. The text is not examined
/// further.
pub open spec fn accepted(outcome: ProbeView) -> Option<Seq<char>> {
    match outcome {
        ProbeView::Failed => None,
        ProbeView::Replied { success, body } => if success && trimmed(body).len() > 0 {
            Some(trimmed(body))
        } else {
            None
        },
    }
}

/// The address that a run of outcomes gives, the services asked in order:
/// the one of the first outcome that gives any.
pub open spec fn resolution(outcomes: Seq<ProbeView>) -> Option<Seq<char>>
    decreases outcomes.len(),
{
    if outcomes.len() == 0 {
        None
    } else {
        match accepted(outcomes[0]) {
            Some(ip) => Some(ip),
            None => resolution(outcomes.drop_first()),
        }
    }
}

/// How many of the services are asked on a run of outcomes: those up to and
/// with the first that gives an address.
pub open spec fn probes_made(outcomes: Seq<ProbeView>) -> nat
    decreases outcomes.len(),
{
    if outcomes.len() == 0 {
        0
    } else {
        match accepted(outcomes[0]) {
            Some(ip) => 1,
            None => 1 + probes_made(outcomes.drop_first()),
        }
    }
}

/// The services to ask for an address of the family of `record_type`.
pub fn ip_services(record_type: &str) -> (r: Vec<String>)
    ensures
        views(r@) == services_of(record_type@),
        r@.len() == 3,
{
    let mut list: Vec<String> = Vec::new();
    if same_text(record_type, "AAAA") {
        list.push("https://api6.ipify.org".to_owned());
    } else {
        list.push("https://api.ipify.org".to_owned());
    }
    list.push("https://ident.me".to_owned());
    list.push("https://ifconfig.me/ip".to_owned());
    list
}

/// The address that an outcome gives, if it gives one.
pub fn accept_probe(outcome: &ProbeOutcome) -> (r: Option<String>)
    ensures
        match r {
            Some(ip) => accepted(outcome@) == Some(ip@),
            None => accepted(outcome@) is None,
        },
{
    match outcome {
        ProbeOutcome::Failed => None,
        ProbeOutcome::Replied { success, body } => {
            if *success {
                let ip: String = trim_text(body.as_str());
                if ip.as_str().is_empty() {
                    None
                } else {
                    Some(ip)
                }
            } else {
                None
            }
        },
    }
}

} // verus!

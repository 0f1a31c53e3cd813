//! What holds of every pass, whatever the network answers.

use vstd::prelude::*;
use crate::config::{AppConfig, CliArgs};
use crate::provider::{lookup_reply, FaultView, HttpMethod, OutcomeView, RecordView};
use crate::reconcile::{
    content_of, initial, plan_of, CommandView, EventView, NoticeView, PassModel, PassOutcome, Phase,
};
use crate::report::{
    banner, lemma_cut_is_prefix, lemma_cut_keeps_short_text, padding, utf8_width,
};
use crate::resolver::{accepted, probes_made, resolution, ProbeView, PROBE_TIMEOUT_SECS};
use crate::text::{
    comma_names, is_clean, join_commas, lemma_names_are_clean, lemma_split_commas, split_commas,
};

verus! {

/// A list is cut at its commas and nowhere else: joined by commas, its
/// segments give the list again, and none of them holds a comma.
pub proof fn law_split_is_exact(list: Seq<char>)
    ensures
        join_commas(split_commas(list)) == list,
        forall|i: int, j: int|
            0 <= i < split_commas(list).len() && 0 <= j < split_commas(list)[i].len()
                ==> #[trigger] split_commas(list)[i][j] != ',',
{
    lemma_split_commas(list);
}

/// Every name of a list is clean: not empty, without a comma, and without
/// whitespace at either end.
pub proof fn law_names_are_clean(list: Seq<char>)
    ensures
        forall|k: int|
            0 <= k < comma_names(list).len() ==> is_clean(#[trigger] comma_names(list)[k]),
{
    lemma_split_commas(list);
    lemma_names_are_clean(split_commas(list));
}

/// The command line wins where it speaks, and only there: a setting that
/// it gives replaces what the earlier sources said, and a setting that it
/// does not give stays as they left it. The host's name is not its to set.
pub proof fn law_command_line_wins_where_given(config: AppConfig, args: CliArgs)
    ensures
        config.overridden(args).cf_api_token == match args.cf_api_token {
            Some(v) => v,
            None => config.cf_api_token,
        },
        config.overridden(args).cf_zone_id == match args.cf_zone_id {
            Some(v) => v,
            None => config.cf_zone_id,
        },
        config.overridden(args).dns_record_name == match args.dns_record_name {
            Some(v) => v,
            None => config.dns_record_name,
        },
        config.overridden(args).dns_record_type == match args.dns_record_type {
            Some(v) => v,
            None => config.dns_record_type,
        },
        config.overridden(args).proxy == match args.proxy {
            Some(v) => v,
            None => config.proxy,
        },
        config.overridden(args).ttl == match args.ttl {
            Some(v) => v,
            None => config.ttl,
        },
        config.overridden(args).network == match args.network {
            Some(v) => Some(v),
            None => config.network,
        },
        config.overridden(args).update_interval == match args.update_interval {
            Some(v) => Some(v),
            None => config.update_interval,
        },
        config.overridden(args).platform_identifier == config.platform_identifier,
{
}

/// A command line that gives no setting changes nothing.
pub proof fn law_silent_command_line_changes_nothing(config: AppConfig, args: CliArgs)
    requires
        args.cf_api_token is None,
        args.cf_zone_id is None,
        args.dns_record_name is None,
        args.dns_record_type is None,
        args.proxy is None,
        args.ttl is None,
        args.network is None,
        args.update_interval is None,
    ensures
        config.overridden(args) == config,
{
}

/// The domains that a pass reconciles are those that the configuration's
/// list holds: its segments between commas, trimmed, the empty ones left
/// out, in their order.
pub proof fn law_pass_domains(config: AppConfig)
    ensures
        initial(config).domains == comma_names(config.dns_record_name@),
{
}

/// A record that points to the current address is left alone: its lookup
/// is followed by the next domain's lookup or by the end of the pass,
/// never by a create or an update.
pub proof fn law_unchanged_record_is_left_alone(
    m: PassModel,
    d: usize,
    outcome: OutcomeView,
    rec: RecordView,
)
    requires
        m.wf(),
        m.phase == (Phase::LookingUp { domain: d }),
        lookup_reply(outcome) == Ok::<Option<RecordView>, FaultView>(Some(rec)),
        content_of(rec) == m.ip->0,
    ensures
        m.next(EventView::Replied(outcome)) matches Some(step) && {
            &&& step.notice == (NoticeView::Unchanged { domain: m.domains[d as int], ip: m.ip->0 })
            &&& step.pass == m.turn_to(d + 1, step.notice).pass
            &&& step.command == m.turn_to(d + 1, step.notice).command
            &&& !(step.pass.phase is Writing)
            &&& step.command matches CommandView::Call(request) ==> request.method
                == HttpMethod::Get
        },
{
}

/// A record that points elsewhere is updated once: its lookup is followed
/// by one update, addressed by the record's identifier and carrying the
/// current address, and whatever the provider answers to that, the pass
/// turns to the next domain.
pub proof fn law_changed_record_is_updated_once(
    m: PassModel,
    d: usize,
    outcome: OutcomeView,
    rec: RecordView,
    id: Seq<char>,
    answer: OutcomeView,
)
    requires
        m.wf(),
        m.phase == (Phase::LookingUp { domain: d }),
        lookup_reply(outcome) == Ok::<Option<RecordView>, FaultView>(Some(rec)),
        content_of(rec) != m.ip->0,
        rec.id == Some(id),
    ensures
        m.next(EventView::Replied(outcome)) matches Some(step) && {
            &&& step.command == CommandView::Call(m.update(d as int, id))
            &&& step.pass == m.at(Phase::Writing { domain: d, creating: false })
            &&& step.pass.next(EventView::Replied(answer)) matches Some(after)
            &&& after.pass == m.turn_to(d + 1, after.notice).pass
            &&& after.command == m.turn_to(d + 1, after.notice).command
        },
{
}

/// A domain without a record gets one, once: its lookup is followed by one
/// create that carries the current address, and whatever the provider
/// answers to that, the pass turns to the next domain.
pub proof fn law_missing_record_is_created_once(
    m: PassModel,
    d: usize,
    outcome: OutcomeView,
    answer: OutcomeView,
)
    requires
        m.wf(),
        m.phase == (Phase::LookingUp { domain: d }),
        lookup_reply(outcome) == Ok::<Option<RecordView>, FaultView>(None),
    ensures
        m.next(EventView::Replied(outcome)) matches Some(step) && {
            &&& step.command == CommandView::Call(m.create(d as int))
            &&& step.pass == m.at(Phase::Writing { domain: d, creating: true })
            &&& step.pass.next(EventView::Replied(answer)) matches Some(after)
            &&& after.pass == m.turn_to(d + 1, after.notice).pass
            &&& after.command == m.turn_to(d + 1, after.notice).command
        },
{
}

/// The first address ends the search: once a service gives one, it is
/// kept, no further service is asked, and the pass turns to the first
/// domain.
pub proof fn law_first_address_ends_search(m: PassModel, k: usize, outcome: ProbeView, ip: Seq<char>)
    requires
        m.wf(),
        m.phase == (Phase::Resolving { service: k }),
        accepted(outcome) == Some(ip),
    ensures
        m.next(EventView::Probed(outcome)) matches Some(step) && {
            &&& step.pass.ip == Some(ip)
            &&& !(step.pass.phase is Resolving)
            &&& !(step.command is Probe)
            &&& step.pass.domains == m.domains
        },
{
}

/// A service that gives no address is followed by the next one in the
/// list; after the last, the pass ends without touching a domain.
pub proof fn law_failed_probe_moves_on(m: PassModel, k: usize, outcome: ProbeView)
    requires
        m.wf(),
        m.phase == (Phase::Resolving { service: k }),
        accepted(outcome) is None,
    ensures
        m.next(EventView::Probed(outcome)) matches Some(step) && {
            &&& k + 1 < m.services.len() ==> step.command == (CommandView::Probe {
                url: m.services[k + 1],
                timeout_secs: PROBE_TIMEOUT_SECS,
            }) && step.pass == m.at(Phase::Resolving { service: (k + 1) as usize })
            &&& k + 1 >= m.services.len() ==> step.command == CommandView::Done(
                PassOutcome::NoServiceAvailable,
            ) && step.pass == m.at(Phase::Finished)
        },
{
}

/// The pass after the answers `outcomes` of the address services were
/// handed in, one after the other, as long as the pass waited for one.
pub open spec fn after_probes(m: PassModel, outcomes: Seq<ProbeView>) -> PassModel
    decreases outcomes.len(),
{
    if outcomes.len() == 0 || !(m.phase is Resolving) {
        m
    } else {
        after_probes(m.next(EventView::Probed(outcomes[0]))->0.pass, outcomes.drop_first())
    }
}

/// How many of the answers `outcomes` the pass took before it stopped
/// waiting for one: how many services were asked.
pub open spec fn probes_taken(m: PassModel, outcomes: Seq<ProbeView>) -> nat
    decreases outcomes.len(),
{
    if outcomes.len() == 0 || !(m.phase is Resolving) {
        0
    } else {
        1 + probes_taken(m.next(EventView::Probed(outcomes[0]))->0.pass, outcomes.drop_first())
    }
}

/// The search for the address asks the services in order and stops at the
/// first that gives one: with an answer at hand for each service that is
/// left, the pass ends up with the address of the first outcome that gives
/// any, has asked no service after that one, and ends without an address
/// only where no outcome gives one.
pub proof fn law_search_stops_at_first_address(m: PassModel, k: usize, outcomes: Seq<ProbeView>)
    requires
        m.wf(),
        m.phase == (Phase::Resolving { service: k }),
        m.ip is None,
        k + outcomes.len() == m.services.len(),
    ensures
        after_probes(m, outcomes).ip == resolution(outcomes),
        probes_taken(m, outcomes) == probes_made(outcomes),
        !(after_probes(m, outcomes).phase is Resolving),
        resolution(outcomes) is None ==> after_probes(m, outcomes).phase == Phase::Finished,
    decreases outcomes.len(),
{
    let step = m.next(EventView::Probed(outcomes[0]))->0;
    let rest = outcomes.drop_first();
    match accepted(outcomes[0]) {
        Some(_) => {
            assert(probes_taken(step.pass, rest) == 0);
        },
        None => {
            if k + 1 < m.services.len() {
                law_search_stops_at_first_address(step.pass, (k + 1) as usize, rest);
            } else {
                assert(after_probes(step.pass, rest) == step.pass);
                assert(probes_taken(step.pass, rest) == 0);
                assert(resolution(rest) is None);
                assert(probes_made(rest) == 0);
            }
        },
    }
}

/// One domain's failure stops at that domain: where its lookup fails or
/// finds a record that cannot be updated, or its create or update was
/// sent, the pass turns to the next domain whatever came back, with
/// nothing changed but the phase. What the next domain's lookup leads to
/// is therefore the same as after a success.
pub proof fn law_failure_is_isolated(
    m: PassModel,
    d: usize,
    creating: bool,
    outcome: OutcomeView,
)
    requires
        m.wf(),
        d + 1 < m.domains.len(),
        (m.phase == (Phase::LookingUp { domain: d }) && plan_of(
            lookup_reply(outcome),
            m.ip->0,
        ) is Abandon) || m.phase == (Phase::Writing { domain: d, creating }),
    ensures
        m.next(EventView::Replied(outcome)) matches Some(step) && {
            &&& step.pass == m.at(Phase::LookingUp { domain: (d + 1) as usize })
            &&& step.command == CommandView::Call(m.lookup(d + 1))
            &&& step.pass.wf()
        },
{
}

/// Every step leaves the pass well formed, and changes nothing of what it
/// was started with: the services, the domains and the settings of the
/// requests stay, and so does the address once the search for it is over.
pub proof fn law_step_keeps_pass(m: PassModel, event: EventView)
    requires
        m.wf(),
    ensures
        m.next(event) matches Some(step) ==> {
            &&& step.pass.wf()
            &&& step.pass.services == m.services
            &&& step.pass.domains == m.domains
            &&& step.pass.zone == m.zone
            &&& step.pass.token == m.token
            &&& step.pass.record_type == m.record_type
            &&& step.pass.ttl == m.ttl
            &&& step.pass.proxy == m.proxy
            &&& !(m.phase is Resolving) ==> step.pass.ip == m.ip
        },
{
}

/// How many events a pass can still take: one for each service that is
/// left while the address is searched, and two for each domain that is
/// left, a lookup and a create or update.
pub open spec fn events_left(m: PassModel) -> int {
    match m.phase {
        Phase::Resolving { service } => m.services.len() - service + 2 * m.domains.len(),
        Phase::LookingUp { domain } => 2 * (m.domains.len() - domain),
        Phase::Writing { domain, creating } => 2 * (m.domains.len() - domain) - 1,
        Phase::Finished => 0,
    }
}

/// A pass runs to its end: every event brings it closer, so that a pass
/// is over after at most one answer of each address service and two
/// answers of the provider for each domain, whatever they are.
pub proof fn law_pass_ends(m: PassModel, event: EventView)
    requires
        m.wf(),
    ensures
        events_left(m) >= 0,
        m.phase == Phase::Finished <==> events_left(m) == 0,
        m.next(event) matches Some(step) ==> events_left(step.pass) < events_left(m),
        m.phase == (Phase::Resolving { service: 0 }) ==> events_left(m) == m.services.len() + 2
            * m.domains.len(),
{
}

/// Command and phase go together: a pass that asks for an address service
/// waits for its answer, one that sends a request waits for the reply, and
/// one that asks for nothing is over. So the event that a command leads to
/// is always one that the pass takes.
pub proof fn law_command_fits_phase(m: PassModel, event: EventView, answer: EventView)
    requires
        m.wf(),
    ensures
        m.next(event) matches Some(step) ==> {
            &&& step.command is Probe <==> step.pass.phase is Resolving
            &&& step.command is Call <==> (step.pass.phase is LookingUp
                || step.pass.phase is Writing)
            &&& step.command is Done <==> step.pass.phase == Phase::Finished
            &&& step.pass.next(answer) is Some <==> (step.command is Probe && answer is Probed)
                || (step.command is Call && answer is Replied)
        },
{
}

/// A banner of one-byte characters is the message between its two runs of
/// the fill character. It fills the length asked for, or falls one short
/// of it where the message does not split the rest evenly.
pub proof fn law_banner_of_plain_text(msg: Seq<char>, length: nat, fill: char)
    requires
        msg.len() < length,
        utf8_width(fill) == 1,
        forall|i: int| 0 <= i < msg.len() ==> utf8_width(#[trigger] msg[i]) == 1,
    ensures
        banner(msg, length, fill) == padding(((length - msg.len()) / 2) as nat, fill) + msg
            + padding(((length - msg.len()) / 2) as nat, fill),
        length - 1 <= banner(msg, length, fill).len() <= length,
        (length - msg.len()) % 2 == 0 ==> banner(msg, length, fill).len() == length,
{
    let side = ((length - msg.len()) / 2) as nat;
    let whole = padding(side, fill) + msg + padding(side, fill);
    assert forall|i: int| 0 <= i < whole.len() implies utf8_width(#[trigger] whole[i]) == 1 by {
        if side <= i < side + msg.len() {
            assert(whole[i] == msg[i - side]);
        }
    }
    lemma_cut_keeps_short_text(whole, length);
}

/// A banner starts like the message between its two runs of the fill
/// character, and never takes more characters than asked for. A message
/// of at least that many characters is its own banner.
pub proof fn law_banner_fits(msg: Seq<char>, length: nat, fill: char)
    ensures
        msg.len() >= length ==> banner(msg, length, fill) == msg,
        msg.len() < length ==> banner(msg, length, fill).len() <= length && banner(
            msg,
            length,
            fill,
        ) == (padding(((length - msg.len()) / 2) as nat, fill) + msg + padding(
            ((length - msg.len()) / 2) as nat,
            fill,
        )).take(banner(msg, length, fill).len() as int),
{
    if msg.len() < length {
        let side = ((length - msg.len()) / 2) as nat;
        lemma_cut_is_prefix(padding(side, fill) + msg + padding(side, fill), length);
    }
}

} // verus!

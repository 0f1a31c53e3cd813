//! One reconciliation pass: find the public address, then bring the record
//! of each configured domain in line with it.
//!
//! The pass is a state machine. It names the next thing to do on the
//! network as a `Command`; the caller does it and hands back the `Event`.
//! Every decision between two network calls is taken here.

use vstd::prelude::*;
use crate::config::AppConfig;
use crate::provider::{
    create_request, create_request_of, found_view, lookup_reply, lookup_request,
    lookup_request_of, read_lookup, read_write, update_request, update_request_of, write_reply,
    ApiRequest, DnsRecord, FaultView, HttpOutcome, OutcomeView, ProviderError, RecordView,
    RequestView,
};
use crate::resolver::{
    accept_probe, accepted, ip_services, services_of, ProbeOutcome, ProbeView, PROBE_TIMEOUT_SECS,
};
use crate::text::{same_text, views};

verus! {

/// What is to be done for one domain once its lookup is read.
#[derive(Debug, Clone, PartialEq, Eq)]
pub enum DomainPlan {
    /// The record points to the current address already.
    Unchanged,
    /// The record `record_id` points to `record_ip` and is to be updated.
    Update { record_id: String, record_ip: String },
    /// There is no record yet: one is to be created.
    Create,
    /// Nothing can be done for this domain in this pass.
    Abandon(ProviderError),
}

/// A plan, as a mathematical value.
pub enum PlanView {
    Unchanged,
    Update { record_id: Seq<char>, record_ip: Seq<char> },
    Create,
    Abandon(FaultView),
}

impl View for DomainPlan {
    type V = PlanView;

    open spec fn view(&self) -> PlanView {
        match self {
            DomainPlan::Unchanged => PlanView::Unchanged,
            DomainPlan::Update { record_id, record_ip } => PlanView::Update {
                record_id: record_id@,
                record_ip: record_ip@,
            },
            DomainPlan::Create => PlanView::Create,
            DomainPlan::Abandon(e) => PlanView::Abandon(e@),
        }
    }
}

/// The address that a record points to; empty where the reply held none.
pub open spec fn content_of(rec: RecordView) -> Seq<char> {
    match rec.content {
        Some(c) => c,
        None => Seq::empty(),
    }
}

/// The plan for a domain whose lookup said `found`, the current address
/// being `ip`. Only the exact text decides whether the address changed.
pub open spec fn plan_of(found: Result<Option<RecordView>, FaultView>, ip: Seq<char>) -> PlanView {
    match found {
        Ok(Some(rec)) => if content_of(rec) == ip {
            PlanView::Unchanged
        } else {
            match rec.id {
                Some(id) => PlanView::Update { record_id: id, record_ip: content_of(rec) },
                None => PlanView::Abandon(FaultView::MissingRecordId),
            }
        },
        Ok(None) => PlanView::Create,
        Err(f) => PlanView::Abandon(f),
    }
}

/// Decides what is to be done for a domain whose lookup said `found`.
pub fn plan_domain(found: Result<Option<DnsRecord>, ProviderError>, current_ip: &str) -> (r:
    DomainPlan)
    ensures
        r@ == plan_of(found_view(found), current_ip@),
{
    match found {
        Ok(Some(rec)) => {
            let record_ip: String = match rec.content {
                Some(c) => c,
                None => String::new(),
            };
            if same_text(record_ip.as_str(), current_ip) {
                DomainPlan::Unchanged
            } else {
                match rec.id {
                    Some(record_id) => DomainPlan::Update { record_id, record_ip },
                    None => DomainPlan::Abandon(ProviderError::MissingRecordId),
                }
            }
        },
        Ok(None) => DomainPlan::Create,
        Err(e) => DomainPlan::Abandon(e),
    }
}

/// Where a pass stands.
#[derive(Debug, Clone, Copy, PartialEq, Eq, Structural)]
pub enum Phase {
    /// The answer of the address service number `service` is awaited.
    Resolving { service: usize },
    /// The lookup of the domain number `domain` is awaited.
    LookingUp { domain: usize },
    /// The create, or else the update, of the domain number `domain` is
    /// awaited.
    Writing { domain: usize, creating: bool },
    /// The pass is over.
    Finished,
}

/// How a pass ended.
#[derive(Debug, Clone, Copy, PartialEq, Eq, Structural)]
pub enum PassOutcome {
    /// Every domain was gone through.
    Completed,
    /// No service gave an address: no domain was touched.
    NoServiceAvailable,
}

/// What the caller is to do next.
#[derive(Debug, Clone, PartialEq, Eq)]
pub enum Command {
    /// Ask the address service at `url`.
    Probe { url: String, timeout_secs: u64 },
    /// Send this request to the provider.
    Call(ApiRequest),
    /// Nothing: the pass is over.
    Done(PassOutcome),
}

/// What the caller hands back.
#[derive(Debug, Clone, PartialEq, Eq)]
pub enum Event {
    /// What became of a `Command::Probe`.
    Probed(ProbeOutcome),
    /// What became of a `Command::Call`.
    Replied(HttpOutcome),
}

/// What a step found, for the log.
#[derive(Debug, Clone, PartialEq, Eq)]
pub enum Notice {
    /// The service gave no address.
    ProbeRejected,
    /// The public address is `ip`.
    Resolved { ip: String },
    /// The record of `domain` was found and points to `ip`, the current
    /// address.
    Unchanged { domain: String, ip: String },
    /// The record of `domain` was found and points to `record_ip`: it is
    /// being updated to `ip`.
    Changed { domain: String, record_ip: String, ip: String },
    /// No record of `domain` was found: one is being created.
    NotFound { domain: String },
    /// `domain` is left as it is in this pass.
    Abandoned { domain: String, error: ProviderError },
    /// The record of `domain` was created, or else updated, and points to
    /// `ip`.
    Written { domain: String, ip: String, created: bool },
    /// The create, or else the update, of the record of `domain` failed.
    WriteFailed { domain: String, created: bool, error: ProviderError },
}

/// One step of a pass: what to do next, and what was found.
#[derive(Debug, Clone, PartialEq, Eq)]
pub struct Step {
    pub command: Command,
    pub notice: Notice,
}

/// A command, as a mathematical value.
pub enum CommandView {
    Probe { url: Seq<char>, timeout_secs: u64 },
    Call(RequestView),
    Done(PassOutcome),
}

/// An event, as a mathematical value.
pub enum EventView {
    Probed(ProbeView),
    Replied(OutcomeView),
}

/// A notice, as a mathematical value.
pub enum NoticeView {
    ProbeRejected,
    Resolved { ip: Seq<char> },
    Unchanged { domain: Seq<char>, ip: Seq<char> },
    Changed { domain: Seq<char>, record_ip: Seq<char>, ip: Seq<char> },
    NotFound { domain: Seq<char> },
    Abandoned { domain: Seq<char>, error: FaultView },
    Written { domain: Seq<char>, ip: Seq<char>, created: bool },
    WriteFailed { domain: Seq<char>, created: bool, error: FaultView },
}

impl View for Command {
    type V = CommandView;

    open spec fn view(&self) -> CommandView {
        match self {
            Command::Probe { url, timeout_secs } => CommandView::Probe {
                url: url@,
                timeout_secs: *timeout_secs,
            },
            Command::Call(request) => CommandView::Call(request@),
            Command::Done(outcome) => CommandView::Done(*outcome),
        }
    }
}

impl View for Event {
    type V = EventView;

    open spec fn view(&self) -> EventView {
        match self {
            Event::Probed(o) => EventView::Probed(o@),
            Event::Replied(o) => EventView::Replied(o@),
        }
    }
}

impl View for Notice {
    type V = NoticeView;

    open spec fn view(&self) -> NoticeView {
        match self {
            Notice::ProbeRejected => NoticeView::ProbeRejected,
            Notice::Resolved { ip } => NoticeView::Resolved { ip: ip@ },
            Notice::Unchanged { domain, ip } => NoticeView::Unchanged { domain: domain@, ip: ip@ },
            Notice::Changed { domain, record_ip, ip } => NoticeView::Changed {
                domain: domain@,
                record_ip: record_ip@,
                ip: ip@,
            },
            Notice::NotFound { domain } => NoticeView::NotFound { domain: domain@ },
            Notice::Abandoned { domain, error } => NoticeView::Abandoned {
                domain: domain@,
                error: error@,
            },
            Notice::Written { domain, ip, created } => NoticeView::Written {
                domain: domain@,
                ip: ip@,
                created: *created,
            },
            Notice::WriteFailed { domain, created, error } => NoticeView::WriteFailed {
                domain: domain@,
                created: *created,
                error: error@,
            },
        }
    }
}

/// A pass, as a mathematical value: where it stands, and what it was
/// started with.
pub struct PassModel {
    pub phase: Phase,
    /// The address services, in the order in which they are asked.
    pub services: Seq<Seq<char>>,
    /// The domains, in the order in which they are reconciled.
    pub domains: Seq<Seq<char>>,
    /// The public address, once a service gave it.
    pub ip: Option<Seq<char>>,
    pub zone: Seq<char>,
    pub token: Seq<char>,
    pub record_type: Seq<char>,
    pub ttl: u32,
    pub proxy: bool,
}

/// One step, as a mathematical value: the pass after it, what to do next,
/// and what was found.
pub struct StepView {
    pub pass: PassModel,
    pub command: CommandView,
    pub notice: NoticeView,
}

impl PassModel {
    /// Whether the phase fits the rest: a service or domain that is waited
    /// for exists, and no domain is worked on before the address is known.
    /// Both lists are short enough to be held in memory.
    pub open spec fn wf(self) -> bool {
        &&& self.services.len() <= usize::MAX
        &&& self.domains.len() <= usize::MAX
        &&& match self.phase {
            Phase::Resolving { service } => service < self.services.len(),
            Phase::LookingUp { domain } => domain < self.domains.len() && self.ip is Some,
            Phase::Writing { domain, creating } => domain < self.domains.len() && self.ip is Some,
            Phase::Finished => true,
        }
    }

    /// This pass in another phase.
    pub open spec fn at(self, phase: Phase) -> PassModel {
        PassModel { phase, ..self }
    }

    /// The request that looks up the domain number `d`.
    pub open spec fn lookup(self, d: int) -> RequestView {
        lookup_request_of(self.zone, self.domains[d], self.record_type, self.token)
    }

    /// The request that creates the record of the domain number `d`.
    pub open spec fn create(self, d: int) -> RequestView {
        create_request_of(
            self.zone,
            self.domains[d],
            self.record_type,
            self.token,
            self.ip->0,
            self.ttl,
            self.proxy,
        )
    }

    /// The request that updates the record `id` of the domain number `d`.
    pub open spec fn update(self, d: int, id: Seq<char>) -> RequestView {
        update_request_of(
            self.zone,
            id,
            self.domains[d],
            self.record_type,
            self.token,
            self.ip->0,
            self.ttl,
            self.proxy,
        )
    }

    /// Turning to the domain number `d`: its lookup, or the end of the pass
    /// where no such domain is left.
    pub open spec fn turn_to(self, d: int, notice: NoticeView) -> StepView {
        if 0 <= d < self.domains.len() {
            StepView {
                pass: self.at(Phase::LookingUp { domain: d as usize }),
                command: CommandView::Call(self.lookup(d)),
                notice,
            }
        } else {
            StepView {
                pass: self.at(Phase::Finished),
                command: CommandView::Done(PassOutcome::Completed),
                notice,
            }
        }
    }

    /// The step that an answer of the address service number `k` leads to:
    /// with an address, on to the first domain; without, on to the next
    /// service, or to the end where none is left.
    pub open spec fn after_probe(self, k: int, outcome: ProbeView) -> StepView {
        match accepted(outcome) {
            Some(ip) => PassModel { ip: Some(ip), ..self }.turn_to(0, NoticeView::Resolved { ip }),
            None => if k + 1 < self.services.len() {
                StepView {
                    pass: self.at(Phase::Resolving { service: (k + 1) as usize }),
                    command: CommandView::Probe {
                        url: self.services[k + 1],
                        timeout_secs: PROBE_TIMEOUT_SECS,
                    },
                    notice: NoticeView::ProbeRejected,
                }
            } else {
                StepView {
                    pass: self.at(Phase::Finished),
                    command: CommandView::Done(PassOutcome::NoServiceAvailable),
                    notice: NoticeView::ProbeRejected,
                }
            },
        }
    }

    /// The step that the lookup of the domain number `d` leads to: a create
    /// or an update where the plan asks for one, else on to the next domain.
    pub open spec fn after_lookup(self, d: int, outcome: OutcomeView) -> StepView {
        let domain = self.domains[d];
        let ip = self.ip->0;
        match plan_of(lookup_reply(outcome), ip) {
            PlanView::Unchanged => self.turn_to(d + 1, NoticeView::Unchanged { domain, ip }),
            PlanView::Update { record_id, record_ip } => StepView {
                pass: self.at(Phase::Writing { domain: d as usize, creating: false }),
                command: CommandView::Call(self.update(d, record_id)),
                notice: NoticeView::Changed { domain, record_ip, ip },
            },
            PlanView::Create => StepView {
                pass: self.at(Phase::Writing { domain: d as usize, creating: true }),
                command: CommandView::Call(self.create(d)),
                notice: NoticeView::NotFound { domain },
            },
            PlanView::Abandon(error) => self.turn_to(
                d + 1,
                NoticeView::Abandoned { domain, error },
            ),
        }
    }

    /// What the answer to the create, or else the update, of the domain
    /// number `d` says.
    pub open spec fn written(self, d: int, creating: bool, outcome: OutcomeView) -> NoticeView {
        match write_reply(outcome) {
            Ok(_) => NoticeView::Written {
                domain: self.domains[d],
                ip: self.ip->0,
                created: creating,
            },
            Err(error) => NoticeView::WriteFailed {
                domain: self.domains[d],
                created: creating,
                error,
            },
        }
    }

    /// The step that the create or update of the domain number `d` leads
    /// to: on to the next domain, whatever the provider said.
    pub open spec fn after_write(self, d: int, creating: bool, outcome: OutcomeView) -> StepView {
        self.turn_to(d + 1, self.written(d, creating, outcome))
    }

    /// The step that `event` leads to; none where the pass is over or waits
    /// for an event of the other kind.
    pub open spec fn next(self, event: EventView) -> Option<StepView> {
        match (self.phase, event) {
            (Phase::Resolving { service }, EventView::Probed(o)) => Some(
                self.after_probe(service as int, o),
            ),
            (Phase::LookingUp { domain }, EventView::Replied(o)) => Some(
                self.after_lookup(domain as int, o),
            ),
            (Phase::Writing { domain, creating }, EventView::Replied(o)) => Some(
                self.after_write(domain as int, creating, o),
            ),
            _ => None,
        }
    }
}

/// The pass that `config` starts: the first service of its record type is
/// waited for, and its domains are those that the configuration lists.
pub open spec fn initial(config: AppConfig) -> PassModel {
    PassModel {
        phase: Phase::Resolving { service: 0 },
        services: services_of(config.dns_record_type@),
        domains: config.domain_names(),
        ip: None,
        zone: config.cf_zone_id@,
        token: config.cf_api_token@,
        record_type: config.dns_record_type@,
        ttl: config.ttl,
        proxy: config.proxy,
    }
}

/// One reconciliation pass in progress.
#[derive(Debug, Clone, PartialEq, Eq)]
pub struct Pass {
    phase: Phase,
    services: Vec<String>,
    domains: Vec<String>,
    ip: Option<String>,
    zone: String,
    token: String,
    record_type: String,
    ttl: u32,
    proxy: bool,
}

impl Pass {
    /// This pass as a mathematical value.
    pub closed spec fn model(&self) -> PassModel {
        PassModel {
            phase: self.phase,
            services: views(self.services@),
            domains: views(self.domains@),
            ip: match self.ip {
                Some(ip) => Some(ip@),
                None => None,
            },
            zone: self.zone@,
            token: self.token@,
            record_type: self.record_type@,
            ttl: self.ttl,
            proxy: self.proxy,
        }
    }

    /// Whether this pass is one that `start` and `advance` can have made.
    pub open spec fn wf(&self) -> bool {
        self.model().wf()
    }

    /// Starts a pass: the first address service is to be asked.
    pub fn start(config: &AppConfig) -> (r: (Pass, Command))
        ensures
            r.0.wf(),
            r.0.model() == initial(*config),
            r.1@ == (CommandView::Probe {
                url: services_of(config.dns_record_type@)[0],
                timeout_secs: PROBE_TIMEOUT_SECS,
            }),
    {
        let services: Vec<String> = ip_services(config.dns_record_type.as_str());
        let url: String = services[0].clone();
        let domains: Vec<String> = config.get_domain_names();
        assert(domains.len() <= usize::MAX);
        let pass = Pass {
            phase: Phase::Resolving { service: 0 },
            services,
            domains,
            ip: None,
            zone: config.cf_zone_id.clone(),
            token: config.cf_api_token.clone(),
            record_type: config.dns_record_type.clone(),
            ttl: config.ttl,
            proxy: config.proxy,
        };
        (pass, Command::Probe { url, timeout_secs: PROBE_TIMEOUT_SECS })
    }

    /// Where this pass stands.
    pub fn phase(&self) -> (r: Phase)
        ensures
            r == self.model().phase,
    {
        self.phase
    }

    /// The public address, once a service gave it.
    pub fn ip(&self) -> (r: Option<&String>)
        ensures
            match r {
                Some(ip) => self.model().ip == Some(ip@),
                None => self.model().ip is None,
            },
    {
        self.ip.as_ref()
    }

    /// The domains of this pass, in the order in which they are reconciled.
    pub fn domains(&self) -> (r: &Vec<String>)
        ensures
            views(r@) == self.model().domains,
    {
        &self.domains
    }

    /// Turns to the domain number `d`.
    fn turn_to(self, d: usize, notice: Notice) -> (r: (Pass, Step))
        requires
            self.model().ip is Some,
            self.model().services.len() <= usize::MAX,
        ensures
            r.0.wf(),
            self.model().turn_to(d as int, notice@) == (StepView {
                pass: r.0.model(),
                command: r.1.command@,
                notice: r.1.notice@,
            }),
    {
        let mut pass = self;
        if d < pass.domains.len() {
            let request: ApiRequest = lookup_request(
                pass.zone.as_str(),
                pass.domains[d].as_str(),
                pass.record_type.as_str(),
                pass.token.as_str(),
            );
            pass.phase = Phase::LookingUp { domain: d };
            (pass, Step { command: Command::Call(request), notice })
        } else {
            pass.phase = Phase::Finished;
            (pass, Step { command: Command::Done(PassOutcome::Completed), notice })
        }
    }

    /// Takes the event that the last command led to, and says what to do
    /// next. An event that the pass does not wait for changes nothing.
    pub fn advance(self, event: Event) -> (r: (Pass, Option<Step>))
        requires
            self.wf(),
        ensures
            r.0.wf(),
            match r.1 {
                Some(step) => self.model().next(event@) == Some(
                    StepView { pass: r.0.model(), command: step.command@, notice: step.notice@ },
                ),
                None => self.model().next(event@) is None && r.0.model() == self.model(),
            },
    {
        let mut pass = self;
        match event {
            Event::Probed(outcome) => match pass.phase {
                Phase::Resolving { service } => pass.after_probe(service, outcome),
                _ => (pass, None),
            },
            Event::Replied(outcome) => match pass.phase {
                Phase::LookingUp { domain } => pass.after_lookup(domain, outcome),
                Phase::Writing { domain, creating } => pass.after_write(domain, creating, outcome),
                _ => (pass, None),
            },
        }
    }

    /// Takes the answer of the address service number `service`.
    fn after_probe(self, service: usize, outcome: ProbeOutcome) -> (r: (Pass, Option<Step>))
        requires
            self.wf(),
            self.model().phase == (Phase::Resolving { service }),
        ensures
            r.0.wf(),
            r.1 matches Some(step) && self.model().after_probe(service as int, outcome@) == (
            StepView { pass: r.0.model(), command: step.command@, notice: step.notice@ }),
    {
        let mut pass = self;
        match accept_probe(&outcome) {
            Some(ip) => {
                let notice = Notice::Resolved { ip: ip.clone() };
                pass.ip = Some(ip);
                let (pass, step) = pass.turn_to(0, notice);
                (pass, Some(step))
            },
            None => {
                let count: usize = pass.services.len();
                if service + 1 < count {
                    let url: String = pass.services[service + 1].clone();
                    pass.phase = Phase::Resolving { service: service + 1 };
                    let command = Command::Probe { url, timeout_secs: PROBE_TIMEOUT_SECS };
                    (pass, Some(Step { command, notice: Notice::ProbeRejected }))
                } else {
                    pass.phase = Phase::Finished;
                    let command = Command::Done(PassOutcome::NoServiceAvailable);
                    (pass, Some(Step { command, notice: Notice::ProbeRejected }))
                }
            },
        }
    }

    /// Takes the outcome of the lookup of the domain number `domain`.
    fn after_lookup(self, domain: usize, outcome: HttpOutcome) -> (r: (Pass, Option<Step>))
        requires
            self.wf(),
            self.model().phase == (Phase::LookingUp { domain }),
        ensures
            r.0.wf(),
            r.1 matches Some(step) && self.model().after_lookup(domain as int, outcome@) == (
            StepView { pass: r.0.model(), command: step.command@, notice: step.notice@ }),
    {
        let mut pass = self;
        let found = read_lookup(outcome);
        let name: String = pass.domains[domain].clone();
        let ip: String = match &pass.ip {
            Some(ip) => ip.clone(),
            None => String::new(),
        };
        match plan_domain(found, ip.as_str()) {
            DomainPlan::Unchanged => {
                let (pass, step) = pass.turn_to(domain + 1, Notice::Unchanged { domain: name, ip });
                (pass, Some(step))
            },
            DomainPlan::Update { record_id, record_ip } => {
                let request: ApiRequest = update_request(
                    pass.zone.as_str(),
                    record_id.as_str(),
                    name.as_str(),
                    pass.record_type.as_str(),
                    pass.token.as_str(),
                    ip.as_str(),
                    pass.ttl,
                    pass.proxy,
                );
                pass.phase = Phase::Writing { domain, creating: false };
                let notice = Notice::Changed { domain: name, record_ip, ip };
                (pass, Some(Step { command: Command::Call(request), notice }))
            },
            DomainPlan::Create => {
                let request: ApiRequest = create_request(
                    pass.zone.as_str(),
                    name.as_str(),
                    pass.record_type.as_str(),
                    pass.token.as_str(),
                    ip.as_str(),
                    pass.ttl,
                    pass.proxy,
                );
                pass.phase = Phase::Writing { domain, creating: true };
                let notice = Notice::NotFound { domain: name };
                (pass, Some(Step { command: Command::Call(request), notice }))
            },
            DomainPlan::Abandon(error) => {
                let notice = Notice::Abandoned { domain: name, error };
                let (pass, step) = pass.turn_to(domain + 1, notice);
                (pass, Some(step))
            },
        }
    }

    /// Takes the outcome of the create, or else the update, of the domain
    /// number `domain`.
    fn after_write(self, domain: usize, creating: bool, outcome: HttpOutcome) -> (r: (
        Pass,
        Option<Step>,
    ))
        requires
            self.wf(),
            self.model().phase == (Phase::Writing { domain, creating }),
        ensures
            r.0.wf(),
            r.1 matches Some(step) && self.model().after_write(domain as int, creating, outcome@)
                == (StepView { pass: r.0.model(), command: step.command@, notice: step.notice@ }),
    {
        let pass = self;
        let name: String = pass.domains[domain].clone();
        let notice = match read_write(outcome) {
            Ok(_) => {
                let ip: String = match &pass.ip {
                    Some(ip) => ip.clone(),
                    None => String::new(),
                };
                Notice::Written { domain: name, ip, created: creating }
            },
            Err(error) => Notice::WriteFailed { domain: name, created: creating, error },
        };
        let (pass, step) = pass.turn_to(domain + 1, notice);
        (pass, Some(step))
    }
}

} // verus!

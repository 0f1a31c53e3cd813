use cloudflare_ddns::config::AppConfig;
use cloudflare_ddns::provider::{
    create_request, lookup_request, update_request, DnsRecord, HttpOutcome, ProviderError,
};
use cloudflare_ddns::reconcile::{
    plan_domain, Command, DomainPlan, Event, Notice, Pass, PassOutcome, Phase, Step,
};
use cloudflare_ddns::resolver::ProbeOutcome;
use cloudflare_ddns::scheduler::{after_pass, exit_code, AfterPass};
use cloudflare_ddns::config::ConfigError;

fn config(names: &str) -> AppConfig {
    AppConfig {
        cf_api_token: "tok".to_string(),
        cf_zone_id: "z".to_string(),
        dns_record_name: names.to_string(),
        dns_record_type: "A".to_string(),
        proxy: false,
        ttl: 120,
        network: None,
        update_interval: None,
        platform_identifier: "test".to_string(),
    }
}

fn answer(body: &str) -> Event {
    Event::Probed(ProbeOutcome::Replied { success: true, body: body.to_string() })
}

fn reply(text: &str) -> Event {
    Event::Replied(HttpOutcome::Body(text.as_bytes().to_vec()))
}

fn found(id: &str, content: &str) -> Event {
    reply(&format!(
        r#"{{"success":true,"errors":[],"result":[{{"id":"{}","content":"{}"}}]}}"#,
        id, content
    ))
}

fn step(pass: Pass, event: Event) -> (Pass, Step) {
    let (pass, step) = pass.advance(event);
    (pass, step.unwrap())
}

fn resolved(names: &str, ip: &str) -> (Pass, Step) {
    let (pass, _) = Pass::start(&config(names));
    step(pass, answer(ip))
}

fn lookup(name: &str) -> Command {
    Command::Call(lookup_request("z", name, "A", "tok"))
}

#[test]
fn a_pass_starts_with_the_first_service() {
    let (pass, command) = Pass::start(&config("a.com"));
    assert_eq!(
        command,
        Command::Probe { url: "https://api.ipify.org".to_string(), timeout_secs: 5 }
    );
    assert_eq!(pass.phase(), Phase::Resolving { service: 0 });
    assert_eq!(pass.ip(), None);
    assert_eq!(pass.domains(), &vec!["a.com".to_string()]);
    let mut v6 = config("a.com");
    v6.dns_record_type = "AAAA".to_string();
    let (_, command) = Pass::start(&v6);
    assert_eq!(
        command,
        Command::Probe { url: "https://api6.ipify.org".to_string(), timeout_secs: 5 }
    );
}

#[test]
fn a_pass_reconciles_the_listed_domains() {
    let (pass, _) = Pass::start(&config("a.com, ,b.com"));
    assert_eq!(pass.domains(), &vec!["a.com".to_string(), "b.com".to_string()]);
}

#[test]
fn an_address_leads_to_the_first_lookup() {
    let (pass, step) = resolved("a.com,b.com", "1.2.3.4\n");
    assert_eq!(step.notice, Notice::Resolved { ip: "1.2.3.4".to_string() });
    assert_eq!(step.command, lookup("a.com"));
    assert_eq!(pass.phase(), Phase::LookingUp { domain: 0 });
    assert_eq!(pass.ip(), Some(&"1.2.3.4".to_string()));
}

#[test]
fn second_service_answers_and_third_is_not_asked() {
    let (pass, _) = Pass::start(&config("a.com"));
    let (pass, first) = step(pass, Event::Probed(ProbeOutcome::Failed));
    assert_eq!(first.notice, Notice::ProbeRejected);
    assert_eq!(
        first.command,
        Command::Probe { url: "https://ident.me".to_string(), timeout_secs: 5 }
    );
    assert_eq!(pass.phase(), Phase::Resolving { service: 1 });
    let (pass, second) = step(pass, answer("9.9.9.9"));
    assert_eq!(second.notice, Notice::Resolved { ip: "9.9.9.9".to_string() });
    assert_eq!(second.command, lookup("a.com"));
    assert_eq!(pass.ip(), Some(&"9.9.9.9".to_string()));
}

#[test]
fn no_service_available_ends_the_pass() {
    let (pass, _) = Pass::start(&config("a.com"));
    let (pass, _) = step(pass, Event::Probed(ProbeOutcome::Failed));
    let (pass, second) =
        step(pass, Event::Probed(ProbeOutcome::Replied { success: false, body: "x".to_string() }));
    assert_eq!(
        second.command,
        Command::Probe { url: "https://ifconfig.me/ip".to_string(), timeout_secs: 5 }
    );
    let (pass, third) = step(pass, answer("  "));
    assert_eq!(third.command, Command::Done(PassOutcome::NoServiceAvailable));
    assert_eq!(pass.phase(), Phase::Finished);
    assert_eq!(pass.ip(), None);
}

#[test]
fn unchanged_record_issues_no_call() {
    let (pass, _) = resolved("a.com", "1.2.3.4");
    let (pass, step) = step(pass, found("r1", "1.2.3.4"));
    assert_eq!(
        step.notice,
        Notice::Unchanged { domain: "a.com".to_string(), ip: "1.2.3.4".to_string() }
    );
    assert_eq!(step.command, Command::Done(PassOutcome::Completed));
    assert_eq!(pass.phase(), Phase::Finished);
}

#[test]
fn changed_record_gets_exactly_one_update() {
    let (pass, _) = resolved("a.com,b.com", "5.6.7.8");
    let (pass, first) = step(pass, found("r1", "1.2.3.4"));
    assert_eq!(
        first.notice,
        Notice::Changed {
            domain: "a.com".to_string(),
            record_ip: "1.2.3.4".to_string(),
            ip: "5.6.7.8".to_string(),
        }
    );
    assert_eq!(
        first.command,
        Command::Call(update_request("z", "r1", "a.com", "A", "tok", "5.6.7.8", 120, false))
    );
    assert_eq!(pass.phase(), Phase::Writing { domain: 0, creating: false });
    let (pass, second) = step(pass, reply(r#"{"success":true,"result":{"id":"r1"}}"#));
    assert_eq!(
        second.notice,
        Notice::Written { domain: "a.com".to_string(), ip: "5.6.7.8".to_string(), created: false }
    );
    assert_eq!(second.command, lookup("b.com"));
    assert_eq!(pass.phase(), Phase::LookingUp { domain: 1 });
}

#[test]
fn missing_record_gets_exactly_one_create() {
    let (pass, _) = resolved("a.com", "5.6.7.8");
    let (pass, first) = step(pass, reply(r#"{"success":true,"errors":[],"result":[]}"#));
    assert_eq!(first.notice, Notice::NotFound { domain: "a.com".to_string() });
    assert_eq!(
        first.command,
        Command::Call(create_request("z", "a.com", "A", "tok", "5.6.7.8", 120, false))
    );
    assert_eq!(pass.phase(), Phase::Writing { domain: 0, creating: true });
    let (pass, second) = step(pass, reply(r#"{"success":true}"#));
    assert_eq!(
        second.notice,
        Notice::Written { domain: "a.com".to_string(), ip: "5.6.7.8".to_string(), created: true }
    );
    assert_eq!(second.command, Command::Done(PassOutcome::Completed));
    assert_eq!(pass.phase(), Phase::Finished);
}

#[test]
fn failure_of_one_domain_does_not_stop_the_next() {
    let (pass, _) = resolved("a.com,b.com", "5.6.7.8");
    let (pass, first) = step(pass, reply(r#"{"success":false,"errors":["denied"]}"#));
    assert_eq!(
        first.notice,
        Notice::Abandoned {
            domain: "a.com".to_string(),
            error: ProviderError::Api(r#"["denied"]"#.to_string()),
        }
    );
    assert_eq!(first.command, lookup("b.com"));
    let (pass, second) = step(pass, found("r2", "1.2.3.4"));
    assert_eq!(
        second.command,
        Command::Call(update_request("z", "r2", "b.com", "A", "tok", "5.6.7.8", 120, false))
    );
    let (_, third) = step(pass, Event::Replied(HttpOutcome::Failed("reset".to_string())));
    assert_eq!(
        third.notice,
        Notice::WriteFailed {
            domain: "b.com".to_string(),
            created: false,
            error: ProviderError::Transport("reset".to_string()),
        }
    );
    assert_eq!(third.command, Command::Done(PassOutcome::Completed));
}

#[test]
fn failed_write_does_not_stop_the_next() {
    let (pass, _) = resolved("a.com,b.com", "5.6.7.8");
    let (pass, _) = step(pass, reply(r#"{"success":true,"result":[]}"#));
    let (pass, second) = step(pass, reply(r#"{"success":false,"errors":[81057]}"#));
    assert_eq!(
        second.notice,
        Notice::WriteFailed {
            domain: "a.com".to_string(),
            created: true,
            error: ProviderError::Api("[81057]".to_string()),
        }
    );
    assert_eq!(second.command, lookup("b.com"));
    assert_eq!(pass.phase(), Phase::LookingUp { domain: 1 });
}

#[test]
fn record_without_identifier_is_abandoned() {
    let (pass, _) = resolved("a.com", "5.6.7.8");
    let (_, first) = step(pass, reply(r#"{"success":true,"result":[{"content":"1.2.3.4"}]}"#));
    assert_eq!(
        first.notice,
        Notice::Abandoned { domain: "a.com".to_string(), error: ProviderError::MissingRecordId }
    );
    assert_eq!(first.command, Command::Done(PassOutcome::Completed));
}

#[test]
fn an_event_of_the_wrong_kind_changes_nothing() {
    let (pass, _) = Pass::start(&config("a.com"));
    let before = pass.clone();
    let (pass, none) = pass.advance(reply("{}"));
    assert_eq!(none, None);
    assert_eq!(pass, before);
    let (pass, _) = step(pass, answer("1.2.3.4"));
    let before = pass.clone();
    let (pass, none) = pass.advance(answer("1.2.3.4"));
    assert_eq!(none, None);
    assert_eq!(pass, before);
    let (pass, _) = step(pass, found("r", "1.2.3.4"));
    assert_eq!(pass.phase(), Phase::Finished);
    let (pass, none) = pass.advance(reply("{}"));
    assert_eq!(none, None);
    assert_eq!(pass.phase(), Phase::Finished);
}

#[test]
fn a_pass_without_domains_ends_after_the_address() {
    let (pass, step) = resolved(" , ", "1.2.3.4");
    assert_eq!(step.command, Command::Done(PassOutcome::Completed));
    assert_eq!(pass.phase(), Phase::Finished);
}

#[test]
fn plan_compares_the_exact_text() {
    let record = DnsRecord { id: Some("r".to_string()), content: Some("::1".to_string()) };
    assert_eq!(plan_domain(Ok(Some(record.clone())), "::1"), DomainPlan::Unchanged);
    assert_eq!(
        plan_domain(Ok(Some(record)), "0:0:0:0:0:0:0:1"),
        DomainPlan::Update { record_id: "r".to_string(), record_ip: "::1".to_string() }
    );
}

#[test]
fn plan_for_each_lookup() {
    assert_eq!(plan_domain(Ok(None), "1.2.3.4"), DomainPlan::Create);
    assert_eq!(
        plan_domain(Err(ProviderError::Malformed("m".to_string())), "1.2.3.4"),
        DomainPlan::Abandon(ProviderError::Malformed("m".to_string()))
    );
    let bare = DnsRecord { id: Some("r".to_string()), content: None };
    assert_eq!(plan_domain(Ok(Some(bare.clone())), ""), DomainPlan::Unchanged);
    assert_eq!(
        plan_domain(Ok(Some(bare)), "1.2.3.4"),
        DomainPlan::Update { record_id: "r".to_string(), record_ip: String::new() }
    );
    let nameless = DnsRecord { id: None, content: Some("1.2.3.4".to_string()) };
    assert_eq!(plan_domain(Ok(Some(nameless.clone())), "1.2.3.4"), DomainPlan::Unchanged);
    assert_eq!(
        plan_domain(Ok(Some(nameless)), "5.6.7.8"),
        DomainPlan::Abandon(ProviderError::MissingRecordId)
    );
}

#[test]
fn one_shot_mode_ends_after_any_pass() {
    let cfg = config("a.com");
    assert_eq!(after_pass(&cfg, true, PassOutcome::Completed), AfterPass::Exit);
    assert_eq!(after_pass(&cfg, true, PassOutcome::NoServiceAvailable), AfterPass::Exit);
}

#[test]
fn continuous_mode_repeats_after_the_interval() {
    let mut cfg = config("a.com");
    assert_eq!(
        after_pass(&cfg, false, PassOutcome::NoServiceAvailable),
        AfterPass::SleepThenRepeat { secs: 300 }
    );
    cfg.update_interval = Some(45);
    assert_eq!(
        after_pass(&cfg, false, PassOutcome::Completed),
        AfterPass::SleepThenRepeat { secs: 45 }
    );
    assert_eq!(
        after_pass(&cfg, false, PassOutcome::NoServiceAvailable),
        AfterPass::SleepThenRepeat { secs: 45 }
    );
}

#[test]
fn exit_code_follows_the_configuration_only() {
    assert_eq!(exit_code(&Ok(())), 0);
    assert_eq!(exit_code(&Err(ConfigError::TtlOutOfRange)), 1);
    assert_eq!(exit_code(&Err(ConfigError::MissingApiToken)), 1);
}

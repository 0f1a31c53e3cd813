use cloudflare_ddns::resolver::{accept_probe, ip_services, ProbeOutcome, PROBE_TIMEOUT_SECS};

fn reply(success: bool, body: &str) -> ProbeOutcome {
    ProbeOutcome::Replied { success, body: body.to_string() }
}

#[test]
fn services_for_ipv4() {
    let expected = vec!["https://api.ipify.org", "https://ident.me", "https://ifconfig.me/ip"];
    assert_eq!(ip_services("A"), expected);
    assert_eq!(ip_services(""), expected);
    assert_eq!(ip_services("aaaa"), expected);
}

#[test]
fn services_for_ipv6() {
    assert_eq!(
        ip_services("AAAA"),
        vec!["https://api6.ipify.org", "https://ident.me", "https://ifconfig.me/ip"]
    );
}

#[test]
fn the_two_lists_differ_in_the_first_service_only() {
    let v4 = ip_services("A");
    let v6 = ip_services("AAAA");
    assert_ne!(v4[0], v6[0]);
    assert_eq!(v4[1..], v6[1..]);
}

#[test]
fn probe_timeout_is_five_seconds() {
    assert_eq!(PROBE_TIMEOUT_SECS, 5);
}

#[test]
fn a_successful_answer_is_trimmed() {
    assert_eq!(accept_probe(&reply(true, "9.9.9.9")), Some("9.9.9.9".to_string()));
    assert_eq!(accept_probe(&reply(true, " 9.9.9.9\r\n")), Some("9.9.9.9".to_string()));
}

#[test]
fn an_answer_is_not_examined() {
    assert_eq!(accept_probe(&reply(true, "not an address")), Some("not an address".to_string()));
}

#[test]
fn an_empty_or_failed_answer_is_refused() {
    assert_eq!(accept_probe(&reply(true, "")), None);
    assert_eq!(accept_probe(&reply(true, " \n\t")), None);
    assert_eq!(accept_probe(&reply(false, "9.9.9.9")), None);
    assert_eq!(accept_probe(&ProbeOutcome::Failed), None);
}

use cloudflare_ddns::provider::{
    create_request, lookup_request, lookup_result, read_envelope, read_lookup, read_write,
    record_payload, update_request, write_result, ApiRequest, DnsRecord, Envelope, HttpMethod,
    HttpOutcome, ProviderError,
};

fn body(text: &str) -> HttpOutcome {
    HttpOutcome::Body(text.as_bytes().to_vec())
}

fn record(id: &str, content: &str) -> DnsRecord {
    DnsRecord { id: Some(id.to_string()), content: Some(content.to_string()) }
}

#[test]
fn lookup_request_is_a_filtered_get() {
    let request = lookup_request("zone1", "a.com", "AAAA", "secret");
    assert_eq!(
        request,
        ApiRequest {
            method: HttpMethod::Get,
            url: "https://api.cloudflare.com/client/v4/zones/zone1/dns_records".to_string(),
            authorization: "Bearer secret".to_string(),
            query: vec![
                ("name".to_string(), "a.com".to_string()),
                ("type".to_string(), "AAAA".to_string()),
            ],
            body: None,
            timeout_secs: 30,
        }
    );
}

#[test]
fn create_request_posts_the_payload() {
    let request = create_request("zone1", "a.com", "A", "secret", "5.6.7.8", 120, false);
    assert_eq!(
        request,
        ApiRequest {
            method: HttpMethod::Post,
            url: "https://api.cloudflare.com/client/v4/zones/zone1/dns_records".to_string(),
            authorization: "Bearer secret".to_string(),
            query: vec![],
            body: Some(
                r#"{"content":"5.6.7.8","name":"a.com","proxied":false,"ttl":120,"type":"A"}"#
                    .to_string()
            ),
            timeout_secs: 30,
        }
    );
}

#[test]
fn update_request_puts_to_the_record() {
    let request = update_request("zone1", "rec9", "a.com", "A", "secret", "5.6.7.8", 86400, true);
    assert_eq!(request.method, HttpMethod::Put);
    assert_eq!(
        request.url,
        "https://api.cloudflare.com/client/v4/zones/zone1/dns_records/rec9"
    );
    assert_eq!(request.authorization, "Bearer secret");
    assert!(request.query.is_empty());
    assert_eq!(
        request.body.as_deref(),
        Some(r#"{"content":"5.6.7.8","name":"a.com","proxied":true,"ttl":86400,"type":"A"}"#)
    );
    assert_eq!(request.timeout_secs, 30);
}

#[test]
fn payload_escapes_its_texts() {
    assert_eq!(
        record_payload("A", "a\"b", "1.2.3.4\n", 1, false),
        r#"{"content":"1.2.3.4\n","name":"a\"b","proxied":false,"ttl":1,"type":"A"}"#
    );
}

#[test]
fn payload_is_json_with_the_five_members() {
    let text = record_payload("AAAA", "v6.example.com", "::1", 300, true);
    let value: serde_json::Value = serde_json::from_str(&text).unwrap();
    assert_eq!(value["type"], "AAAA");
    assert_eq!(value["name"], "v6.example.com");
    assert_eq!(value["content"], "::1");
    assert_eq!(value["ttl"], 300);
    assert_eq!(value["proxied"], true);
    assert_eq!(value.as_object().unwrap().len(), 5);
}

#[test]
fn envelope_is_read_from_json() {
    let reply = body(
        r#"{"success":true,"errors":[],"result":[
            {"id":"r1","name":"a.com","type":"A","content":"1.2.3.4","ttl":120,"proxied":false},
            {"id":"r2","content":"9.9.9.9"},
            {"id":7}
        ]}"#,
    );
    assert_eq!(
        read_envelope(reply),
        Ok(Envelope {
            success: Some(true),
            errors: "[]".to_string(),
            records: Some(vec![
                record("r1", "1.2.3.4"),
                record("r2", "9.9.9.9"),
                DnsRecord { id: None, content: None },
            ]),
        })
    );
}

#[test]
fn envelope_without_members() {
    assert_eq!(
        read_envelope(body("{}")),
        Ok(Envelope { success: None, errors: "null".to_string(), records: None })
    );
    assert_eq!(
        read_envelope(body(r#"{"success":"yes","result":{"id":"x"},"errors":{"code":1}}"#)),
        Ok(Envelope { success: None, errors: r#"{"code":1}"#.to_string(), records: None })
    );
}

#[test]
fn envelope_of_a_failed_request() {
    assert_eq!(
        read_envelope(HttpOutcome::Failed("connection refused".to_string())),
        Err(ProviderError::Transport("connection refused".to_string()))
    );
}

#[test]
fn envelope_of_a_body_that_is_no_json() {
    match read_envelope(body("<html>")) {
        Err(ProviderError::Malformed(message)) => assert!(!message.is_empty()),
        other => panic!("unexpected {:?}", other),
    }
    assert!(matches!(
        read_envelope(HttpOutcome::Body(vec![0xff, 0xfe])),
        Err(ProviderError::Malformed(_))
    ));
}

#[test]
fn lookup_takes_the_first_record() {
    let reply = body(
        r#"{"success":true,"errors":[],"result":[{"id":"r1","content":"1.2.3.4"},{"id":"r2","content":"5.6.7.8"}]}"#,
    );
    assert_eq!(read_lookup(reply), Ok(Some(record("r1", "1.2.3.4"))));
}

#[test]
fn lookup_of_an_empty_list_finds_nothing() {
    assert_eq!(read_lookup(body(r#"{"success":true,"errors":[],"result":[]}"#)), Ok(None));
    assert_eq!(read_lookup(body(r#"{"success":true,"result":null}"#)), Ok(None));
    assert_eq!(read_lookup(body(r#"{"success":true}"#)), Ok(None));
}

#[test]
fn lookup_surfaces_the_providers_errors() {
    let reply = body(
        r#"{"success":false,"errors":[{"code":9109,"message":"Invalid access token"}],"result":[{"id":"r1","content":"1.2.3.4"}]}"#,
    );
    assert_eq!(
        read_lookup(reply),
        Err(ProviderError::Api(r#"[{"code":9109,"message":"Invalid access token"}]"#.to_string()))
    );
    assert_eq!(
        read_lookup(body(r#"{"result":[]}"#)),
        Err(ProviderError::Api("null".to_string()))
    );
}

#[test]
fn lookup_result_on_a_given_envelope() {
    let env = Envelope {
        success: Some(true),
        errors: "[]".to_string(),
        records: Some(vec![record("a", "1.1.1.1"), record("b", "2.2.2.2")]),
    };
    assert_eq!(lookup_result(env), Ok(Some(record("a", "1.1.1.1"))));
    let env = Envelope { success: Some(false), errors: "E".to_string(), records: Some(vec![]) };
    assert_eq!(lookup_result(env), Err(ProviderError::Api("E".to_string())));
    let env = Envelope { success: None, errors: "E".to_string(), records: None };
    assert_eq!(lookup_result(env), Err(ProviderError::Api("E".to_string())));
}

#[test]
fn write_succeeds_exactly_on_a_true_flag() {
    assert_eq!(read_write(body(r#"{"success":true,"result":{"id":"r1"}}"#)), Ok(()));
    assert_eq!(
        read_write(body(r#"{"success":false,"errors":["no"]}"#)),
        Err(ProviderError::Api(r#"["no"]"#.to_string()))
    );
    assert_eq!(
        read_write(body(r#"{"success":1}"#)),
        Err(ProviderError::Api("null".to_string()))
    );
    assert_eq!(
        read_write(HttpOutcome::Failed("timed out".to_string())),
        Err(ProviderError::Transport("timed out".to_string()))
    );
    let env = Envelope { success: Some(true), errors: "x".to_string(), records: None };
    assert_eq!(write_result(env), Ok(()));
}

#[test]
fn provider_error_messages() {
    assert_eq!(
        ProviderError::Api("[1]".to_string()).message(),
        "Cloudflare API error: [1]"
    );
    assert_eq!(ProviderError::Transport("down".to_string()).message(), "down");
    assert_eq!(ProviderError::Malformed("bad".to_string()).message(), "bad");
    assert_eq!(ProviderError::MissingRecordId.message(), "DNS record has no id");
}

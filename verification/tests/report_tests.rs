use cloudflare_ddns::provider::{lookup_request, update_request, ProviderError};
use cloudflare_ddns::reconcile::{Command, Notice, PassOutcome, Step};
use cloudflare_ddns::report::{
    describe, describe_command, describe_notice, info_status, info_step, Line, Sink,
};

const NOW: &str = "2024-01-02 03:04:05";

fn screen(text: &str) -> Line {
    Line { sink: Sink::Screen, text: text.to_string() }
}

fn dashes(title: &str) -> Line {
    let side = "-".repeat((60 - title.chars().count()) / 2);
    screen(&format!("{}{}{}", side, title, side))
}

#[test]
fn test_info_step_alignment() {
    info_step("Configuration", 60, '=');
    info_step("Initial DDNS Update", 60, '=');
    info_step("get public IP", 60, '-');
    info_step("get DNS record for example.com", 60, '-');
    info_step("Starting update loop (300s interval)", 60, '=');

    info_step("Test", 20, '*');
    info_step("A", 10, '-');

    info_step("This is a very long message that exceeds the specified length", 30, '+');
}

#[test]
fn test_info_status() {
    info_status("Test message", 0);
    info_status("Error message", 1);
    info_status("Info message", 2);
}

#[test]
fn banner_centres_the_message() {
    assert_eq!(info_step("Test", 20, '*'), "********Test********");
    assert_eq!(info_step("get public IP", 20, '-'), "---get public IP---");
    assert_eq!(
        info_step("Configuration", 60, '='),
        format!("{}Configuration{}", "=".repeat(23), "=".repeat(23))
    );
}

#[test]
fn banner_of_odd_rest_is_one_short() {
    assert_eq!(info_step("A", 10, '-'), "----A----");
    assert_eq!(info_step("ab", 3, '-'), "ab");
}

#[test]
fn banner_leaves_a_long_message_alone() {
    let long = "This is a very long message that exceeds the specified length";
    assert_eq!(info_step(long, 30, '+'), long);
    assert_eq!(info_step("abc", 3, '+'), "abc");
    assert_eq!(info_step("", 0, '+'), "");
}

#[test]
fn banner_counts_characters_and_cuts_bytes() {
    assert_eq!(info_step("é", 4, '-'), "-é-");
    assert_eq!(info_step("é", 5, '-'), "--é-");
    assert_eq!(info_step("éé", 5, '-'), "-éé");
    assert_eq!(info_step("日本", 3, '='), "日");
}

#[test]
fn banner_is_cut_before_a_character_that_does_not_fit() {
    assert_eq!(info_step("é", 5, '·'), "··");
    assert_eq!(info_step("é", 3, 'x'), "xé");
}

#[test]
fn banner_matches_a_byte_slice_where_one_can_be_taken() {
    let messages = ["", "a", "Configuration", "é", "éé", "日本語", "a é b", "🚀 start"];
    for msg in messages {
        for length in 0..40usize {
            for fill in ['-', '=', '·', '界'] {
                let count = msg.chars().count();
                let expected = if count >= length {
                    msg.to_string()
                } else {
                    let side = fill.to_string().repeat((length - count) / 2);
                    let whole = format!("{}{}{}", side, msg, side);
                    let end = length.min(whole.len());
                    if !whole.is_char_boundary(end) {
                        continue;
                    }
                    whole[..end].to_string()
                };
                assert_eq!(info_step(msg, length, fill), expected);
            }
        }
    }
}

#[test]
fn status_line_has_icon_and_message() {
    assert_eq!(info_status("Test message", 0), "✅ Test message");
    assert_eq!(info_status("Error message", 1), "❌ Error message");
    assert_eq!(info_status("Info message", 2), "ℹ️ Info message");
    assert_eq!(info_status("", 255), "ℹ️ ");
}

#[test]
fn lines_of_the_address_search() {
    assert_eq!(describe_notice(&Notice::ProbeRejected, NOW), vec![]);
    assert_eq!(
        describe_notice(&Notice::Resolved { ip: "9.9.9.9".to_string() }, NOW),
        vec![screen("✅ 2024-01-02 03:04:05 - Public IP address 9.9.9.9")]
    );
    assert_eq!(
        describe_command(&Command::Done(PassOutcome::NoServiceAvailable), NOW),
        vec![screen(
            "❌ 2024-01-02 03:04:05 - Failed to get public IP address: Unable to obtain public IP from any service"
        )]
    );
    assert_eq!(describe_command(&Command::Done(PassOutcome::Completed), NOW), vec![]);
    assert_eq!(
        describe_command(&Command::Probe { url: "https://ident.me".to_string(), timeout_secs: 5 }, NOW),
        vec![]
    );
}

#[test]
fn lines_of_an_unchanged_record() {
    let notice = Notice::Unchanged { domain: "a.com".to_string(), ip: "1.2.3.4".to_string() };
    assert_eq!(
        describe_notice(&notice, NOW),
        vec![
            screen("✅ 2024-01-02 03:04:05 - DNS record a.com found"),
            screen("✅ 2024-01-02 03:04:05 - IP not changed (1.2.3.4) for a.com"),
        ]
    );
}

#[test]
fn lines_of_a_changed_record() {
    let notice = Notice::Changed {
        domain: "a.com".to_string(),
        record_ip: "1.2.3.4".to_string(),
        ip: "5.6.7.8".to_string(),
    };
    assert_eq!(
        describe_notice(&notice, NOW),
        vec![
            screen("✅ 2024-01-02 03:04:05 - DNS record a.com found"),
            screen(
                "✅ 2024-01-02 03:04:05 - IP change detected: Record IP 1.2.3.4, Current IP 5.6.7.8 for a.com"
            ),
            dashes("update DNS record for a.com"),
        ]
    );
}

#[test]
fn lines_of_a_missing_record() {
    assert_eq!(
        describe_notice(&Notice::NotFound { domain: "a.com".to_string() }, NOW),
        vec![screen("❌ 2024-01-02 03:04:05 - DNS record a.com not found, attempting to add")]
    );
}

#[test]
fn lines_of_a_write() {
    let written = |created| Notice::Written {
        domain: "a.com".to_string(),
        ip: "5.6.7.8".to_string(),
        created,
    };
    assert_eq!(
        describe_notice(&written(false), NOW),
        vec![
            Line {
                sink: Sink::InfoLog,
                text: "✅ Successfully updated DNS record: a.com -> 5.6.7.8".to_string(),
            },
            screen("✅ 2024-01-02 03:04:05 - DNS record a.com updated to 5.6.7.8"),
        ]
    );
    assert_eq!(
        describe_notice(&written(true), NOW),
        vec![
            Line {
                sink: Sink::InfoLog,
                text: "✅ Successfully added DNS record: a.com -> 5.6.7.8".to_string(),
            },
            screen("✅ 2024-01-02 03:04:05 - DNS record a.com added successfully"),
        ]
    );
}

#[test]
fn lines_of_a_failure() {
    let error = ProviderError::Api("[7]".to_string());
    let failed = |created| Notice::WriteFailed {
        domain: "a.com".to_string(),
        created,
        error: ProviderError::Api("[7]".to_string()),
    };
    let log = |text: &str| vec![Line { sink: Sink::ErrorLog, text: text.to_string() }];
    assert_eq!(
        describe_notice(&Notice::Abandoned { domain: "a.com".to_string(), error }, NOW),
        log("❌ Failed to get DNS record for a.com: Cloudflare API error: [7]")
    );
    assert_eq!(
        describe_notice(&failed(false), NOW),
        log("❌ Failed to update domain a.com: Cloudflare API error: [7]")
    );
    assert_eq!(
        describe_notice(&failed(true), NOW),
        log("❌ Failed to add domain a.com: Cloudflare API error: [7]")
    );
}

#[test]
fn lines_of_a_command() {
    let lookup = Command::Call(lookup_request("z", "b.com", "A", "tok"));
    assert_eq!(describe_command(&lookup, NOW), vec![dashes("get DNS record for b.com")]);
    let update = Command::Call(update_request("z", "r", "b.com", "A", "tok", "1.1.1.1", 1, false));
    assert_eq!(describe_command(&update, NOW), vec![]);
}

#[test]
fn lines_of_a_step_tell_what_was_found_first() {
    let step = Step {
        command: Command::Call(lookup_request("z", "b.com", "A", "tok")),
        notice: Notice::Unchanged { domain: "a.com".to_string(), ip: "1.2.3.4".to_string() },
    };
    assert_eq!(
        describe(&step, NOW),
        vec![
            screen("✅ 2024-01-02 03:04:05 - DNS record a.com found"),
            screen("✅ 2024-01-02 03:04:05 - IP not changed (1.2.3.4) for a.com"),
            dashes("get DNS record for b.com"),
        ]
    );
}

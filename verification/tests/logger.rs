use log_scrapper::logger::{bind_address, create_logs, log_count, logs_for_draw, transport_log};

fn s(text: &str) -> String {
    text.to_string()
}

fn is_fake_text(t: &str) -> bool {
    (5..20).contains(&t.len()) && t.chars().all(|c| c.is_ascii_alphanumeric())
}

#[test]
fn log_count_is_draw_mod_ten_plus_one() {
    assert_eq!(log_count(0), 1);
    assert_eq!(log_count(9), 10);
    assert_eq!(log_count(10), 1);
    assert_eq!(log_count(255), 6);
}

#[test]
fn transport_log_takes_fields_and_cursor() {
    let fields = (s("journal"), 3, s("boot"), s("msg"), s("sshd"), 1000, s("host"), 4, s("machine"), 5, s("made-up"), 6);
    let log = transport_log(fields.clone(), &None);
    assert_eq!(log.__cursor, "made-up");
    assert_eq!(log._transport, "journal");
    assert_eq!(log.__realtime_timestamp, 1000);
    assert_eq!(log.priority, 6);
    let log = transport_log(fields, &Some(s("wanted")));
    assert_eq!(log.__cursor, "wanted");
    assert_eq!(log.message, "msg");
}

#[test]
fn created_logs_carry_the_requested_cursor() {
    for _ in 0..50 {
        let logs = create_logs(Some(s("s=1;i=2")));
        assert!((1..=10).contains(&logs.len()));
        for log in &logs {
            assert_eq!(log.__cursor, "s=1;i=2");
            assert!(is_fake_text(&log.message));
            assert!(is_fake_text(&log._hostname));
        }
    }
}

#[test]
fn created_logs_without_cursor_make_one_up() {
    for _ in 0..50 {
        let logs = create_logs(None);
        assert!((1..=10).contains(&logs.len()));
        for log in &logs {
            assert!(is_fake_text(&log.__cursor));
            assert!(is_fake_text(&log._machine_id));
        }
    }
}

#[test]
fn bind_address_defaults_and_values() {
    assert_eq!(bind_address(None, None), "127.0.0.1:5000");
    assert_eq!(bind_address(Some(s("0.0.0.0")), Some(s("8080"))), "0.0.0.0:8080");
    assert_eq!(bind_address(None, Some(s("1"))), "127.0.0.1:1");
}

#[test]
fn logs_for_draw_make_draw_mod_ten_plus_one_entries() {
    let logs = logs_for_draw(255, Some(s("abc")));
    assert_eq!(logs.len(), 6);
    assert!(logs.iter().all(|l| l.__cursor == "abc"));
    assert_eq!(logs_for_draw(0, None).len(), 1);
    assert_eq!(logs_for_draw(9, None).len(), 10);
    assert_eq!(logs_for_draw(10, Some(s("x"))).len(), 1);
    for log in logs_for_draw(3, None) {
        assert!(is_fake_text(&log.__cursor));
    }
}

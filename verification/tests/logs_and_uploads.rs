use exo_server::frontend::{frontend_log, FrontendMessage};
use exo_server::logs::{log_file_name, should_upload, UPLOAD_MIN_AGE_SECS};
use exo_server::uploader::{retry_delay_secs, should_retry, MAX_UPLOAD_ATTEMPTS};

#[test]
fn upload_backoff_schedule() {
    assert_eq!(retry_delay_secs(0), 0);
    assert_eq!(retry_delay_secs(1), 5);
    assert_eq!(retry_delay_secs(4), 20);
    assert_eq!(retry_delay_secs(6), 30);
    assert_eq!(retry_delay_secs(u64::MAX), 30);
}

#[test]
fn upload_gives_up_after_five_attempts() {
    assert_eq!(MAX_UPLOAD_ATTEMPTS, 5);
    let mut attempts = 0;
    loop {
        attempts += 1;
        if !should_retry(attempts) {
            break;
        }
    }
    assert_eq!(attempts, 5);
}

#[test]
fn daily_log_file_name() {
    assert_eq!(log_file_name("2024-06-01"), "logs-2024-06-01.jsonl");
}

#[test]
fn todays_file_is_never_uploaded() {
    let today = log_file_name("2024-06-01");
    assert_eq!(UPLOAD_MIN_AGE_SECS, 30);
    assert!(!should_upload(&Some(today.clone()), &today, 10_000));
    assert!(should_upload(&Some("logs-2024-05-31.jsonl".to_string()), &today, 31));
    assert!(!should_upload(&Some("logs-2024-05-31.jsonl".to_string()), &today, 30));
    assert!(should_upload(&None, &today, 60));
}

fn msg(kind: Option<&str>, level: Option<&str>, message: Option<&str>) -> FrontendMessage {
    FrontendMessage {
        kind: kind.map(|s| s.to_string()),
        level: level.map(|s| s.to_string()),
        message: message.map(|s| s.to_string()),
    }
}

#[test]
fn frontend_logs() {
    let l = frontend_log(&msg(Some("log"), Some("warn"), Some("boom"))).unwrap();
    assert_eq!((l.level.as_str(), l.message.as_str()), ("warn", "boom"));
    let l = frontend_log(&msg(Some("log"), None, None)).unwrap();
    assert_eq!((l.level.as_str(), l.message.as_str()), ("info", ""));
    assert!(frontend_log(&msg(Some("ping"), Some("info"), Some("x"))).is_none());
    assert!(frontend_log(&msg(None, Some("info"), Some("x"))).is_none());
}

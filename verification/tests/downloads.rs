use wow_launcher::download::{DownloadProgress, DownloadRetry, RetryNext};
use wow_launcher::integrity::Channel;

#[test]
fn first_success_ends_the_retries() {
    let mut r = DownloadRetry::new();
    let step = r.on_result(Ok(()));
    assert!(matches!(step.next, RetryNext::Finished { failed: false }));
    assert_eq!(step.messages.len(), 1);
    assert_eq!(step.messages[0].channel, Channel::Stdout);
    assert_eq!(step.messages[0].text, "File downloaded successfully!");
    assert_eq!(r.retry, 1);
}

#[test]
fn three_failures_give_up() {
    let mut r = DownloadRetry::new();
    let step = r.on_result(Err("DownloadFailure".to_string()));
    assert!(matches!(step.next, RetryNext::Retry { wait_secs: 2 }));
    assert_eq!(step.messages[0].channel, Channel::Stderr);
    assert_eq!(step.messages[0].text, "Attempt 1 failed: DownloadFailure");
    assert_eq!(step.messages[1].channel, Channel::Stdout);
    assert_eq!(step.messages[1].text, "Retrying in 2 seconds...");
    let step = r.on_result(Err("DownloadFailure".to_string()));
    assert!(matches!(step.next, RetryNext::Retry { wait_secs: 2 }));
    assert_eq!(step.messages[0].text, "Attempt 2 failed: DownloadFailure");
    let step = r.on_result(Err("DownloadFailure".to_string()));
    assert!(matches!(step.next, RetryNext::Finished { failed: true }));
    assert_eq!(step.messages.len(), 2);
    assert_eq!(step.messages[0].text, "Attempt 3 failed: DownloadFailure");
    assert_eq!(step.messages[1].channel, Channel::Stderr);
    assert_eq!(step.messages[1].text, "All attempts failed. Giving up.");
}

#[test]
fn success_on_the_last_attempt() {
    let mut r = DownloadRetry::new();
    r.on_result(Err("e".to_string()));
    r.on_result(Err("e".to_string()));
    let step = r.on_result(Ok(()));
    assert!(matches!(step.next, RetryNext::Finished { failed: false }));
}

#[test]
fn progress_percentages() {
    let mut p = DownloadProgress::new(200);
    let m = p.on_chunk(50);
    assert_eq!(m.channel, Channel::Status);
    assert_eq!(m.text, "File downloading: 25%");
    let m = p.on_chunk(149);
    assert_eq!(m.text, "File downloading: 99%");
    let m = p.on_chunk(1);
    assert_eq!(m.text, "File downloading: 100%");
    assert_eq!(p.downloaded, 200);
    let mut q = DownloadProgress::new(3);
    assert_eq!(q.on_chunk(1).text, "File downloading: 33%");
}

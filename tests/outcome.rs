use browser_steps::outcome::{handle_result, BrowserOutcome, CommandError, SessionError, Timed};

fn all_outcomes() -> Vec<BrowserOutcome> {
    vec![
        BrowserOutcome::NoSuchElement("missing".to_string()),
        BrowserOutcome::EarlyEnd,
        BrowserOutcome::Screenshot("s".to_string()),
        BrowserOutcome::MatchURLFail("u".to_string()),
        BrowserOutcome::Timeout,
        BrowserOutcome::Unexpected("x".to_string()),
        BrowserOutcome::ClientLost,
        BrowserOutcome::ReCaptchaIssue("r".to_string()),
    ]
}

#[test]
fn only_timeout_unexpected_and_client_lost_restart() {
    let restarting: Vec<bool> = all_outcomes().iter().map(|o| o.needs_restart()).collect();
    assert_eq!(restarting, vec![false, false, false, false, true, true, true, false]);
}

#[test]
fn outcome_descriptions() {
    let texts: Vec<String> = all_outcomes().iter().map(|o| o.describe()).collect();
    assert_eq!(texts[0], "NoSuchElement error: (missing)");
    assert_eq!(texts[1], "Manual end by step");
    assert_eq!(texts[2], "Failed to take screenshot: (s)");
    assert_eq!(texts[3], "Failed to match url: (u)");
    assert_eq!(texts[4], "Timeout error: (deadline has elapsed)");
    assert_eq!(texts[5], "Unexpected error: (x)");
    assert_eq!(texts[6], "Client lost");
    assert_eq!(texts[7], "ReCaptcha issue: (r)");
}

#[test]
fn timed_call_success_keeps_value() {
    assert_eq!(handle_result(Timed::Finished(Ok(7u32))), Ok(7));
}

#[test]
fn timed_call_missing_element_is_expected() {
    let r: Result<u32, BrowserOutcome> =
        handle_result(Timed::Finished(Err(CommandError::NoSuchElement("no".to_string()))));
    assert_eq!(r, Err(BrowserOutcome::NoSuchElement("no".to_string())));
    assert!(!r.unwrap_err().needs_restart());
}

#[test]
fn timed_call_other_failure_is_unexpected() {
    let r: Result<u32, BrowserOutcome> =
        handle_result(Timed::Finished(Err(CommandError::Other("boom".to_string()))));
    assert_eq!(r, Err(BrowserOutcome::Unexpected("boom".to_string())));
    assert!(r.unwrap_err().needs_restart());
}

#[test]
fn timed_call_elapsed_is_timeout() {
    let r: Result<(), BrowserOutcome> = handle_result(Timed::Elapsed);
    assert_eq!(r, Err(BrowserOutcome::Timeout));
}

#[test]
fn session_error_descriptions() {
    assert_eq!(SessionError::TabDoesNotExist.describe(), "Browser tab does not exist");
    assert_eq!(
        SessionError::Browser(BrowserOutcome::ClientLost).describe(),
        "Client lost"
    );
    assert_eq!(
        SessionError::Launch("port busy".to_string()).describe(),
        "Browser launch failed: (port busy)"
    );
    assert_eq!(
        SessionError::Teardown(vec!["a".to_string(), "b".to_string()]).describe(),
        "Browser teardown failed: (a) (b)"
    );
}

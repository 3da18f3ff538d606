use cra_client::probe::{
    check_server_reachable, is_reachable_status, ProbeOutcome, PROBE_REDIRECT_LIMIT,
    PROBE_TIMEOUT_SECONDS,
};

fn responded(code: u16, reason: &str) -> ProbeOutcome {
    ProbeOutcome::Responded { code, reason: reason.to_string() }
}

#[test]
fn probe_limits_are_fixed() {
    assert_eq!(PROBE_TIMEOUT_SECONDS, 8);
    assert_eq!(PROBE_REDIRECT_LIMIT, 5);
}

#[test]
fn live_statuses_are_success_redirection_and_auth_demands() {
    for code in 0u16..=999 {
        let expected = (200..300).contains(&code) || (300..400).contains(&code) || code == 401 || code == 403;
        assert_eq!(is_reachable_status(code), expected, "{}", code);
    }
    assert!(!is_reachable_status(u16::MAX));
}

#[test]
fn forbidden_is_reported_as_reachable() {
    assert_eq!(check_server_reachable("http://192.168.50.55:3000/", &responded(403, "Forbidden")), Ok(()));
    assert_eq!(check_server_reachable("http://192.168.50.55:3000/", &responded(401, "Unauthorized")), Ok(()));
    assert_eq!(check_server_reachable("http://192.168.50.55:3000/", &responded(200, "OK")), Ok(()));
    assert_eq!(check_server_reachable("http://192.168.50.55:3000/", &responded(302, "Found")), Ok(()));
}

#[test]
fn server_error_is_reported_with_its_status() {
    let verdict = check_server_reachable(
        "http://192.168.50.55:3000/",
        &responded(500, "Internal Server Error"),
    );
    assert_eq!(
        verdict,
        Err("Server responded with status 500 Internal Server Error when requesting http://192.168.50.55:3000/".to_string())
    );
    assert!(verdict.err().unwrap().contains("500"));
    assert_eq!(
        check_server_reachable("http://h/", &responded(404, "Not Found")),
        Err("Server responded with status 404 Not Found when requesting http://h/".to_string())
    );
    assert_eq!(
        check_server_reachable("http://h/", &responded(402, "Payment Required")),
        Err("Server responded with status 402 Payment Required when requesting http://h/".to_string())
    );
}

#[test]
fn status_code_is_in_the_message_whatever_the_reason_says() {
    assert_eq!(
        check_server_reachable("u", &responded(500, "OK")),
        Err("Server responded with status 500 OK when requesting u".to_string())
    );
    assert_eq!(
        check_server_reachable("u", &responded(599, "<unknown status code>")),
        Err("Server responded with status 599 <unknown status code> when requesting u".to_string())
    );
    assert_eq!(
        check_server_reachable("u", &responded(0, "")),
        Err("Server responded with status 0  when requesting u".to_string())
    );
    for code in [100u16, 199, 400, 402, 404, 500, 503, 999, u16::MAX] {
        let message = check_server_reachable("u", &responded(code, "reason")).err().unwrap();
        assert!(message.contains(&code.to_string()), "{}", message);
    }
}

#[test]
fn transport_failure_is_reported_with_its_text() {
    assert_eq!(
        check_server_reachable(
            "http://h/",
            &ProbeOutcome::Unreachable { error: "operation timed out".to_string() }
        ),
        Err("Could not reach server at http://h/: operation timed out".to_string())
    );
}

#[test]
fn client_failure_is_reported_with_its_text() {
    assert_eq!(
        check_server_reachable("http://h/", &ProbeOutcome::ClientFailed { error: "no tls".to_string() }),
        Err("HTTP client init failed: no tls".to_string())
    );
}

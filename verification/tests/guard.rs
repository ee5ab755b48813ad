use pool_guard::mtls::{certificate_outcome, or_error, or_forward, GuardOutcome, UNAUTHORIZED};

#[test]
fn unauthorized_is_the_guard_status() {
    assert_eq!(UNAUTHORIZED, 401);
}

#[test]
fn no_client_certificates_forwards() {
    let o = certificate_outcome::<String, String>(None);
    assert_eq!(o, GuardOutcome::Forward(401));
}

#[test]
fn certificates_without_chain_data_forward() {
    let o = certificate_outcome::<String, String>(Some(None));
    assert_eq!(o, GuardOutcome::Forward(401));
}

#[test]
fn parsed_chain_succeeds() {
    let parsed = String::from("CN=client");
    let o = certificate_outcome::<String, String>(Some(Some(Ok(parsed))));
    assert_eq!(o, GuardOutcome::Success(String::from("CN=client")));
}

#[test]
fn unparsable_chain_errors() {
    let o = certificate_outcome::<String, String>(Some(Some(Err(String::from("bad encoding")))));
    assert_eq!(o, GuardOutcome::Error(401, String::from("bad encoding")));
}

#[test]
fn or_forward_succeeds_on_a_present_value() {
    let o = or_forward::<u32, String>(Some(7), 401);
    assert_eq!(o, GuardOutcome::Success(7));
}

#[test]
fn or_forward_forwards_on_an_absent_value() {
    let o = or_forward::<u32, String>(None, 401);
    assert_eq!(o, GuardOutcome::Forward(401));
}

#[test]
fn or_error_succeeds_on_ok() {
    let o = or_error::<u32, String>(Ok(9), 401);
    assert_eq!(o, GuardOutcome::Success(9));
}

#[test]
fn or_error_fails_on_err() {
    let o = or_error::<u32, String>(Err(String::from("no trust anchor")), 401);
    assert_eq!(o, GuardOutcome::Error(401, String::from("no trust anchor")));
}

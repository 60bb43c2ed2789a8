use neis_client::Error;

#[test]
fn unknown_error_holds_its_message() {
    assert_eq!(Error::new_unknown("status: 500"), Error::Unknown(String::from("status: 500")));
    assert_eq!(Error::new_unknown(""), Error::Unknown(String::new()));
}

#[test]
fn message_of_an_account_is_the_account() {
    assert_eq!(Error::Hyper(String::from("unexpected end of file")).message(), "unexpected end of file");
    assert_eq!(Error::Client(String::from("connection refused")).message(), "connection refused");
    assert_eq!(Error::new_unknown("알 수 없는 오류").message(), "알 수 없는 오류");
}

#[test]
fn message_of_an_undecodable_body_names_account_and_status() {
    let error = Error::Json { status: 200, account: String::from("missing field `row`") };
    assert_eq!(error.message(), "missing field `row` (status 200)");
    let error = Error::Json { status: 299, account: String::new() };
    assert_eq!(error.message(), " (status 299)");
}

#[test]
fn message_of_a_status_names_the_status() {
    assert_eq!(Error::Http(500).message(), "status: 500");
    assert_eq!(Error::Http(404).message(), "status: 404");
    assert_eq!(Error::Http(0).message(), "status: 0");
    assert_eq!(Error::Http(u16::MAX).message(), "status: 65535");
}

#[test]
fn errors_of_different_kinds_differ() {
    let account = String::from("x");
    assert_ne!(Error::Hyper(account.clone()), Error::Client(account.clone()));
    assert_ne!(Error::Json { status: 200, account: account.clone() }, Error::Unknown(account.clone()));
    assert_ne!(
        Error::Json { status: 200, account: account.clone() },
        Error::Json { status: 201, account: account.clone() }
    );
    assert_ne!(Error::Http(500), Error::Http(501));
}

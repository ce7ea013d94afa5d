use zero2prod2::domain::{RawSubscriber, Subscriber};
use zero2prod2::routes::{admit_subscriber, insertion_response, Status};

fn raw(name: &str, email: &str) -> RawSubscriber {
    RawSubscriber {
        name: name.to_string(),
        email: email.to_string(),
    }
}

#[test]
fn a_valid_subscriber_is_admitted_unchanged() {
    let s = Subscriber::try_from(raw("le guin", "ursula_le_guin@gmail.com")).unwrap();
    assert_eq!(s.name.as_ref(), "le guin");
    assert_eq!(s.email, "ursula_le_guin@gmail.com");
}

#[test]
fn a_subscriber_with_an_invalid_name_gets_the_name_error() {
    let e = Subscriber::try_from(raw("", "ursula_le_guin@gmail.com")).err().unwrap();
    assert_eq!(e, "empty name field");
}

#[test]
fn invalid_form_fields_are_answered_with_400() {
    let long_name = "a".repeat(257);
    for name in ["", long_name.as_str(), "asdfjlk/"] {
        let r = admit_subscriber(raw(name, "ursula_le_guin@gmail.com"));
        let refusal = r.err().unwrap();
        assert_eq!(refusal.status, Status::BadRequest);
        assert_eq!(
            refusal.reason,
            zero2prod2::domain::SubscriberName::parse(name.to_string()).unwrap_err()
        );
    }
    assert_eq!(Status::BadRequest.code(), 400);
}

#[test]
fn valid_form_fields_are_admitted() {
    let r = admit_subscriber(raw("le guin", "ursula_le_guin@gmail.com"));
    assert!(r.is_ok());
}

#[test]
fn insertion_outcome_decides_between_200_and_500() {
    assert!(insertion_response(true).is_ok());
    assert_eq!(insertion_response(false), Err(Status::InternalServerError));
    assert_eq!(Status::Success.code(), 200);
    assert_eq!(Status::InternalServerError.code(), 500);
}

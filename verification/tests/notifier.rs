use bac_bot::notify::{ConfigError, Twilio};
use bac_bot::NotificationNeeded;

fn full_config() -> Twilio {
    Twilio::from_env_values(
        Some(String::from("AC1")),
        Some(String::from("token")),
        Some(String::from("+15550001111")),
        Some(String::from("+15552223333")),
    )
    .ok()
    .unwrap()
}

#[test]
fn all_values_present_builds_credentials() {
    let t = full_config();
    assert_eq!(t.twilio_sid, "AC1");
    assert_eq!(t.twilio_auth_token, "token");
    assert_eq!(t.twilio_source_phone, "+15550001111");
    assert_eq!(t.twilio_destination_phone, "+15552223333");
}

#[test]
fn first_missing_value_is_reported() {
    let some = || Some(String::from("x"));
    let r = Twilio::from_env_values(None, some(), some(), some());
    assert_eq!(r.err().unwrap(), ConfigError::MissingSid);
    let r = Twilio::from_env_values(some(), None, some(), some());
    assert_eq!(r.err().unwrap(), ConfigError::MissingAuthToken);
    let r = Twilio::from_env_values(some(), some(), None, some());
    assert_eq!(r.err().unwrap(), ConfigError::MissingSourcePhone);
    let r = Twilio::from_env_values(some(), some(), some(), None);
    assert_eq!(r.err().unwrap(), ConfigError::MissingDestinationPhone);
    let r = Twilio::from_env_values(None, None, None, None);
    assert_eq!(r.err().unwrap(), ConfigError::MissingSid);
}

#[test]
fn config_error_messages_name_the_variable() {
    assert_eq!(ConfigError::MissingSid.message(), "TWILIO_SID environment variable not found");
    assert_eq!(
        ConfigError::MissingAuthToken.message(),
        "TWILIO_AUTH_TOKEN environment variable not found"
    );
    assert_eq!(
        ConfigError::MissingSourcePhone.message(),
        "TWILIO_SOURCE_PHONE environment variable not found"
    );
    assert_eq!(
        ConfigError::MissingDestinationPhone.message(),
        "TWILIO_DESTINATION_PHONE environment variable not found"
    );
}

#[test]
fn message_request_targets_the_account_endpoint() {
    let t = full_config();
    let n = NotificationNeeded { content: String::from("hello"), fatal: false };
    let r = t.message_request(&n);
    assert_eq!(r.url, "https://api.twilio.com/2010-04-01/Accounts/AC1/Messages.json");
}

#[test]
fn message_request_form_parameters_are_exact() {
    let t = full_config();
    let n = NotificationNeeded { content: String::from("BAC4000 maybe in stock!"), fatal: true };
    let r = t.message_request(&n);
    assert_eq!(r.form.len(), 3);
    assert_eq!(r.form[0].0, "Body");
    assert_eq!(r.form[0].1, "BAC4000 maybe in stock!");
    assert_eq!(r.form[1].0, "From");
    assert_eq!(r.form[1].1, "+15550001111");
    assert_eq!(r.form[2].0, "To");
    assert_eq!(r.form[2].1, "+15552223333");
}

#[test]
fn auth_header_is_basic_base64_of_sid_and_token() {
    let t = full_config();
    let n = NotificationNeeded { content: String::from("x"), fatal: false };
    let r = t.message_request(&n);
    assert_eq!(r.auth_header, "Basic QUMxOnRva2Vu");
    let independent = format!("Basic {}", base64::encode("AC1:token"));
    assert_eq!(r.auth_header, independent);
}

#[test]
fn auth_header_depends_on_the_credentials() {
    let t = Twilio::from_env_values(
        Some(String::from("sid")),
        Some(String::from("secret")),
        Some(String::from("a")),
        Some(String::from("b")),
    )
    .ok()
    .unwrap();
    let n = NotificationNeeded { content: String::from("x"), fatal: false };
    let r = t.message_request(&n);
    assert_eq!(r.auth_header, "Basic c2lkOnNlY3JldA==");
}

//! The notifier's pure half: validating the four required configuration
//! values and building the outbound SMS request (URL, basic-auth header and
//! form parameters) from the credentials and a notification.

use vstd::prelude::*;
use vstd::string::StringExecFns;
use crate::NotificationNeeded;

verus! {

/// Stored messaging credentials: account identifier, auth secret, source and
/// destination phone numbers.
pub struct Twilio {
    pub twilio_sid: String,
    pub twilio_auth_token: String,
    pub twilio_source_phone: String,
    pub twilio_destination_phone: String,
}

/// Which required configuration value is absent.
#[derive(PartialEq, Eq, Structural, Clone, Copy, Debug)]
pub enum ConfigError {
    MissingSid,
    MissingAuthToken,
    MissingSourcePhone,
    MissingDestinationPhone,
}

pub open spec fn spec_config_error_message(e: ConfigError) -> Seq<char> {
    match e {
        ConfigError::MissingSid => "TWILIO_SID environment variable not found"@,
        ConfigError::MissingAuthToken => "TWILIO_AUTH_TOKEN environment variable not found"@,
        ConfigError::MissingSourcePhone => "TWILIO_SOURCE_PHONE environment variable not found"@,
        ConfigError::MissingDestinationPhone => "TWILIO_DESTINATION_PHONE environment variable not found"@,
    }
}

impl ConfigError {
    /// The human-readable description of the missing configuration value.
    pub fn message(&self) -> (r: String)
        ensures
            r@ == spec_config_error_message(*self),
    {
        match self {
            ConfigError::MissingSid => String::from_str(
                "TWILIO_SID environment variable not found",
            ),
            ConfigError::MissingAuthToken => String::from_str(
                "TWILIO_AUTH_TOKEN environment variable not found",
            ),
            ConfigError::MissingSourcePhone => String::from_str(
                "TWILIO_SOURCE_PHONE environment variable not found",
            ),
            ConfigError::MissingDestinationPhone => String::from_str(
                "TWILIO_DESTINATION_PHONE environment variable not found",
            ),
        }
    }
}

/// One outbound SMS request, ready to be sent: target URL, the value of the
/// `Authorization` header, and the form parameters in order.
pub struct SmsRequest {
    pub url: String,
    pub auth_header: String,
    pub form: Vec<(String, String)>,
}

/// The base64 encoding (standard alphabet, padded) of a string's UTF-8
/// bytes: a function of the input alone.
pub uninterp spec fn base64_of(s: Seq<char>) -> Seq<char>;

/// Relies on `base64::encode`: the RFC 4648 standard-alphabet, padded
/// encoding of the input's bytes, which depends on the input alone.
#[verifier::external_body]
fn encode_base64(s: &str) -> (r: String)
    ensures
        r@ == base64_of(s@),
{
    base64::encode(s)
}

/// The messaging API endpoint for the account.
pub open spec fn spec_message_url(sid: Seq<char>) -> Seq<char> {
    "https://api.twilio.com/2010-04-01/Accounts/"@ + sid + "/Messages.json"@
}

/// The basic-auth header value: `Basic` and the base64 of `sid:token`.
pub open spec fn spec_auth_header(sid: Seq<char>, token: Seq<char>) -> Seq<char> {
    "Basic "@ + base64_of(sid + ":"@ + token)
}

impl Twilio {
    /// Validates the four required configuration values, in the order the
    /// startup sequence reads them: the first absent one is reported.
    pub fn from_env_values(
        sid: Option<String>,
        auth_token: Option<String>,
        source_phone: Option<String>,
        destination_phone: Option<String>,
    ) -> (r: Result<Twilio, ConfigError>)
        ensures
            r is Ok <==> (sid is Some && auth_token is Some && source_phone is Some
                && destination_phone is Some),
            match r {
                Ok(t) => {
                    &&& sid matches Some(s) && t.twilio_sid@ == s@
                    &&& auth_token matches Some(a) && t.twilio_auth_token@ == a@
                    &&& source_phone matches Some(p) && t.twilio_source_phone@ == p@
                    &&& destination_phone matches Some(d) && t.twilio_destination_phone@ == d@
                },
                Err(e) => (e == ConfigError::MissingSid <==> sid is None) && (e
                    == ConfigError::MissingAuthToken <==> sid is Some && auth_token is None) && (e
                    == ConfigError::MissingSourcePhone <==> sid is Some && auth_token is Some
                    && source_phone is None) && (e == ConfigError::MissingDestinationPhone <==> sid
                    is Some && auth_token is Some && source_phone is Some && destination_phone
                    is None),
            },
    {
        let twilio_sid = match sid {
            Some(s) => s,
            None => {
                return Err(ConfigError::MissingSid);
            },
        };
        let twilio_auth_token = match auth_token {
            Some(a) => a,
            None => {
                return Err(ConfigError::MissingAuthToken);
            },
        };
        let twilio_source_phone = match source_phone {
            Some(p) => p,
            None => {
                return Err(ConfigError::MissingSourcePhone);
            },
        };
        let twilio_destination_phone = match destination_phone {
            Some(d) => d,
            None => {
                return Err(ConfigError::MissingDestinationPhone);
            },
        };
        Ok(
            Twilio {
                twilio_sid,
                twilio_auth_token,
                twilio_source_phone,
                twilio_destination_phone,
            },
        )
    }

    /// Builds the outbound SMS request for a notification: the account's
    /// message endpoint, the basic-auth header derived from the credentials,
    /// and the `Body`, `From`, `To` form parameters in order.
    pub fn message_request(&self, notification: &NotificationNeeded) -> (r: SmsRequest)
        ensures
            r.url@ == spec_message_url(self.twilio_sid@),
            r.auth_header@ == spec_auth_header(self.twilio_sid@, self.twilio_auth_token@),
            r.form@.len() == 3,
            r.form@[0].0@ == "Body"@ && r.form@[0].1@ == notification.content@,
            r.form@[1].0@ == "From"@ && r.form@[1].1@ == self.twilio_source_phone@,
            r.form@[2].0@ == "To"@ && r.form@[2].1@ == self.twilio_destination_phone@,
    {
        let url = String::from_str("https://api.twilio.com/2010-04-01/Accounts/").concat(
            self.twilio_sid.as_str(),
        ).concat("/Messages.json");
        let auth_input = self.twilio_sid.clone().concat(":").concat(
            self.twilio_auth_token.as_str(),
        );
        let encoded = encode_base64(auth_input.as_str());
        let auth_header = String::from_str("Basic ").concat(encoded.as_str());
        let mut form: Vec<(String, String)> = Vec::new();
        form.push((String::from_str("Body"), notification.content.clone()));
        form.push((String::from_str("From"), self.twilio_source_phone.clone()));
        form.push((String::from_str("To"), self.twilio_destination_phone.clone()));
        SmsRequest { url, auth_header, form }
    }
}

} // verus!

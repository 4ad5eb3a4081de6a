//! The reminder email, as the request that sends it.

use vstd::prelude::*;

verus! {

/// The status that the mail service answers with when it has taken a message.
pub const ACCEPTED: u32 = 200;

/// Who sends the appliance's mail, and to whom.
pub struct Email {
    apikey: String,
    to: String,
}

/// One request to the mail service: a form of four parts, sent with basic
/// authentication.
#[derive(Debug, PartialEq, Eq)]
pub struct EmailRequest {
    pub url: String,
    pub username: String,
    pub password: String,
    pub from: String,
    pub to: String,
    pub subject: String,
    pub text: String,
}

impl Email {
    pub closed spec fn apikey(self) -> Seq<char> {
        self.apikey@
    }

    pub closed spec fn to(self) -> Seq<char> {
        self.to@
    }

    pub fn new(apikey: String, to: String) -> (email: Self)
        ensures
            email.apikey() == apikey@,
            email.to() == to@,
    {
        Self { apikey, to }
    }

    /// The request that sends `message` to the configured address.
    pub fn send(&self, message: &str) -> (request: EmailRequest)
        ensures
            request.url@ == "https://api.mailgun.net/v2/simonstjg.org/messages"@,
            request.username@ == "api"@,
            request.password@ == self.apikey(),
            request.from@ == "fourbuttons@simonstjg.org"@,
            request.to@ == self.to(),
            request.subject@ == "test"@,
            request.text@ == message@,
    {
        EmailRequest {
            url: "https://api.mailgun.net/v2/simonstjg.org/messages".to_owned(),
            username: "api".to_owned(),
            password: self.apikey.clone(),
            from: "fourbuttons@simonstjg.org".to_owned(),
            to: self.to.clone(),
            subject: "test".to_owned(),
            text: message.to_owned(),
        }
    }

    /// Whether the service's answer says that the message was taken.
    pub fn is_sent(response_code: u32) -> (sent: bool)
        ensures
            sent == (response_code == ACCEPTED),
    {
        response_code == ACCEPTED
    }
}

} // verus!

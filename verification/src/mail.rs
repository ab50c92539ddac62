//! Verification e-mails: addressing and wording.

use vstd::prelude::*;
use crate::error::AuthError;
use crate::text::{string_append, to_owned_string};

verus! {

/// Whether `lettre` reads a text as a mailbox (`"Name <addr>"` or `addr`).
pub uninterp spec fn lettre_mailbox_accepts(s: Seq<char>) -> bool;

/// `s.parse::<lettre::message::Mailbox>()` succeeds.
#[verifier::external_body]
fn mailbox_parses(s: &str) -> (r: bool)
    ensures
        r == lettre_mailbox_accepts(s@),
{
    s.parse::<lettre::message::Mailbox>().is_ok()
}

/// The text of a verification e-mail.
pub open spec fn verification_body(purpose: Seq<char>, code: Seq<char>) -> Seq<char> {
    "Your verification code for "@ + purpose + " is: "@ + code + "\n\nThis code expires in 10 minutes."@
}

/// The subject of a verification e-mail.
pub open spec fn verification_subject(purpose: Seq<char>) -> Seq<char> {
    "[upgo] "@ + purpose + " Verification Code"@
}

/// An e-mail ready to be handed to the SMTP transport.
#[derive(Debug, Clone)]
pub struct OutgoingEmail {
    pub from: String,
    pub to: String,
    pub subject: String,
    pub body: String,
}

/// SMTP settings of the mail service.
pub struct MailService {
    pub smtp_host: String,
    pub smtp_port: u16,
    pub username: String,
    pub password: String,
    pub from: String,
}

impl MailService {
    pub fn new(host: &str, port: u16, username: &str, password: &str, from: &str) -> (m: MailService)
        ensures
            m.smtp_host@ == host@,
            m.smtp_port == port,
            m.username@ == username@,
            m.password@ == password@,
            m.from@ == from@,
    {
        MailService {
            smtp_host: to_owned_string(host),
            smtp_port: port,
            username: to_owned_string(username),
            password: to_owned_string(password),
            from: to_owned_string(from),
        }
    }

    /// The verification e-mail for `code`: refused as an invalid request
    /// when the sender or the recipient is no mailbox.
    pub fn compose_verification_code(&self, to: &str, code: &str, purpose: &str) -> (r: Result<OutgoingEmail, AuthError>)
        ensures
            (lettre_mailbox_accepts(self.from@) && lettre_mailbox_accepts(to@)) <==> r is Ok,
            r matches Err(e) ==> e == AuthError::TokenInvalid,
            r matches Ok(m) ==> {
                &&& m.from@ == self.from@
                &&& m.to@ == to@
                &&& m.subject@ == verification_subject(purpose@)
                &&& m.body@ == verification_body(purpose@, code@)
            },
    {
        if !mailbox_parses(self.from.as_str()) || !mailbox_parses(to) {
            return Err(AuthError::TokenInvalid);
        }
        let mut body = to_owned_string("Your verification code for ");
        string_append(&mut body, purpose);
        string_append(&mut body, " is: ");
        string_append(&mut body, code);
        string_append(&mut body, "\n\nThis code expires in 10 minutes.");
        let mut subject = to_owned_string("[upgo] ");
        string_append(&mut subject, purpose);
        string_append(&mut subject, " Verification Code");
        Ok(OutgoingEmail { from: to_owned_string(self.from.as_str()), to: to_owned_string(to), subject, body })
    }

    /// A notification e-mail (of an e-mail change, say): refused as an
    /// invalid request when the sender or the recipient is no mailbox.
    pub fn compose_notification(&self, to: &str, subject: &str, body: &str) -> (r: Result<OutgoingEmail, AuthError>)
        ensures
            (lettre_mailbox_accepts(self.from@) && lettre_mailbox_accepts(to@)) <==> r is Ok,
            r matches Err(e) ==> e == AuthError::TokenInvalid,
            r matches Ok(m) ==> {
                &&& m.from@ == self.from@
                &&& m.to@ == to@
                &&& m.subject@ == subject@
                &&& m.body@ == body@
            },
    {
        if !mailbox_parses(self.from.as_str()) || !mailbox_parses(to) {
            return Err(AuthError::TokenInvalid);
        }
        Ok(OutgoingEmail {
            from: to_owned_string(self.from.as_str()),
            to: to_owned_string(to),
            subject: to_owned_string(subject),
            body: to_owned_string(body),
        })
    }
}

} // verus!

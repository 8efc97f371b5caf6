//! Confirmation mail: the parts of a message, and when a failed send is retried.
use vstd::prelude::*;
use vstd::string::*;
use crate::status::STATUS_INTERNAL_SERVER_ERROR;

verus! {

#[verifier::external_type_specification]
#[verifier::external_body]
pub struct ExAddress(lettre::Address);

/// Copies an address (`lettre::Address` derives `Clone`, which copies its fields).
pub assume_specification[ <lettre::Address as Clone>::clone ](a: &lettre::Address) -> (r: lettre::Address)
    ensures
        r == *a,
;

/// Attempts after the first that a transient failure gets.
pub const RETRIES: u8 = 3;

/// Seconds to wait before a retry.
pub const RETRY_WAIT_SECS: u64 = 30;

/// The subject of the mail that confirms a signup.
pub const SIGN_UP_SUBJECT: &'static str = "Welcome to your own Cloud \u{2013} You're all set!";

/// A mail to send.
pub struct Email<'a> {
    pub sender: lettre::Address,
    pub receiver: lettre::Address,
    pub subject: Option<&'a str>,
    pub html_content: Option<&'a str>,
    pub text_content: Option<&'a str>,
}

/// A part of the body of a mail.
#[derive(Debug, Clone, Copy, PartialEq, Eq)]
pub enum MailPart<'a> {
    Html(&'a str),
    Plain(&'a str),
}

impl<'a> Email<'a> {
    /// A mail from `sender` to `receiver` with no subject and no content yet.
    pub fn new(sender: lettre::Address, receiver: lettre::Address) -> (r: Self)
        ensures
            r.sender == sender,
            r.receiver == receiver,
            r.subject is None,
            r.html_content is None,
            r.text_content is None,
    {
        Email { sender, receiver, subject: None, html_content: None, text_content: None }
    }

    /// The same mail with the subject set.
    pub fn set_subject(self, subject: &'a str) -> (r: Self)
        ensures
            r.subject == Some(subject),
            r.sender == self.sender && r.receiver == self.receiver,
            r.html_content == self.html_content && r.text_content == self.text_content,
    {
        Email { subject: Some(subject), ..self }
    }

    /// The same mail with the HTML content set.
    pub fn set_html_content(self, html_content: &'a str) -> (r: Self)
        ensures
            r.html_content == Some(html_content),
            r.sender == self.sender && r.receiver == self.receiver,
            r.subject == self.subject && r.text_content == self.text_content,
    {
        Email { html_content: Some(html_content), ..self }
    }

    /// The same mail with the plain text content set.
    pub fn set_text_content(self, text_content: &'a str) -> (r: Self)
        ensures
            r.text_content == Some(text_content),
            r.sender == self.sender && r.receiver == self.receiver,
            r.subject == self.subject && r.html_content == self.html_content,
    {
        Email { text_content: Some(text_content), ..self }
    }

    /// A copy of the mail; the texts are shared.
    pub fn cheap_clone(&self) -> (r: Self)
        ensures
            r.sender == self.sender,
            r.receiver == self.receiver,
            r.subject == self.subject,
            r.html_content == self.html_content,
            r.text_content == self.text_content,
    {
        Email {
            sender: self.sender.clone(),
            receiver: self.receiver.clone(),
            subject: self.subject,
            html_content: self.html_content,
            text_content: self.text_content,
        }
    }

    /// The subject line: the subject, or the empty text.
    pub fn subject_line(&self) -> (r: &'a str)
        ensures
            r == match self.subject { Some(s) => s, None => "" },
    {
        match self.subject {
            Some(s) => s,
            None => "",
        }
    }

    /// The alternatives of the body: HTML before plain text, and an empty plain
    /// text when the mail has no content.
    pub fn parts(&self) -> (r: Vec<MailPart<'a>>)
        ensures
            r@ == match (self.html_content, self.text_content) {
                (Some(h), Some(t)) => seq![MailPart::Html(h), MailPart::Plain(t)],
                (Some(h), None) => seq![MailPart::Html(h)],
                (None, Some(t)) => seq![MailPart::Plain(t)],
                (None, None) => seq![MailPart::Plain("")],
            },
    {
        let mut v: Vec<MailPart<'a>> = Vec::new();
        match (self.html_content, self.text_content) {
            (Some(h), Some(t)) => {
                v.push(MailPart::Html(h));
                v.push(MailPart::Plain(t));
            },
            (Some(h), None) => v.push(MailPart::Html(h)),
            (None, Some(t)) => v.push(MailPart::Plain(t)),
            (None, None) => v.push(MailPart::Plain("")),
        }
        v
    }
}

/// The severity of an SMTP reply (the first digit of its code).
#[derive(Debug, Clone, Copy, PartialEq, Eq)]
pub enum Severity {
    PositiveCompletion,
    PositiveIntermediate,
    TransientNegativeCompletion,
    PermanentNegativeCompletion,
}

/// How one attempt to send went.
#[derive(Debug, Clone, Copy, PartialEq, Eq)]
pub enum SendAttempt {
    /// The server replied with this severity.
    Replied(Severity),
    /// The mail could not be built or the transport failed.
    Error,
}

/// What to do after an attempt.
#[derive(Debug, Clone, Copy, PartialEq, Eq)]
pub enum SendDecision {
    /// Wait `RETRY_WAIT_SECS` and try again.
    Retry,
    /// The mail was accepted.
    Accepted,
    /// The server refused the mail for good, or the retries are used up.
    Refused,
    /// Sending failed with an error.
    Failed,
}

/// How many attempts `retries` allows: one more than the retries, or one when there are none.
pub fn attempts_for(retries: Option<u8>) -> (r: u8)
    requires
        retries matches Some(n) ==> n < 255,
    ensures
        r == match retries { Some(n) => (n + 1) as u8, None => 1u8 },
{
    match retries {
        Some(n) => n + 1,
        None => 1,
    }
}

/// What to do after attempt number `attempt` (from zero) of `attempts`: a transient
/// refusal is retried while attempts are left, a positive reply is an acceptance, a
/// permanent refusal or a transient one on the last attempt is final, an error stops.
pub fn after_attempt(attempt: u8, attempts: u8, outcome: SendAttempt) -> (r: SendDecision)
    requires
        attempt < attempts,
    ensures
        r == match outcome {
            SendAttempt::Error => SendDecision::Failed,
            SendAttempt::Replied(Severity::PositiveCompletion) => SendDecision::Accepted,
            SendAttempt::Replied(Severity::PositiveIntermediate) => SendDecision::Accepted,
            SendAttempt::Replied(Severity::PermanentNegativeCompletion) => SendDecision::Refused,
            SendAttempt::Replied(Severity::TransientNegativeCompletion) =>
                if attempt < attempts - 1 { SendDecision::Retry } else { SendDecision::Refused },
        },
{
    match outcome {
        SendAttempt::Error => SendDecision::Failed,
        SendAttempt::Replied(s) => match s {
            Severity::PositiveCompletion => SendDecision::Accepted,
            Severity::PositiveIntermediate => SendDecision::Accepted,
            Severity::PermanentNegativeCompletion => SendDecision::Refused,
            Severity::TransientNegativeCompletion => {
                if attempt < attempts - 1 { SendDecision::Retry } else { SendDecision::Refused }
            },
        },
    }
}

/// What becomes of a new user once the confirmation mail is done with.
#[derive(Debug, Clone, Copy, PartialEq, Eq)]
pub enum SignupFollowUp {
    /// The mail was accepted: the user stays.
    Keep,
    /// The mail failed: the user row is deleted again (`REVERT_SIGNUP`).
    Revert,
}

/// The user stays exactly when the mail was accepted.
pub open spec fn follow_up_of(decision: SendDecision) -> SignupFollowUp {
    if decision == SendDecision::Accepted { SignupFollowUp::Keep } else { SignupFollowUp::Revert }
}

/// The answer of a signup once the mail is done with: created when it was accepted, else 500.
pub open spec fn mail_answer(decision: SendDecision) -> Result<(), (u16, &'static str)> {
    if decision == SendDecision::Accepted {
        Ok(())
    } else {
        Err((500u16, "Failed to send confirmation email"))
    }
}

/// Whether the signup is kept or reverted once its confirmation mail is done with.
pub fn signup_follow_up(decision: SendDecision) -> (r: SignupFollowUp)
    requires
        decision != SendDecision::Retry,
    ensures
        r == follow_up_of(decision),
{
    match decision {
        SendDecision::Accepted => SignupFollowUp::Keep,
        _ => SignupFollowUp::Revert,
    }
}

/// The answer of a signup once the confirmation mail is done with: created when the
/// mail was accepted; otherwise the signup is reverted and answered 500.
pub fn signup_mail_response(decision: SendDecision) -> (r: Result<(), (u16, &'static str)>)
    requires
        decision != SendDecision::Retry,
    ensures
        r == mail_answer(decision),
        decision == SendDecision::Accepted ==> r is Ok,
        decision != SendDecision::Accepted ==> r == Err::<(), (u16, &'static str)>((500u16, "Failed to send confirmation email")),
{
    match decision {
        SendDecision::Accepted => Ok(()),
        _ => Err((STATUS_INTERNAL_SERVER_ERROR, "Failed to send confirmation email")),
    }
}

/// A signup whose confirmation mail was refused or failed is reverted and answered
/// 500; one whose mail was accepted is kept and answered with success.
pub proof fn law_mail_failure_reverts_signup(decision: SendDecision)
    requires
        decision != SendDecision::Retry,
    ensures
        decision != SendDecision::Accepted ==> follow_up_of(decision) == SignupFollowUp::Revert
            && mail_answer(decision) == Err::<(), (u16, &'static str)>((500u16, "Failed to send confirmation email")),
        decision == SendDecision::Accepted ==> follow_up_of(decision) == SignupFollowUp::Keep && mail_answer(decision) is Ok,
{
}

} // verus!

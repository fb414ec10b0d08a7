//! The confirmation mail: its text, and what a failed delivery means.

use vstd::prelude::*;
use vstd::string::StringExecFns;
use crate::clock::{expiry_text, print_expiry};
use crate::errors::{AuthError, ErrorKind};
use crate::models::{Confirmation, ConfirmationView};
use crate::token::{print_uuid, uuid_text};

verus! {

/// A message that is ready to be sent.
#[derive(Debug)]
pub struct MailMessage {
    pub to: String,
    pub subject: String,
    pub text: String,
    pub html: String,
}

pub struct MailView {
    pub to: Seq<char>,
    pub subject: Seq<char>,
    pub text: Seq<char>,
    pub html: Seq<char>,
}

impl View for MailMessage {
    type V = MailView;

    open spec fn view(&self) -> MailView {
        MailView { to: self.to@, subject: self.subject@, text: self.text@, html: self.html@ }
    }
}

/// The address at which a token is redeemed.
pub open spec fn redemption_url(domain_url: Seq<char>, token: Seq<char>) -> Seq<char> {
    domain_url + "/register/"@ + token
}

pub open spec fn plain_body(domain_url: Seq<char>, token: Seq<char>, expires: Seq<char>) -> Seq<
    char,
> {
    "Please visit the link below to complete your registration:\n\n        "@ + redemption_url(
        domain_url,
        token,
    ) + "\n\n        This link expires on "@ + expires + "."@
}

pub open spec fn html_body(domain_url: Seq<char>, token: Seq<char>, expires: Seq<char>) -> Seq<
    char,
> {
    "Please click on the link below to complete registration.<br/>\n        <a href=\""@
        + redemption_url(domain_url, token)
        + "\">Complete registration</a> <br/>\n        This link expires on <strong>"@ + expires
        + "</strong>"@
}

/// The mail that carries a token, given the token's and the expiry's text.
pub open spec fn composed(
    to: Seq<char>,
    domain_url: Seq<char>,
    token: Seq<char>,
    expires: Seq<char>,
) -> MailView {
    MailView {
        to,
        subject: "Complete your registration"@,
        text: plain_body(domain_url, token, expires),
        html: html_body(domain_url, token, expires),
    }
}

/// The mail for a confirmation, or none where its expiry has no text.
pub open spec fn mail_for(c: ConfirmationView, domain_url: Seq<char>) -> Option<MailView> {
    match expiry_text(c.expires_at) {
        Some(expires) => Some(composed(c.email, domain_url, uuid_text(c.id), expires)),
        None => None,
    }
}

pub open spec fn delivery_failure() -> (ErrorKind, Seq<char>) {
    (ErrorKind::Process, "Could not send confirmation email"@)
}

fn url_of(domain_url: &str, token: &str) -> (url: String)
    ensures
        url@ == redemption_url(domain_url@, token@),
{
    let mut url = String::from_str(domain_url);
    url.append("/register/");
    url.append(token);
    url
}

/// Writes the mail that carries a token.
pub fn compose_mail(to: &str, domain_url: &str, token: &str, expires: &str) -> (m: MailMessage)
    ensures
        m@ == composed(to@, domain_url@, token@, expires@),
{
    let url = url_of(domain_url, token);
    let mut text = String::from_str(
        "Please visit the link below to complete your registration:\n\n        ",
    );
    text.append(url.as_str());
    text.append("\n\n        This link expires on ");
    text.append(expires);
    text.append(".");
    let mut html = String::from_str(
        "Please click on the link below to complete registration.<br/>\n        <a href=\"",
    );
    html.append(url.as_str());
    html.append("\">Complete registration</a> <br/>\n        This link expires on <strong>");
    html.append(expires);
    html.append("</strong>");
    MailMessage {
        to: String::from_str(to),
        subject: String::from_str("Complete your registration"),
        text,
        html,
    }
}

/// Writes the mail for a confirmation: addressed to its owner, with the
/// address of redemption under `domain_url` and the expiry in words.
pub fn confirmation_mail(confirmation: &Confirmation, domain_url: &str) -> (m: Option<
    MailMessage,
>)
    ensures
        match m {
            Some(mail) => mail_for(confirmation@, domain_url@) == Some(mail@),
            None => mail_for(confirmation@, domain_url@) is None,
        },
{
    match print_expiry(confirmation.expires_at) {
        None => None,
        Some(expires) => {
            let token = print_uuid(confirmation.id);
            Some(
                compose_mail(
                    confirmation.email.as_str(),
                    domain_url,
                    token.as_str(),
                    expires.as_str(),
                ),
            )
        },
    }
}

/// The mail for a confirmation, or a failed process where there is none.
pub open spec fn mail_or_failure(c: ConfirmationView, domain_url: Seq<char>) -> Result<
    MailView,
    (ErrorKind, Seq<char>),
> {
    match mail_for(c, domain_url) {
        Some(mail) => Ok(mail),
        None => Err(delivery_failure()),
    }
}

/// Writes the mail for a confirmation; a confirmation whose expiry cannot be
/// put in words cannot be mailed, which is a failed process.
pub fn deliverable_mail(confirmation: &Confirmation, domain_url: &str) -> (r: Result<
    MailMessage,
    AuthError,
>)
    ensures
        match r {
            Ok(mail) => mail_or_failure(confirmation@, domain_url@) == Ok::<
                MailView,
                (ErrorKind, Seq<char>),
            >(mail@),
            Err(e) => mail_or_failure(confirmation@, domain_url@) == Err::<
                MailView,
                (ErrorKind, Seq<char>),
            >(e@),
        },
{
    match confirmation_mail(confirmation, domain_url) {
        Some(mail) => Ok(mail),
        None => Err(AuthError::ProcessError(String::from_str("Could not send confirmation email"))),
    }
}

/// What the transport's answer means: a mail that was not sent is a failed
/// process.
pub fn send_confirmation_mail(sent: bool) -> (r: Result<(), AuthError>)
    ensures
        sent ==> r is Ok,
        !sent ==> r is Err && r->Err_0@ == delivery_failure(),
{
    if sent {
        Ok(())
    } else {
        Err(AuthError::ProcessError(String::from_str("Could not send confirmation email")))
    }
}

} // verus!

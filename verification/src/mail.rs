//! The two mails of the relay: the one that carries a token to the sender,
//! and the one that carries a confirmed message to the recipient.
//!
//! Nothing here sends anything. Each function decides what is to be sent and
//! through which relay, or which setting is missing; the caller hands the
//! request to its transport.

use vstd::prelude::*;
use vstd::string::StringExecFns;
use crate::config::{Config, ConfigView};
use crate::error::ErrorKind;
use crate::structs::{MessageSubmission, MessageView};

verus! {

/// The subject of the mail that carries a token.
pub const TOKEN_SUBJECT: &'static str = "Your submission token";

/// The subject of the mail that carries a confirmed message.
pub const MESSAGE_SUBJECT: &'static str = "Email from your contact form";

/// What the token mail says before the token.
pub const TOKEN_BODY_OPENING: &'static str =
    "Hello, and thank you for using the zoug.fr contact form (https://zoug.fr/world-most-interesting-contact-form). You'll need to input this token to verify your email address:\n\n";

/// What the token mail says after the token.
pub const TOKEN_BODY_CLOSING: &'static str =
    "\n\nYou can safely ignore this email if you didn't use the form.";

/// What stands before the recipient's address in the mailbox of a confirmed
/// message.
pub const RECIPIENT_OPENING: &'static str = "Me <";

/// What stands after it.
pub const RECIPIENT_CLOSING: &'static str = ">";

/// A mail in plain text, not yet sent.
#[derive(Debug, PartialEq, Eq)]
pub struct OutgoingMail {
    /// The mailbox of the sender.
    pub from: String,
    /// The mailbox of the recipient.
    pub to: String,
    /// The mailbox that an answer goes to, if it is not the sender's.
    pub reply_to: Option<String>,
    /// The subject line.
    pub subject: String,
    /// The text.
    pub body: String,
}

/// The characters of an `OutgoingMail`.
pub ghost struct MailView {
    pub from: Seq<char>,
    pub to: Seq<char>,
    pub reply_to: Option<Seq<char>>,
    pub subject: Seq<char>,
    pub body: Seq<char>,
}

/// A mail together with the relay that is to take it.
#[derive(Debug, PartialEq, Eq)]
pub struct SmtpRequest {
    /// The mail.
    pub mail: OutgoingMail,
    /// The user of the relay.
    pub username: String,
    /// The secret of that user.
    pub password: String,
    /// The host of the relay.
    pub server: String,
}

/// The characters of an `SmtpRequest`.
pub ghost struct SmtpRequestView {
    pub mail: MailView,
    pub username: Seq<char>,
    pub password: Seq<char>,
    pub server: Seq<char>,
}

impl View for OutgoingMail {
    type V = MailView;

    open spec fn view(&self) -> MailView {
        MailView {
            from: self.from@,
            to: self.to@,
            reply_to: match self.reply_to {
                Some(address) => Some(address@),
                None => None,
            },
            subject: self.subject@,
            body: self.body@,
        }
    }
}

impl View for SmtpRequest {
    type V = SmtpRequestView;

    open spec fn view(&self) -> SmtpRequestView {
        SmtpRequestView {
            mail: self.mail@,
            username: self.username@,
            password: self.password@,
            server: self.server@,
        }
    }
}

/// The characters of a request, or the failure in its place.
pub open spec fn request_view(r: Result<SmtpRequest, ErrorKind>) -> Result<
    SmtpRequestView,
    ErrorKind,
> {
    match r {
        Ok(request) => Ok(request@),
        Err(e) => Err(e),
    }
}

/// The mail that carries `token` from `from` to `address`.
pub open spec fn token_mail(from: Seq<char>, address: Seq<char>, token: Seq<char>) -> MailView {
    MailView {
        from,
        to: address,
        reply_to: None,
        subject: TOKEN_SUBJECT@,
        body: TOKEN_BODY_OPENING@ + token + TOKEN_BODY_CLOSING@,
    }
}

/// The mail that carries a confirmed message from `from` to `recipient`.
/// An answer to it goes to the address that the message came with.
pub open spec fn message_mail(from: Seq<char>, recipient: Seq<char>, payload: MessageView)
    -> MailView {
    MailView {
        from,
        to: RECIPIENT_OPENING@ + recipient + RECIPIENT_CLOSING@,
        reply_to: Some(payload.reply_to),
        subject: MESSAGE_SUBJECT@,
        body: payload.pgp_message,
    }
}

/// `mail` with the relay of `config`, or `ConfigurationMissing` where the
/// user, the secret or the host is absent.
pub open spec fn smtp_request(config: ConfigView, mail: MailView) -> Result<
    SmtpRequestView,
    ErrorKind,
> {
    match (config.smtp_username, config.smtp_token, config.smtp_server) {
        (Some(username), Some(password), Some(server)) => Ok(
            SmtpRequestView { mail, username, password, server },
        ),
        _ => Err(ErrorKind::ConfigurationMissing),
    }
}

/// The request for the token mail, or `ConfigurationMissing` where the
/// sender or a setting of the relay is absent.
pub open spec fn token_request(config: ConfigView, address: Seq<char>, token: Seq<char>)
    -> Result<SmtpRequestView, ErrorKind> {
    match config.email_from {
        Some(from) => smtp_request(config, token_mail(from, address, token)),
        None => Err(ErrorKind::ConfigurationMissing),
    }
}

/// The request for the mail of a confirmed message, or
/// `ConfigurationMissing` where the recipient, the sender or a setting of the
/// relay is absent.
pub open spec fn message_request(config: ConfigView, payload: MessageView) -> Result<
    SmtpRequestView,
    ErrorKind,
> {
    match (config.email_recipient, config.email_from) {
        (Some(recipient), Some(from)) => smtp_request(
            config,
            message_mail(from, recipient, payload),
        ),
        _ => Err(ErrorKind::ConfigurationMissing),
    }
}

impl OutgoingMail {
    /// A second mail with the same characters.
    pub fn duplicate(&self) -> (copy: OutgoingMail)
        ensures
            copy@ == self@,
    {
        OutgoingMail {
            from: self.from.clone(),
            to: self.to.clone(),
            reply_to: match &self.reply_to {
                Some(address) => Some(address.clone()),
                None => None,
            },
            subject: self.subject.clone(),
            body: self.body.clone(),
        }
    }
}

impl SmtpRequest {
    /// A second request with the same characters.
    pub fn duplicate(&self) -> (copy: SmtpRequest)
        ensures
            copy@ == self@,
    {
        SmtpRequest {
            mail: self.mail.duplicate(),
            username: self.username.clone(),
            password: self.password.clone(),
            server: self.server.clone(),
        }
    }
}

/// Prepares the mail that carries `token` to `user_email_address`.
pub fn email_token(config: &Config, user_email_address: &str, token: &str) -> (r: Result<
    SmtpRequest,
    ErrorKind,
>)
    ensures
        request_view(r) == token_request(config@, user_email_address@, token@),
{
    let from = match &config.email_from {
        Some(from) => from.clone(),
        None => {
            return Err(ErrorKind::ConfigurationMissing);
        },
    };
    let body = String::from_str(TOKEN_BODY_OPENING).concat(token).concat(TOKEN_BODY_CLOSING);
    let mail = OutgoingMail {
        from,
        to: String::from_str(user_email_address),
        reply_to: None,
        subject: String::from_str(TOKEN_SUBJECT),
        body,
    };
    send_email(config, mail)
}

/// Prepares the mail that carries the confirmed message `payload` to the
/// recipient.
pub fn email_message(config: &Config, payload: MessageSubmission) -> (r: Result<
    SmtpRequest,
    ErrorKind,
>)
    ensures
        request_view(r) == message_request(config@, payload@),
{
    let recipient = match &config.email_recipient {
        Some(recipient) => recipient,
        None => {
            return Err(ErrorKind::ConfigurationMissing);
        },
    };
    let from = match &config.email_from {
        Some(from) => from.clone(),
        None => {
            return Err(ErrorKind::ConfigurationMissing);
        },
    };
    let to = String::from_str(RECIPIENT_OPENING).concat(recipient.as_str()).concat(
        RECIPIENT_CLOSING,
    );
    let mail = OutgoingMail {
        from,
        to,
        reply_to: Some(payload.reply_to),
        subject: String::from_str(MESSAGE_SUBJECT),
        body: payload.pgp_message,
    };
    send_email(config, mail)
}

/// Addresses `mail` to the relay of `config`.
pub fn send_email(config: &Config, mail: OutgoingMail) -> (r: Result<SmtpRequest, ErrorKind>)
    ensures
        request_view(r) == smtp_request(config@, mail@),
{
    let username = match &config.smtp_username {
        Some(username) => username.clone(),
        None => {
            return Err(ErrorKind::ConfigurationMissing);
        },
    };
    let password = match &config.smtp_token {
        Some(password) => password.clone(),
        None => {
            return Err(ErrorKind::ConfigurationMissing);
        },
    };
    let server = match &config.smtp_server {
        Some(server) => server.clone(),
        None => {
            return Err(ErrorKind::ConfigurationMissing);
        },
    };
    Ok(SmtpRequest { mail, username, password, server })
}

} // verus!

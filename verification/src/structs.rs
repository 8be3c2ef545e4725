//! What a client sends: a message to relay, and later the token that
//! releases it.

use vstd::prelude::*;
use crate::address::{email_syntax_ok, is_valid_email, lacks_mailbox_or_domain};
use crate::envelope::{envelope_ok, envelope_verdict, is_valid_pgp_message, EnvelopeError};
use crate::ident::{is_canonical_id, is_msg_id, is_token, is_token_str};

verus! {

/// A message and the address that answers to it.
#[derive(Debug, PartialEq, Eq)]
pub struct MessageSubmission {
    /// Where the token goes, and later the recipient's answer.
    pub reply_to: String,
    /// The armored message.
    pub pgp_message: String,
}

/// The characters of a `MessageSubmission`.
pub ghost struct MessageView {
    pub reply_to: Seq<char>,
    pub pgp_message: Seq<char>,
}

/// The identifier of a pending message and the token that releases it.
#[derive(Debug, PartialEq, Eq)]
pub struct TokenSubmission {
    /// The identifier that the submission was answered with.
    pub msg_id: String,
    /// The token that was mailed to the reply-to address.
    pub token: String,
}

/// The characters of a `TokenSubmission`.
pub ghost struct TokenView {
    pub msg_id: Seq<char>,
    pub token: Seq<char>,
}

/// The field of an input that is not in order. Fields are judged in the
/// order in which they are declared, and the first fault is reported.
#[derive(Clone, Copy, Debug, PartialEq, Eq, Structural)]
pub enum InputFault {
    /// The reply-to address has not the syntax of an email address.
    ReplyTo,
    /// The message breaks a rule of the envelope.
    Payload(EnvelopeError),
    /// The identifier is not in canonical form.
    MessageId,
    /// The token has not the form of a token.
    Token,
}

impl MessageView {
    /// A submission with a well-formed address and a message that keeps the
    /// envelope.
    pub open spec fn valid(self) -> bool {
        email_syntax_ok(self.reply_to) && envelope_ok(self.pgp_message)
    }

    /// What `validate` answers.
    pub open spec fn verdict(self) -> Result<(), InputFault> {
        if !email_syntax_ok(self.reply_to) {
            Err(InputFault::ReplyTo)
        } else {
            match envelope_verdict(self.pgp_message) {
                Ok(_) => Ok(()),
                Err(e) => Err(InputFault::Payload(e)),
            }
        }
    }
}

impl TokenView {
    /// A confirmation with an identifier in canonical form and a token in the
    /// form of a token.
    pub open spec fn valid(self) -> bool {
        is_canonical_id(self.msg_id) && is_token(self.token)
    }

    /// What `validate` answers.
    pub open spec fn verdict(self) -> Result<(), InputFault> {
        if !is_canonical_id(self.msg_id) {
            Err(InputFault::MessageId)
        } else if !is_token(self.token) {
            Err(InputFault::Token)
        } else {
            Ok(())
        }
    }
}

impl View for MessageSubmission {
    type V = MessageView;

    open spec fn view(&self) -> MessageView {
        MessageView { reply_to: self.reply_to@, pgp_message: self.pgp_message@ }
    }
}

impl View for TokenSubmission {
    type V = TokenView;

    open spec fn view(&self) -> TokenView {
        TokenView { msg_id: self.msg_id@, token: self.token@ }
    }
}

impl MessageSubmission {
    /// Judges the submission: `Ok` exactly when it is valid, else its first
    /// fault. An address that is empty, has no `@` or ends in `@` is a fault.
    pub fn validate(&self) -> (verdict: Result<(), InputFault>)
        ensures
            verdict == self@.verdict(),
            verdict is Ok <==> self@.valid(),
            lacks_mailbox_or_domain(self.reply_to@) ==> verdict == Err::<(), InputFault>(
                InputFault::ReplyTo,
            ),
    {
        if !is_valid_email(self.reply_to.as_str()) {
            return Err(InputFault::ReplyTo);
        }
        match is_valid_pgp_message(self.pgp_message.as_str()) {
            Ok(_) => Ok(()),
            Err(e) => Err(InputFault::Payload(e)),
        }
    }

    /// A second submission with the same characters.
    pub fn duplicate(&self) -> (copy: MessageSubmission)
        ensures
            copy@ == self@,
    {
        MessageSubmission { reply_to: self.reply_to.clone(), pgp_message: self.pgp_message.clone() }
    }
}

impl TokenSubmission {
    /// Judges the confirmation: `Ok` exactly when it is valid, else its first
    /// fault.
    pub fn validate(&self) -> (verdict: Result<(), InputFault>)
        ensures
            verdict == self@.verdict(),
            verdict is Ok <==> self@.valid(),
    {
        if !is_msg_id(self.msg_id.as_str()) {
            return Err(InputFault::MessageId);
        }
        if !is_token_str(self.token.as_str()) {
            return Err(InputFault::Token);
        }
        Ok(())
    }
}

} // verus!

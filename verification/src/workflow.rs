//! The two requests of the relay, each as a flow of steps.
//!
//! A flow never touches the medium or the network itself. In every state it
//! names one action; the caller performs it, reports what happened as an
//! event, and the flow moves on. A submission is encoded, stored, and its
//! token mailed. A confirmation is looked up, read, decoded, removed, and its
//! message mailed. The first failure ends the flow, and nothing earlier is
//! undone: a record stays where the token mail failed, and is gone where the
//! delivery failed after its removal.

use vstd::prelude::*;
use crate::address::lacks_mailbox_or_domain;
use crate::config::{Config, ConfigView};
use crate::envelope::envelope_ok;
use crate::error::{ErrorKind, STATUS_OK};
use crate::ident::{is_canonical_id, is_token, new_submission_id, new_token};
use crate::mail::{
    email_message,
    email_token,
    message_request,
    token_request,
    SmtpRequest,
    SmtpRequestView,
};
use crate::store::{record_path, record_path_of};
use crate::structs::{MessageSubmission, MessageView, TokenSubmission, TokenView};

verus! {

/// What the caller is to do next.
#[derive(Debug, PartialEq, Eq)]
pub enum Action {
    /// Write the submission down as the text of a record.
    Encode { payload: MessageSubmission },
    /// Create the record at `path` with `contents`, unless one is there.
    Create { path: String, contents: String },
    /// Find out whether a record is at `path`.
    Probe { path: String },
    /// Read the record at `path`.
    Read { path: String },
    /// Read the text of a record back as a submission.
    Decode { contents: String },
    /// Remove the record at `path`.
    Remove { path: String },
    /// Hand the mail to its relay.
    Send { request: SmtpRequest },
    /// Answer the client: the flow is over.
    Respond { outcome: Result<String, ErrorKind> },
}

/// What came of an action.
#[derive(Debug, PartialEq, Eq)]
pub enum Event {
    /// The submission was written down as this text.
    Encoded(String),
    /// The record was created, and none was there before.
    Created,
    /// A record is there.
    Present,
    /// The record holds this text.
    Contents(String),
    /// The text reads as this submission.
    Decoded(MessageSubmission),
    /// The record was removed.
    Removed,
    /// The relay took the mail.
    Sent,
    /// No record is there.
    Absent,
    /// The action failed.
    Failed,
}

/// A request on its way.
#[derive(Debug, PartialEq, Eq)]
pub enum Flow {
    /// A submission that is to be written down.
    Encoding { payload: MessageSubmission, id: String, token: String },
    /// A submission whose record is to be created.
    Storing { path: String, contents: String, reply_to: String, id: String, token: String },
    /// A stored submission whose token is to be mailed.
    Notifying { id: String, request: SmtpRequest },
    /// A confirmation whose record is to be looked up.
    Probing { path: String },
    /// A confirmation whose record is to be read.
    Reading { path: String },
    /// A confirmation whose record is to be read back as a submission.
    Decoding { path: String, contents: String },
    /// A confirmation whose record is to be removed.
    Removing { path: String, submission: MessageSubmission },
    /// A confirmed message that is to be mailed.
    Delivering { request: SmtpRequest },
    /// A request that has its answer: the identifier of a submission, nothing
    /// for a confirmation, or the failure.
    Finished { outcome: Result<String, ErrorKind> },
}

/// The characters of an `Action`.
pub ghost enum ActionView {
    Encode { payload: MessageView },
    Create { path: Seq<char>, contents: Seq<char> },
    Probe { path: Seq<char> },
    Read { path: Seq<char> },
    Decode { contents: Seq<char> },
    Remove { path: Seq<char> },
    Send { request: SmtpRequestView },
    Respond { outcome: Result<Seq<char>, ErrorKind> },
}

/// The characters of an `Event`.
pub ghost enum EventView {
    Encoded(Seq<char>),
    Created,
    Present,
    Contents(Seq<char>),
    Decoded(MessageView),
    Removed,
    Sent,
    Absent,
    Failed,
}

/// The characters of a `Flow`.
pub ghost enum FlowView {
    Encoding { payload: MessageView, id: Seq<char>, token: Seq<char> },
    Storing {
        path: Seq<char>,
        contents: Seq<char>,
        reply_to: Seq<char>,
        id: Seq<char>,
        token: Seq<char>,
    },
    Notifying { id: Seq<char>, request: SmtpRequestView },
    Probing { path: Seq<char> },
    Reading { path: Seq<char> },
    Decoding { path: Seq<char>, contents: Seq<char> },
    Removing { path: Seq<char>, submission: MessageView },
    Delivering { request: SmtpRequestView },
    Finished { outcome: Result<Seq<char>, ErrorKind> },
}

/// The characters of an answer.
pub open spec fn outcome_view(outcome: Result<String, ErrorKind>) -> Result<Seq<char>, ErrorKind> {
    match outcome {
        Ok(body) => Ok(body@),
        Err(e) => Err(e),
    }
}

impl View for Action {
    type V = ActionView;

    open spec fn view(&self) -> ActionView {
        match *self {
            Action::Encode { payload } => ActionView::Encode { payload: payload@ },
            Action::Create { path, contents } => ActionView::Create {
                path: path@,
                contents: contents@,
            },
            Action::Probe { path } => ActionView::Probe { path: path@ },
            Action::Read { path } => ActionView::Read { path: path@ },
            Action::Decode { contents } => ActionView::Decode { contents: contents@ },
            Action::Remove { path } => ActionView::Remove { path: path@ },
            Action::Send { request } => ActionView::Send { request: request@ },
            Action::Respond { outcome } => ActionView::Respond { outcome: outcome_view(outcome) },
        }
    }
}

impl View for Event {
    type V = EventView;

    open spec fn view(&self) -> EventView {
        match *self {
            Event::Encoded(contents) => EventView::Encoded(contents@),
            Event::Created => EventView::Created,
            Event::Present => EventView::Present,
            Event::Contents(contents) => EventView::Contents(contents@),
            Event::Decoded(submission) => EventView::Decoded(submission@),
            Event::Removed => EventView::Removed,
            Event::Sent => EventView::Sent,
            Event::Absent => EventView::Absent,
            Event::Failed => EventView::Failed,
        }
    }
}

impl View for Flow {
    type V = FlowView;

    open spec fn view(&self) -> FlowView {
        match *self {
            Flow::Encoding { payload, id, token } => FlowView::Encoding {
                payload: payload@,
                id: id@,
                token: token@,
            },
            Flow::Storing { path, contents, reply_to, id, token } => FlowView::Storing {
                path: path@,
                contents: contents@,
                reply_to: reply_to@,
                id: id@,
                token: token@,
            },
            Flow::Notifying { id, request } => FlowView::Notifying { id: id@, request: request@ },
            Flow::Probing { path } => FlowView::Probing { path: path@ },
            Flow::Reading { path } => FlowView::Reading { path: path@ },
            Flow::Decoding { path, contents } => FlowView::Decoding {
                path: path@,
                contents: contents@,
            },
            Flow::Removing { path, submission } => FlowView::Removing {
                path: path@,
                submission: submission@,
            },
            Flow::Delivering { request } => FlowView::Delivering { request: request@ },
            Flow::Finished { outcome } => FlowView::Finished { outcome: outcome_view(outcome) },
        }
    }
}

/// The flow that has failed with `e`.
pub open spec fn failed(e: ErrorKind) -> FlowView {
    FlowView::Finished { outcome: Err(e) }
}

impl FlowView {
    /// The flow of a submission under the identifier `id` and the token
    /// `token`: over at once where the submission is not valid.
    pub open spec fn submission(payload: MessageView, id: Seq<char>, token: Seq<char>)
        -> FlowView {
        if payload.valid() {
            FlowView::Encoding { payload, id, token }
        } else {
            failed(ErrorKind::InvalidInput)
        }
    }

    /// The flow of a confirmation: over at once where the confirmation is not
    /// valid, or where no directory of records is set.
    pub open spec fn confirmation(config: ConfigView, payload: TokenView) -> FlowView {
        if !payload.valid() {
            failed(ErrorKind::InvalidInput)
        } else {
            match config.storage_path {
                Some(storage) => FlowView::Probing {
                    path: record_path(storage, payload.msg_id, payload.token),
                },
                None => failed(ErrorKind::ConfigurationMissing),
            }
        }
    }

    /// Whether the flow has its answer.
    pub open spec fn finished(self) -> bool {
        self is Finished
    }

    /// What the caller is to do in this state.
    pub open spec fn action(self) -> ActionView {
        match self {
            FlowView::Encoding { payload, .. } => ActionView::Encode { payload },
            FlowView::Storing { path, contents, .. } => ActionView::Create { path, contents },
            FlowView::Notifying { request, .. } => ActionView::Send { request },
            FlowView::Probing { path } => ActionView::Probe { path },
            FlowView::Reading { path } => ActionView::Read { path },
            FlowView::Decoding { contents, .. } => ActionView::Decode { contents },
            FlowView::Removing { path, .. } => ActionView::Remove { path },
            FlowView::Delivering { request } => ActionView::Send { request },
            FlowView::Finished { outcome } => ActionView::Respond { outcome },
        }
    }

    /// The state after `event`. An event that does not answer the action of
    /// the state leaves the state as it is.
    pub open spec fn step(self, config: ConfigView, event: EventView) -> FlowView {
        match self {
            FlowView::Encoding { payload, id, token } => match event {
                EventView::Encoded(contents) => match config.storage_path {
                    Some(storage) => FlowView::Storing {
                        path: record_path(storage, id, token),
                        contents,
                        reply_to: payload.reply_to,
                        id,
                        token,
                    },
                    None => failed(ErrorKind::ConfigurationMissing),
                },
                EventView::Failed => failed(ErrorKind::StorageFailure),
                _ => self,
            },
            FlowView::Storing { reply_to, id, token, .. } => match event {
                EventView::Created => match token_request(config, reply_to, token) {
                    Ok(request) => FlowView::Notifying { id, request },
                    Err(e) => failed(e),
                },
                EventView::Failed => failed(ErrorKind::StorageFailure),
                _ => self,
            },
            FlowView::Notifying { id, .. } => match event {
                EventView::Sent => FlowView::Finished { outcome: Ok(id) },
                EventView::Failed => failed(ErrorKind::NotifierFailure),
                _ => self,
            },
            FlowView::Probing { path } => match event {
                EventView::Present => FlowView::Reading { path },
                EventView::Absent => failed(ErrorKind::NotFound),
                EventView::Failed => failed(ErrorKind::StorageFailure),
                _ => self,
            },
            FlowView::Reading { path } => match event {
                EventView::Contents(contents) => FlowView::Decoding { path, contents },
                EventView::Absent => failed(ErrorKind::NotFound),
                EventView::Failed => failed(ErrorKind::StorageFailure),
                _ => self,
            },
            FlowView::Decoding { path, .. } => match event {
                EventView::Decoded(submission) => FlowView::Removing { path, submission },
                EventView::Failed => failed(ErrorKind::CorruptRecord),
                _ => self,
            },
            FlowView::Removing { submission, .. } => match event {
                EventView::Removed => match message_request(config, submission) {
                    Ok(request) => FlowView::Delivering { request },
                    Err(e) => failed(e),
                },
                EventView::Absent => failed(ErrorKind::NotFound),
                EventView::Failed => failed(ErrorKind::StorageFailure),
                _ => self,
            },
            FlowView::Delivering { .. } => match event {
                EventView::Sent => FlowView::Finished { outcome: Ok(Seq::empty()) },
                EventView::Failed => failed(ErrorKind::NotifierFailure),
                _ => self,
            },
            FlowView::Finished { .. } => self,
        }
    }
}

/// The status that answers the client: 200 where the request ended well,
/// else the status of the failure.
pub open spec fn status_of(outcome: Result<Seq<char>, ErrorKind>) -> u16 {
    match outcome {
        Ok(_) => STATUS_OK,
        Err(e) => e.status(),
    }
}

/// The status that answers the client.
pub fn status_code(outcome: &Result<String, ErrorKind>) -> (code: u16)
    ensures
        code == status_of(outcome_view(*outcome)),
{
    match outcome {
        Ok(_) => STATUS_OK,
        Err(e) => e.status_code(),
    }
}

/// Opens the flow of a submission. An invalid submission is answered at once
/// with `InvalidInput`, and nothing has been asked of the medium: so it is
/// with a message that breaks a rule of the envelope, and with an address
/// that is empty, has no `@` or ends in `@`. A valid one gets a fresh
/// identifier and a fresh token and is to be encoded next.
pub fn post_pgp_message(payload: MessageSubmission) -> (flow: Flow)
    ensures
        !payload@.valid() ==> flow@ == failed(ErrorKind::InvalidInput),
        !envelope_ok(payload.pgp_message@) ==> flow@ == failed(ErrorKind::InvalidInput),
        lacks_mailbox_or_domain(payload.reply_to@) ==> flow@ == failed(ErrorKind::InvalidInput),
        payload@.valid() ==> (flow@ matches FlowView::Encoding { payload: kept, id, token }
            && kept == payload@ && is_canonical_id(id) && is_token(token)),
        exists|id: Seq<char>, token: Seq<char>|
            flow@ == #[trigger] FlowView::submission(payload@, id, token),
{
    match payload.validate() {
        Err(_) => {
            assert(failed(ErrorKind::InvalidInput) == FlowView::submission(
                payload@,
                Seq::empty(),
                Seq::empty(),
            ));
            Flow::Finished { outcome: Err(ErrorKind::InvalidInput) }
        },
        Ok(_) => {
            let id = new_submission_id();
            let token = new_token();
            assert(FlowView::Encoding { payload: payload@, id: id@, token: token@ }
                == FlowView::submission(payload@, id@, token@));
            Flow::Encoding { payload, id, token }
        },
    }
}

/// Opens the flow of a confirmation. An invalid confirmation is answered at
/// once with `InvalidInput`, a missing directory of records with
/// `ConfigurationMissing`; in both cases nothing has been asked of the
/// medium. Otherwise the record is to be looked up next.
pub fn post_pgp_token(config: &Config, payload: TokenSubmission) -> (flow: Flow)
    ensures
        flow@ == FlowView::confirmation(config@, payload@),
{
    match payload.validate() {
        Err(_) => Flow::Finished { outcome: Err(ErrorKind::InvalidInput) },
        Ok(_) => match &config.storage_path {
            None => Flow::Finished { outcome: Err(ErrorKind::ConfigurationMissing) },
            Some(storage) => Flow::Probing {
                path: record_path_of(
                    storage.as_str(),
                    payload.msg_id.as_str(),
                    payload.token.as_str(),
                ),
            },
        },
    }
}

impl Flow {
    /// Whether the flow has its answer.
    pub fn is_finished(&self) -> (done: bool)
        ensures
            done == self@.finished(),
    {
        match self {
            Flow::Finished { .. } => true,
            _ => false,
        }
    }

    /// What the caller is to do in this state.
    pub fn action(&self) -> (action: Action)
        ensures
            action@ == self@.action(),
    {
        match self {
            Flow::Encoding { payload, .. } => Action::Encode { payload: payload.duplicate() },
            Flow::Storing { path, contents, .. } => Action::Create {
                path: path.clone(),
                contents: contents.clone(),
            },
            Flow::Notifying { request, .. } => Action::Send { request: request.duplicate() },
            Flow::Probing { path } => Action::Probe { path: path.clone() },
            Flow::Reading { path } => Action::Read { path: path.clone() },
            Flow::Decoding { contents, .. } => Action::Decode { contents: contents.clone() },
            Flow::Removing { path, .. } => Action::Remove { path: path.clone() },
            Flow::Delivering { request } => Action::Send { request: request.duplicate() },
            Flow::Finished { outcome } => Action::Respond {
                outcome: match outcome {
                    Ok(body) => Ok(body.clone()),
                    Err(e) => Err(*e),
                },
            },
        }
    }

    /// Moves on by `event`, which reports on the action of this state.
    pub fn step(self, config: &Config, event: Event) -> (next: Flow)
        ensures
            next@ == self@.step(config@, event@),
    {
        match self {
            Flow::Encoding { payload, id, token } => match event {
                Event::Encoded(contents) => match &config.storage_path {
                    Some(storage) => {
                        let path = record_path_of(storage.as_str(), id.as_str(), token.as_str());
                        Flow::Storing { path, contents, reply_to: payload.reply_to, id, token }
                    },
                    None => Flow::Finished { outcome: Err(ErrorKind::ConfigurationMissing) },
                },
                Event::Failed => Flow::Finished { outcome: Err(ErrorKind::StorageFailure) },
                _ => Flow::Encoding { payload, id, token },
            },
            Flow::Storing { path, contents, reply_to, id, token } => match event {
                Event::Created => match email_token(config, reply_to.as_str(), token.as_str()) {
                    Ok(request) => Flow::Notifying { id, request },
                    Err(e) => Flow::Finished { outcome: Err(e) },
                },
                Event::Failed => Flow::Finished { outcome: Err(ErrorKind::StorageFailure) },
                _ => Flow::Storing { path, contents, reply_to, id, token },
            },
            Flow::Notifying { id, request } => match event {
                Event::Sent => Flow::Finished { outcome: Ok(id) },
                Event::Failed => Flow::Finished { outcome: Err(ErrorKind::NotifierFailure) },
                _ => Flow::Notifying { id, request },
            },
            Flow::Probing { path } => match event {
                Event::Present => Flow::Reading { path },
                Event::Absent => Flow::Finished { outcome: Err(ErrorKind::NotFound) },
                Event::Failed => Flow::Finished { outcome: Err(ErrorKind::StorageFailure) },
                _ => Flow::Probing { path },
            },
            Flow::Reading { path } => match event {
                Event::Contents(contents) => Flow::Decoding { path, contents },
                Event::Absent => Flow::Finished { outcome: Err(ErrorKind::NotFound) },
                Event::Failed => Flow::Finished { outcome: Err(ErrorKind::StorageFailure) },
                _ => Flow::Reading { path },
            },
            Flow::Decoding { path, contents } => match event {
                Event::Decoded(submission) => Flow::Removing { path, submission },
                Event::Failed => Flow::Finished { outcome: Err(ErrorKind::CorruptRecord) },
                _ => Flow::Decoding { path, contents },
            },
            Flow::Removing { path, submission } => match event {
                Event::Removed => match email_message(config, submission) {
                    Ok(request) => Flow::Delivering { request },
                    Err(e) => Flow::Finished { outcome: Err(e) },
                },
                Event::Absent => Flow::Finished { outcome: Err(ErrorKind::NotFound) },
                Event::Failed => Flow::Finished { outcome: Err(ErrorKind::StorageFailure) },
                _ => Flow::Removing { path, submission },
            },
            Flow::Delivering { request } => match event {
                Event::Sent => Flow::Finished { outcome: Ok(String::new()) },
                Event::Failed => Flow::Finished { outcome: Err(ErrorKind::NotifierFailure) },
                _ => Flow::Delivering { request },
            },
            Flow::Finished { outcome } => Flow::Finished { outcome },
        }
    }
}

} // verus!

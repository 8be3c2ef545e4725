//! What holds of the flows when they are carried through against faithful
//! collaborators.

use vstd::prelude::*;
use crate::config::ConfigView;
use crate::error::ErrorKind;
use crate::ident::{is_canonical_id, is_token};
use crate::mail::{message_request, token_request};
use crate::mail::SmtpRequestView;
use crate::model::{longest_flow, perform, run, run_pair, Collaborators, World};
use crate::store::record_path;
use crate::structs::{MessageView, TokenView};
use crate::workflow::{failed, FlowView};

verus! {

/// The relay takes every mail.
pub open spec fn relay_takes_all(env: Collaborators) -> bool {
    forall|request| #[trigger] (env.accepts)(request)
}

/// A flow that has its answer stays as it is, and so does the world.
pub proof fn lemma_finished_flow_rests(
    env: Collaborators,
    config: ConfigView,
    world: World,
    flow: FlowView,
    count: nat,
)
    requires
        flow.finished(),
    ensures
        run(env, config, world, flow, count) == (world, flow),
    decreases count,
{
    if count > 0 {
        lemma_finished_flow_rests(env, config, world, flow, (count - 1) as nat);
    }
}

/// The most actions that `flow` still takes before it has its answer.
pub open spec fn actions_left(flow: FlowView) -> nat {
    match flow {
        FlowView::Encoding { .. } => 3,
        FlowView::Storing { .. } => 2,
        FlowView::Notifying { .. } => 1,
        FlowView::Probing { .. } => 5,
        FlowView::Reading { .. } => 4,
        FlowView::Decoding { .. } => 3,
        FlowView::Removing { .. } => 2,
        FlowView::Delivering { .. } => 1,
        FlowView::Finished { .. } => 0,
    }
}

/// Every flow comes to its answer, whatever the collaborators report: a
/// submission within three actions, a confirmation within five. No action is
/// taken twice.
pub proof fn lemma_flow_finishes(
    env: Collaborators,
    config: ConfigView,
    world: World,
    flow: FlowView,
    count: nat,
)
    requires
        count >= actions_left(flow),
    ensures
        run(env, config, world, flow, count).1.finished(),
    decreases count,
{
    if count > 0 {
        let (next_world, next) = perform(env, config, world, flow);
        assert(actions_left(next) < actions_left(flow) || next.finished());
        lemma_flow_finishes(env, config, next_world, next, (count - 1) as nat);
    }
}

/// A submission that is not valid is answered with `InvalidInput`, and the
/// world is as before: no record has been created and no mail sent.
pub proof fn lemma_invalid_submission_leaves_no_trace(
    env: Collaborators,
    config: ConfigView,
    world: World,
    payload: MessageView,
    id: Seq<char>,
    token: Seq<char>,
    count: nat,
)
    requires
        !payload.valid(),
    ensures
        run(env, config, world, FlowView::submission(payload, id, token), count) == (
            world,
            failed(ErrorKind::InvalidInput),
        ),
{
    lemma_finished_flow_rests(env, config, world, failed(ErrorKind::InvalidInput), count);
}

/// A confirmation that is not valid is answered with `InvalidInput`, and the
/// world is as before: the medium has not been asked.
pub proof fn lemma_invalid_confirmation_leaves_no_trace(
    env: Collaborators,
    config: ConfigView,
    world: World,
    claim: TokenView,
    count: nat,
)
    requires
        !claim.valid(),
    ensures
        FlowView::confirmation(config, claim) == failed(ErrorKind::InvalidInput),
        run(env, config, world, FlowView::confirmation(config, claim), count) == (
            world,
            failed(ErrorKind::InvalidInput),
        ),
{
    lemma_finished_flow_rests(env, config, world, failed(ErrorKind::InvalidInput), count);
}

/// A valid confirmation that no record answers to fails with `NotFound`, and
/// the world is as before.
pub proof fn lemma_unknown_claim_is_not_found(
    env: Collaborators,
    config: ConfigView,
    world: World,
    claim: TokenView,
)
    requires
        claim.valid(),
        config.storage_path is Some,
        !world.records.contains_key(
            record_path(config.storage_path->0, claim.msg_id, claim.token),
        ),
    ensures
        run(env, config, world, FlowView::confirmation(config, claim), longest_flow()) == (
            world,
            failed(ErrorKind::NotFound),
        ),
{
    let flow = FlowView::confirmation(config, claim);
    assert(perform(env, config, world, flow) == (world, failed(ErrorKind::NotFound)));
    lemma_finished_flow_rests(env, config, world, failed(ErrorKind::NotFound), 4);
}

/// A valid submission is stored under the path of its identifier and token,
/// with the text that it was written down as, and answered with its
/// identifier once the token mail is out; the token goes nowhere else.
pub proof fn lemma_submission_is_stored(
    env: Collaborators,
    config: ConfigView,
    world: World,
    payload: MessageView,
    id: Seq<char>,
    token: Seq<char>,
    record: Seq<char>,
)
    requires
        payload.valid(),
        config.complete(),
        (env.encode)(payload) == Some(record),
        relay_takes_all(env),
        !world.records.contains_key(record_path(config.storage_path->0, id, token)),
    ensures
        run(env, config, world, FlowView::submission(payload, id, token), 3) == (
            World {
                records: world.records.insert(
                    record_path(config.storage_path->0, id, token),
                    record,
                ),
                outbox: world.outbox.push(token_request(config, payload.reply_to, token)->Ok_0),
            },
            FlowView::Finished { outcome: Ok(id) },
        ),
{
    let path = record_path(config.storage_path->0, id, token);
    let encoding = FlowView::submission(payload, id, token);
    let storing = FlowView::Storing { path, contents: record, reply_to: payload.reply_to, id, token };
    assert(perform(env, config, world, encoding) == (world, storing));
    let stored = World { records: world.records.insert(path, record), outbox: world.outbox };
    let request = token_request(config, payload.reply_to, token)->Ok_0;
    let notifying = FlowView::Notifying { id, request };
    assert(perform(env, config, world, storing) == (stored, notifying));
    let mailed = World { records: stored.records, outbox: stored.outbox.push(request) };
    let done = FlowView::Finished { outcome: Ok(id) };
    assert((env.accepts)(request));
    assert(perform(env, config, stored, notifying) == (mailed, done));
    assert(run(env, config, mailed, done, 0) == (mailed, done));
    assert(run(env, config, stored, notifying, 1) == (mailed, done));
    assert(run(env, config, world, storing, 2) == (mailed, done));
    assert(run(env, config, world, encoding, 3) == (mailed, done));
}

/// A valid confirmation of a stored record that reads as a submission
/// removes the record, mails the message of that submission to the
/// recipient with the submission's address to answer to, and ends well.
pub proof fn lemma_claim_delivers_and_removes(
    env: Collaborators,
    config: ConfigView,
    world: World,
    claim: TokenView,
    payload: MessageView,
)
    requires
        claim.valid(),
        config.complete(),
        relay_takes_all(env),
        world.records.contains_key(
            record_path(config.storage_path->0, claim.msg_id, claim.token),
        ),
        (env.decode)(
            world.records[record_path(config.storage_path->0, claim.msg_id, claim.token)],
        ) == Some(payload),
    ensures
        run(env, config, world, FlowView::confirmation(config, claim), longest_flow()) == (
            World {
                records: world.records.remove(
                    record_path(config.storage_path->0, claim.msg_id, claim.token),
                ),
                outbox: world.outbox.push(message_request(config, payload)->Ok_0),
            },
            FlowView::Finished { outcome: Ok(Seq::empty()) },
        ),
        message_request(config, payload)->Ok_0.mail.body == payload.pgp_message,
        message_request(config, payload)->Ok_0.mail.reply_to == Some(payload.reply_to),
{
    let path = record_path(config.storage_path->0, claim.msg_id, claim.token);
    let contents = world.records[path];
    let probing = FlowView::confirmation(config, claim);
    let reading = FlowView::Reading { path };
    let decoding = FlowView::Decoding { path, contents };
    let removing = FlowView::Removing { path, submission: payload };
    let request = message_request(config, payload)->Ok_0;
    let delivering = FlowView::Delivering { request };
    let done = FlowView::Finished { outcome: Ok(Seq::empty()) };
    let removed = World { records: world.records.remove(path), outbox: world.outbox };
    let mailed = World { records: removed.records, outbox: removed.outbox.push(request) };
    assert(perform(env, config, world, probing) == (world, reading));
    assert(perform(env, config, world, reading) == (world, decoding));
    assert(perform(env, config, world, decoding) == (world, removing));
    assert(perform(env, config, world, removing) == (removed, delivering));
    assert((env.accepts)(request));
    assert(perform(env, config, removed, delivering) == (mailed, done));
    assert(run(env, config, mailed, done, 0) == (mailed, done));
    assert(run(env, config, removed, delivering, 1) == (mailed, done));
    assert(run(env, config, world, removing, 2) == (mailed, done));
    assert(run(env, config, world, decoding, 3) == (mailed, done));
    assert(run(env, config, world, reading, 4) == (mailed, done));
    assert(run(env, config, world, probing, 5) == (mailed, done));
}

/// A record is never written over: where one lies at the path of a new
/// submission already, the submission fails with `StorageFailure`, and the
/// world is as before.
pub proof fn lemma_existing_record_is_not_overwritten(
    env: Collaborators,
    config: ConfigView,
    world: World,
    payload: MessageView,
    id: Seq<char>,
    token: Seq<char>,
)
    requires
        payload.valid(),
        config.storage_path is Some,
        (env.encode)(payload) is Some,
        world.records.contains_key(record_path(config.storage_path->0, id, token)),
    ensures
        run(env, config, world, FlowView::submission(payload, id, token), 3) == (
            world,
            failed(ErrorKind::StorageFailure),
        ),
{
    let path = record_path(config.storage_path->0, id, token);
    let encoding = FlowView::submission(payload, id, token);
    let storing = FlowView::Storing {
        path,
        contents: (env.encode)(payload)->0,
        reply_to: payload.reply_to,
        id,
        token,
    };
    let done = failed(ErrorKind::StorageFailure);
    assert(perform(env, config, world, encoding) == (world, storing));
    assert(perform(env, config, world, storing) == (world, done));
    lemma_finished_flow_rests(env, config, world, done, 1);
    assert(run(env, config, world, storing, 2) == (world, done));
    assert(run(env, config, world, encoding, 3) == (world, done));
}

/// Where the relay refuses the token mail, the submission fails with
/// `NotifierFailure` and its record stays: it became pending when it was
/// stored, not when the mail went out.
pub proof fn lemma_record_stays_when_token_mail_fails(
    env: Collaborators,
    config: ConfigView,
    world: World,
    payload: MessageView,
    id: Seq<char>,
    token: Seq<char>,
    record: Seq<char>,
)
    requires
        payload.valid(),
        config.complete(),
        (env.encode)(payload) == Some(record),
        !(env.accepts)(token_request(config, payload.reply_to, token)->Ok_0),
        !world.records.contains_key(record_path(config.storage_path->0, id, token)),
    ensures
        run(env, config, world, FlowView::submission(payload, id, token), 3) == (
            World {
                records: world.records.insert(
                    record_path(config.storage_path->0, id, token),
                    record,
                ),
                outbox: world.outbox,
            },
            failed(ErrorKind::NotifierFailure),
        ),
{
    let path = record_path(config.storage_path->0, id, token);
    let encoding = FlowView::submission(payload, id, token);
    let storing = FlowView::Storing { path, contents: record, reply_to: payload.reply_to, id, token };
    let stored = World { records: world.records.insert(path, record), outbox: world.outbox };
    let request = token_request(config, payload.reply_to, token)->Ok_0;
    let notifying = FlowView::Notifying { id, request };
    let done = failed(ErrorKind::NotifierFailure);
    assert(perform(env, config, world, encoding) == (world, storing));
    assert(perform(env, config, world, storing) == (stored, notifying));
    assert(perform(env, config, stored, notifying) == (stored, done));
    assert(run(env, config, stored, done, 0) == (stored, done));
    assert(run(env, config, stored, notifying, 1) == (stored, done));
    assert(run(env, config, world, storing, 2) == (stored, done));
    assert(run(env, config, world, encoding, 3) == (stored, done));
}

/// Where the relay refuses the message of a confirmed record, the
/// confirmation fails with `NotifierFailure` and the record is gone all the
/// same: a message may be lost, and is never delivered twice.
pub proof fn lemma_record_is_gone_when_delivery_fails(
    env: Collaborators,
    config: ConfigView,
    world: World,
    claim: TokenView,
    payload: MessageView,
)
    requires
        claim.valid(),
        config.complete(),
        !(env.accepts)(message_request(config, payload)->Ok_0),
        world.records.contains_key(
            record_path(config.storage_path->0, claim.msg_id, claim.token),
        ),
        (env.decode)(
            world.records[record_path(config.storage_path->0, claim.msg_id, claim.token)],
        ) == Some(payload),
    ensures
        run(env, config, world, FlowView::confirmation(config, claim), longest_flow()) == (
            World {
                records: world.records.remove(
                    record_path(config.storage_path->0, claim.msg_id, claim.token),
                ),
                outbox: world.outbox,
            },
            failed(ErrorKind::NotifierFailure),
        ),
{
    let path = record_path(config.storage_path->0, claim.msg_id, claim.token);
    let contents = world.records[path];
    let probing = FlowView::confirmation(config, claim);
    let reading = FlowView::Reading { path };
    let decoding = FlowView::Decoding { path, contents };
    let removing = FlowView::Removing { path, submission: payload };
    let request = message_request(config, payload)->Ok_0;
    let delivering = FlowView::Delivering { request };
    let done = failed(ErrorKind::NotifierFailure);
    let removed = World { records: world.records.remove(path), outbox: world.outbox };
    assert(perform(env, config, world, probing) == (world, reading));
    assert(perform(env, config, world, reading) == (world, decoding));
    assert(perform(env, config, world, decoding) == (world, removing));
    assert(perform(env, config, world, removing) == (removed, delivering));
    assert(perform(env, config, removed, delivering) == (removed, done));
    assert(run(env, config, removed, done, 0) == (removed, done));
    assert(run(env, config, removed, delivering, 1) == (removed, done));
    assert(run(env, config, world, removing, 2) == (removed, done));
    assert(run(env, config, world, decoding, 3) == (removed, done));
    assert(run(env, config, world, reading, 4) == (removed, done));
    assert(run(env, config, world, probing, 5) == (removed, done));
}

/// A stored record that does not read as a submission makes the
/// confirmation fail with `CorruptRecord`, and stays where it is.
pub proof fn lemma_corrupt_record_is_kept(
    env: Collaborators,
    config: ConfigView,
    world: World,
    claim: TokenView,
)
    requires
        claim.valid(),
        config.storage_path is Some,
        world.records.contains_key(
            record_path(config.storage_path->0, claim.msg_id, claim.token),
        ),
        (env.decode)(
            world.records[record_path(config.storage_path->0, claim.msg_id, claim.token)],
        ) is None,
    ensures
        run(env, config, world, FlowView::confirmation(config, claim), longest_flow()) == (
            world,
            failed(ErrorKind::CorruptRecord),
        ),
{
    let path = record_path(config.storage_path->0, claim.msg_id, claim.token);
    let contents = world.records[path];
    let probing = FlowView::confirmation(config, claim);
    let reading = FlowView::Reading { path };
    let decoding = FlowView::Decoding { path, contents };
    let done = failed(ErrorKind::CorruptRecord);
    assert(perform(env, config, world, probing) == (world, reading));
    assert(perform(env, config, world, reading) == (world, decoding));
    assert(perform(env, config, world, decoding) == (world, done));
    lemma_finished_flow_rests(env, config, world, done, 2);
    assert(run(env, config, world, decoding, 3) == (world, done));
    assert(run(env, config, world, reading, 4) == (world, done));
    assert(run(env, config, world, probing, 5) == (world, done));
}

/// A valid submission, confirmed at once with its identifier and token, is
/// delivered; the record is then gone, and a second confirmation with the
/// same pair fails with `NotFound` and sends nothing.
pub proof fn lemma_submit_then_confirm_succeeds_once(
    env: Collaborators,
    config: ConfigView,
    world: World,
    payload: MessageView,
    id: Seq<char>,
    token: Seq<char>,
    record: Seq<char>,
)
    requires
        payload.valid(),
        is_canonical_id(id),
        is_token(token),
        config.complete(),
        (env.encode)(payload) == Some(record),
        (env.decode)(record) == Some(payload),
        relay_takes_all(env),
        !world.records.contains_key(record_path(config.storage_path->0, id, token)),
    ensures
        ({
            let claim = TokenView { msg_id: id, token };
            let submitted = run(env, config, world, FlowView::submission(payload, id, token), 3);
            let confirmed = run(
                env,
                config,
                submitted.0,
                FlowView::confirmation(config, claim),
                longest_flow(),
            );
            let again = run(
                env,
                config,
                confirmed.0,
                FlowView::confirmation(config, claim),
                longest_flow(),
            );
            &&& submitted.1 == FlowView::Finished { outcome: Ok(id) }
            &&& confirmed.1 == FlowView::Finished { outcome: Ok(Seq::empty()) }
            &&& confirmed.0.records == world.records
            &&& confirmed.0.outbox == world.outbox.push(
                token_request(config, payload.reply_to, token)->Ok_0,
            ).push(message_request(config, payload)->Ok_0)
            &&& again.1 == failed(ErrorKind::NotFound)
            &&& again.0 == confirmed.0
        }),
{
    let path = record_path(config.storage_path->0, id, token);
    let claim = TokenView { msg_id: id, token };
    lemma_submission_is_stored(env, config, world, payload, id, token, record);
    let submitted = run(env, config, world, FlowView::submission(payload, id, token), 3);
    assert(submitted.0.records[path] == record);
    lemma_claim_delivers_and_removes(env, config, submitted.0, claim, payload);
    let confirmed = run(
        env,
        config,
        submitted.0,
        FlowView::confirmation(config, claim),
        longest_flow(),
    );
    assert(confirmed.0.records =~= world.records);
    lemma_unknown_claim_is_not_found(env, config, confirmed.0, claim);
}

/// What two confirmations of one record race for: the record's path, its
/// text, the submission that the text reads as, and the mails that were out
/// before either began.
pub ghost struct Race {
    pub path: Seq<char>,
    pub contents: Seq<char>,
    pub submission: MessageView,
    pub outbox: Seq<SmtpRequestView>,
}

/// The flow that has ended well, for a confirmation.
pub open spec fn confirmed() -> FlowView {
    FlowView::Finished { outcome: Ok(Seq::empty()) }
}

/// A confirmation that has not yet tried to remove the record, or is about
/// to.
pub open spec fn seeking(race: Race, flow: FlowView) -> bool {
    ||| flow == FlowView::Probing { path: race.path }
    ||| flow == FlowView::Reading { path: race.path }
    ||| flow == FlowView::Decoding { path: race.path, contents: race.contents }
    ||| flow == FlowView::Removing { path: race.path, submission: race.submission }
}

/// A confirmation that has removed the record.
pub open spec fn won(race: Race, config: ConfigView, flow: FlowView) -> bool {
    ||| flow == FlowView::Delivering { request: message_request(config, race.submission)->Ok_0 }
    ||| flow == confirmed()
}

/// What holds at every moment of a race: the record is there exactly as
/// long as nobody has removed it, at most one confirmation has removed it,
/// one that found nothing came after the removal, and the message has been
/// mailed exactly if a confirmation has ended well.
pub open spec fn race_in_order(
    race: Race,
    config: ConfigView,
    world: World,
    first: FlowView,
    second: FlowView,
) -> bool {
    &&& seeking(race, first) || won(race, config, first) || first == failed(ErrorKind::NotFound)
    &&& seeking(race, second) || won(race, config, second) || second == failed(
        ErrorKind::NotFound,
    )
    &&& world.records.contains_key(race.path) <==> !won(race, config, first) && !won(
        race,
        config,
        second,
    )
    &&& world.records.contains_key(race.path) ==> world.records[race.path] == race.contents
    &&& !(won(race, config, first) && won(race, config, second))
    &&& first == failed(ErrorKind::NotFound) || second == failed(ErrorKind::NotFound)
        ==> !world.records.contains_key(race.path)
    &&& world.outbox == if first == confirmed() || second == confirmed() {
        race.outbox.push(message_request(config, race.submission)->Ok_0)
    } else {
        race.outbox
    }
}

/// One action of either confirmation keeps the race in order.
proof fn lemma_turn_keeps_order(
    env: Collaborators,
    race: Race,
    config: ConfigView,
    world: World,
    mover: FlowView,
    other: FlowView,
)
    requires
        config.complete(),
        relay_takes_all(env),
        (env.decode)(race.contents) == Some(race.submission),
        race_in_order(race, config, world, mover, other),
    ensures
        race_in_order(
            race,
            config,
            perform(env, config, world, mover).0,
            perform(env, config, world, mover).1,
            other,
        ),
        race_in_order(
            race,
            config,
            perform(env, config, world, mover).0,
            other,
            perform(env, config, world, mover).1,
        ),
{
    let request = message_request(config, race.submission)->Ok_0;
    assert((env.accepts)(request));
}

/// Every sequence of turns keeps the race in order.
proof fn lemma_race_keeps_order(
    env: Collaborators,
    race: Race,
    config: ConfigView,
    world: World,
    first: FlowView,
    second: FlowView,
    turns: Seq<bool>,
)
    requires
        config.complete(),
        relay_takes_all(env),
        (env.decode)(race.contents) == Some(race.submission),
        race_in_order(race, config, world, first, second),
    ensures
        race_in_order(
            race,
            config,
            run_pair(env, config, world, first, second, turns).0,
            run_pair(env, config, world, first, second, turns).1,
            run_pair(env, config, world, first, second, turns).2,
        ),
    decreases turns.len(),
{
    if turns.len() > 0 {
        if turns[0] {
            lemma_turn_keeps_order(env, race, config, world, first, second);
            let (next_world, next) = perform(env, config, world, first);
            lemma_race_keeps_order(
                env,
                race,
                config,
                next_world,
                next,
                second,
                turns.drop_first(),
            );
        } else {
            lemma_turn_keeps_order(env, race, config, world, second, first);
            let (next_world, next) = perform(env, config, world, second);
            lemma_race_keeps_order(env, race, config, next_world, first, next, turns.drop_first());
        }
    }
}

/// How many of `turns` go to the first flow (`first` is `true`) or to the
/// second.
pub open spec fn turns_of(turns: Seq<bool>, first: bool) -> nat
    decreases turns.len(),
{
    if turns.len() == 0 {
        0
    } else if turns[0] == first {
        1 + turns_of(turns.drop_first(), first)
    } else {
        turns_of(turns.drop_first(), first)
    }
}

/// Each turn of a flow takes one of the actions that it has left.
proof fn lemma_turns_use_up_actions(
    env: Collaborators,
    config: ConfigView,
    world: World,
    first: FlowView,
    second: FlowView,
    turns: Seq<bool>,
)
    ensures
        actions_left(run_pair(env, config, world, first, second, turns).1) + turns_of(turns, true)
            <= actions_left(first) || run_pair(
            env,
            config,
            world,
            first,
            second,
            turns,
        ).1.finished(),
        actions_left(run_pair(env, config, world, first, second, turns).2) + turns_of(
            turns,
            false,
        ) <= actions_left(second) || run_pair(
            env,
            config,
            world,
            first,
            second,
            turns,
        ).2.finished(),
    decreases turns.len(),
{
    if turns.len() > 0 {
        if turns[0] {
            let (next_world, next) = perform(env, config, world, first);
            assert(actions_left(next) < actions_left(first) || next.finished());
            lemma_turns_use_up_actions(env, config, next_world, next, second, turns.drop_first());
        } else {
            let (next_world, next) = perform(env, config, world, second);
            assert(actions_left(next) < actions_left(second) || next.finished());
            lemma_turns_use_up_actions(env, config, next_world, first, next, turns.drop_first());
        }
    }
}

/// Two confirmations of one stored record with the same identifier and
/// token, their actions taken in any order of turns: once both have their
/// answer, exactly one has ended well and the other has failed with
/// `NotFound`; the record is gone and the message has been mailed once. Both
/// have their answer as soon as each has had five turns.
pub proof fn lemma_racing_confirmations_one_wins(
    env: Collaborators,
    config: ConfigView,
    world: World,
    claim: TokenView,
    payload: MessageView,
    turns: Seq<bool>,
)
    requires
        claim.valid(),
        config.complete(),
        relay_takes_all(env),
        world.records.contains_key(
            record_path(config.storage_path->0, claim.msg_id, claim.token),
        ),
        (env.decode)(
            world.records[record_path(config.storage_path->0, claim.msg_id, claim.token)],
        ) == Some(payload),
    ensures
        ({
            let start = FlowView::confirmation(config, claim);
            let end = run_pair(env, config, world, start, start, turns);
            end.1.finished() && end.2.finished() ==> {
                &&& (end.1 == confirmed() && end.2 == failed(ErrorKind::NotFound)) || (end.1
                    == failed(ErrorKind::NotFound) && end.2 == confirmed())
                &&& !end.0.records.contains_key(
                    record_path(config.storage_path->0, claim.msg_id, claim.token),
                )
                &&& end.0.outbox == world.outbox.push(message_request(config, payload)->Ok_0)
            }
        }),
        ({
            let start = FlowView::confirmation(config, claim);
            let end = run_pair(env, config, world, start, start, turns);
            turns_of(turns, true) >= longest_flow() && turns_of(turns, false) >= longest_flow()
                ==> end.1.finished() && end.2.finished()
        }),
{
    let path = record_path(config.storage_path->0, claim.msg_id, claim.token);
    let race = Race { path, contents: world.records[path], submission: payload, outbox: world.outbox };
    let start = FlowView::confirmation(config, claim);
    assert(seeking(race, start));
    lemma_race_keeps_order(env, race, config, world, start, start, turns);
    lemma_turns_use_up_actions(env, config, world, start, start, turns);
}

} // verus!

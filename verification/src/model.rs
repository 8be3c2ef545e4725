//! The world around a flow, as far as the flows can tell: a medium that
//! holds records under their paths, a relay that takes mails, and the two
//! ways between a submission and the text of its record.
//!
//! Nothing here runs. The model says how faithful collaborators answer each
//! action, and what a flow comes to when it is carried through against them.

use vstd::prelude::*;
use crate::config::ConfigView;
use crate::mail::SmtpRequestView;
use crate::structs::MessageView;
use crate::workflow::{ActionView, EventView, FlowView};

verus! {

/// What is stored and what has been mailed.
pub ghost struct World {
    /// The text of every record, by its path.
    pub records: Map<Seq<char>, Seq<char>>,
    /// The mails that the relay took, oldest first.
    pub outbox: Seq<SmtpRequestView>,
}

/// What does not depend on the world: how a submission is written down and
/// read back, and which mails the relay takes.
pub ghost struct Collaborators {
    /// The text of a submission, where it can be written down.
    pub encode: spec_fn(MessageView) -> Option<Seq<char>>,
    /// The submission of a text, where it reads as one.
    pub decode: spec_fn(Seq<char>) -> Option<MessageView>,
    /// Whether the relay takes the mail.
    pub accepts: spec_fn(SmtpRequestView) -> bool,
}

/// The event by which faithful collaborators answer `action`. The medium
/// creates a record only where none is, and finds, reads and removes what is
/// there. Nothing answers `Respond`.
pub open spec fn answer(env: Collaborators, world: World, action: ActionView) -> Option<
    EventView,
> {
    match action {
        ActionView::Encode { payload } => match (env.encode)(payload) {
            Some(contents) => Some(EventView::Encoded(contents)),
            None => Some(EventView::Failed),
        },
        ActionView::Create { path, .. } => if world.records.contains_key(path) {
            Some(EventView::Failed)
        } else {
            Some(EventView::Created)
        },
        ActionView::Probe { path } => if world.records.contains_key(path) {
            Some(EventView::Present)
        } else {
            Some(EventView::Absent)
        },
        ActionView::Read { path } => if world.records.contains_key(path) {
            Some(EventView::Contents(world.records[path]))
        } else {
            Some(EventView::Absent)
        },
        ActionView::Decode { contents } => match (env.decode)(contents) {
            Some(submission) => Some(EventView::Decoded(submission)),
            None => Some(EventView::Failed),
        },
        ActionView::Remove { path } => if world.records.contains_key(path) {
            Some(EventView::Removed)
        } else {
            Some(EventView::Absent)
        },
        ActionView::Send { request } => if (env.accepts)(request) {
            Some(EventView::Sent)
        } else {
            Some(EventView::Failed)
        },
        ActionView::Respond { .. } => None,
    }
}

/// The world after `action`.
pub open spec fn after(env: Collaborators, world: World, action: ActionView) -> World {
    match action {
        ActionView::Create { path, contents } => if world.records.contains_key(path) {
            world
        } else {
            World { records: world.records.insert(path, contents), outbox: world.outbox }
        },
        ActionView::Remove { path } => World {
            records: world.records.remove(path),
            outbox: world.outbox,
        },
        ActionView::Send { request } => if (env.accepts)(request) {
            World { records: world.records, outbox: world.outbox.push(request) }
        } else {
            world
        },
        _ => world,
    }
}

/// One action of `flow`, performed and reported.
pub open spec fn perform(env: Collaborators, config: ConfigView, world: World, flow: FlowView)
    -> (World, FlowView) {
    match answer(env, world, flow.action()) {
        Some(event) => (after(env, world, flow.action()), flow.step(config, event)),
        None => (world, flow),
    }
}

/// `flow` carried through `count` actions.
pub open spec fn run(
    env: Collaborators,
    config: ConfigView,
    world: World,
    flow: FlowView,
    count: nat,
) -> (World, FlowView)
    decreases count,
{
    if count == 0 {
        (world, flow)
    } else {
        let (next_world, next_flow) = perform(env, config, world, flow);
        run(env, config, next_world, next_flow, (count - 1) as nat)
    }
}

/// The most actions that a flow takes before it has its answer.
pub open spec fn longest_flow() -> nat {
    5
}

/// Two flows carried on in turns: where `turns` holds `true` the first takes
/// its next action, else the second.
pub open spec fn run_pair(
    env: Collaborators,
    config: ConfigView,
    world: World,
    first: FlowView,
    second: FlowView,
    turns: Seq<bool>,
) -> (World, FlowView, FlowView)
    decreases turns.len(),
{
    if turns.len() == 0 {
        (world, first, second)
    } else if turns[0] {
        let (next_world, next) = perform(env, config, world, first);
        run_pair(env, config, next_world, next, second, turns.drop_first())
    } else {
        let (next_world, next) = perform(env, config, world, second);
        run_pair(env, config, next_world, first, next, turns.drop_first())
    }
}

} // verus!

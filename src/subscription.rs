//! Subscription Manager: the recovery protocol of the log subscription. The caller owns the
//! connection; it reports each event to `step` and performs the action that comes back.
use vstd::prelude::*;
use crate::extract::{parse_pubkey, pubkey_of};

verus! {

/// Seconds to wait after a subscription is lost before subscribing again.
pub const RECONNECT_DELAY_SECS: u64 = 5;

/// Where the subscription stands.
#[derive(PartialEq, Eq, Structural, Clone, Copy, Debug)]
pub enum Phase {
    Subscribing,
    Streaming,
    Waiting,
}

/// What happened to the subscription.
#[derive(PartialEq, Eq, Structural, Clone, Copy, Debug)]
pub enum LinkEvent {
    Subscribed,
    SubscribeFailed,
    StreamEnded,
    StreamFailed,
    DelayElapsed,
}

/// What the caller does next.
#[derive(PartialEq, Eq, Structural, Clone, Copy, Debug)]
pub enum LinkAction {
    /// Subscribe to the logs that mention the manager's program.
    Subscribe,
    /// Keep receiving notifications.
    Receive,
    /// Wait this many seconds, then report `DelayElapsed`.
    Wait(u64),
}

/// The transition on one event. A lost or failed subscription, whenever it is reported,
/// leads to a wait; only an elapsed wait leads to a new subscription.
pub open spec fn transition(phase: Phase, ev: LinkEvent) -> (Phase, LinkAction) {
    match ev {
        LinkEvent::Subscribed => if phase == Phase::Subscribing {
            (Phase::Streaming, LinkAction::Receive)
        } else {
            (phase, if phase == Phase::Waiting {
                LinkAction::Wait(RECONNECT_DELAY_SECS)
            } else {
                LinkAction::Receive
            })
        },
        LinkEvent::SubscribeFailed | LinkEvent::StreamEnded | LinkEvent::StreamFailed => (
            Phase::Waiting,
            LinkAction::Wait(RECONNECT_DELAY_SECS),
        ),
        LinkEvent::DelayElapsed => if phase == Phase::Waiting {
            (Phase::Subscribing, LinkAction::Subscribe)
        } else {
            (phase, if phase == Phase::Streaming {
                LinkAction::Receive
            } else {
                LinkAction::Subscribe
            })
        },
    }
}

/// The subscription to the logs that mention one program.
pub struct SubscriptionManager {
    pub program_id: [u8; 32],
    pub filter: String,
    pub phase: Phase,
}

impl SubscriptionManager {
    /// A manager for the program whose address `program_id` spells, about to subscribe;
    /// `None` when the text is no address, a configuration error that is fatal at startup.
    pub fn new(program_id: &str) -> (r: Option<SubscriptionManager>)
        ensures
            r is None <==> pubkey_of(program_id@) is None,
            r matches Some(m) ==> Some(m.program_id@) == pubkey_of(program_id@) && m.filter@
                == program_id@ && m.phase == Phase::Subscribing,
    {
        match parse_pubkey(program_id) {
            None => None,
            Some(key) => Some(
                SubscriptionManager {
                    program_id: key,
                    filter: program_id.to_owned(),
                    phase: Phase::Subscribing,
                },
            ),
        }
    }

    /// Takes one event and returns what to do next; the program and filter never change.
    pub fn step(&mut self, ev: LinkEvent) -> (r: LinkAction)
        ensures
            (final(self).phase, r) == transition(old(self).phase, ev),
            final(self).program_id == old(self).program_id,
            final(self).filter == old(self).filter,
    {
        let (phase, action) = match ev {
            LinkEvent::Subscribed => if self.phase == Phase::Subscribing {
                (Phase::Streaming, LinkAction::Receive)
            } else {
                (self.phase, if self.phase == Phase::Waiting {
                    LinkAction::Wait(RECONNECT_DELAY_SECS)
                } else {
                    LinkAction::Receive
                })
            },
            LinkEvent::SubscribeFailed | LinkEvent::StreamEnded | LinkEvent::StreamFailed => (
                Phase::Waiting,
                LinkAction::Wait(RECONNECT_DELAY_SECS),
            ),
            LinkEvent::DelayElapsed => if self.phase == Phase::Waiting {
                (Phase::Subscribing, LinkAction::Subscribe)
            } else {
                (self.phase, if self.phase == Phase::Streaming {
                    LinkAction::Receive
                } else {
                    LinkAction::Subscribe
                })
            },
        };
        self.phase = phase;
        action
    }
}

/// A stream that ends, with or without an error, is followed by a wait of
/// `RECONNECT_DELAY_SECS` seconds and then by a new subscription; a failed subscription
/// attempt is treated the same way. The loop never stops on its own.
pub proof fn lemma_lost_stream_resubscribes(ev: LinkEvent)
    requires
        ev == LinkEvent::StreamEnded || ev == LinkEvent::StreamFailed || ev
            == LinkEvent::SubscribeFailed,
    ensures
        transition(Phase::Streaming, ev) == (Phase::Waiting, LinkAction::Wait(RECONNECT_DELAY_SECS)),
        transition(Phase::Subscribing, ev) == (Phase::Waiting, LinkAction::Wait(RECONNECT_DELAY_SECS)),
        transition(Phase::Waiting, LinkEvent::DelayElapsed) == (
            Phase::Subscribing,
            LinkAction::Subscribe,
        ),
{
}

} // verus!

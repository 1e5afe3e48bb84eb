//! The send side: the session that packages, announces and serves content
//! until it is cancelled or fails, and the naming of packaged entries.
use vstd::prelude::*;

use crate::error::TransferError;

verus! {

/// Where a send stands.
#[derive(Debug, Clone, PartialEq, Eq)]
pub enum SendPhase {
    Packaging,
    Announced,
    Serving,
    Completed,
    Cancelled,
    Failed(TransferError),
}

/// What happened since the last report.
#[derive(Debug, Clone, Copy, PartialEq, Eq, Structural)]
pub enum SendEvent {
    /// Every entry was imported into the store.
    Packaged,
    /// Reading the files to send failed.
    PackagingFailed,
    /// The ticket was reported to the observer.
    TicketReported,
    /// A peer asks for a transfer; `cancel` is the cancel signal read just now.
    Inbound { cancel: bool },
    /// The cancel signal was polled and read as `cancel`.
    Polled { cancel: bool },
    /// An accepted transfer ended, whether it succeeded or its peer went away.
    TransferEnded,
    /// The transport stopped serving without a failure.
    TransportClosed,
    /// The transport failed.
    TransportFailed,
}

/// What the caller does with the event it reported.
#[derive(Debug, Clone, Copy, PartialEq, Eq, Structural)]
pub enum SendReply {
    Continue,
    /// Serve the inbound transfer.
    Accept,
    /// Turn the inbound transfer away.
    Refuse,
}

/// The state of a [`SendSession`]: its phase and the number of accepted
/// transfers that have not ended.
pub struct SendState {
    pub phase: SendPhase,
    pub active: u64,
}

pub open spec fn is_running(phase: SendPhase) -> bool {
    phase == SendPhase::Packaging || phase == SendPhase::Announced || phase == SendPhase::Serving
}

/// The state and reply after `event`. Cancellation is cooperative: it is seen
/// when the signal is read, before a new transfer is accepted or at a poll,
/// and it leaves the transfers already accepted running.
pub open spec fn send_next(s: SendState, event: SendEvent) -> (SendState, SendReply) {
    match event {
        SendEvent::Packaged => if s.phase == SendPhase::Packaging {
            (SendState { phase: SendPhase::Announced, ..s }, SendReply::Continue)
        } else {
            (s, SendReply::Continue)
        },
        SendEvent::PackagingFailed => if s.phase == SendPhase::Packaging {
            (
                SendState { phase: SendPhase::Failed(TransferError::FilesystemIoError), ..s },
                SendReply::Continue,
            )
        } else {
            (s, SendReply::Continue)
        },
        SendEvent::TicketReported => if s.phase == SendPhase::Announced {
            (SendState { phase: SendPhase::Serving, ..s }, SendReply::Continue)
        } else {
            (s, SendReply::Continue)
        },
        SendEvent::Inbound { cancel } => if s.phase == SendPhase::Serving && !cancel {
            (
                SendState { active: if s.active == u64::MAX { s.active } else { (s.active + 1) as u64 }, ..s },
                SendReply::Accept,
            )
        } else if s.phase == SendPhase::Serving {
            (SendState { phase: SendPhase::Cancelled, ..s }, SendReply::Refuse)
        } else {
            (s, SendReply::Refuse)
        },
        SendEvent::Polled { cancel } => if is_running(s.phase) && cancel {
            (SendState { phase: SendPhase::Cancelled, ..s }, SendReply::Continue)
        } else {
            (s, SendReply::Continue)
        },
        SendEvent::TransferEnded => (
            SendState { active: if s.active == 0 { 0 } else { (s.active - 1) as u64 }, ..s },
            SendReply::Continue,
        ),
        SendEvent::TransportClosed => if s.phase == SendPhase::Serving {
            (SendState { phase: SendPhase::Completed, ..s }, SendReply::Continue)
        } else {
            (s, SendReply::Continue)
        },
        SendEvent::TransportFailed => if is_running(s.phase) {
            (
                SendState { phase: SendPhase::Failed(TransferError::ConnectionFailed), ..s },
                SendReply::Continue,
            )
        } else {
            (s, SendReply::Continue)
        },
    }
}

/// The decisions of one send, from packaging until it ends.
pub struct SendSession {
    phase: SendPhase,
    active: u64,
}

impl View for SendSession {
    type V = SendState;

    closed spec fn view(&self) -> SendState {
        SendState { phase: self.phase, active: self.active }
    }
}

impl SendSession {
    /// A session about to package its content.
    pub fn new() -> (r: Self)
        ensures
            r@.phase == SendPhase::Packaging,
            r@.active == 0,
    {
        SendSession { phase: SendPhase::Packaging, active: 0 }
    }

    /// The current phase.
    pub fn phase(&self) -> (r: SendPhase)
        ensures
            r == self@.phase,
    {
        match &self.phase {
            SendPhase::Failed(e) => SendPhase::Failed(e.duplicate()),
            SendPhase::Packaging => SendPhase::Packaging,
            SendPhase::Announced => SendPhase::Announced,
            SendPhase::Serving => SendPhase::Serving,
            SendPhase::Completed => SendPhase::Completed,
            SendPhase::Cancelled => SendPhase::Cancelled,
        }
    }

    /// Accepted transfers that have not ended.
    pub fn active_transfers(&self) -> (r: u64)
        ensures
            r == self@.active,
    {
        self.active
    }

    /// Takes one event and says what to do with it.
    pub fn on_event(&mut self, event: SendEvent) -> (r: SendReply)
        ensures
            (final(self)@, r) == send_next(old(self)@, event),
    {
        let running = match self.phase {
            SendPhase::Packaging | SendPhase::Announced | SendPhase::Serving => true,
            _ => false,
        };
        let serving = match self.phase {
            SendPhase::Serving => true,
            _ => false,
        };
        match event {
            SendEvent::Packaged => {
                if let SendPhase::Packaging = self.phase {
                    self.phase = SendPhase::Announced;
                }
                SendReply::Continue
            },
            SendEvent::PackagingFailed => {
                if let SendPhase::Packaging = self.phase {
                    self.phase = SendPhase::Failed(TransferError::FilesystemIoError);
                }
                SendReply::Continue
            },
            SendEvent::TicketReported => {
                if let SendPhase::Announced = self.phase {
                    self.phase = SendPhase::Serving;
                }
                SendReply::Continue
            },
            SendEvent::Inbound { cancel } => {
                if serving && !cancel {
                    self.active = self.active.saturating_add(1);
                    SendReply::Accept
                } else {
                    if serving {
                        self.phase = SendPhase::Cancelled;
                    }
                    SendReply::Refuse
                }
            },
            SendEvent::Polled { cancel } => {
                if running && cancel {
                    self.phase = SendPhase::Cancelled;
                }
                SendReply::Continue
            },
            SendEvent::TransferEnded => {
                self.active = self.active.saturating_sub(1);
                SendReply::Continue
            },
            SendEvent::TransportClosed => {
                if serving {
                    self.phase = SendPhase::Completed;
                }
                SendReply::Continue
            },
            SendEvent::TransportFailed => {
                if running {
                    self.phase = SendPhase::Failed(TransferError::ConnectionFailed);
                }
                SendReply::Continue
            },
        }
    }
}

/// The state after each event of `evs` in turn.
pub open spec fn send_replay(s: SendState, evs: Seq<SendEvent>) -> SendState
    decreases evs.len(),
{
    if evs.len() == 0 {
        s
    } else {
        send_replay(send_next(s, evs[0]).0, evs.drop_first())
    }
}

/// Once a send is cancelled, no inbound transfer is accepted again, whatever
/// follows; the transfers already accepted are not cut off by it, and each
/// that ends is counted out.
pub proof fn lemma_cancelled_accepts_nothing(s: SendState, evs: Seq<SendEvent>)
    requires
        s.phase == SendPhase::Cancelled,
    ensures
        send_replay(s, evs).phase == SendPhase::Cancelled,
        forall|i: int|
            0 <= i < evs.len() ==> #[trigger] send_next(send_replay(s, evs.take(i)), evs[i]).1
                != SendReply::Accept,
        forall|i: int|
            0 <= i < evs.len() ==> (#[trigger] send_replay(s, evs.take(i))).phase
                == SendPhase::Cancelled,
    decreases evs.len(),
{
    if evs.len() > 0 {
        let s1 = send_next(s, evs[0]).0;
        lemma_cancelled_accepts_nothing(s1, evs.drop_first());
        assert forall|i: int| 0 <= i < evs.len() implies (#[trigger] send_replay(
            s,
            evs.take(i),
        )).phase == SendPhase::Cancelled by {
            if i > 0 {
                assert(evs.take(i).drop_first() =~= evs.drop_first().take(i - 1));
                assert(evs.take(i)[0] == evs[0]);
                assert(send_replay(s1, evs.drop_first().take(i - 1)).phase == SendPhase::Cancelled);
                assert(send_replay(s, evs.take(i)) == send_replay(s1, evs.drop_first().take(i - 1)));
            } else {
                assert(evs.take(i) =~= Seq::<SendEvent>::empty());
            }
        }
        assert forall|i: int| 0 <= i < evs.len() implies #[trigger] send_next(
            send_replay(s, evs.take(i)),
            evs[i],
        ).1 != SendReply::Accept by {
            assert(send_replay(s, evs.take(i)).phase == SendPhase::Cancelled);
        }
    }
}

} // verus!

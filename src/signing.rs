//! Admission of signing requests: the mid-sign marker, authorization gating
//! and cancellation.

use vstd::prelude::*;
use crate::network::Network;
use crate::secret::{Password, PasswordHash};

verus! {

/// The shape of a transaction, as far as authorization is concerned.
#[derive(Clone, Copy, Debug, PartialEq, Eq, Structural)]
pub enum TransactionShape {
    /// Moves public assets into the user's private ownership (a deposit)
    ToPrivate,
    /// Moves private assets to another private owner
    PrivateTransfer,
    /// Moves private assets back to public ownership
    ToPublic,
}

impl TransactionShape {
    /// Whether signing a transaction of this shape needs the user's password:
    /// every shape but a deposit does.
    pub fn requires_authorization(&self) -> (r: bool)
        ensures
            r == (*self != TransactionShape::ToPrivate),
    {
        match self {
            TransactionShape::ToPrivate => false,
            _ => true,
        }
    }
}

/// Identifies an admitted signing request, so that late answers about an
/// earlier request are told apart from answers about the current one.
pub type Ticket = u64;

/// Where the signer stands with respect to signing.
#[derive(Clone, Copy, Debug, PartialEq, Eq, Structural)]
pub enum SignPhase {
    /// No signing request is in progress
    Idle,
    /// The request with the ticket, for the network, waits for the user's authorization
    Gating(Network, Ticket),
    /// The proof for the request with the ticket, for the network, is being computed
    Proving(Network, Ticket),
}

/// What happens to the signing machine.
#[derive(Clone, Copy, Debug, PartialEq, Eq, Structural)]
pub enum SignEvent {
    /// A `sign` request arrives for the network, with the transaction's shape
    Request(Network, TransactionShape),
    /// The user's password matched, for the request with the ticket
    Authorized(Ticket),
    /// The user declined, or gave up retrying, for the request with the ticket
    Declined(Ticket),
    /// The hosting shell cancelled the signing in progress
    Cancel,
    /// The proof for the request with the ticket was computed
    ProofDone(Ticket),
}

/// What the caller must do after an event.
#[derive(Clone, Copy, Debug, PartialEq, Eq, Structural)]
pub enum SignAction {
    /// Reply that a signing is already in progress
    Busy,
    /// Ask the user to authorize the request admitted with the ticket
    Authorize(Ticket),
    /// Compute the proof for the request with the ticket
    Prove(Ticket),
    /// Reply that the request was not authorized
    Unauthorized,
    /// The signing in progress was dropped: its proof, if one comes, is discarded
    Cancelled,
    /// Reply with the computed proof
    Respond,
    /// Nothing to do: the event does not concern the request in progress;
    /// a proof that comes with it is discarded
    Ignore,
}

/// The ticket that follows `t`.
pub open spec fn next_ticket(t: Ticket) -> Ticket {
    if t == u64::MAX {
        0
    } else {
        (t + 1) as u64
    }
}

/// The request in progress holds the ticket just before `next`.
pub open spec fn gate_wf(phase: SignPhase, next: Ticket) -> bool {
    match phase {
        SignPhase::Idle => true,
        SignPhase::Gating(_, t) => next == next_ticket(t),
        SignPhase::Proving(_, t) => next == next_ticket(t),
    }
}

/// The phase, the next ticket and the action that follow `event` in `phase`
/// when `next` is the ticket the next admitted request gets.
pub open spec fn sign_transition(phase: SignPhase, next: Ticket, event: SignEvent) -> (SignPhase, Ticket, SignAction) {
    match (phase, event) {
        (SignPhase::Idle, SignEvent::Request(net, shape)) => if shape == TransactionShape::ToPrivate {
            (SignPhase::Proving(net, next), next_ticket(next), SignAction::Prove(next))
        } else {
            (SignPhase::Gating(net, next), next_ticket(next), SignAction::Authorize(next))
        },
        (_, SignEvent::Request(_, _)) => (phase, next, SignAction::Busy),
        (SignPhase::Gating(net, t), SignEvent::Authorized(u)) => if t == u {
            (SignPhase::Proving(net, t), next, SignAction::Prove(t))
        } else {
            (phase, next, SignAction::Ignore)
        },
        (SignPhase::Gating(_, t), SignEvent::Declined(u)) => if t == u {
            (SignPhase::Idle, next, SignAction::Unauthorized)
        } else {
            (phase, next, SignAction::Ignore)
        },
        (SignPhase::Gating(_, _), SignEvent::Cancel) => (SignPhase::Idle, next, SignAction::Cancelled),
        (SignPhase::Proving(_, _), SignEvent::Cancel) => (SignPhase::Idle, next, SignAction::Cancelled),
        (SignPhase::Proving(_, t), SignEvent::ProofDone(u)) => if t == u {
            (SignPhase::Idle, next, SignAction::Respond)
        } else {
            (phase, next, SignAction::Ignore)
        },
        _ => (phase, next, SignAction::Ignore),
    }
}

/// The signing machine of one signer process: at most one request is past
/// admission at any time, across all networks.
#[derive(Debug)]
pub struct SignGate {
    phase: SignPhase,
    next: Ticket,
}

impl SignGate {
    #[verifier::type_invariant]
    spec fn inv(&self) -> bool {
        gate_wf(self.phase, self.next)
    }

    /// The current phase.
    pub closed spec fn view(&self) -> SignPhase {
        self.phase
    }

    /// The ticket the next admitted request gets.
    pub closed spec fn next(&self) -> Ticket {
        self.next
    }

    /// A machine with no signing in progress.
    pub fn new() -> (r: Self)
        ensures
            r.view() == SignPhase::Idle,
            r.next() == 0,
    {
        SignGate { phase: SignPhase::Idle, next: 0 }
    }

    /// The current phase.
    pub fn phase(&self) -> (r: SignPhase)
        ensures
            r == self.view(),
            gate_wf(self.view(), self.next()),
    {
        proof {
            use_type_invariant(self);
        }
        self.phase
    }

    /// Whether a signing is in progress (the mid-sign marker).
    pub fn is_signing(&self) -> (r: bool)
        ensures
            r == (self.view() != SignPhase::Idle),
    {
        match self.phase {
            SignPhase::Idle => false,
            _ => true,
        }
    }

    /// Applies `event` and returns what the caller must do.
    pub fn step(&mut self, event: SignEvent) -> (r: SignAction)
        ensures
            (final(self).view(), final(self).next(), r) == sign_transition(old(self).view(), old(self).next(), event),
            gate_wf(final(self).view(), final(self).next()),
    {
        proof {
            use_type_invariant(&*self);
        }
        let next = self.next;
        let following: Ticket = if next == u64::MAX { 0 } else { next + 1 };
        let (phase, ticket, action) = match (self.phase, event) {
            (SignPhase::Idle, SignEvent::Request(net, shape)) => if shape.requires_authorization() {
                (SignPhase::Gating(net, next), following, SignAction::Authorize(next))
            } else {
                (SignPhase::Proving(net, next), following, SignAction::Prove(next))
            },
            (_, SignEvent::Request(_, _)) => (self.phase, next, SignAction::Busy),
            (SignPhase::Gating(net, t), SignEvent::Authorized(u)) => if t == u {
                (SignPhase::Proving(net, t), next, SignAction::Prove(t))
            } else {
                (self.phase, next, SignAction::Ignore)
            },
            (SignPhase::Gating(_, t), SignEvent::Declined(u)) => if t == u {
                (SignPhase::Idle, next, SignAction::Unauthorized)
            } else {
                (self.phase, next, SignAction::Ignore)
            },
            (SignPhase::Gating(_, _), SignEvent::Cancel) => (SignPhase::Idle, next, SignAction::Cancelled),
            (SignPhase::Proving(_, _), SignEvent::Cancel) => (SignPhase::Idle, next, SignAction::Cancelled),
            (SignPhase::Proving(_, t), SignEvent::ProofDone(u)) => if t == u {
                (SignPhase::Idle, next, SignAction::Respond)
            } else {
                (self.phase, next, SignAction::Ignore)
            },
            _ => (self.phase, next, SignAction::Ignore),
        };
        *self = SignGate { phase, next: ticket };
        action
    }
}

/// Of two signing requests that reach an idle machine with no other event
/// between them, exactly one is answered `Busy`, the second; while a signing
/// is in progress, every request is answered `Busy` and changes nothing.
pub proof fn lemma_sign_requests_exclusive(
    phase: SignPhase,
    next: Ticket,
    first: (Network, TransactionShape),
    second: (Network, TransactionShape),
)
    ensures
        ({
            let (mid, next1, a1) = sign_transition(phase, next, SignEvent::Request(first.0, first.1));
            let (end, next2, a2) = sign_transition(mid, next1, SignEvent::Request(second.0, second.1));
            &&& a2 == SignAction::Busy
            &&& (phase == SignPhase::Idle ==> a1 != SignAction::Busy)
            &&& (phase != SignPhase::Idle ==> a1 == SignAction::Busy && mid == phase)
            &&& end == mid && next2 == next1
        }),
{
}

/// A cancelled request's proof is discarded: after a cancel, and after any
/// request admitted since, the late proof of the cancelled request is
/// answered `Ignore` and changes nothing, while the new request's own proof
/// is answered `Respond`.
pub proof fn lemma_cancelled_proof_discarded(
    phase: SignPhase,
    next: Ticket,
    network: Network,
    cancelled: Ticket,
    request: (Network, TransactionShape),
)
    requires
        gate_wf(phase, next),
        phase == SignPhase::Gating(network, cancelled) || phase == SignPhase::Proving(network, cancelled),
    ensures
        ({
            let (idle, n1, a1) = sign_transition(phase, next, SignEvent::Cancel);
            let (late, n2, a2) = sign_transition(idle, n1, SignEvent::ProofDone(cancelled));
            let (admitted, n3, a3) = sign_transition(idle, n1, SignEvent::Request(request.0, request.1));
            let (after, n4, a4) = sign_transition(admitted, n3, SignEvent::ProofDone(cancelled));
            &&& a1 == SignAction::Cancelled && idle == SignPhase::Idle
            &&& a2 == SignAction::Ignore && late == idle
            &&& a4 == SignAction::Ignore && after == admitted && n4 == n3
            &&& (request.1 == TransactionShape::ToPrivate ==>
                sign_transition(admitted, n3, SignEvent::ProofDone(next)).2 == SignAction::Respond)
        }),
{
}

/// A proof is only started for an admitted deposit, or for the request the
/// user just authorized.
pub proof fn lemma_prove_needs_authorization(phase: SignPhase, next: Ticket, event: SignEvent)
    ensures
        sign_transition(phase, next, event).2 matches SignAction::Prove(_) ==> (
            event matches SignEvent::Authorized(_)
            || (phase == SignPhase::Idle && event matches SignEvent::Request(_, TransactionShape::ToPrivate))),
{
}

/// The outcome of one password attempt during an authorization round.
#[derive(Clone, Copy, Debug, PartialEq, Eq, Structural)]
pub enum CheckOutcome {
    /// The password matched: dismiss the prompt
    Authorized,
    /// The password did not match: wait, then ask again
    Retry,
    /// The user declined: fail the request
    Declined,
}

/// Judges one password attempt against the session's password hash.
pub fn check_attempt(hash: &PasswordHash, password: &Password) -> (r: CheckOutcome)
    ensures
        password.view() is None ==> r == CheckOutcome::Declined,
        password.view() is Some ==> (r == CheckOutcome::Authorized <==> hash.verifies(password.view()->0)),
        password.view() is Some ==> (r == CheckOutcome::Retry <==> !hash.verifies(password.view()->0)),
{
    match password.known() {
        None => CheckOutcome::Declined,
        Some(bytes) => {
            if hash.verify(bytes).is_ok() {
                CheckOutcome::Authorized
            } else {
                CheckOutcome::Retry
            }
        },
    }
}

/// An authorizer that always answers with the same password, for tests.
#[derive(Debug)]
pub struct MockUser {
    password: Vec<u8>,
}

impl MockUser {
    /// Builds a user who always types `password`.
    pub fn new(password: Vec<u8>) -> (r: Self)
        ensures
            r.stored() == password@,
    {
        MockUser { password }
    }

    /// The password the user types.
    pub closed spec fn stored(&self) -> Seq<u8> {
        self.password@
    }

    /// Answers a password prompt.
    pub fn password(&self) -> (r: Password)
        ensures
            r.view() == Some(self.stored()),
    {
        Password::from_known(self.password.clone())
    }
}

/// Kind of a transaction, as shown to the user when asking for authorization.
#[derive(Debug)]
pub enum TransactionType {
    /// Private transfer
    PrivateTransfer {
        /// Recipient address
        recipient: String,
    },
    /// Transfer back to public ownership
    Reclaim,
}

/// Summary of a transaction, shown to the user when asking for authorization.
#[derive(Debug)]
pub struct TransactionSummary {
    /// Transaction kind
    pub transaction: TransactionType,
    /// Amount, as displayed
    pub amount: String,
    /// Currency symbol
    pub currency_symbol: String,
}

} // verus!

//! Runs of the construction of a client, and what its rules come to over a
//! whole run: how often the session is asked for, and what becomes of the
//! identity.
use vstd::prelude::*;
use vstd::string::*;
use crate::client::{
    initial_setup, ClientActionView, ClientEventView, ClientSetupView, ClientStepView, Phase,
    RETRY_PAUSE_SECONDS,
};
use crate::connection::connected;
use crate::error::SamErrorView;
use crate::session::{
    session_create_text, setup_step, transient, SessionSetupView, SessionView, SetupStepView,
};
use crate::sig::SessionStyle;

verus! {

/// What the events, taken in order, bring about from the state `setup`:
/// the state reached with the action that is out in it, or the end of
/// construction.  Events that follow the end change nothing.
pub open spec fn run(setup: ClientSetupView, events: Seq<ClientEventView>) -> ClientStepView
    decreases events.len(),
{
    if events.len() == 0 {
        setup.proceed()
    } else {
        match setup.step(events[0]) {
            ClientStepView::Do { setup: next, .. } => run(next, events.drop_first()),
            done => done,
        }
    }
}

/// The actions that are handed out in answer to the events, in order.
pub open spec fn actions(setup: ClientSetupView, events: Seq<ClientEventView>) -> Seq<
    ClientActionView,
>
    decreases events.len(),
{
    if events.len() == 0 {
        Seq::empty()
    } else {
        match setup.step(events[0]) {
            ClientStepView::Do { setup: next, action } => seq![action] + actions(
                next,
                events.drop_first(),
            ),
            _ => Seq::empty(),
        }
    }
}

/// The events of attempts that fail with the given errors, each followed
/// by the end of the pause.
pub open spec fn failures(errors: Seq<SamErrorView>) -> Seq<ClientEventView>
    decreases errors.len(),
{
    if errors.len() == 0 {
        Seq::empty()
    } else {
        seq![ClientEventView::Refused(errors[0]), ClientEventView::Slept] + failures(
            errors.drop_first(),
        )
    }
}

/// Whether `actions` is `count` times a pause of three seconds followed by
/// the request for the session that is out in `setup`.
pub open spec fn is_retries(
    setup: ClientSetupView,
    actions: Seq<ClientActionView>,
    count: nat,
) -> bool {
    &&& actions.len() == 2 * count
    &&& forall|j: int|
        0 <= j < actions.len() ==> #[trigger] actions[j] == if j % 2 == 0 {
            ClientActionView::Sleep { seconds: RETRY_PAUSE_SECONDS }
        } else {
            setup.pending()
        }
}

/// After a failed attempt and the pause, the next attempt is out: the same
/// request, with one more failure counted.
proof fn lemma_retry_once(setup: ClientSetupView, error: SamErrorView) -> (next: ClientSetupView)
    requires
        setup.phase == Phase::EstablishingSession,
        setup.attempts + 1 < setup.max_connection_attempts,
    ensures
        next == (ClientSetupView { attempts: (setup.attempts + 1) as u8, ..setup }),
        next.pending() == setup.pending(),
        setup.step(ClientEventView::Refused(error)) == (ClientStepView::Do {
            setup: ClientSetupView { phase: Phase::BackingOff, ..next },
            action: ClientActionView::Sleep { seconds: RETRY_PAUSE_SECONDS },
        }),
        (ClientSetupView { phase: Phase::BackingOff, ..next }).step(ClientEventView::Slept) == (
        ClientStepView::Do { setup: next, action: setup.pending() }),
{
    ClientSetupView { attempts: (setup.attempts + 1) as u8, ..setup }
}

/// Where the attempts at the session fail with `errors` and the next one
/// succeeds, and the attempts allowed cover them all, the client stands
/// with the session of the last attempt.  On the way every failure was
/// answered by a pause of three seconds and the same request again: with
/// the request that was out at the start, as many requests as attempts, and
/// one pause between each two.
pub proof fn lemma_retry_until_success(
    setup: ClientSetupView,
    errors: Seq<SamErrorView>,
    session: SessionView,
)
    requires
        setup.phase == Phase::EstablishingSession,
        setup.attempts + errors.len() < setup.max_connection_attempts,
    ensures
        run(setup, failures(errors).push(ClientEventView::Created(session)))
            == ClientStepView::Ready(setup.client(session)),
        is_retries(
            setup,
            actions(setup, failures(errors).push(ClientEventView::Created(session))),
            errors.len(),
        ),
    decreases errors.len(),
{
    let last = ClientEventView::Created(session);
    let events = failures(errors).push(last);
    if errors.len() > 0 {
        let next = lemma_retry_once(setup, errors[0]);
        let waiting = ClientSetupView { phase: Phase::BackingOff, ..next };
        let rest = failures(errors.drop_first()).push(last);
        lemma_retry_until_success(next, errors.drop_first(), session);
        let after_first = events.drop_first();
        assert(after_first.drop_first() =~= rest);
        assert(run(waiting, after_first) == run(next, rest));
        let tail = actions(next, rest);
        assert(actions(waiting, after_first) == seq![setup.pending()] + tail);
    }
}

/// Where the attempts at the session fail, one after the other, as often
/// as attempts are allowed, construction fails with `ConnectionRefused` at
/// the last failure: after exactly so many requests, with a pause of three
/// seconds between each two, and without another request.
pub proof fn lemma_retry_until_refused(setup: ClientSetupView, errors: Seq<SamErrorView>)
    requires
        setup.phase == Phase::EstablishingSession,
        errors.len() > 0,
        setup.attempts + errors.len() == setup.max_connection_attempts,
    ensures
        run(
            setup,
            failures(errors.drop_last()).push(ClientEventView::Refused(errors.last())),
        ) == ClientStepView::Failed(setup.refused()),
        is_retries(
            setup,
            actions(
                setup,
                failures(errors.drop_last()).push(ClientEventView::Refused(errors.last())),
            ),
            (errors.len() - 1) as nat,
        ),
    decreases errors.len(),
{
    let last = ClientEventView::Refused(errors.last());
    let events = failures(errors.drop_last()).push(last);
    if errors.len() > 1 {
        let next = lemma_retry_once(setup, errors[0]);
        let waiting = ClientSetupView { phase: Phase::BackingOff, ..next };
        let shorter = errors.drop_first();
        assert(shorter.drop_last() =~= errors.drop_last().drop_first());
        let rest = failures(shorter.drop_last()).push(last);
        lemma_retry_until_refused(next, shorter);
        let after_first = events.drop_first();
        assert(after_first.drop_first() =~= rest);
        assert(run(waiting, after_first) == run(next, rest));
        let tail = actions(next, rest);
        assert(actions(waiting, after_first) == seq![setup.pending()] + tail);
    }
}

/// Where no attempt is allowed, construction fails as soon as the identity
/// is settled, and no session is asked for.
pub proof fn lemma_no_attempts(setup: ClientSetupView)
    requires
        setup.max_connection_attempts == 0,
    ensures
        setup.establish() == ClientStepView::Failed(setup.refused()),
{
}

/// Where identities are kept and none is saved yet, the router is asked to
/// make a destination in a throwaway session, that destination is handed
/// out to be saved, and the session itself is then bound to it.
pub proof fn lemma_fresh_identity_is_saved(
    alias: Seq<u8>,
    min_version: Seq<u8>,
    max_version: Seq<u8>,
    max_connection_attempts: u8,
    throwaway: SessionView,
)
    requires
        throwaway.local_full_dest.len() > 0,
        max_connection_attempts > 0,
    ensures
        ({
            let start = initial_setup(true, alias, min_version, max_version, max_connection_attempts);
            let minting = ClientSetupView { phase: Phase::MintingIdentity, ..start };
            let saving = ClientSetupView {
                phase: Phase::PersistingIdentity,
                local_full_dest: throwaway.local_full_dest,
                local_dest: throwaway.local_dest,
                ..start
            };
            let establishing = ClientSetupView { phase: Phase::EstablishingSession, ..saving };
            &&& start.pending() == ClientActionView::ReadIdentity
            &&& start.step(ClientEventView::Identity(Seq::empty())) == (ClientStepView::Do {
                setup: minting,
                action: start.session_request(transient()),
            })
            &&& minting.step(ClientEventView::Created(throwaway)) == (ClientStepView::Do {
                setup: saving,
                action: ClientActionView::SaveIdentity { destination: throwaway.local_full_dest },
            })
            &&& saving.step(ClientEventView::Saved) == (ClientStepView::Do {
                setup: establishing,
                action: start.session_request(throwaway.local_full_dest),
            })
        }),
{
}

/// Where identities are kept and one is saved, the session is bound to
/// exactly what was saved: the first session asked for is that one, and its
/// `SESSION CREATE` names the saved destination byte for byte.
pub proof fn lemma_saved_identity_is_reused(
    alias: Seq<u8>,
    min_version: Seq<u8>,
    max_version: Seq<u8>,
    max_connection_attempts: u8,
    saved: Seq<u8>,
    hello_reply: Seq<u8>,
)
    requires
        saved.len() > 0,
        max_connection_attempts > 0,
        connected(min_version, max_version, hello_reply) is Ok,
    ensures
        ({
            let start = initial_setup(true, alias, min_version, max_version, max_connection_attempts);
            let establishing = ClientSetupView {
                phase: Phase::EstablishingSession,
                local_full_dest: saved,
                ..start
            };
            let request = SessionSetupView::Hello {
                destination: saved,
                nickname: alias,
                style: SessionStyle::Datagram,
                min_version,
                max_version,
            };
            &&& start.step(ClientEventView::Identity(saved)) == (ClientStepView::Do {
                setup: establishing,
                action: start.session_request(saved),
            })
            &&& start.session_request(saved) matches ClientActionView::CreateSession { setup, .. }
                && setup == request
            &&& setup_step(request, hello_reply) matches SetupStepView::Send { command, .. }
                && command == session_create_text(SessionStyle::Datagram, alias, saved)
        }),
{
}

/// Once the session is asked for, nothing is handed out to be saved any
/// more, whatever happens: an identity that was read from its file is never
/// written over.
pub proof fn lemma_identity_is_not_overwritten(
    setup: ClientSetupView,
    events: Seq<ClientEventView>,
)
    requires
        setup.phase == Phase::EstablishingSession || setup.phase == Phase::BackingOff,
    ensures
        forall|i: int|
            0 <= i < actions(setup, events).len() ==> !(#[trigger] actions(setup, events)[i]
                is SaveIdentity),
    decreases events.len(),
{
    if events.len() > 0 {
        match setup.step(events[0]) {
            ClientStepView::Do { setup: next, action } => {
                lemma_identity_is_not_overwritten(next, events.drop_first());
            },
            _ => {},
        }
    }
}

impl ClientSetupView {
    /// While the session is asked for, fewer attempts have failed than are
    /// allowed; before that, none has.
    pub open spec fn within_cap(self) -> bool {
        if self.phase == Phase::EstablishingSession || self.phase == Phase::BackingOff {
            self.attempts < self.max_connection_attempts
        } else {
            self.attempts == 0
        }
    }
}

/// Construction starts within the cap on attempts.
pub proof fn lemma_starts_within_cap(
    use_local: bool,
    alias: Seq<u8>,
    min_version: Seq<u8>,
    max_version: Seq<u8>,
    max_connection_attempts: u8,
)
    ensures
        initial_setup(
            use_local,
            alias,
            min_version,
            max_version,
            max_connection_attempts,
        ).within_cap(),
{
}

/// Whatever the event, construction stays within the cap on attempts or
/// ends: the session is never asked for again once as many attempts have
/// failed as are allowed.
pub proof fn lemma_stays_within_cap(setup: ClientSetupView, event: ClientEventView)
    requires
        setup.within_cap(),
    ensures
        setup.step(event) matches ClientStepView::Do { setup: next, .. } ==> next.within_cap(),
{
}

} // verus!

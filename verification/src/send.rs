//! The send state machine: one logical call, at most two transport
//! attempts.
//!
//! The machine owns every decision of a send — whether an attempt carries a
//! bearer credential, whether the one-shot multipart payload is attached,
//! and whether a first unauthorized response escalates into a single
//! authenticated retry.  The surrounding program performs the transport and
//! token I/O the emitted actions ask for and feeds the observed outcome
//! back in.  The machine's view is the sequence of attempts launched so
//! far, one record per transport call, which the laws at the end of this
//! module speak about.

use vstd::prelude::*;

use crate::request::{AuthMode, Envelope, EnvelopeBody, Method};

verus! {

/// The HTTP status code by which the server demands credentials.
pub const UNAUTHORIZED: u16 = 401;

/// What one transport attempt is to carry.
pub struct AttemptPlan {
    pub method: Method,
    pub url: String,
    pub bearer: Option<String>,
    pub with_multipart: bool,
}

/// Terminal result of a send.
#[derive(Clone, Copy, PartialEq, Eq, Structural, Debug)]
pub enum SendOutcome {
    /// The final response status, handed to the caller whatever it is.
    Response(u16),
    /// The authenticator could not produce a token.
    AuthFailure,
    /// The transport failed below the protocol (connection, timeout, TLS).
    TransportFailure,
    /// The envelope carries a one-shot stream and cannot be duplicated for
    /// an attempt: a fatal programming error, not a network failure.
    BodyNotReplayable,
}

/// What the surrounding program must do next.
pub enum Action {
    /// Execute one transport attempt carrying exactly this plan.
    Execute(AttemptPlan),
    /// Ask the authenticator for a bearer token.
    ObtainToken,
    /// The send is over; hand this outcome to the caller.
    Finish(SendOutcome),
}

/// Where the machine stands between two actions.
#[derive(Clone, Copy, PartialEq, Eq, Structural, Debug)]
pub enum Phase {
    /// No attempt launched yet.
    Ready,
    /// A transport attempt is in flight.
    InFlight,
    /// The authenticator was asked for a token.
    AwaitingToken,
    /// A terminal outcome was emitted.
    Done,
}

/// One attempt as the laws see it: did it carry a credential, and did it
/// carry the multipart payload.
pub struct AttemptModel {
    pub bearer: Option<Seq<char>>,
    pub with_multipart: bool,
}

/// The decisions of one send.
pub struct SendMachine {
    mode: AuthMode,
    envelope: Envelope,
    multipart_pending: bool,
    authenticated: bool,
    phase: Phase,
    trace: Ghost<Seq<AttemptModel>>,
}

impl View for SendMachine {
    type V = Seq<AttemptModel>;

    /// The attempts launched so far, in order.
    closed spec fn view(&self) -> Seq<AttemptModel> {
        self.trace@
    }
}

impl SendMachine {
    pub closed spec fn mode(self) -> AuthMode {
        self.mode
    }

    pub closed spec fn envelope(self) -> Envelope {
        self.envelope
    }

    pub closed spec fn multipart_pending(self) -> bool {
        self.multipart_pending
    }

    /// Whether the send has escalated to authenticated mode.  Always true
    /// in always-trusted mode, where no escalation is ever needed.
    pub closed spec fn authenticated(self) -> bool {
        self.authenticated
    }

    pub closed spec fn phase(self) -> Phase {
        self.phase
    }

    /// Everything the machine maintains across its steps.
    pub closed spec fn wf(self) -> bool {
        &&& self.trace@.len() <= 2
        &&& (self.mode is AlwaysTrusted ==> self.authenticated)
        &&& (self.mode is AlwaysTrusted ==> self.trace@.len() <= 1)
        &&& (self.mode is AlwaysTrusted ==> forall|i: int|
            0 <= i < self.trace@.len() ==> self.trace@[i].bearer is None)
        &&& (self.mode is NeedsAuth && self.trace@.len() >= 1 ==> self.trace@[0].bearer is None)
        &&& (self.trace@.len() == 2 ==> self.trace@[1].bearer is Some)
        &&& (self.trace@.len() == 2 ==> !self.trace@[1].with_multipart)
        &&& (!self.authenticated ==> self.trace@.len() <= 1)
        &&& (self.trace@.len() >= 1 ==> !self.multipart_pending)
        &&& (self.phase is Ready ==> self.trace@.len() == 0 && self.authenticated == (
        self.mode is AlwaysTrusted))
        &&& (self.phase is AwaitingToken ==> self.mode is NeedsAuth && self.authenticated
            && self.trace@.len() == 1 && !(self.envelope.body is OneShot))
        &&& (self.phase is InFlight ==> 1 <= self.trace@.len() && !(self.envelope.body is OneShot))
    }

    /// A machine for one send: envelope and payload as the request left
    /// them, no attempt launched, escalation already in place exactly in
    /// always-trusted mode.
    pub fn new(mode: AuthMode, envelope: Envelope, multipart_pending: bool) -> (m: SendMachine)
        ensures
            m.wf(),
            m.phase() is Ready,
            m@.len() == 0,
            m.mode() == mode,
            m.envelope() == envelope,
            m.multipart_pending() == multipart_pending,
            m.authenticated() == (mode is AlwaysTrusted),
    {
        let authenticated = match mode {
            AuthMode::AlwaysTrusted => true,
            AuthMode::NeedsAuth => false,
        };
        SendMachine {
            mode,
            envelope,
            multipart_pending,
            authenticated,
            phase: Phase::Ready,
            trace: Ghost(Seq::empty()),
        }
    }

    /// Launches the first attempt.  The envelope is duplicated for the
    /// attempt; an envelope whose payload is a one-shot stream cannot be,
    /// and ends the send at once with a fatal outcome.  The first attempt
    /// never carries a credential, and takes the multipart payload with it
    /// if one is pending.
    pub fn begin(&mut self) -> (a: Action)
        requires
            old(self).wf(),
            old(self).phase() is Ready,
        ensures
            final(self).wf(),
            final(self).mode() == old(self).mode(),
            final(self).envelope() == old(self).envelope(),
            final(self).authenticated() == old(self).authenticated(),
            old(self).envelope().body is OneShot ==> ({
                &&& a matches Action::Finish(o) && o is BodyNotReplayable
                &&& final(self).phase() is Done
                &&& final(self)@ == old(self)@
            }),
            !(old(self).envelope().body is OneShot) ==> ({
                &&& a matches Action::Execute(p)
                    && p.method == old(self).envelope().method
                    && p.url == old(self).envelope().url
                    && p.bearer is None
                    && p.with_multipart == old(self).multipart_pending()
                &&& final(self).phase() is InFlight
                &&& !final(self).multipart_pending()
                &&& final(self)@ == old(self)@.push(
                    (AttemptModel { bearer: None, with_multipart: old(self).multipart_pending() }),
                )
            }),
    {
        match self.envelope.body {
            EnvelopeBody::OneShot => {
                self.phase = Phase::Done;
                Action::Finish(SendOutcome::BodyNotReplayable)
            },
            _ => {
                let with_multipart = self.multipart_pending;
                self.multipart_pending = false;
                self.phase = Phase::InFlight;
                self.trace = Ghost(
                    self.trace@.push(AttemptModel { bearer: None, with_multipart }),
                );
                let url = self.envelope.url.clone();
                Action::Execute(
                    AttemptPlan { method: self.envelope.method, url, bearer: None, with_multipart },
                )
            },
        }
    }

    /// Consumes the status of the attempt in flight.  A first unauthorized
    /// response in token-based mode escalates: the machine asks for a
    /// token.  Any other status — and any unauthorized response once
    /// escalated or in always-trusted mode — is final and returned as-is.
    pub fn on_response(&mut self, status: u16) -> (a: Action)
        requires
            old(self).wf(),
            old(self).phase() is InFlight,
        ensures
            final(self).wf(),
            final(self).mode() == old(self).mode(),
            final(self).envelope() == old(self).envelope(),
            final(self)@ == old(self)@,
            (status == UNAUTHORIZED && !old(self).authenticated()) ==> ({
                &&& a is ObtainToken
                &&& final(self).phase() is AwaitingToken
                &&& final(self).authenticated()
            }),
            (status != UNAUTHORIZED || old(self).authenticated()) ==> ({
                &&& a matches Action::Finish(o) && o == SendOutcome::Response(status)
                &&& final(self).phase() is Done
                &&& final(self).authenticated() == old(self).authenticated()
            }),
    {
        if status == UNAUTHORIZED && !self.authenticated {
            self.authenticated = true;
            self.phase = Phase::AwaitingToken;
            Action::ObtainToken
        } else {
            self.phase = Phase::Done;
            Action::Finish(SendOutcome::Response(status))
        }
    }

    /// A token arrived: launch the single escalated retry, carrying the
    /// token as bearer credential.  The multipart payload was taken by the
    /// first attempt and is not restored, so the retry never carries it.
    pub fn on_token_ok(&mut self, token: String) -> (a: Action)
        requires
            old(self).wf(),
            old(self).phase() is AwaitingToken,
        ensures
            final(self).wf(),
            final(self).mode() == old(self).mode(),
            final(self).envelope() == old(self).envelope(),
            final(self).authenticated() == old(self).authenticated(),
            a matches Action::Execute(p)
                && p.method == old(self).envelope().method
                && p.url == old(self).envelope().url
                && p.bearer == Some(token)
                && !p.with_multipart,
            final(self).phase() is InFlight,
            final(self)@ == old(self)@.push(
                (AttemptModel { bearer: Some(token@), with_multipart: false }),
            ),
    {
        self.phase = Phase::InFlight;
        self.trace = Ghost(
            self.trace@.push(AttemptModel { bearer: Some(token@), with_multipart: false }),
        );
        let url = self.envelope.url.clone();
        Action::Execute(
            AttemptPlan {
                method: self.envelope.method,
                url,
                bearer: Some(token),
                with_multipart: false,
            },
        )
    }

    /// The authenticator failed: the send ends at once with that failure,
    /// and no transport attempt is made for the escalation.
    pub fn on_token_err(&mut self) -> (a: Action)
        requires
            old(self).wf(),
            old(self).phase() is AwaitingToken,
        ensures
            final(self).wf(),
            final(self).mode() == old(self).mode(),
            final(self).envelope() == old(self).envelope(),
            final(self)@ == old(self)@,
            final(self).authenticated() == old(self).authenticated(),
            a matches Action::Finish(o) && o is AuthFailure,
            final(self).phase() is Done,
    {
        self.phase = Phase::Done;
        Action::Finish(SendOutcome::AuthFailure)
    }

    /// The transport itself failed: the failure propagates at once, with
    /// no retry.
    pub fn on_transport_error(&mut self) -> (a: Action)
        requires
            old(self).wf(),
            old(self).phase() is InFlight,
        ensures
            final(self).wf(),
            final(self).mode() == old(self).mode(),
            final(self).envelope() == old(self).envelope(),
            final(self)@ == old(self)@,
            final(self).authenticated() == old(self).authenticated(),
            a matches Action::Finish(o) && o is TransportFailure,
            final(self).phase() is Done,
    {
        self.phase = Phase::Done;
        Action::Finish(SendOutcome::TransportFailure)
    }
}

/// In token-based mode no credential is presented before the server has
/// asked for one: the first transport attempt of a send never carries a
/// bearer token.
pub proof fn lemma_no_premature_auth(m: SendMachine)
    requires
        m.wf(),
        m.mode() is NeedsAuth,
        m@.len() >= 1,
    ensures
        m@[0].bearer is None,
{
}

/// A send comprises at most two transport attempts, and only the second,
/// escalated attempt ever carries a credential.
pub proof fn lemma_single_retry(m: SendMachine)
    requires
        m.wf(),
    ensures
        m@.len() <= 2,
        m@.len() == 2 ==> m@[1].bearer is Some,
{
}

/// In always-trusted mode there is no escalation: a send makes at most one
/// attempt and never presents a credential, whatever the server answers.
pub proof fn lemma_always_trusted_no_credentials(m: SendMachine)
    requires
        m.wf(),
        m.mode() is AlwaysTrusted,
    ensures
        m@.len() <= 1,
        forall|i: int| 0 <= i < m@.len() ==> m@[i].bearer is None,
{
}

/// The one-shot multipart payload travels with the first attempt only; an
/// escalated retry never carries it.
pub proof fn lemma_multipart_first_attempt_only(m: SendMachine)
    requires
        m.wf(),
    ensures
        m@.len() == 2 ==> !m@[1].with_multipart,
{
}

} // verus!

//! One logical API call: target, authentication mode, built envelope and
//! optional one-shot multipart payload.
//!
//! A `Request` is configured through its builder methods and then handed to
//! the send state machine (see the `send` module) exactly once.  The actual
//! wire request is assembled by the surrounding program from the plans the
//! machine emits; here the envelope is the method, the target URL and the
//! replayability of whatever payload was placed inside it.

use vstd::prelude::*;

use crate::send::SendMachine;

verus! {

/// Which authentication mode the process runs in: a local, always-trusted
/// connection that never carries credentials, or a token-based mode that
/// escalates to a bearer credential when the server asks for one.
#[derive(Clone, Copy, PartialEq, Eq, Structural, Debug)]
pub enum AuthMode {
    AlwaysTrusted,
    NeedsAuth,
}

/// HTTP method of a built envelope.
#[derive(Clone, Copy, PartialEq, Eq, Structural, Debug)]
pub enum Method {
    Get,
    Post,
}

/// Replayability of the payload stored inside a built envelope.  An
/// envelope with a one-shot stream cannot be duplicated for a retry.
#[derive(Clone, Copy, PartialEq, Eq, Structural, Debug)]
pub enum EnvelopeBody {
    Empty,
    Replayable,
    OneShot,
}

/// The method, target URL and payload kind built for the attempts of one
/// send, prior to attaching credentials or the multipart payload.
pub struct Envelope {
    pub method: Method,
    pub url: String,
    pub body: EnvelopeBody,
}

impl Envelope {
    /// An equal copy of the envelope description.
    pub fn duplicate(&self) -> (r: Envelope)
        ensures
            r == *self,
    {
        Envelope { method: self.method, url: self.url.clone(), body: self.body }
    }
}

/// Immutable descriptor of the management API endpoint a request is aimed
/// at.  The caller owns it and guarantees the URL is a valid absolute one.
pub struct ApiTarget {
    pub base_url: String,
}

/// A request may be duplicated for a retry only while its envelope does not
/// carry a one-shot stream.
#[derive(Clone, Copy, PartialEq, Eq, Structural, Debug)]
pub enum CloneError {
    NonReplayableBody,
}

/// The pooled HTTP transport client, opaque here: the library only holds
/// and hands around the handle, and the surrounding program executes the
/// attempts with it.
#[verifier::external_type_specification]
#[verifier::external_body]
pub struct ExClient(reqwest::Client);

/// Relies on `reqwest::Client::clone`: the client is a reference-counted
/// handle to a shared connection pool, and a clone is a cheap second
/// handle to the same pool.  Nothing about the handle is observable here.
pub assume_specification[ <reqwest::Client as Clone>::clone ](c: &reqwest::Client) -> (r:
    reqwest::Client);

/// One authenticated API call in the making.
pub struct Request {
    pub api: ApiTarget,
    pub auth: AuthMode,
    pub client: reqwest::Client,
    pub built_envelope: Option<Envelope>,
    pub multipart: bool,
}

impl Request {
    /// The envelope built so far, if a method-selection call was made.
    pub open spec fn built(self) -> Option<Envelope> {
        self.built_envelope
    }

    /// Whether a one-shot multipart payload waits to be sent.
    pub open spec fn multipart_pending(self) -> bool {
        self.multipart
    }

    /// A fresh request bound to a target, an authentication mode and a
    /// transport handle, with no envelope built and no payload attached.
    pub fn new(api: ApiTarget, auth: AuthMode, client: reqwest::Client) -> (r: Request)
        ensures
            r.api == api,
            r.auth == auth,
            r.client == client,
            r.built() is None,
            !r.multipart_pending(),
    {
        Request { api, auth, client, built_envelope: None, multipart: false }
    }

    /// Builds a GET envelope for the target URL, discarding any envelope
    /// built before.
    pub fn get(&mut self)
        ensures
            final(self).api == old(self).api,
            final(self).auth == old(self).auth,
            final(self).client == old(self).client,
            final(self).multipart_pending() == old(self).multipart_pending(),
            final(self).built() matches Some(e)
                && e.method is Get
                && e.url == old(self).api.base_url
                && e.body is Empty,
    {
        self.built_envelope = Some(
            Envelope {
                method: Method::Get,
                url: self.api.base_url.clone(),
                body: EnvelopeBody::Empty,
            },
        );
    }

    /// Builds a POST envelope for the target URL, discarding any envelope
    /// built before.
    pub fn post(&mut self)
        ensures
            final(self).api == old(self).api,
            final(self).auth == old(self).auth,
            final(self).client == old(self).client,
            final(self).multipart_pending() == old(self).multipart_pending(),
            final(self).built() matches Some(e)
                && e.method is Post
                && e.url == old(self).api.base_url
                && e.body is Empty,
    {
        self.built_envelope = Some(
            Envelope {
                method: Method::Post,
                url: self.api.base_url.clone(),
                body: EnvelopeBody::Empty,
            },
        );
    }

    /// Attaches a one-shot multipart payload to be carried by the next
    /// send.  A second call replaces the first payload; there is no merge.
    pub fn set_multipart(&mut self)
        ensures
            final(self).api == old(self).api,
            final(self).auth == old(self).auth,
            final(self).client == old(self).client,
            final(self).built() == old(self).built(),
            final(self).multipart_pending(),
    {
        self.multipart = true;
    }

    /// Records what kind of payload was placed directly inside the built
    /// envelope, replacing the previous kind.
    pub fn set_body(&mut self, body: EnvelopeBody)
        requires
            old(self).built() is Some,
        ensures
            final(self).api == old(self).api,
            final(self).auth == old(self).auth,
            final(self).client == old(self).client,
            final(self).multipart_pending() == old(self).multipart_pending(),
            final(self).built() matches Some(e)
                && e.method == old(self).built()->0.method
                && e.url == old(self).built()->0.url
                && e.body == body,
    {
        match &mut self.built_envelope {
            Some(e) => {
                e.body = body;
            },
            None => {},
        }
    }

    /// The URL of the built envelope.
    pub fn url(&self) -> (r: &String)
        requires
            self.built() is Some,
        ensures
            *r == self.built()->0.url,
    {
        match &self.built_envelope {
            Some(e) => &e.url,
            None => &self.api.base_url,  // unreachable under the precondition
        }
    }

    /// Mutable access to the URL of the built envelope.
    pub fn url_mut(&mut self) -> (r: &mut String)
        requires
            old(self).built() is Some,
        ensures
            *r == old(self).built()->0.url,
            final(self).api == old(self).api,
            final(self).auth == old(self).auth,
            final(self).client == old(self).client,
            final(self).multipart_pending() == old(self).multipart_pending(),
            final(self).built() matches Some(e)
                && e.method == old(self).built()->0.method
                && e.body == old(self).built()->0.body
                && e.url == *final(r),
    {
        match &mut self.built_envelope {
            Some(e) => &mut e.url,
            None => &mut self.api.base_url,  // unreachable under the precondition
        }
    }

    /// A duplicate of the request for retry purposes.  It fails loudly when
    /// the envelope carries a one-shot stream, and never carries over the
    /// multipart payload, which is single-use.
    pub fn clone(&self) -> (r: Result<Request, CloneError>)
        ensures
            (self.built() matches Some(e) && e.body is OneShot) <==> r is Err,
            r matches Err(f) ==> f is NonReplayableBody,
            r matches Ok(c) ==> ({
                &&& c.api == self.api
                &&& c.auth == self.auth
                &&& c.built() == self.built()
                &&& !c.multipart_pending()
            }),
    {
        let built = match &self.built_envelope {
            None => None,
            Some(e) => {
                match e.body {
                    EnvelopeBody::OneShot => {
                        return Err(CloneError::NonReplayableBody);
                    },
                    _ => {},
                }
                Some(e.duplicate())
            },
        };
        Ok(
            Request {
                api: ApiTarget { base_url: self.api.base_url.clone() },
                auth: self.auth,
                client: self.client.clone(),
                built_envelope: built,
                multipart: false,
            },
        )
    }

    /// Consumes the pending payload and hands the send state machine the
    /// envelope and mode for one send.  The machine decides, attempt by
    /// attempt, what each transport call carries.
    pub fn begin_send(&mut self) -> (m: SendMachine)
        requires
            old(self).built() is Some,
        ensures
            final(self).api == old(self).api,
            final(self).auth == old(self).auth,
            final(self).client == old(self).client,
            final(self).built() == old(self).built(),
            !final(self).multipart_pending(),
            m.wf(),
            m.phase() is Ready,
            m@.len() == 0,
            m.mode() == old(self).auth,
            m.envelope() == old(self).built()->0,
            m.multipart_pending() == old(self).multipart_pending(),
            m.authenticated() == (old(self).auth is AlwaysTrusted),
    {
        let multipart = self.multipart;
        self.multipart = false;
        let envelope = self.built_envelope.as_ref().unwrap().duplicate();
        SendMachine::new(self.auth, envelope, multipart)
    }
}

} // verus!

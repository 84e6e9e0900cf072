//! The transport capability.
//!
//! The client is polymorphic over anything that can carry a named
//! JSON-RPC call and hand back a JSON result or a transport-level
//! failure. The trait's contract keeps a ghost log of every request
//! carried, so a caller's contract can pin exactly what went out.
//! `ScriptedTransport` is a verified in-memory transport that serves a
//! fixed list of outcomes; tests drive the client through it.

use vstd::prelude::*;
use crate::json::{json_of, Json, JsonValue};
use crate::request::{RpcRequest, RpcRequestModel};
use crate::types::TransportError;

verus! {

/// What one scripted exchange hands back: a JSON result, or `None`
/// for a transport failure.
pub open spec fn outcome_of(o: Option<JsonValue>) -> Option<Json> {
    match o {
        Some(v) => Some(json_of(v)),
        None => None,
    }
}

/// The outcomes of a whole script, in serving order.
pub open spec fn outcomes_of(s: Seq<Option<JsonValue>>) -> Seq<Option<Json>> {
    Seq::new(
        s.len(),
        |i: int|
            if 0 <= i < s.len() {
                outcome_of(s[i])
            } else {
                None
            },
    )
}

/// The shapes of a sequence of requests, oldest first.
pub open spec fn reqs_of(s: Seq<RpcRequest>) -> Seq<RpcRequestModel> {
    Seq::new(
        s.len(),
        |i: int|
            if 0 <= i < s.len() {
                s[i]@
            } else {
                RpcRequestModel { method: Seq::<char>::empty(), params: Seq::<Json>::empty() }
            },
    )
}

/// A carrier for one JSON-RPC exchange. Implementations outside this
/// crate (an HTTP or socket client) provide the real network path; the
/// contract states only what every carrier owes: each call appends
/// exactly its request to the carried log, and the outcome is whatever
/// the transport's state answers for that request — success is never
/// promised.
pub trait Transport: Sized {
    /// Every request this transport has carried, oldest first.
    spec fn log(&self) -> Seq<RpcRequestModel>;

    /// What this state answers to a request: a JSON result, or `None`
    /// for a transport-level failure.
    spec fn respond(&self, req: RpcRequestModel) -> Option<Json>;

    /// Carries one request and hands back the node's answer.
    fn call(&mut self, req: RpcRequest) -> (r: Result<JsonValue, TransportError>)
        ensures
            final(self).log() == old(self).log().push(req@),
            match r {
                Ok(v) => old(self).respond(req@) == Some(json_of(v)),
                Err(_) => old(self).respond(req@) is None,
            },
    ;
}

/// An in-memory transport that serves a fixed script of outcomes, one
/// per call in order, and records every request it carries.
pub struct ScriptedTransport {
    /// Outcomes still to be served, next first. `None` is served as a
    /// transport failure.
    pub script: Vec<Option<JsonValue>>,
    /// Requests carried so far, oldest first.
    pub served: Vec<RpcRequest>,
}

impl ScriptedTransport {
    /// The outcomes this transport will still serve, in order.
    pub open spec fn remaining(&self) -> Seq<Option<Json>> {
        outcomes_of(self.script@)
    }

    /// A transport that will serve the given outcomes in order.
    pub fn new(script: Vec<Option<JsonValue>>) -> (r: ScriptedTransport)
        ensures
            r.log() == Seq::<RpcRequestModel>::empty(),
            r.remaining() == outcomes_of(script@),
    {
        let r = ScriptedTransport { script, served: Vec::new() };
        proof {
            assert(r.log() =~= Seq::<RpcRequestModel>::empty());
        }
        r
    }

    /// The requests carried so far, oldest first.
    pub fn served_requests(&self) -> (r: &Vec<RpcRequest>)
        ensures
            reqs_of(r@) == self.log(),
    {
        &self.served
    }
}

impl Transport for ScriptedTransport {
    open spec fn log(&self) -> Seq<RpcRequestModel> {
        reqs_of(self.served@)
    }

    open spec fn respond(&self, req: RpcRequestModel) -> Option<Json> {
        if self.script@.len() > 0 {
            outcome_of(self.script@[0])
        } else {
            None
        }
    }

    fn call(&mut self, req: RpcRequest) -> (r: Result<JsonValue, TransportError>)
        ensures
            final(self).remaining() == if old(self).remaining().len() > 0 {
                old(self).remaining().drop_first()
            } else {
                old(self).remaining()
            },
    {
        let ghost pre_served = self.served@;
        let ghost pre_script = self.script@;
        self.served.push(req);
        proof {
            assert(reqs_of(self.served@) =~= reqs_of(pre_served).push(
                self.served@[pre_served.len() as int]@,
            ));
        }
        if self.script.len() == 0 {
            proof {
                assert(self.remaining() =~= outcomes_of(pre_script));
            }
            return Err(TransportError { message: String::from_str("script exhausted") });
        }
        let next = self.script.remove(0);
        proof {
            assert(self.script@ =~= pre_script.drop_first());
            assert(outcomes_of(self.script@) =~= outcomes_of(pre_script).drop_first());
        }
        match next {
            Some(v) => Ok(v),
            None => Err(TransportError { message: String::from_str("scripted failure") }),
        }
    }
}

} // verus!

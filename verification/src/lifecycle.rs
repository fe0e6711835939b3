use vstd::prelude::*;
use vstd::string::StringExecFns;

use crate::error::{ErrorKind, GuestError};
use crate::marshal::{
    guest_request_matches, guest_response_to_wire, response_wire_ok, wire_headers_decodable,
    wire_response_matches, wire_to_guest,
};
use crate::wire::{GuestRequest, GuestResponse, WireRequest, WireResponse};

verus! {

/// An opaque, process-wide-singleton reference to the guest's
/// request-handling callable. The runtime resolves the callable once and
/// knows it under this identity; the bridge never reassigns it.
#[derive(Clone, Copy, Debug, PartialEq, Eq, Structural)]
pub struct HandlerRef {
    pub id: u64,
}

/// The two lifecycle states: the transition between them is taken exactly
/// once, before the interpreter snapshot is captured.
#[derive(Clone, Copy, Debug, PartialEq, Eq, Structural)]
pub enum LifecycleState {
    Uninitialized,
    Ready,
}

/// The process-wide interpreter bridge state: lifecycle phase, the stored
/// handler reference, the registered capability modules, the guest-visible
/// environment view, and the exclusive-access token.
pub struct Engine {
    pub state: LifecycleState,
    pub handler: Option<HandlerRef>,
    pub registered_modules: Vec<String>,
    pub environ: Vec<(String, String)>,
    pub token_held: bool,
}

/// The fixed, reserved module names under which the capability bindings
/// are registered, in registration order. Guest code imports capabilities
/// by these names, so they must not collide.
pub open spec fn capability_module_names() -> Seq<Seq<char>> {
    seq![
        "spin_http"@,
        "spin_redis"@,
        "spin_config"@,
        "spin_key_value"@,
        "spin_sqlite"@,
        "spin_llm"@,
    ]
}

/// Builds the reserved capability module names, in registration order.
pub fn capability_modules() -> (r: Vec<String>)
    ensures
        r.deep_view() == capability_module_names(),
{
    let mut v: Vec<String> = Vec::new();
    v.push(String::from_str("spin_http"));
    v.push(String::from_str("spin_redis"));
    v.push(String::from_str("spin_config"));
    v.push(String::from_str("spin_key_value"));
    v.push(String::from_str("spin_sqlite"));
    v.push(String::from_str("spin_llm"));
    proof {
        assert(v.deep_view() =~= capability_module_names());
    }
    v
}

/// Law: the reserved capability module names are pairwise distinct, so no
/// binding can shadow another in the guest's importable namespace.
pub proof fn lemma_capability_module_names_distinct()
    ensures
        forall|i: int, j: int|
            0 <= i < j < capability_module_names().len() ==> capability_module_names()[i]
                != capability_module_names()[j],
{
    reveal_strlit("spin_http");
    reveal_strlit("spin_redis");
    reveal_strlit("spin_config");
    reveal_strlit("spin_key_value");
    reveal_strlit("spin_sqlite");
    reveal_strlit("spin_llm");
    let s = capability_module_names();
    assert(s[0].len() == 9);
    assert(s[1].len() == 10);
    assert(s[2].len() == 11);
    assert(s[3].len() == 14);
    assert(s[4].len() == 11);
    assert(s[5].len() == 8);
    assert(s[2] != s[4]) by {
        assert(s[2][5] == 'c');
        assert(s[4][5] == 's');
    }
}

impl Engine {
    /// Internal consistency: a ready bridge has a handler, and before
    /// initialization nothing holds the exclusive-access token.
    pub open spec fn wf(self) -> bool {
        &&& (self.state is Ready <==> self.handler is Some)
        &&& (self.state is Uninitialized ==> !self.token_held)
    }

    /// A fresh, uninitialized bridge.
    pub fn new() -> (e: Engine)
        ensures
            e.wf(),
            e.state is Uninitialized,
            e.handler is None,
            e.registered_modules@.len() == 0,
            e.environ@.len() == 0,
            !e.token_held,
    {
        Engine {
            state: LifecycleState::Uninitialized,
            handler: None,
            registered_modules: Vec::new(),
            environ: Vec::new(),
            token_held: false,
        }
    }

    /// The one-time Uninitialized → Ready transition.
    ///
    /// The capability bindings are registered first (guest code may import
    /// them at module scope), then the handler reference — resolved by the
    /// runtime, `None` when the guest module or its handler attribute was
    /// missing — is stored, and the guest-visible environment view is
    /// scrubbed so the snapshot cannot freeze build-time values.
    ///
    /// A second call is rejected and changes nothing: the stored handler
    /// reference survives it untouched.
    pub fn initialize(&mut self, resolved: Option<HandlerRef>) -> (r: Result<(), GuestError>)
        requires
            old(self).wf(),
        ensures
            final(self).wf(),
            old(self).state is Ready ==> *final(self) == *old(self) && (r matches Err(e)
                && e.kind == ErrorKind::InitializationFailure),
            old(self).state is Uninitialized ==> final(self).registered_modules.deep_view()
                == capability_module_names()
                && final(self).token_held == old(self).token_held
                && match resolved {
                Some(h) => r is Ok && final(self).state is Ready && final(self).handler
                    == Some(h) && final(self).environ@.len() == 0,
                None => (r matches Err(e) && e.kind == ErrorKind::InitializationFailure)
                    && final(self).state is Uninitialized && final(self).handler is None
                    && final(self).environ == old(self).environ,
            },
    {
        match self.state {
            LifecycleState::Ready => Err(
                GuestError::initialization_failure(
                    String::from_str("initialization may only run once"),
                ),
            ),
            LifecycleState::Uninitialized => {
                self.registered_modules = capability_modules();
                match resolved {
                    Some(h) => {
                        self.handler = Some(h);
                        self.environ.clear();
                        self.state = LifecycleState::Ready;
                        Ok(())
                    },
                    None => Err(
                        GuestError::initialization_failure(
                            String::from_str("guest module or handler attribute not found"),
                        ),
                    ),
                }
            },
        }
    }

    /// Overwrites every entry of the guest-visible environment view from
    /// the current process environment; run once per request, under the
    /// exclusive-access token, before the handler is invoked.
    pub fn resync_environment(&mut self, vars: Vec<(String, String)>)
        requires
            old(self).token_held,
        ensures
            final(self).environ == vars,
            final(self).state == old(self).state,
            final(self).handler == old(self).handler,
            final(self).registered_modules == old(self).registered_modules,
            final(self).token_held == old(self).token_held,
    {
        self.environ = vars;
    }

    /// Starts a request invocation: acquires the exclusive-access token,
    /// marshals the inbound request, and re-synchronizes the environment
    /// view from `env`.
    ///
    /// Succeeds exactly when every header value of the wire request
    /// decodes as UTF-8. On failure the token is released again and the
    /// environment view is left alone: the invocation is over.
    pub fn begin_request(&mut self, wire: &WireRequest, env: Vec<(String, String)>) -> (r:
        Result<GuestRequest, GuestError>)
        requires
            old(self).wf(),
            old(self).state is Ready,
            !old(self).token_held,
        ensures
            final(self).wf(),
            final(self).state is Ready,
            final(self).handler == old(self).handler,
            final(self).registered_modules == old(self).registered_modules,
            r is Ok <==> wire_headers_decodable(wire.headers.deep_view()),
            r matches Ok(g) ==> guest_request_matches(*wire, g) && final(self).token_held
                && final(self).environ == env,
            r matches Err(e) ==> e.kind == ErrorKind::ConversionFailure
                && !final(self).token_held && final(self).environ == old(self).environ,
    {
        self.token_held = true;
        match wire_to_guest(wire) {
            Ok(g) => {
                self.resync_environment(env);
                Ok(g)
            },
            Err(e) => {
                self.token_held = false;
                Err(e)
            },
        }
    }

    /// Ends a request invocation with the outcome of the guest handler
    /// call: a guest response to marshal back to wire form, or the error
    /// the guest raised, which propagates as a fatal failure for this one
    /// request.
    ///
    /// Whatever the outcome, the exclusive-access token is released and
    /// nothing else of the bridge state changes.
    pub fn finish_request(&mut self, outcome: Result<GuestResponse, GuestError>) -> (r: Result<
        WireResponse,
        GuestError,
    >)
        requires
            old(self).wf(),
            old(self).state is Ready,
            old(self).token_held,
        ensures
            final(self).wf(),
            *final(self) == after_finish(*old(self)),
            match outcome {
                Ok(resp) => (r is Ok <==> response_wire_ok(resp)) && (r matches Ok(w)
                    ==> wire_response_matches(resp, w)) && (r matches Err(e) ==> e.kind
                    == ErrorKind::ConversionFailure),
                Err(e) => r == Err::<WireResponse, GuestError>(e),
            },
    {
        let r = match outcome {
            Ok(resp) => guest_response_to_wire(resp),
            Err(e) => Err(e),
        };
        self.token_held = false;
        r
    }
}

/// The bridge state after a request invocation completes: the
/// exclusive-access token is released, everything else is untouched.
pub open spec fn after_finish(e: Engine) -> Engine {
    Engine {
        state: e.state,
        handler: e.handler,
        registered_modules: e.registered_modules,
        environ: e.environ,
        token_held: false,
    }
}

/// Whether the bridge can accept a new request invocation.
pub open spec fn can_accept_request(e: Engine) -> bool {
    &&& e.wf()
    &&& e.state is Ready
    &&& !e.token_held
}

/// Law: the exclusive-access token is never held across two request
/// invocations. However an invocation ends — response marshalled, guest
/// error, even a failed inbound marshal — the bridge it leaves behind can
/// acquire the token for the next invocation without deadlock.
pub proof fn lemma_token_not_held_across_invocations(e: Engine)
    requires
        e.wf(),
        e.state is Ready,
    ensures
        can_accept_request(after_finish(e)),
{
}

} // verus!

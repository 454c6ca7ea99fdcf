//! Decision logic of the authorization callback listener.
//!
//! The listener is a method-keyed state machine, terminal per request: an
//! OPTIONS preflight is answered 200 with the CORS headers, a POST with a
//! valid JSON body is relayed to the application as one `authorizer`
//! event, and everything else is refused with a structured reply.  The
//! functions here decide; the surrounding application performs the one
//! side effect (the emission) and writes the HTTP response.

use vstd::prelude::*;
use crate::text::str_eq;

verus! {

/// The fixed loopback port the listener binds at build time.  Not
/// configurable at run time: the security boundary is a predictable
/// endpoint reachable only from the same machine.
pub const CALLBACK_PORT: u16 = 47673;

/// Whether these bytes parse as one JSON document.
pub uninterp spec fn is_json(bytes: Seq<u8>) -> bool;

#[verifier::external_type_specification]
#[verifier::external_body]
pub struct ExJsonValue(serde_json::Value);

/// Relies on serde_json::from_slice: parsing succeeds exactly on the
/// byte sequences that spell a valid JSON document, and its verdict
/// depends on the bytes alone.
#[verifier::external_body]
fn parse_json(bytes: &[u8]) -> (r: Option<serde_json::Value>)
    ensures
        r is Some <==> is_json(bytes@),
{
    serde_json::from_slice::<serde_json::Value>(bytes).ok()
}

/// One reply of the listener: a status line, whether the CORS headers
/// accompany it, and an optional diagnostic body.
#[derive(Clone, Copy, Debug, PartialEq, Eq, Structural)]
pub enum BridgeReply {
    /// 200: answer to a CORS preflight, headers only.
    Preflight,
    /// 202: callback accepted (emitted, or silently skipped while the
    /// application is still booting).
    Accepted,
    /// 406: the POST body is absent or not valid JSON.
    BadBody,
    /// 406: the application is present but refused the emission.
    Unavailable,
    /// 400: a method other than OPTIONS or POST.
    BadMethod,
}

impl BridgeReply {
    /// The HTTP status carried by this reply.
    pub open spec fn status_of(self) -> u16 {
        match self {
            BridgeReply::Preflight => 200,
            BridgeReply::Accepted => 202,
            BridgeReply::BadBody => 406,
            BridgeReply::Unavailable => 406,
            BridgeReply::BadMethod => 400,
        }
    }

    /// Whether the three CORS headers accompany this reply.
    pub open spec fn sends_cors_of(self) -> bool {
        match self {
            BridgeReply::Preflight => true,
            BridgeReply::Accepted => true,
            _ => false,
        }
    }

    /// The diagnostic body carried by this reply, if any.
    pub open spec fn message_of(self) -> Option<Seq<char>> {
        match self {
            BridgeReply::Preflight => None,
            BridgeReply::Accepted => None,
            BridgeReply::BadBody => Some("Must use json body: { url: string }"@),
            BridgeReply::Unavailable => Some("Currently unavailable"@),
            BridgeReply::BadMethod => Some("Only OPTIONS, POST methods are allowed"@),
        }
    }

    /// The HTTP status code to put on the response line.
    pub fn status_code(&self) -> (r: u16)
        ensures
            r == self.status_of(),
    {
        match self {
            BridgeReply::Preflight => 200,
            BridgeReply::Accepted => 202,
            BridgeReply::BadBody => 406,
            BridgeReply::Unavailable => 406,
            BridgeReply::BadMethod => 400,
        }
    }

    /// Whether the response carries the CORS headers of `cors_headers`.
    pub fn sends_cors_headers(&self) -> (r: bool)
        ensures
            r == self.sends_cors_of(),
    {
        match self {
            BridgeReply::Preflight => true,
            BridgeReply::Accepted => true,
            _ => false,
        }
    }

    /// The diagnostic message to put in the response body, if any.
    pub fn body_message(&self) -> (r: Option<String>)
        ensures
            r is Some <==> self.message_of() is Some,
            (r matches Some(s) ==> self.message_of() == Some(s@)),
    {
        match self {
            BridgeReply::Preflight => None,
            BridgeReply::Accepted => None,
            BridgeReply::BadBody => Some(
                String::from_str("Must use json body: { url: string }"),
            ),
            BridgeReply::Unavailable => Some(String::from_str("Currently unavailable")),
            BridgeReply::BadMethod => Some(
                String::from_str("Only OPTIONS, POST methods are allowed"),
            ),
        }
    }
}

/// Exactly the three CORS headers that preflight and acceptance replies
/// carry: any origin, POST only, the two request headers a caller may
/// set.
pub fn cors_headers() -> (h: Vec<(String, String)>)
    ensures
        h@.len() == 3,
        h@[0].0@ == "Access-Control-Allow-Origin"@,
        h@[0].1@ == "*"@,
        h@[1].0@ == "Access-Control-Allow-Methods"@,
        h@[1].1@ == "POST"@,
        h@[2].0@ == "Access-Control-Allow-Headers"@,
        h@[2].1@ == "Content-Type, Authorization"@,
{
    let mut h: Vec<(String, String)> = Vec::new();
    h.push((
        String::from_str("Access-Control-Allow-Origin"),
        String::from_str("*"),
    ));
    h.push((
        String::from_str("Access-Control-Allow-Methods"),
        String::from_str("POST"),
    ));
    h.push((
        String::from_str("Access-Control-Allow-Headers"),
        String::from_str("Content-Type, Authorization"),
    ));
    h
}

/// The name under which an accepted payload is emitted to the
/// application's event bus.
pub fn authorizer_event_name() -> (r: String)
    ensures
        r@ == "authorizer"@,
{
    String::from_str("authorizer")
}

/// What the listener does with one request: reply at once, or emit the
/// parsed payload as the `authorizer` event and then reply according to
/// the emission's outcome (`respond_after_emit`).
#[derive(Debug)]
pub enum RouteAction {
    Reply(BridgeReply),
    EmitAuthorizer(serde_json::Value),
}

/// The abstract shape of a routing decision: an immediate reply, or one
/// emission.
pub enum RouteOutcome {
    Reply(BridgeReply),
    Emit,
}

/// The abstract shape of a `RouteAction`.
pub open spec fn outcome_of(a: RouteAction) -> RouteOutcome {
    match a {
        RouteAction::Reply(rep) => RouteOutcome::Reply(rep),
        RouteAction::EmitAuthorizer(_) => RouteOutcome::Emit,
    }
}

/// The request body as the byte sequence it holds, absent when the
/// request carried none.
pub open spec fn body_bytes(body: Option<&[u8]>) -> Option<Seq<u8>> {
    match body {
        Some(b) => Some(b@),
        None => None,
    }
}

/// The routing state machine, method keyed, terminal per request.
pub open spec fn routed(method: Seq<char>, body: Option<Seq<u8>>, handle_present: bool) -> RouteOutcome {
    if method == "OPTIONS"@ {
        RouteOutcome::Reply(BridgeReply::Preflight)
    } else if method == "POST"@ {
        match body {
            None => RouteOutcome::Reply(BridgeReply::BadBody),
            Some(b) => if !is_json(b) {
                RouteOutcome::Reply(BridgeReply::BadBody)
            } else if handle_present {
                RouteOutcome::Emit
            } else {
                RouteOutcome::Reply(BridgeReply::Accepted)
            },
        }
    } else {
        RouteOutcome::Reply(BridgeReply::BadMethod)
    }
}

/// Routes one request.  `handle_present` is the registry's answer at the
/// moment of the request; an emission is instructed exactly for a POST
/// whose body is valid JSON while the handle is present, and the emitted
/// payload is the value parsed from that body.
pub fn route(method: &str, body: Option<&[u8]>, handle_present: bool) -> (r: RouteAction)
    ensures
        outcome_of(r) == routed(method@, body_bytes(body), handle_present),
{
    if str_eq(method, "OPTIONS") {
        RouteAction::Reply(BridgeReply::Preflight)
    } else if str_eq(method, "POST") {
        match body {
            None => RouteAction::Reply(BridgeReply::BadBody),
            Some(b) => match parse_json(b) {
                None => RouteAction::Reply(BridgeReply::BadBody),
                Some(v) => if handle_present {
                    RouteAction::EmitAuthorizer(v)
                } else {
                    RouteAction::Reply(BridgeReply::Accepted)
                },
            },
        }
    } else {
        RouteAction::Reply(BridgeReply::BadMethod)
    }
}

/// The reply owed after an instructed emission: acceptance when the bus
/// took the event, refusal when it did not.
pub open spec fn after_emit(emit_ok: bool) -> BridgeReply {
    if emit_ok {
        BridgeReply::Accepted
    } else {
        BridgeReply::Unavailable
    }
}

/// Turns the emission's outcome into the terminal reply.
pub fn respond_after_emit(emit_ok: bool) -> (r: BridgeReply)
    ensures
        r == after_emit(emit_ok),
{
    if emit_ok {
        BridgeReply::Accepted
    } else {
        BridgeReply::Unavailable
    }
}

/// A POST whose body is valid JSON, received while the registry holds a
/// handle, leads to exactly one emission of the authorization event; a
/// successful emission is acknowledged 202 with the CORS headers.
pub proof fn lemma_valid_post_with_handle_emits(body: Seq<u8>)
    requires
        is_json(body),
    ensures
        routed("POST"@, Some(body), true) is Emit,
        after_emit(true) == BridgeReply::Accepted,
        after_emit(true).status_of() == 202,
        after_emit(true).sends_cors_of(),
{
    reveal_strlit("POST");
    reveal_strlit("OPTIONS");
    assert("POST"@.len() == 4);
    assert("OPTIONS"@.len() == 7);
}

/// A POST whose body is absent or not valid JSON is refused 406 and no
/// emission is attempted, whatever the registry holds.
pub proof fn lemma_malformed_post_never_emits(body: Option<Seq<u8>>, handle_present: bool)
    requires
        body matches Some(b) ==> !is_json(b),
    ensures
        routed("POST"@, body, handle_present) == RouteOutcome::Reply(BridgeReply::BadBody),
        BridgeReply::BadBody.status_of() == 406,
{
    reveal_strlit("POST");
    reveal_strlit("OPTIONS");
    assert("POST"@.len() == 4);
    assert("OPTIONS"@.len() == 7);
}

/// An OPTIONS request is answered 200 with the CORS preflight reply,
/// whatever the body holds and whatever the registry holds.
pub proof fn lemma_options_always_preflight(body: Option<Seq<u8>>, handle_present: bool)
    ensures
        routed("OPTIONS"@, body, handle_present) == RouteOutcome::Reply(BridgeReply::Preflight),
        BridgeReply::Preflight.status_of() == 200,
        BridgeReply::Preflight.sends_cors_of(),
{
}

/// A valid POST that arrives while the registry is still empty is
/// acknowledged 202 and no emission is attempted.
pub proof fn lemma_post_without_handle_skips(body: Seq<u8>)
    requires
        is_json(body),
    ensures
        routed("POST"@, Some(body), false) == RouteOutcome::Reply(BridgeReply::Accepted),
        BridgeReply::Accepted.status_of() == 202,
{
    reveal_strlit("POST");
    reveal_strlit("OPTIONS");
    assert("POST"@.len() == 4);
    assert("OPTIONS"@.len() == 7);
}

/// A method other than OPTIONS and POST is refused 400; nothing is
/// emitted.
pub proof fn lemma_other_method_refused(method: Seq<char>, body: Option<Seq<u8>>, handle_present: bool)
    requires
        method != "OPTIONS"@,
        method != "POST"@,
    ensures
        routed(method, body, handle_present) == RouteOutcome::Reply(BridgeReply::BadMethod),
        BridgeReply::BadMethod.status_of() == 400,
{
}

} // verus!

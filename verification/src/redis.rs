use vstd::prelude::*;
use vstd::string::StringExecFns;

use crate::error::{ErrorKind, GuestError};
use crate::text::clone_bytes;
use crate::value::GuestValue;

verus! {

/// A typed command argument: the pub/sub `execute` operation accepts only
/// integers and byte buffers.
#[derive(Debug, PartialEq)]
pub enum RedisParam {
    Int64(i64),
    Binary(Vec<u8>),
}

/// One element of a command's reply, as tagged by the host response.
#[derive(Debug, PartialEq)]
pub enum RedisOutcome {
    Nil,
    Status(String),
    Int64(i64),
    Binary(Vec<u8>),
}

/// Whether a guest value is accepted as a command argument.
pub open spec fn is_command_argument(v: GuestValue) -> bool {
    v is Int || v is Bytes
}

/// The typed argument a guest value classifies to.
pub open spec fn redis_param_matches(v: GuestValue, p: RedisParam) -> bool {
    match v {
        GuestValue::Int(i) => p matches RedisParam::Int64(j) && j == i,
        GuestValue::Bytes(b) => p matches RedisParam::Binary(c) && c@ == b@,
        _ => false,
    }
}

/// The guest value a reply element decodes to, decided per element by the
/// host response tag: nil becomes guest null, a status becomes text, an
/// integer stays an integer, a binary payload becomes a byte buffer.
pub open spec fn guest_value_matches_redis(o: RedisOutcome, g: GuestValue) -> bool {
    match o {
        RedisOutcome::Nil => g is Null,
        RedisOutcome::Status(s) => g matches GuestValue::Text(t) && t@ == s@,
        RedisOutcome::Int64(i) => g matches GuestValue::Int(j) && j == i,
        RedisOutcome::Binary(b) => g matches GuestValue::Bytes(c) && c@ == b@,
    }
}

/// Classifies the arguments of a command, left to right; any guest value
/// other than an integer or a byte buffer is rejected as an invalid
/// argument naming the accepted set.
pub fn classify_arguments(args: &Vec<GuestValue>) -> (r: Result<Vec<RedisParam>, GuestError>)
    ensures
        r is Ok <==> (forall|i: int|
            0 <= i < args@.len() ==> is_command_argument(#[trigger] args@[i])),
        r matches Ok(ps) ==> (ps@.len() == args@.len() && (forall|i: int|
            0 <= i < args@.len() ==> redis_param_matches(#[trigger] args@[i], ps@[i]))),
        r matches Err(e) ==> e.kind == ErrorKind::InvalidArgument && e.message@
            == "Unable to use the guest value as a Redis `execute` argument -- expected `int` or `bytes`"@,
{
    let mut ps: Vec<RedisParam> = Vec::new();
    let mut i: usize = 0;
    while i < args.len()
        invariant
            i <= args@.len(),
            ps@.len() == i,
            forall|k: int| 0 <= k < i ==> is_command_argument(#[trigger] args@[k]),
            forall|k: int| 0 <= k < i ==> redis_param_matches(#[trigger] args@[k], ps@[k]),
        decreases args@.len() - i,
    {
        match &args[i] {
            GuestValue::Int(n) => {
                ps.push(RedisParam::Int64(*n));
            },
            GuestValue::Bytes(b) => {
                ps.push(RedisParam::Binary(clone_bytes(b)));
            },
            _ => {
                return Err(
                    GuestError::invalid_argument(
                        String::from_str(
                            "Unable to use the guest value as a Redis `execute` argument -- expected `int` or `bytes`",
                        ),
                    ),
                );
            },
        }
        i = i + 1;
    }
    Ok(ps)
}

/// Decodes a command reply into guest values, element by element.
pub fn decode_results(results: &Vec<RedisOutcome>) -> (r: Vec<GuestValue>)
    ensures
        r@.len() == results@.len(),
        forall|i: int| 0 <= i < results@.len() ==> guest_value_matches_redis(
            #[trigger] results@[i],
            r@[i],
        ),
{
    let mut out: Vec<GuestValue> = Vec::new();
    let mut i: usize = 0;
    while i < results.len()
        invariant
            i <= results@.len(),
            out@.len() == i,
            forall|k: int| 0 <= k < i ==> guest_value_matches_redis(
                #[trigger] results@[k],
                out@[k],
            ),
        decreases results@.len() - i,
    {
        let g = match &results[i] {
            RedisOutcome::Nil => GuestValue::Null,
            RedisOutcome::Status(s) => GuestValue::Text(s.clone()),
            RedisOutcome::Int64(n) => GuestValue::Int(*n),
            RedisOutcome::Binary(b) => GuestValue::Bytes(clone_bytes(b)),
        };
        out.push(g);
        i = i + 1;
    }
    out
}

/// Interprets the host's answer to a command: a failed command maps to a
/// capability failure with the binding's fixed diagnostic, a successful
/// one has its reply decoded per element.
pub fn interpret_execute_results(outcome: Result<Vec<RedisOutcome>, ()>) -> (r: Result<
    Vec<GuestValue>,
    GuestError,
>)
    ensures
        match outcome {
            Ok(results) => r matches Ok(vs) && vs@.len() == results@.len() && (forall|i: int|
                0 <= i < results@.len() ==> guest_value_matches_redis(
                    #[trigger] results@[i],
                    vs@[i],
                )),
            Err(_) => r matches Err(e) && e.kind == ErrorKind::CapabilityFailure && e.message@
                == "Error executing Redis set command"@,
        },
{
    match outcome {
        Ok(results) => Ok(decode_results(&results)),
        Err(_) => Err(
            GuestError::capability_failure(
                String::from_str("Error executing Redis set command"),
            ),
        ),
    }
}

/// Interprets the host's answer to `del`: the count of deleted keys, or
/// the binding's fixed diagnostic.
pub fn interpret_del(outcome: Result<i64, ()>) -> (r: Result<i64, GuestError>)
    ensures
        match outcome {
            Ok(n) => r matches Ok(m) && m == n,
            Err(_) => r matches Err(e) && e.kind == ErrorKind::CapabilityFailure && e.message@
                == "Error executing Redis set command"@,
        },
{
    match outcome {
        Ok(n) => Ok(n),
        Err(_) => Err(
            GuestError::capability_failure(
                String::from_str("Error executing Redis set command"),
            ),
        ),
    }
}

/// Interprets the host's answer to `get`: the payload bytes, or the
/// binding's fixed diagnostic.
pub fn interpret_get(outcome: Result<Vec<u8>, ()>) -> (r: Result<Vec<u8>, GuestError>)
    ensures
        match outcome {
            Ok(v) => r matches Ok(w) && w == v,
            Err(_) => r matches Err(e) && e.kind == ErrorKind::CapabilityFailure && e.message@
                == "Error executing Redis get command"@,
        },
{
    match outcome {
        Ok(v) => Ok(v),
        Err(_) => Err(
            GuestError::capability_failure(
                String::from_str("Error executing Redis get command"),
            ),
        ),
    }
}

/// Interprets the host's answer to `incr`: the incremented value, or the
/// binding's fixed diagnostic.
pub fn interpret_incr(outcome: Result<i64, ()>) -> (r: Result<i64, GuestError>)
    ensures
        match outcome {
            Ok(n) => r matches Ok(m) && m == n,
            Err(_) => r matches Err(e) && e.kind == ErrorKind::CapabilityFailure && e.message@
                == "Error executing Redis incr command"@,
        },
{
    match outcome {
        Ok(n) => Ok(n),
        Err(_) => Err(
            GuestError::capability_failure(
                String::from_str("Error executing Redis incr command"),
            ),
        ),
    }
}

/// Interprets the host's answer to `publish`.
pub fn interpret_publish(outcome: Result<(), ()>) -> (r: Result<(), GuestError>)
    ensures
        match outcome {
            Ok(_) => r is Ok,
            Err(_) => r matches Err(e) && e.kind == ErrorKind::CapabilityFailure && e.message@
                == "Error executing Redis publish command"@,
        },
{
    match outcome {
        Ok(_) => Ok(()),
        Err(_) => Err(
            GuestError::capability_failure(
                String::from_str("Error executing Redis publish command"),
            ),
        ),
    }
}

/// Interprets the host's answer to `set_add`: the number of newly added
/// values, or the binding's fixed diagnostic.
pub fn interpret_sadd(outcome: Result<i64, ()>) -> (r: Result<i64, GuestError>)
    ensures
        match outcome {
            Ok(n) => r matches Ok(m) && m == n,
            Err(_) => r matches Err(e) && e.kind == ErrorKind::CapabilityFailure && e.message@
                == "Error executing Redis set command"@,
        },
{
    match outcome {
        Ok(n) => Ok(n),
        Err(_) => Err(
            GuestError::capability_failure(
                String::from_str("Error executing Redis set command"),
            ),
        ),
    }
}

/// Interprets the host's answer to `set`.
pub fn interpret_set(outcome: Result<(), ()>) -> (r: Result<(), GuestError>)
    ensures
        match outcome {
            Ok(_) => r is Ok,
            Err(_) => r matches Err(e) && e.kind == ErrorKind::CapabilityFailure && e.message@
                == "Error executing Redis set command"@,
        },
{
    match outcome {
        Ok(_) => Ok(()),
        Err(_) => Err(
            GuestError::capability_failure(
                String::from_str("Error executing Redis set command"),
            ),
        ),
    }
}

/// Interprets the host's answer to `set_members`: the members of the set,
/// or the binding's fixed diagnostic.
pub fn interpret_smembers(outcome: Result<Vec<String>, ()>) -> (r: Result<
    Vec<String>,
    GuestError,
>)
    ensures
        match outcome {
            Ok(v) => r matches Ok(w) && w == v,
            Err(_) => r matches Err(e) && e.kind == ErrorKind::CapabilityFailure && e.message@
                == "Error executing Redis set command"@,
        },
{
    match outcome {
        Ok(v) => Ok(v),
        Err(_) => Err(
            GuestError::capability_failure(
                String::from_str("Error executing Redis set command"),
            ),
        ),
    }
}

/// Interprets the host's answer to `set_remove`: the number of newly
/// removed values, or the binding's fixed diagnostic.
pub fn interpret_srem(outcome: Result<i64, ()>) -> (r: Result<i64, GuestError>)
    ensures
        match outcome {
            Ok(n) => r matches Ok(m) && m == n,
            Err(_) => r matches Err(e) && e.kind == ErrorKind::CapabilityFailure && e.message@
                == "Error executing Redis set command"@,
        },
{
    match outcome {
        Ok(n) => Ok(n),
        Err(_) => Err(
            GuestError::capability_failure(
                String::from_str("Error executing Redis set command"),
            ),
        ),
    }
}

/// Law: a binary command argument that the host echoes back decodes to
/// the original bytes exactly. Classification turns a guest byte buffer
/// into a binary argument with the same bytes; when the reply element is
/// tagged binary and holds those bytes, decoding yields a guest byte
/// buffer equal to the one given.
pub proof fn lemma_binary_round_trip(
    v: GuestValue,
    p: RedisParam,
    echoed: RedisOutcome,
    g: GuestValue,
)
    requires
        v is Bytes,
        redis_param_matches(v, p),
        echoed matches RedisOutcome::Binary(d) && d@ == p->Binary_0@,
        guest_value_matches_redis(echoed, g),
    ensures
        g matches GuestValue::Bytes(out) && out@ == v->Bytes_0@,
{
}

} // verus!

use vstd::prelude::*;

use crate::dispatch::{
    spec_constructor, spec_deploy, spec_encode_bool, spec_message, spec_run, spec_step,
    Constructor, DispatchError, Message,
};

verus! {

/// Deploying through the `new` constructor stores exactly the boolean the
/// input carries, and a following `get` returns its canonical encoding while
/// leaving the state alone.
pub proof fn lemma_new_then_get(b: bool, new_input: Seq<u8>, get_input: Seq<u8>)
    requires
        spec_constructor(new_input) == Ok::<Constructor, DispatchError>(Constructor::New(b)),
        spec_message(get_input) == Ok::<Message, DispatchError>(Message::Get),
    ensures
        spec_deploy(new_input) == Ok::<bool, DispatchError>(b),
        spec_step(b, get_input).1 == Ok::<Seq<u8>, DispatchError>(spec_encode_bool(b)),
        spec_step(b, get_input).0 == b,
{
}

/// The `default` constructor is observationally equivalent to `new(false)`:
/// both deployments create the same state, and every sequence of subsequent
/// message invocations produces identical results from the two deployments.
pub proof fn lemma_default_equivalent_to_new_false(
    default_input: Seq<u8>,
    new_input: Seq<u8>,
    deployed_default: bool,
    deployed_new: bool,
    msgs: Seq<Seq<u8>>,
)
    requires
        spec_constructor(default_input) == Ok::<Constructor, DispatchError>(Constructor::Zeroed),
        spec_constructor(new_input) == Ok::<Constructor, DispatchError>(Constructor::New(false)),
        spec_deploy(default_input) == Ok::<bool, DispatchError>(deployed_default),
        spec_deploy(new_input) == Ok::<bool, DispatchError>(deployed_new),
    ensures
        deployed_default == deployed_new,
        spec_run(deployed_default, msgs) == spec_run(deployed_new, msgs),
{
}

/// Two `flip` invocations in a row restore the state, so `get` observes the
/// same value after the pair as before it.
pub proof fn lemma_flip_flip_restores(v: bool, flip_input: Seq<u8>, get_input: Seq<u8>)
    requires
        spec_message(flip_input) == Ok::<Message, DispatchError>(Message::Flip),
        spec_message(get_input) == Ok::<Message, DispatchError>(Message::Get),
    ensures
        spec_step(spec_step(v, flip_input).0, flip_input).0 == v,
        spec_step(spec_step(spec_step(v, flip_input).0, flip_input).0, get_input).1 == spec_step(
            v,
            get_input,
        ).1,
{
}

/// `get` is pure: it never changes the state, and two successive `get`
/// invocations with no `flip` between them return the same result.
pub proof fn lemma_get_is_pure(v: bool, get_input: Seq<u8>)
    requires
        spec_message(get_input) == Ok::<Message, DispatchError>(Message::Get),
    ensures
        spec_step(v, get_input).0 == v,
        spec_step(spec_step(v, get_input).0, get_input).1 == spec_step(v, get_input).1,
{
}

/// An input that selects none of the operations is rejected, and the
/// rejection changes nothing: dispatch aborts with an error and the state is
/// exactly the prior one.
pub proof fn lemma_unknown_selector_aborts(v: bool, input: Seq<u8>)
    requires
        spec_message(input) is Err,
    ensures
        spec_step(v, input).1 is Err,
        spec_step(v, input).0 == v,
{
}

/// Every invocation is atomic: whenever a call aborts, the state after the
/// call equals the state before it, so a following `get` observes the value
/// held immediately before the aborted call.
pub proof fn lemma_aborted_call_preserves_state(v: bool, input: Seq<u8>, get_input: Seq<u8>)
    requires
        spec_step(v, input).1 is Err,
        spec_message(get_input) == Ok::<Message, DispatchError>(Message::Get),
    ensures
        spec_step(v, input).0 == v,
        spec_step(spec_step(v, input).0, get_input).1 == Ok::<Seq<u8>, DispatchError>(
            spec_encode_bool(v),
        ),
{
}

} // verus!

use vstd::prelude::*;

use crate::state::Identity;

verus! {

// ---------------------------------------------------------------------------
// Wire ABI
//
// An invocation input is `selector || args`: a four-byte tag that the host
// ABI derives from the operation's name, followed by the arguments in the
// host's canonical scalar encoding (a boolean is one byte, 0x00 or 0x01).
// The tags are fixed by the ABI version the contract targets and must stay
// stable; they are pinned here for the four operations.
// ---------------------------------------------------------------------------

/// A decoded constructor invocation.
#[derive(Clone, Copy, PartialEq, Eq, Structural, Debug)]
pub enum Constructor {
    /// `new`: store the boolean argument.
    New(bool),
    /// `default`: store the boolean zero value.
    Zeroed,
}

/// A decoded message invocation.
#[derive(Clone, Copy, PartialEq, Eq, Structural, Debug)]
pub enum Message {
    /// Toggle the cell; empty reply.
    Flip,
    /// Read the cell; the reply encodes the current value.
    Get,
}

/// Why an invocation was rejected. Any rejection aborts the whole call:
/// the host then discards every tentative state change.
#[derive(Clone, Copy, PartialEq, Eq, Structural, Debug)]
pub enum DispatchError {
    /// The input does not begin with the selector of any known operation.
    UnknownSelector,
    /// The selector is known but the argument bytes have the wrong shape.
    MalformedArguments,
}

/// The input begins with the four given selector bytes.
pub open spec fn has_selector(input: Seq<u8>, s0: u8, s1: u8, s2: u8, s3: u8) -> bool {
    input.len() >= 4 && input[0] == s0 && input[1] == s1 && input[2] == s2 && input[3] == s3
}

/// Selector tag of the `new` constructor.
pub open spec fn has_new_selector(input: Seq<u8>) -> bool {
    has_selector(input, 0x9b, 0xae, 0x9d, 0x5e)
}

/// Selector tag of the `default` constructor.
pub open spec fn has_default_selector(input: Seq<u8>) -> bool {
    has_selector(input, 0xed, 0x4b, 0x9d, 0x1b)
}

/// Selector tag of the `flip` message.
pub open spec fn has_flip_selector(input: Seq<u8>) -> bool {
    has_selector(input, 0x63, 0x3a, 0xa5, 0x51)
}

/// Selector tag of the `get` message.
pub open spec fn has_get_selector(input: Seq<u8>) -> bool {
    has_selector(input, 0x2f, 0x86, 0x5b, 0xd9)
}

/// The canonical scalar encoding of a boolean: one byte, 0x00 or 0x01.
pub open spec fn spec_encode_bool(b: bool) -> Seq<u8> {
    if b {
        seq![0x01u8]
    } else {
        seq![0x00u8]
    }
}

/// Strict decoding of the canonical boolean encoding: exactly one byte,
/// and only 0x00 and 0x01 are accepted.
pub open spec fn spec_decode_bool(bytes: Seq<u8>) -> Option<bool> {
    if bytes.len() == 1 && bytes[0] == 0x00 {
        Some(false)
    } else if bytes.len() == 1 && bytes[0] == 0x01 {
        Some(true)
    } else {
        None
    }
}

/// Which constructor an instantiation input selects, or why it is rejected.
/// Decoding is strict: the argument tail must have exactly the declared shape.
pub open spec fn spec_constructor(input: Seq<u8>) -> Result<Constructor, DispatchError> {
    if has_new_selector(input) {
        if input.len() == 5 && spec_decode_bool(seq![input[4]]) is Some {
            Ok(Constructor::New(spec_decode_bool(seq![input[4]])->Some_0))
        } else {
            Err(DispatchError::MalformedArguments)
        }
    } else if has_default_selector(input) {
        if input.len() == 4 {
            Ok(Constructor::Zeroed)
        } else {
            Err(DispatchError::MalformedArguments)
        }
    } else {
        Err(DispatchError::UnknownSelector)
    }
}

/// Which message an invocation input selects, or why it is rejected.
/// `flip` and `get` take no arguments, so the tail must be empty.
pub open spec fn spec_message(input: Seq<u8>) -> Result<Message, DispatchError> {
    if has_flip_selector(input) {
        if input.len() == 4 {
            Ok(Message::Flip)
        } else {
            Err(DispatchError::MalformedArguments)
        }
    } else if has_get_selector(input) {
        if input.len() == 4 {
            Ok(Message::Get)
        } else {
            Err(DispatchError::MalformedArguments)
        }
    } else {
        Err(DispatchError::UnknownSelector)
    }
}

/// The state an instantiation input creates, or why instantiation aborts.
pub open spec fn spec_deploy(input: Seq<u8>) -> Result<bool, DispatchError> {
    match spec_constructor(input) {
        Ok(Constructor::New(b)) => Ok(b),
        Ok(Constructor::Zeroed) => Ok(false),
        Err(e) => Err(e),
    }
}

/// One message invocation as a pure transition: from the prior state and the
/// raw input to the state after the call and the result handed to the host.
/// A rejected invocation leaves the state exactly as it was.
pub open spec fn spec_step(v: bool, input: Seq<u8>) -> (bool, Result<
    Seq<u8>,
    DispatchError,
>) {
    match spec_message(input) {
        Ok(Message::Flip) => (!v, Ok(Seq::empty())),
        Ok(Message::Get) => (v, Ok(spec_encode_bool(v))),
        Err(e) => (v, Err(e)),
    }
}

/// The results of a whole sequence of message invocations, run in order
/// against the state `v`.
pub open spec fn spec_run(v: bool, inputs: Seq<Seq<u8>>) -> Seq<
    Result<Seq<u8>, DispatchError>,
>
    decreases inputs.len(),
{
    if inputs.len() == 0 {
        Seq::empty()
    } else {
        let stepped = spec_step(v, inputs[0]);
        seq![stepped.1] + spec_run(stepped.0, inputs.skip(1))
    }
}

/// The created state of a deployment result, with the error passed through.
pub open spec fn deploy_view(r: Result<Identity, DispatchError>) -> Result<
    bool,
    DispatchError,
> {
    match r {
        Ok(contract) => Ok(contract@),
        Err(e) => Err(e),
    }
}

/// The reply bytes of a call result, with the error passed through.
pub open spec fn output_view(r: Result<Vec<u8>, DispatchError>) -> Result<
    Seq<u8>,
    DispatchError,
> {
    match r {
        Ok(bytes) => Ok(bytes@),
        Err(e) => Err(e),
    }
}

/// Encodes a boolean in the canonical scalar encoding.
pub fn encode_bool(b: bool) -> (bytes: Vec<u8>)
    ensures
        bytes@ == spec_encode_bool(b),
{
    let mut bytes: Vec<u8> = Vec::new();
    if b {
        bytes.push(0x01);
    } else {
        bytes.push(0x00);
    }
    bytes
}

/// Routes an instantiation input to the constructor it selects.
pub fn decode_constructor(input: &Vec<u8>) -> (r: Result<Constructor, DispatchError>)
    ensures
        r == spec_constructor(input@),
{
    if input.len() < 4 {
        return Err(DispatchError::UnknownSelector);
    }
    let s0: u8 = input[0];
    let s1: u8 = input[1];
    let s2: u8 = input[2];
    let s3: u8 = input[3];
    if s0 == 0x9b && s1 == 0xae && s2 == 0x9d && s3 == 0x5e {
        if input.len() == 5 {
            let arg: u8 = input[4];
            if arg == 0x00 {
                Ok(Constructor::New(false))
            } else if arg == 0x01 {
                Ok(Constructor::New(true))
            } else {
                Err(DispatchError::MalformedArguments)
            }
        } else {
            Err(DispatchError::MalformedArguments)
        }
    } else if s0 == 0xed && s1 == 0x4b && s2 == 0x9d && s3 == 0x1b {
        if input.len() == 4 {
            Ok(Constructor::Zeroed)
        } else {
            Err(DispatchError::MalformedArguments)
        }
    } else {
        Err(DispatchError::UnknownSelector)
    }
}

/// Routes a message invocation input to the message it selects.
pub fn decode_message(input: &Vec<u8>) -> (r: Result<Message, DispatchError>)
    ensures
        r == spec_message(input@),
{
    if input.len() < 4 {
        return Err(DispatchError::UnknownSelector);
    }
    let s0: u8 = input[0];
    let s1: u8 = input[1];
    let s2: u8 = input[2];
    let s3: u8 = input[3];
    if s0 == 0x63 && s1 == 0x3a && s2 == 0xa5 && s3 == 0x51 {
        if input.len() == 4 {
            Ok(Message::Flip)
        } else {
            Err(DispatchError::MalformedArguments)
        }
    } else if s0 == 0x2f && s1 == 0x86 && s2 == 0x5b && s3 == 0xd9 {
        if input.len() == 4 {
            Ok(Message::Get)
        } else {
            Err(DispatchError::MalformedArguments)
        }
    } else {
        Err(DispatchError::UnknownSelector)
    }
}

/// Instantiation entry point: decodes the input and runs the selected
/// constructor. On a rejected input no state is created and the abort is
/// reported to the host.
pub fn deploy(input: &Vec<u8>) -> (r: Result<Identity, DispatchError>)
    ensures
        deploy_view(r) == spec_deploy(input@),
{
    match decode_constructor(input) {
        Ok(Constructor::New(b)) => Ok(Identity::new(b)),
        Ok(Constructor::Zeroed) => Ok(Identity::default()),
        Err(e) => Err(e),
    }
}

/// Message entry point: decodes the input, runs the selected message against
/// the state and encodes the reply. The transition is atomic: on a rejected
/// input the state is left exactly as it was, so the host observes either the
/// full effect of the call or none of it.
pub fn call(state: &mut Identity, input: &Vec<u8>) -> (r: Result<Vec<u8>, DispatchError>)
    ensures
        final(state)@ == spec_step(old(state)@, input@).0,
        output_view(r) == spec_step(old(state)@, input@).1,
{
    match decode_message(input) {
        Ok(Message::Flip) => {
            state.flip();
            Ok(Vec::new())
        },
        Ok(Message::Get) => Ok(encode_bool(state.get())),
        Err(e) => Err(e),
    }
}

} // verus!

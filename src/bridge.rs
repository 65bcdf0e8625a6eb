//! From a method name and typed arguments to a ready-to-send envelope, and
//! from returned bytes to typed results.
use vstd::prelude::*;
use vstd::string::StringSliceAdditionalSpecFns;
use crate::abi::{
    dec, decode, enc, encode, has_type, lemma_dec_enc, lemma_model_list, model_list, wf, AbiError,
    AbiType, AbiValue, Val,
};
use crate::envelope::{envelope_of, lemma_envelope_round_trip, parse_envelope, wrap};
use crate::registry::{
    entry_of, method_entry, method_for, method_names, opt_shape, ActorFamily, MethodSignature,
};
use crate::selector::{selector_for_bytes, selector_of, signature, signature_of};

verus! {

/// Failures of the bridge.
#[derive(Clone, Copy, Debug, PartialEq, Eq, Structural)]
pub enum BridgeError {
    /// The family has no method of that name.
    UnknownMethod,
    /// A parameter or return schema the codec does not accept.
    InvalidSchema,
    /// The arguments are not values of the method's parameter types.
    ArgumentMismatch,
    /// The encoded arguments are longer than 64-bit offsets can address.
    TooLarge,
    /// The returned bytes do not decode against the return schema.
    Decode(AbiError),
    /// The actor ran and failed with this exit code.
    ActorExecutionFailure(u32),
}

/// A tuple with no elements: the parameters of a method without any.
pub open spec fn is_empty_tuple(t: AbiType) -> bool {
    t is Tuple && t->Tuple_0@.len() == 0
}

/// Whether the codec can encode arguments for parameters `p`.
pub open spec fn params_ok(p: AbiType) -> bool {
    is_empty_tuple(p) || wf(p)
}

/// Whether `args` are arguments for parameters `p`.
pub open spec fn args_fit(p: AbiType, args: Val) -> bool {
    if is_empty_tuple(p) {
        args == Val::List(seq![])
    } else {
        has_type(args, p)
    }
}

/// The encoded arguments: nothing for a method without parameters.
pub open spec fn call_payload(p: AbiType, args: Val) -> Seq<u8> {
    if is_empty_tuple(p) {
        seq![]
    } else {
        enc(p, args)
    }
}

/// An ABI call: the selector of the method's signature, then the arguments.
pub open spec fn call_bytes(name: Seq<u8>, p: AbiType, args: Val) -> Seq<u8> {
    selector_of(signature_of(name, p.shape())) + call_payload(p, args)
}

/// What encoding a call of `name` with parameters `p` and arguments `args`
/// gives: the ABI call, or the first check it fails.
pub open spec fn call_outcome(name: Seq<u8>, p: AbiType, args: Val) -> Result<Seq<u8>, BridgeError> {
    if !params_ok(p) {
        Err(BridgeError::InvalidSchema)
    } else if !args_fit(p, args) {
        Err(BridgeError::ArgumentMismatch)
    } else if call_payload(p, args).len() > u64::MAX {
        Err(BridgeError::TooLarge)
    } else {
        Ok(call_bytes(name, p, args))
    }
}

/// The same outcome with the call wrapped in its envelope.
pub open spec fn enveloped(o: Result<Seq<u8>, BridgeError>) -> Result<Seq<u8>, BridgeError> {
    match o {
        Ok(c) => Ok(envelope_of(c)),
        Err(e) => Err(e),
    }
}

/// The bytes of a result.
pub open spec fn bytes_model(r: Result<Vec<u8>, BridgeError>) -> Result<Seq<u8>, BridgeError> {
    match r {
        Ok(b) => Ok(b@),
        Err(e) => Err(e),
    }
}

/// What decoding returned bytes against `outputs` gives.
pub open spec fn return_result(outputs: Option<AbiType>, raw: Seq<u8>) -> Result<Val, BridgeError> {
    match outputs {
        None => Ok(Val::List(seq![])),
        Some(t) => if !wf(t) {
            Err(BridgeError::InvalidSchema)
        } else {
            match dec(t, raw, 0) {
                Ok(v) => Ok(v),
                Err(e) => Err(BridgeError::Decode(e)),
            }
        },
    }
}

/// The value of a bridge result.
pub open spec fn bridge_model(r: Result<AbiValue, BridgeError>) -> Result<Val, BridgeError> {
    match r {
        Ok(v) => Ok(v.model()),
        Err(e) => Err(e),
    }
}

/// The ABI call of method `m` with `args`: selector, then encoded arguments.
pub fn encode_call(m: &MethodSignature, args: &AbiValue) -> (r: Result<Vec<u8>, BridgeError>)
    ensures
        bytes_model(r) == call_outcome(m.name.spec_bytes(), m.params, args.model()),
{
    let empty = match &m.params {
        AbiType::Tuple(ts) => ts.len() == 0,
        _ => false,
    };
    let payload: Vec<u8> = if empty {
        let no_args = match args {
            AbiValue::List(vs) => {
                proof {
                    lemma_model_list(vs@);
                    if vs.len() == 0 {
                        assert(model_list(vs@) =~= seq![]);
                    }
                }
                vs.len() == 0
            },
            _ => false,
        };
        if !no_args {
            return Err(BridgeError::ArgumentMismatch);
        }
        Vec::new()
    } else {
        if !m.params.is_well_formed() {
            return Err(BridgeError::InvalidSchema);
        }
        if !args.conforms_to(&m.params) {
            return Err(BridgeError::ArgumentMismatch);
        }
        match encode(&m.params, args) {
            Ok(p) => p,
            Err(_) => {
                return Err(BridgeError::TooLarge);
            },
        }
    };
    let sig = signature(m.name, &m.params);
    let mut call = selector_for_bytes(&sig);
    let mut payload = payload;
    call.append(&mut payload);
    assert(call@ =~= call_bytes(m.name.spec_bytes(), m.params, args.model()));
    Ok(call)
}

/// The typed result of method `m` from the bytes it returned.
pub fn decode_return(m: &MethodSignature, raw: &Vec<u8>) -> (r: Result<AbiValue, BridgeError>)
    ensures
        bridge_model(r) == return_result(m.outputs, raw@),
{
    match &m.outputs {
        None => {
            let r = AbiValue::List(Vec::new());
            proof {
                lemma_model_list(Seq::<AbiValue>::empty());
                assert(model_list(Seq::<AbiValue>::empty()) =~= seq![]);
            }
            Ok(r)
        },
        Some(t) => {
            if !t.is_well_formed() {
                return Err(BridgeError::InvalidSchema);
            }
            match decode(t, raw) {
                Ok(v) => Ok(v),
                Err(e) => Err(BridgeError::Decode(e)),
            }
        },
    }
}

/// The envelope that calls `method` of family `f` with `args`: the call of
/// the first registered method of that name, as `encode_call` makes it.
pub fn build_call(f: ActorFamily, method: &str, args: &AbiValue) -> (r: Result<
    Vec<u8>,
    BridgeError,
>)
    ensures
        !method_names(f).contains(method.spec_bytes()) ==> r == Err::<Vec<u8>, BridgeError>(
            BridgeError::UnknownMethod,
        ),
        method_names(f).contains(method.spec_bytes()) ==> exists|p: AbiType|
            p.shape() == method_entry(f, method.spec_bytes()).params && p is Tuple && bytes_model(r)
                == #[trigger] enveloped(call_outcome(method.spec_bytes(), p, args.model())),
{
    let m = match method_for(f, method) {
        Ok(m) => m,
        Err(_) => {
            return Err(BridgeError::UnknownMethod);
        },
    };
    let r = match encode_call(&m, args) {
        Ok(call) => {
            let env = wrap(&call);
            Ok(env)
        },
        Err(e) => Err(e),
    };
    assert(bytes_model(r) == enveloped(call_outcome(method.spec_bytes(), m.params, args.model())));
    r
}

/// The typed result of `method` of family `f` from the bytes it returned,
/// decoded against the outputs of the first registered method of that name.
pub fn parse_return(f: ActorFamily, method: &str, raw: &Vec<u8>) -> (r: Result<
    AbiValue,
    BridgeError,
>)
    ensures
        !method_names(f).contains(method.spec_bytes()) ==> r == Err::<AbiValue, BridgeError>(
            BridgeError::UnknownMethod,
        ),
        method_names(f).contains(method.spec_bytes()) ==> exists|o: Option<AbiType>|
            opt_shape(o) == method_entry(f, method.spec_bytes()).outputs && bridge_model(r)
                == #[trigger] return_result(o, raw@),
{
    let m = match method_for(f, method) {
        Ok(m) => m,
        Err(_) => {
            return Err(BridgeError::UnknownMethod);
        },
    };
    let r = decode_return(&m, raw);
    assert(return_result(m.outputs, raw@) == bridge_model(r));
    r
}

/// The outcome of running a call: an actor failure passes through with its
/// exit code, untouched; on success the returned bytes are decoded.
pub fn parse_outcome(f: ActorFamily, method: &str, exit_code: u32, raw: &Vec<u8>) -> (r: Result<
    AbiValue,
    BridgeError,
>)
    ensures
        exit_code != 0 ==> r == Err::<AbiValue, BridgeError>(
            BridgeError::ActorExecutionFailure(exit_code),
        ),
        exit_code == 0 && !method_names(f).contains(method.spec_bytes()) ==> r == Err::<
            AbiValue,
            BridgeError,
        >(BridgeError::UnknownMethod),
        exit_code == 0 && method_names(f).contains(method.spec_bytes()) ==> exists|
            o: Option<AbiType>,
        |
            opt_shape(o) == method_entry(f, method.spec_bytes()).outputs && bridge_model(r)
                == #[trigger] return_result(o, raw@),
{
    if exit_code != 0 {
        return Err(BridgeError::ActorExecutionFailure(exit_code));
    }
    parse_return(f, method, raw)
}

/// A call survives the trip through the envelope: unwrapping it gives the ABI
/// call back, and decoding what follows the selector gives the arguments.
pub proof fn lemma_call_round_trip(name: Seq<u8>, p: AbiType, args: Val)
    requires
        wf(p),
        has_type(args, p),
        enc(p, args).len() <= u64::MAX,
        call_bytes(name, p, args).len() <= u64::MAX,
    ensures
        parse_envelope(envelope_of(call_bytes(name, p, args))) == Some(call_bytes(name, p, args)),
        dec(p, call_bytes(name, p, args), selector_of(signature_of(name, p.shape())).len() as int) == Ok::<
            Val,
            AbiError,
        >(args),
{
    let call = call_bytes(name, p, args);
    let sel = selector_of(signature_of(name, p.shape()));
    lemma_envelope_round_trip(call);
    if is_empty_tuple(p) {
        assert(false) by {
            assert(!wf(p));
        }
    }
    assert(call.subrange(sel.len() as int, (sel.len() + enc(p, args).len()) as int) =~= enc(p, args));
    lemma_dec_enc(p, args, call, sel.len() as int);
}

} // verus!

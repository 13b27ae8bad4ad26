//! Versioned skill state: safe serialisation across schema migrations.
//!
//! The envelope framing lives here; the MessagePack encoding of the state
//! and of the envelope is handed in as `encode`/`decode` functions.
use vstd::prelude::*;

use crate::types::SkillError;

verus! {

/// Wraps any skill state with a schema version for safe migration.
#[derive(Debug, Clone, Default)]
pub struct StateEnvelope {
    pub schema_version: u32,
    pub data: Vec<u8>,
}

/// The error text for an empty state blob.
pub const EMPTY_STATE_MESSAGE: &'static str = "empty state";

/// `r` is what marshalling can give: the state encoder's error, or what the
/// envelope encoder gives for the state's bytes under `schema_version`.
pub open spec fn marshal_result<P, Q>(schema_version: u32, encode_state: P, encode_envelope: Q, r: Result<Vec<u8>, SkillError>) -> bool
    where
        P: FnOnce() -> Result<Vec<u8>, SkillError>,
        Q: FnOnce(StateEnvelope) -> Result<Vec<u8>, SkillError>,
{
    exists|data: Result<Vec<u8>, SkillError>|
        #[trigger] call_ensures(encode_state, (), data)
        && match data {
            Err(e) => r == Err::<Vec<u8>, SkillError>(e),
            Ok(bytes) => call_ensures(encode_envelope, (StateEnvelope { schema_version, data: bytes },), r),
        }
}

/// `r` is what unmarshalling `raw` can give: the empty-state error for an
/// empty blob, else the envelope decoder's error, else the state decoder's
/// error on the envelope's data, else the envelope's schema version and the
/// decoded state.
pub open spec fn unmarshal_result<D, P, Q>(raw: &[u8], decode_envelope: P, decode_state: Q, r: Result<(u32, D), SkillError>) -> bool
    where
        P: FnOnce(&[u8]) -> Result<StateEnvelope, SkillError>,
        Q: FnOnce(&[u8]) -> Result<D, SkillError>,
{
    if raw@.len() == 0 {
        r matches Err(e) && e.0@ == EMPTY_STATE_MESSAGE@
    } else {
        exists|envelope: Result<StateEnvelope, SkillError>|
            #[trigger] call_ensures(decode_envelope, (raw,), envelope)
            && match envelope {
                Err(e) => r == Err::<(u32, D), SkillError>(e),
                Ok(env) => exists|s: &[u8], state: Result<D, SkillError>|
                    s@ == env.data@
                    && #[trigger] call_ensures(decode_state, (s,), state)
                    && match state {
                        Err(e) => r == Err::<(u32, D), SkillError>(e),
                        Ok(v) => r == Ok::<(u32, D), SkillError>((env.schema_version, v)),
                    },
            }
    }
}

/// Encode a state into a versioned envelope: `encode_state` gives the
/// state's bytes, which go into an envelope with `schema_version`, which
/// `encode_envelope` turns into the result.
pub fn marshal_state<P, Q>(schema_version: u32, encode_state: P, encode_envelope: Q) -> (r: Result<Vec<u8>, SkillError>)
    where
        P: FnOnce() -> Result<Vec<u8>, SkillError>,
        Q: FnOnce(StateEnvelope) -> Result<Vec<u8>, SkillError>,
    requires
        call_requires(encode_state, ()),
        forall|e: StateEnvelope| e.schema_version == schema_version ==> #[trigger] call_requires(encode_envelope, (e,)),
    ensures
        marshal_result(schema_version, encode_state, encode_envelope, r),
{
    let data = encode_state()?;
    let envelope = StateEnvelope { schema_version, data };
    encode_envelope(envelope)
}

/// Decode a versioned envelope and the state inside it, giving back the
/// schema version so callers can run migrations. An empty blob is refused
/// before anything is decoded.
pub fn unmarshal_state<D, P, Q>(raw: &[u8], decode_envelope: P, decode_state: Q) -> (r: Result<(u32, D), SkillError>)
    where
        P: FnOnce(&[u8]) -> Result<StateEnvelope, SkillError>,
        Q: FnOnce(&[u8]) -> Result<D, SkillError>,
    requires
        call_requires(decode_envelope, (raw,)),
        forall|s: &[u8]| #[trigger] call_requires(decode_state, (s,)),
    ensures
        unmarshal_result(raw, decode_envelope, decode_state, r),
{
    if raw.len() == 0 {
        return Err(SkillError(EMPTY_STATE_MESSAGE.to_owned()));
    }
    let envelope = decode_envelope(raw)?;
    let value = decode_state(envelope.data.as_slice())?;
    Ok((envelope.schema_version, value))
}

/// A state that was marshalled into `raw` unmarshals from it to the same
/// schema version and the same state, when the decoders undo the encoders:
/// the state decoder gives back `state` for the bytes the state encoder
/// gave, and the envelope decoder gives back the version and data of the
/// envelope whose (non-empty) encoding it reads.
pub proof fn law_state_round_trip<D, P, Q, R, S>(
    schema_version: u32,
    state: D,
    encode_state: P,
    encode_envelope: Q,
    decode_envelope: R,
    decode_state: S,
    raw: &[u8],
    unpacked: Result<(u32, D), SkillError>,
)
    where
        P: FnOnce() -> Result<Vec<u8>, SkillError>,
        Q: FnOnce(StateEnvelope) -> Result<Vec<u8>, SkillError>,
        R: FnOnce(&[u8]) -> Result<StateEnvelope, SkillError>,
        S: FnOnce(&[u8]) -> Result<D, SkillError>,
    requires
        exists|packed: Vec<u8>|
            packed@ == raw@ && #[trigger] marshal_result(schema_version, encode_state, encode_envelope, Ok(packed)),
        unmarshal_result(raw, decode_envelope, decode_state, unpacked),
        forall|b: Vec<u8>, s: &[u8], d: Result<D, SkillError>|
            #![trigger call_ensures(encode_state, (), Ok::<Vec<u8>, SkillError>(b)), call_ensures(decode_state, (s,), d)]
            call_ensures(encode_state, (), Ok::<Vec<u8>, SkillError>(b)) && s@ == b@
            && call_ensures(decode_state, (s,), d) ==> d == Ok::<D, SkillError>(state),
        forall|e: StateEnvelope, b: Vec<u8>|
            #[trigger] call_ensures(encode_envelope, (e,), Ok::<Vec<u8>, SkillError>(b)) ==> b@.len() > 0,
        forall|e: StateEnvelope, b: Vec<u8>, s: &[u8], d: Result<StateEnvelope, SkillError>|
            #![trigger call_ensures(encode_envelope, (e,), Ok::<Vec<u8>, SkillError>(b)), call_ensures(decode_envelope, (s,), d)]
            call_ensures(encode_envelope, (e,), Ok::<Vec<u8>, SkillError>(b)) && s@ == b@
            && call_ensures(decode_envelope, (s,), d)
            ==> (d matches Ok(f) && f.schema_version == e.schema_version && f.data@ == e.data@),
    ensures
        unpacked == Ok::<(u32, D), SkillError>((schema_version, state)),
{
    let packed = choose|packed: Vec<u8>|
        packed@ == raw@ && #[trigger] marshal_result(schema_version, encode_state, encode_envelope, Ok(packed));
    let data = choose|data: Result<Vec<u8>, SkillError>|
        #[trigger] call_ensures(encode_state, (), data)
        && match data {
            Err(e) => Ok::<Vec<u8>, SkillError>(packed) == Err::<Vec<u8>, SkillError>(e),
            Ok(bytes) => call_ensures(encode_envelope, (StateEnvelope { schema_version, data: bytes },), Ok::<Vec<u8>, SkillError>(packed)),
        };
    let bytes = data->Ok_0;
    let env = StateEnvelope { schema_version, data: bytes };
    assert(call_ensures(encode_envelope, (env,), Ok::<Vec<u8>, SkillError>(packed)));
    assert(raw@.len() > 0);
    let envelope = choose|envelope: Result<StateEnvelope, SkillError>|
        #[trigger] call_ensures(decode_envelope, (raw,), envelope)
        && match envelope {
            Err(e) => unpacked == Err::<(u32, D), SkillError>(e),
            Ok(f) => exists|s: &[u8], st: Result<D, SkillError>|
                s@ == f.data@
                && #[trigger] call_ensures(decode_state, (s,), st)
                && match st {
                    Err(e) => unpacked == Err::<(u32, D), SkillError>(e),
                    Ok(v) => unpacked == Ok::<(u32, D), SkillError>((f.schema_version, v)),
                },
        };
    assert(envelope matches Ok(f) && f.schema_version == schema_version && f.data@ == bytes@);
    let f = envelope->Ok_0;
    let (s, st) = choose|s: &[u8], st: Result<D, SkillError>|
        s@ == f.data@
        && #[trigger] call_ensures(decode_state, (s,), st)
        && match st {
            Err(e) => unpacked == Err::<(u32, D), SkillError>(e),
            Ok(v) => unpacked == Ok::<(u32, D), SkillError>((f.schema_version, v)),
        };
    assert(st == Ok::<D, SkillError>(state));
}

} // verus!

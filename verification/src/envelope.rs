//! The initial data that the host hands to a freshly started guest.
//!
//! In the first layout the data are the application bytes as they are. In
//! the second a fixed header comes first, then the application envelope: a
//! Protocol Buffers message with two `bytes` fields, the application and
//! its endorsements.

use vstd::prelude::*;
use vstd::slice::{slice_subrange, slice_to_vec};
use crate::error::LaunchError;
use crate::params::InitialDataVersion;

verus! {

/// Field number of the application bytes in the envelope.
pub const APPLICATION_BYTES_FIELD: u32 = 1;

/// Field number of the endorsement bytes in the envelope.
pub const ENDORSEMENT_BYTES_FIELD: u32 = 2;

/// The largest field number that a message can use.
pub const MAX_FIELD_NUMBER: u32 = 0x1fff_ffff;

/// The most bytes that the varint of a 64-bit value takes.
pub const MAX_VARINT_LEN: usize = 10;

/// The base-128 varint of `n`: seven bits to a byte, the low ones first,
/// the high bit set on every byte but the last.
pub open spec fn varint(n: nat) -> Seq<u8>
    decreases n,
{
    if n < 128 {
        seq![n as u8]
    } else {
        seq![(n % 128 + 128) as u8] + varint(n / 128)
    }
}

/// One length-delimited field on the wire: its key, the length of the
/// value, the value.
pub open spec fn bytes_field(field: nat, value: Seq<u8>) -> Seq<u8> {
    varint(field * 8 + 2) + varint(value.len()) + value
}

/// The serialized envelope. A field that is empty is left out.
pub open spec fn envelope_encoding(application_bytes: Seq<u8>, endorsement_bytes: Seq<u8>) -> Seq<
    u8,
> {
    let first = if application_bytes.len() == 0 {
        Seq::<u8>::empty()
    } else {
        bytes_field(APPLICATION_BYTES_FIELD as nat, application_bytes)
    };
    let second = if endorsement_bytes.len() == 0 {
        Seq::<u8>::empty()
    } else {
        bytes_field(ENDORSEMENT_BYTES_FIELD as nat, endorsement_bytes)
    };
    first + second
}

/// The initial data for the given layout.
pub open spec fn initial_data_bytes(
    version: InitialDataVersion,
    application_bytes: Seq<u8>,
    v1_header: Seq<u8>,
) -> Seq<u8> {
    match version {
        InitialDataVersion::V0 => application_bytes,
        InitialDataVersion::V1 => v1_header + envelope_encoding(
            application_bytes,
            Seq::<u8>::empty(),
        ),
    }
}

/// The number of values that a varint of `len` bytes can tell apart.
pub open spec fn varint_capacity(len: nat) -> nat
    decreases len,
{
    if len == 0 {
        1
    } else {
        128 * varint_capacity((len - 1) as nat)
    }
}

/// The value of the varint at the front of `s` and the number of bytes it
/// takes, or `None` where `s` ends within it or it is longer than `limit`
/// bytes.
pub open spec fn read_varint(s: Seq<u8>, limit: nat) -> Option<(nat, nat)>
    decreases limit,
{
    if limit == 0 || s.len() == 0 {
        None
    } else if s[0] < 128 {
        Some((s[0] as nat, 1nat))
    } else {
        match read_varint(s.drop_first(), (limit - 1) as nat) {
            Some((value, len)) => Some(((s[0] - 128) as nat + 128 * value, len + 1)),
            None => None,
        }
    }
}

/// The value of the length-delimited field `field` at the front of `s` and
/// the number of bytes that the whole field takes, or `None` where `s` does
/// not start with such a field in full.
pub open spec fn read_bytes_field(s: Seq<u8>, field: nat) -> Option<(Seq<u8>, nat)> {
    if s.len() == 0 || s[0] != field * 8 + 2 {
        None
    } else {
        match read_varint(s.skip(1), MAX_VARINT_LEN as nat) {
            Some((n, k)) => if 1 + k + n <= s.len() {
                Some((s.subrange((1 + k) as int, (1 + k + n) as int), 1 + k + n))
            } else {
                None
            },
            None => None,
        }
    }
}

/// The fields of the envelope that `s` holds: the application bytes, where
/// present, then the endorsement bytes, where present, and nothing else.
pub open spec fn parse_envelope(s: Seq<u8>) -> Option<(Seq<u8>, Seq<u8>)> {
    let first = if s.len() > 0 && s[0] == APPLICATION_BYTES_FIELD * 8 + 2 {
        read_bytes_field(s, APPLICATION_BYTES_FIELD as nat)
    } else {
        Some((Seq::<u8>::empty(), 0nat))
    };
    match first {
        None => None,
        Some((application_bytes, used)) => {
            let rest = s.skip(used as int);
            let second = if rest.len() > 0 && rest[0] == ENDORSEMENT_BYTES_FIELD * 8 + 2 {
                read_bytes_field(rest, ENDORSEMENT_BYTES_FIELD as nat)
            } else {
                Some((Seq::<u8>::empty(), 0nat))
            };
            match second {
                None => None,
                Some((endorsement_bytes, more)) => if used + more == s.len() {
                    Some((application_bytes, endorsement_bytes))
                } else {
                    None
                },
            }
        },
    }
}

/// What the guest is started with: the application and the endorsements
/// that vouch for it.
#[derive(Debug, Clone, PartialEq, Eq)]
pub struct ApplicationEnvelope {
    pub application_bytes: Vec<u8>,
    pub endorsement_bytes: Vec<u8>,
}

/// Calls `prost::encoding::bytes::encode`, which appends to `buf` the key
/// of a length-delimited field, the varint of the value's length and the
/// value. The field number has to be one that a message can use.
#[verifier::external_body]
fn append_bytes_field(field: u32, value: &Vec<u8>, buf: &mut Vec<u8>)
    requires
        1 <= field <= MAX_FIELD_NUMBER,
    ensures
        final(buf)@ == old(buf)@ + bytes_field(field as nat, value@),
{
    prost::encoding::bytes::encode(field, value, buf)
}

impl ApplicationEnvelope {
    /// The envelope on the wire.
    pub open spec fn encoding(&self) -> Seq<u8> {
        envelope_encoding(self.application_bytes@, self.endorsement_bytes@)
    }

    /// Appends the serialized envelope to `buf`.
    pub fn encode_into(&self, buf: &mut Vec<u8>)
        ensures
            final(buf)@ == old(buf)@ + self.encoding(),
    {
        if self.application_bytes.len() != 0 {
            append_bytes_field(APPLICATION_BYTES_FIELD, &self.application_bytes, buf);
        }
        if self.endorsement_bytes.len() != 0 {
            append_bytes_field(ENDORSEMENT_BYTES_FIELD, &self.endorsement_bytes, buf);
        }
    }

    /// Serializes the envelope.
    pub fn encode(&self) -> (out: Vec<u8>)
        ensures
            out@ == self.encoding(),
    {
        let mut out: Vec<u8> = Vec::new();
        self.encode_into(&mut out);
        out
    }

    /// Parses a serialized envelope. Bytes that are not the two fields in
    /// their order, each at most once and in full, are a protocol violation.
    pub fn decode(bytes: &[u8]) -> (parsed: Result<ApplicationEnvelope, LaunchError>)
        ensures
            match parse_envelope(bytes@) {
                Some((application_bytes, endorsement_bytes)) => parsed is Ok
                    && parsed->Ok_0.application_bytes@ == application_bytes
                    && parsed->Ok_0.endorsement_bytes@ == endorsement_bytes,
                None => parsed == Err::<ApplicationEnvelope, LaunchError>(
                    LaunchError::ProtocolViolation,
                ),
            },
    {
        let mut application_bytes: Vec<u8> = Vec::new();
        let mut used: usize = 0;
        if bytes.len() > 0 && bytes[0] == 10 {
            assert(bytes@.skip(0) == bytes@);
            match parse_bytes_field(bytes, 0, APPLICATION_BYTES_FIELD) {
                Some((value, len)) => {
                    application_bytes = value;
                    used = len;
                },
                None => {
                    return Err(LaunchError::ProtocolViolation);
                },
            }
        }
        let mut endorsement_bytes: Vec<u8> = Vec::new();
        let mut more: usize = 0;
        if used < bytes.len() && bytes[used] == 18 {
            match parse_bytes_field(bytes, used, ENDORSEMENT_BYTES_FIELD) {
                Some((value, len)) => {
                    endorsement_bytes = value;
                    more = len;
                },
                None => {
                    return Err(LaunchError::ProtocolViolation);
                },
            }
        }
        if used + more == bytes.len() {
            Ok(ApplicationEnvelope { application_bytes, endorsement_bytes })
        } else {
            Err(LaunchError::ProtocolViolation)
        }
    }
}

/// Reads the varint that starts at `at`.
fn parse_varint(bytes: &[u8], at: usize, limit: usize) -> (found: Option<(u128, usize)>)
    requires
        at <= bytes.len(),
        limit <= MAX_VARINT_LEN,
    ensures
        match read_varint(bytes@.skip(at as int), limit as nat) {
            Some((value, len)) => found == Some((value as u128, len as usize))
                && value < varint_capacity(limit as nat) && 1 <= len <= limit && at + len
                <= bytes.len(),
            None => found is None,
        },
    decreases limit,
{
    if limit == 0 || at >= bytes.len() {
        return None;
    }
    let byte = bytes[at];
    proof {
        assert(bytes@.skip(at as int).drop_first() == bytes@.skip(at + 1));
        lemma_capacity_of_ten();
        lemma_capacity_grows((limit - 1) as nat, MAX_VARINT_LEN as nat);
    }
    if byte < 128 {
        return Some((byte as u128, 1));
    }
    match parse_varint(bytes, at + 1, limit - 1) {
        Some((value, len)) => Some(((byte - 128) as u128 + 128 * value, len + 1)),
        None => None,
    }
}

/// Reads the length-delimited field `field` that starts at `at`.
fn parse_bytes_field(bytes: &[u8], at: usize, field: u32) -> (found: Option<(Vec<u8>, usize)>)
    requires
        at <= bytes.len(),
        1 <= field <= 15,
    ensures
        match read_bytes_field(bytes@.skip(at as int), field as nat) {
            Some((value, used)) => found is Some && found->Some_0.0@ == value && found->Some_0.1
                == used && at + used <= bytes.len(),
            None => found is None,
        },
{
    if at >= bytes.len() || bytes[at] as u32 != field * 8 + 2 {
        return None;
    }
    proof {
        assert(bytes@.skip(at as int).skip(1) == bytes@.skip(at + 1));
        assert(bytes@.skip(at as int)[0] == bytes@[at as int]);
        assert(bytes@.skip(at as int).len() == bytes.len() - at);
        lemma_capacity_of_ten();
    }
    match parse_varint(bytes, at + 1, MAX_VARINT_LEN) {
        None => None,
        Some((n, k)) => {
            let start = at + 1 + k;
            let remaining = bytes.len() - start;
            if n > remaining as u128 {
                None
            } else {
                let end = start + n as usize;
                let value = slice_to_vec(slice_subrange(bytes, start, end));
                proof {
                    assert(bytes@.skip(at as int).subrange(1 + k, 1 + k + n) == bytes@.subrange(
                        start as int,
                        end as int,
                    ));
                }
                Some((value, 1 + k + n as usize))
            }
        },
    }
}

/// Builds the initial data for a guest: in the first layout the
/// application bytes themselves, in the second the given header followed by
/// the envelope of the application with no endorsements.
pub fn initial_data(version: InitialDataVersion, application_bytes: Vec<u8>, v1_header: &[u8]) -> (payload:
    Vec<u8>)
    ensures
        payload@ == initial_data_bytes(version, application_bytes@, v1_header@),
        version == InitialDataVersion::V0 ==> payload@ == application_bytes@,
{
    match version {
        InitialDataVersion::V0 => application_bytes,
        InitialDataVersion::V1 => {
            let envelope = ApplicationEnvelope { application_bytes, endorsement_bytes: Vec::new() };
            let mut payload = slice_to_vec(v1_header);
            envelope.encode_into(&mut payload);
            payload
        },
    }
}

/// Ten bytes of varint tell apart 2^70 values, more than any length.
pub proof fn lemma_capacity_of_ten()
    ensures
        varint_capacity(MAX_VARINT_LEN as nat) == 0x40_0000_0000_0000_0000,
        usize::MAX < varint_capacity(MAX_VARINT_LEN as nat),
        128 * varint_capacity(MAX_VARINT_LEN as nat) <= u128::MAX,
{
    reveal_with_fuel(varint_capacity, 11);
}

/// More bytes tell apart more values.
pub proof fn lemma_capacity_grows(shorter: nat, longer: nat)
    requires
        shorter <= longer,
    ensures
        1 <= varint_capacity(shorter) <= varint_capacity(longer),
    decreases longer,
{
    if longer > 0 {
        if shorter == longer {
            lemma_capacity_grows((shorter - 1) as nat, (longer - 1) as nat);
        } else {
            lemma_capacity_grows(shorter, (longer - 1) as nat);
        }
    }
}

/// A varint is at least one byte long.
pub proof fn lemma_varint_len(n: nat)
    ensures
        varint(n).len() >= 1,
    decreases n,
{
    if n >= 128 {
        lemma_varint_len(n / 128);
    }
}

/// Reading gives back the value under a varint, whatever follows it.
pub proof fn lemma_read_varint(n: nat, rest: Seq<u8>, limit: nat)
    requires
        limit > 0,
        n < varint_capacity(limit),
    ensures
        read_varint(varint(n) + rest, limit) == Some((n, varint(n).len())),
    decreases n,
{
    let s = varint(n) + rest;
    if n >= 128 {
        assert(s[0] == (n % 128 + 128) as u8);
        assert(s.drop_first() == varint(n / 128) + rest);
        assert(limit > 1) by {
            if limit == 1 {
                assert(varint_capacity(1) == 128) by {
                    reveal_with_fuel(varint_capacity, 2);
                }
            }
        }
        lemma_read_varint(n / 128, rest, (limit - 1) as nat);
        assert((n % 128 + 128 - 128) + 128 * (n / 128) == n);
    } else {
        assert(s[0] == n as u8);
    }
}

/// Reading gives back the value of a field, whatever follows it.
pub proof fn lemma_read_bytes_field(field: nat, value: Seq<u8>, rest: Seq<u8>)
    requires
        1 <= field <= 15,
        value.len() <= usize::MAX,
    ensures
        read_bytes_field(bytes_field(field, value) + rest, field) == Some(
            (value, bytes_field(field, value).len()),
        ),
        bytes_field(field, value)[0] == field * 8 + 2,
{
    let s = bytes_field(field, value) + rest;
    let n = value.len();
    let k = varint(n).len();
    lemma_capacity_of_ten();
    lemma_varint_len(n);
    assert(varint(field * 8 + 2) == seq![(field * 8 + 2) as u8]);
    assert(s.skip(1) == varint(n) + (value + rest));
    lemma_read_varint(n, value + rest, MAX_VARINT_LEN as nat);
    assert(s.subrange((1 + k) as int, (1 + k + n) as int) == value);
}

/// Parsing a serialized envelope gives back its two fields.
pub proof fn law_envelope_roundtrip(application_bytes: Seq<u8>, endorsement_bytes: Seq<u8>)
    requires
        application_bytes.len() <= usize::MAX,
        endorsement_bytes.len() <= usize::MAX,
    ensures
        parse_envelope(envelope_encoding(application_bytes, endorsement_bytes)) == Some(
            (application_bytes, endorsement_bytes),
        ),
{
    let s = envelope_encoding(application_bytes, endorsement_bytes);
    let empty = Seq::<u8>::empty();
    let second = if endorsement_bytes.len() == 0 {
        empty
    } else {
        bytes_field(ENDORSEMENT_BYTES_FIELD as nat, endorsement_bytes)
    };
    if endorsement_bytes.len() != 0 {
        lemma_read_bytes_field(ENDORSEMENT_BYTES_FIELD as nat, endorsement_bytes, empty);
        assert(second + empty == second);
    }
    if application_bytes.len() == 0 {
        assert(s == second);
        assert(s.skip(0) == s);
        assert(endorsement_bytes.len() == 0 ==> endorsement_bytes == empty);
        assert(application_bytes == empty);
    } else {
        let first = bytes_field(APPLICATION_BYTES_FIELD as nat, application_bytes);
        lemma_read_bytes_field(APPLICATION_BYTES_FIELD as nat, application_bytes, second);
        assert(s.skip(first.len() as int) == second);
        assert(endorsement_bytes.len() == 0 ==> endorsement_bytes == empty);
    }
}

/// Two envelopes with the same serialization have the same fields.
pub proof fn law_envelope_encoding_injective(
    application_a: Seq<u8>,
    endorsement_a: Seq<u8>,
    application_b: Seq<u8>,
    endorsement_b: Seq<u8>,
)
    requires
        application_a.len() <= usize::MAX,
        endorsement_a.len() <= usize::MAX,
        application_b.len() <= usize::MAX,
        endorsement_b.len() <= usize::MAX,
        envelope_encoding(application_a, endorsement_a) == envelope_encoding(
            application_b,
            endorsement_b,
        ),
    ensures
        application_a == application_b,
        endorsement_a == endorsement_b,
{
    law_envelope_roundtrip(application_a, endorsement_a);
    law_envelope_roundtrip(application_b, endorsement_b);
}

/// Initial data in the first layout are the application bytes and nothing
/// else.
pub proof fn law_v0_payload_is_application(application_bytes: Seq<u8>, v1_header: Seq<u8>)
    ensures
        initial_data_bytes(InitialDataVersion::V0, application_bytes, v1_header)
            == application_bytes,
{
}

/// Initial data in the second layout start with the header, and what
/// follows the header parses to the application bytes and no endorsement.
pub proof fn law_v1_payload_parses(application_bytes: Seq<u8>, v1_header: Seq<u8>)
    requires
        application_bytes.len() <= usize::MAX,
    ensures
        ({
            let payload = initial_data_bytes(InitialDataVersion::V1, application_bytes, v1_header);
            &&& payload.len() >= v1_header.len()
            &&& payload.subrange(0, v1_header.len() as int) == v1_header
            &&& parse_envelope(payload.skip(v1_header.len() as int)) == Some(
                (application_bytes, Seq::<u8>::empty()),
            )
        }),
{
    let payload = initial_data_bytes(InitialDataVersion::V1, application_bytes, v1_header);
    let envelope = envelope_encoding(application_bytes, Seq::<u8>::empty());
    law_envelope_roundtrip(application_bytes, Seq::<u8>::empty());
    assert(payload.subrange(0, v1_header.len() as int) == v1_header);
    assert(payload.skip(v1_header.len() as int) == envelope);
}

} // verus!

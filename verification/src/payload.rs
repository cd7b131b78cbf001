//! The envelope protocol: opcodes, and the envelope that pairs an opcode with
//! its payload.

use vstd::prelude::*;
use vstd::std_specs::convert::FromSpecImpl;
use vstd::std_specs::convert::TryFromSpecImpl;

use crate::err::BackendError;
use crate::wire::field_views;
use crate::wire::Wire;
use crate::wire::WireField;
use crate::wire::WireValue;

verus! {

/// Tag that tells a consumer which kind of payload an envelope carries.
#[derive(Clone, Copy, Debug, PartialEq, Eq, Structural)]
pub enum OpCode {
    Error,
    Sysinfo,
    WindowChanged,
    Workspace,
    SpotifyEvent,
    VolumeEvent,
}

impl OpCode {
    /// The number that stands for this opcode on the wire.
    pub open spec fn number(self) -> u16 {
        match self {
            OpCode::Error => 0,
            OpCode::Sysinfo => 1,
            OpCode::WindowChanged => 2,
            OpCode::Workspace => 3,
            OpCode::SpotifyEvent => 4,
            OpCode::VolumeEvent => 5,
        }
    }

    /// The opcode that a number decodes to. Only the two opcodes that this
    /// process ever reads back are decodable.
    pub open spec fn decode(value: u16) -> Option<OpCode> {
        if value == 0 {
            Some(OpCode::Error)
        } else if value == 1 {
            Some(OpCode::Sysinfo)
        } else {
            None
        }
    }

    /// Wire numbers are small and tell the opcodes apart.
    pub proof fn lemma_number_injective(a: OpCode, b: OpCode)
        ensures
            a.number() <= 5,
            a.number() == b.number() <==> a == b,
    {
    }

    /// Whatever decodes, encodes back to the number it came from.
    pub proof fn lemma_decode_number(value: u16)
        ensures
            Self::decode(value) matches Some(op) ==> op.number() == value,
            Self::decode(value) is Some <==> value <= 1,
    {
    }
}

impl From<OpCode> for u16 {
    /// The number that stands for `op` on the wire.
    fn from(op: OpCode) -> (n: u16)
        ensures
            n == op.number(),
    {
        match op {
            OpCode::Error => 0,
            OpCode::Sysinfo => 1,
            OpCode::WindowChanged => 2,
            OpCode::Workspace => 3,
            OpCode::SpotifyEvent => 4,
            OpCode::VolumeEvent => 5,
        }
    }
}

impl FromSpecImpl<OpCode> for u16 {
    open spec fn obeys_from_spec() -> bool {
        true
    }

    open spec fn from_spec(op: OpCode) -> u16 {
        op.number()
    }
}

impl TryFrom<u16> for OpCode {
    type Error = BackendError;

    /// Decodes a number. Only 0 and 1 decode; every other number is refused
    /// and handed back in the error.
    fn try_from(value: u16) -> (r: Result<OpCode, BackendError>)
        ensures
            r == match OpCode::decode(value) {
                Some(op) => Ok::<OpCode, BackendError>(op),
                None => Err(BackendError::InvalidOpCode(value)),
            },
    {
        match value {
            0 => Ok(OpCode::Error),
            1 => Ok(OpCode::Sysinfo),
            _ => Err(BackendError::InvalidOpCode(value)),
        }
    }
}

impl TryFromSpecImpl<u16> for OpCode {
    open spec fn obeys_try_from_spec() -> bool {
        true
    }

    open spec fn try_from_spec(value: u16) -> Result<OpCode, BackendError> {
        match OpCode::decode(value) {
            Some(op) => Ok(op),
            None => Err(BackendError::InvalidOpCode(value)),
        }
    }
}

/// A value that can travel in an envelope: it knows the opcode of its kind
/// and the fields under which it goes on the wire.
pub trait PayloadData {
    /// The opcode that belongs to this payload.
    spec fn opcode(&self) -> OpCode;

    /// The payload as it goes on the wire.
    spec fn wire(&self) -> Wire;

    /// The opcode that belongs to this payload.
    fn op(&self) -> (code: OpCode)
        ensures
            code == self.opcode(),
    ;

    /// The payload as it goes on the wire.
    fn to_wire(&self) -> (value: WireValue)
        ensures
            value@ == self.wire(),
    ;
}

/// The envelope of `data` as it goes on the wire: a record of two fields,
/// the number of the opcode of `data` under `op`, and `data` under `data`.
pub open spec fn envelope<T: PayloadData>(data: T) -> Wire {
    Wire::Record(
        seq![("op"@, Wire::Integer(data.opcode().number() as u64)), ("data"@, data.wire())],
    )
}

/// Every envelope has the fields `op` and `data` and no other; `op` is the
/// number of the opcode of what is under `data`, a number from 0 to 5.
pub proof fn lemma_envelope_shape<T: PayloadData>(data: T)
    ensures
        envelope(data).names() == seq!["op"@, "data"@],
        envelope(data)->Record_0[0].1 == Wire::Integer(data.opcode().number() as u64),
        data.opcode().number() <= 5,
        envelope(data)->Record_0[1].1 == data.wire(),
{
    assert(envelope(data).names() =~= seq!["op"@, "data"@]);
}

/// The envelope written for each event: the payload together with the wire
/// number of its opcode. The two are paired when the envelope is made and
/// cannot be changed afterwards.
pub struct Payload<T: PayloadData> {
    op: u16,
    data: T,
}

impl<T: PayloadData> Payload<T> {
    #[verifier::type_invariant]
    spec fn paired(&self) -> bool {
        self.op == self.data.opcode().number()
    }

    /// The number stored in the envelope.
    pub closed spec fn spec_op(&self) -> u16 {
        self.op
    }

    /// The payload stored in the envelope.
    pub closed spec fn spec_data(&self) -> T {
        self.data
    }

    /// Wraps `data` in an envelope tagged with the opcode of `data`.
    pub fn new(data: T) -> (p: Self)
        ensures
            p.spec_data() == data,
            p.spec_op() == data.opcode().number(),
    {
        let op: u16 = u16::from(data.op());
        Payload { op, data }
    }

    /// The wire number of the envelope. It is the number of the payload's own
    /// opcode, in every envelope.
    pub fn op(&self) -> (n: u16)
        ensures
            n == self.spec_op(),
            n == self.spec_data().opcode().number(),
    {
        proof {
            use_type_invariant(self);
        }
        self.op
    }

    /// The envelope as it goes on the wire.
    pub fn to_wire(&self) -> (value: WireValue)
        ensures
            value@ == envelope(self.spec_data()),
    {
        proof {
            use_type_invariant(self);
        }
        let mut fields: Vec<WireField> = Vec::new();
        fields.push(WireField { name: "op", value: WireValue::Integer(self.op as u64) });
        fields.push(WireField { name: "data", value: self.data.to_wire() });
        assert(field_views(fields@) =~= envelope(self.spec_data())->Record_0);
        WireValue::record(fields)
    }

    /// The payload.
    pub fn data(&self) -> (d: &T)
        ensures
            *d == self.spec_data(),
    {
        &self.data
    }

    /// Takes the envelope apart.
    pub fn into_data(self) -> (d: T)
        ensures
            d == self.spec_data(),
    {
        self.data
    }
}

} // verus!

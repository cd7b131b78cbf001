//! The failures that end an adapter.

use vstd::prelude::*;

use crate::number::decimal_text;
use crate::number::push_decimal;
use crate::payload::OpCode;
use crate::payload::PayloadData;
use crate::wire::field_views;
use crate::wire::Wire;
use crate::wire::WireField;
use crate::wire::WireValue;

verus! {

/// A failure that an adapter cannot recover from, or a rejected opcode.
#[derive(Debug, Clone, PartialEq, Eq)]
pub enum BackendError {
    /// A socket, a subprocess or a stream failed; the text says how.
    TokioIo(String),
    /// The runtime directory of the session is not known.
    XdgRuntimeDirNotSet,
    /// The signature of the running window manager is not known.
    HyprlandSignatureNotSet,
    /// A number that stands for no decodable opcode.
    InvalidOpCode(u16),
}

impl BackendError {
    /// What the error says.
    pub open spec fn message_text(self) -> Seq<char> {
        match self {
            BackendError::TokioIo(detail) => "Tokio error: "@ + detail@,
            BackendError::XdgRuntimeDirNotSet => "XDG_RUNTIME_DIR environment variable is not set"@,
            BackendError::HyprlandSignatureNotSet =>
                "HYPRLAND_INSTANCE_SIGNATURE environment variable is not set"@,
            BackendError::InvalidOpCode(value) => "Invalid OpCode: "@ + decimal_text(value as nat),
        }
    }

    /// What the error says, for the diagnostic stream.
    pub fn message(&self) -> (message: String)
        ensures
            message@ == self.message_text(),
    {
        match self {
            BackendError::TokioIo(detail) => {
                let mut message = "Tokio error: ".to_owned();
                message.append(detail.as_str());
                message
            },
            BackendError::XdgRuntimeDirNotSet => {
                "XDG_RUNTIME_DIR environment variable is not set".to_owned()
            },
            BackendError::HyprlandSignatureNotSet => {
                "HYPRLAND_INSTANCE_SIGNATURE environment variable is not set".to_owned()
            },
            BackendError::InvalidOpCode(value) => {
                let mut message = "Invalid OpCode: ".to_owned();
                push_decimal(&mut message, *value as u64);
                message
            },
        }
    }

    /// The name of the kind of the error on the wire.
    pub open spec fn kind(self) -> Seq<char> {
        match self {
            BackendError::TokioIo(_) => "IoFailure"@,
            BackendError::XdgRuntimeDirNotSet => "MissingRuntimeDir"@,
            BackendError::HyprlandSignatureNotSet => "MissingWmSignature"@,
            BackendError::InvalidOpCode(_) => "InvalidOpCode"@,
        }
    }

    /// The name of the kind of the error on the wire.
    pub fn kind_name(&self) -> (name: &'static str)
        ensures
            name@ == self.kind(),
    {
        match self {
            BackendError::TokioIo(_) => "IoFailure",
            BackendError::XdgRuntimeDirNotSet => "MissingRuntimeDir",
            BackendError::HyprlandSignatureNotSet => "MissingWmSignature",
            BackendError::InvalidOpCode(_) => "InvalidOpCode",
        }
    }
}

impl PayloadData for BackendError {
    open spec fn opcode(&self) -> OpCode {
        OpCode::Error
    }

    open spec fn wire(&self) -> Wire {
        Wire::Record(seq![("kind"@, Wire::Text(self.kind()))])
    }

    fn op(&self) -> (code: OpCode) {
        OpCode::Error
    }

    fn to_wire(&self) -> (value: WireValue) {
        let mut fields: Vec<WireField> = Vec::new();
        fields.push(WireField { name: "kind", value: WireValue::text(self.kind_name()) });
        assert(field_views(fields@) =~= self.wire()->Record_0);
        WireValue::record(fields)
    }
}

/// On the wire an error has the field `kind` and no other, and travels
/// under the number 0.
pub proof fn lemma_wire_fields(error: BackendError)
    ensures
        error.wire().names() == seq!["kind"@],
        error.opcode().number() == 0,
{
    assert(error.wire().names() =~= seq!["kind"@]);
}

} // verus!

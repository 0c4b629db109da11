//! The anyone-can-spend anchor output: its script and its value.

use vstd::prelude::*;
use bitcoin::script::{Builder, PushBytesBuf};
use bitcoin::Opcode;

verus! {

/// The opcode that pushes the value one (true) onto the stack.
pub const PUSH_TRUE: u8 = 0x51;

/// The first byte of the tag that identifies an anchor.
pub const ANCHOR_TAG_HIGH: u8 = 0x4e;

/// The second byte of the tag that identifies an anchor.
pub const ANCHOR_TAG_LOW: u8 = 0x73;

/// The four bytes of the anchor script: push-true, then a push of the
/// two-byte tag.
pub open spec fn anchor_script_bytes() -> Seq<u8> {
    seq![0x51u8, 0x02u8, 0x4eu8, 0x73u8]
}

/// A script made of one opcode followed by a direct push of a two-byte tag:
/// the opcode, the length two, then the tag.
pub open spec fn opcode_and_tag(opcode: u8, tag: Seq<u8>) -> Seq<u8> {
    seq![opcode, 2u8] + tag
}

/// Builds a script with `bitcoin::script::Builder`: `new`, `push_opcode` with
/// the opcode of the given byte, `push_slice` with the tag, `into_bytes`.
/// `push_opcode` appends the opcode's byte; for data shorter than 0x4c bytes
/// `push_slice` appends the length as a single byte and then the data.
#[verifier::external_body]
fn script_opcode_and_tag(opcode: u8, tag: &[u8; 2]) -> (script: Vec<u8>)
    ensures
        script@ == opcode_and_tag(opcode, tag@),
{
    let push = PushBytesBuf::from(tag);
    Builder::new().push_opcode(Opcode::from(opcode)).push_slice(push).into_bytes()
}

/// The script of an anchor output. Every value of this type holds exactly
/// the four anchor bytes.
#[derive(Debug, PartialEq, Eq)]
pub struct AnchorScript {
    bytes: Vec<u8>,
}

impl View for AnchorScript {
    type V = Seq<u8>;

    closed spec fn view(&self) -> Seq<u8> {
        self.bytes@
    }
}

impl AnchorScript {
    #[verifier::type_invariant]
    spec fn is_anchor(self) -> bool {
        self.bytes@ == anchor_script_bytes()
    }

    /// The script's bytes.
    pub fn as_bytes(&self) -> (bytes: &Vec<u8>)
        ensures
            bytes@ == anchor_script_bytes(),
            bytes@ == self@,
    {
        proof {
            use_type_invariant(self);
        }
        &self.bytes
    }

    /// The script's bytes, by value.
    pub fn into_bytes(self) -> (bytes: Vec<u8>)
        ensures
            bytes@ == anchor_script_bytes(),
            bytes@ == self@,
    {
        proof {
            use_type_invariant(&self);
        }
        self.bytes
    }
}

/// The anchor script: the same four bytes on every call.
pub fn build_anchor_script() -> (script: AnchorScript)
    ensures
        script@ == anchor_script_bytes(),
{
    let tag: [u8; 2] = [ANCHOR_TAG_HIGH, ANCHOR_TAG_LOW];
    let bytes = script_opcode_and_tag(PUSH_TRUE, &tag);
    assert(bytes@ =~= anchor_script_bytes());
    AnchorScript { bytes }
}

/// Which value the anchor output carries.
#[derive(Clone, Copy, Debug, PartialEq, Eq, Structural)]
pub enum AnchorValue {
    /// Nothing at all: an ephemeral anchor.
    Zero,
    /// One unit, for ledgers that refuse an output of value zero.
    MinimalNonZero,
}

/// The value of the anchor output under `config`, in units.
pub open spec fn anchor_amount(config: AnchorValue) -> u64 {
    match config {
        AnchorValue::Zero => 0,
        AnchorValue::MinimalNonZero => 1,
    }
}

/// The value of the anchor output under `config`, in units.
pub fn anchor_value(config: AnchorValue) -> (value: u64)
    ensures
        value == anchor_amount(config),
{
    match config {
        AnchorValue::Zero => 0,
        AnchorValue::MinimalNonZero => 1,
    }
}

} // verus!

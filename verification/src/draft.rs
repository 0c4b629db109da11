//! Unsigned transaction drafts and the values they are made of.

use vstd::prelude::*;
use crate::sequence::{encoding, resolve, SequenceIntent};

verus! {

/// A 32-byte transaction identifier, in the byte order of the wire encoding.
#[derive(Clone, Copy, Debug, PartialEq, Eq, Hash)]
pub struct TxId {
    pub bytes: [u8; 32],
}

impl View for TxId {
    type V = Seq<u8>;

    open spec fn view(&self) -> Seq<u8> {
        self.bytes@
    }
}

impl TxId {
    /// Wraps 32 bytes as an identifier.
    pub fn new(bytes: [u8; 32]) -> (id: TxId)
        ensures
            id@ == bytes@,
            id.bytes == bytes,
    {
        TxId { bytes }
    }

    /// Whether the two identifiers hold the same 32 bytes.
    pub fn same(&self, other: &TxId) -> (equal: bool)
        ensures
            equal == (self@ == other@),
    {
        let mut i: usize = 0;
        while i < 32
            invariant
                0 <= i <= 32,
                forall|j: int| 0 <= j < i ==> self.bytes@[j] == other.bytes@[j],
            decreases 32 - i,
        {
            if self.bytes[i] != other.bytes[i] {
                return false;
            }
            i += 1;
        }
        assert(self@ =~= other@);
        true
    }
}

/// A reference to one output of a transaction: its identifier and the
/// output's position.
#[derive(Clone, Copy, Debug, PartialEq, Eq)]
pub struct OutputRef {
    pub txid: TxId,
    pub index: u32,
}

/// An output that the ledger reports as spendable.
#[derive(Clone, Copy, Debug, PartialEq, Eq)]
pub struct SpendableOutput {
    pub txid: TxId,
    pub output_index: u32,
    pub value: u64,
}

impl SpendableOutput {
    /// The reference by which an input spends this output.
    pub open spec fn reference(&self) -> OutputRef {
        OutputRef { txid: self.txid, index: self.output_index }
    }

    /// The reference by which an input spends this output.
    pub fn to_ref(&self) -> (r: OutputRef)
        ensures
            r == self.reference(),
    {
        OutputRef { txid: self.txid, index: self.output_index }
    }
}

/// One input of a draft: the output it spends and its sequence value. The
/// unlocking proof is left to the signer.
#[derive(Clone, Copy, Debug, PartialEq, Eq)]
pub struct DraftInput {
    pub previous: OutputRef,
    pub sequence: u32,
}

/// The mathematical content of a [`DraftInput`].
pub struct InputModel {
    pub txid: Seq<u8>,
    pub index: u32,
    pub sequence: u32,
}

impl View for DraftInput {
    type V = InputModel;

    open spec fn view(&self) -> InputModel {
        InputModel { txid: self.previous.txid@, index: self.previous.index, sequence: self.sequence }
    }
}

/// The input that spends `previous` with the encoding of `intent`.
pub open spec fn input_model(previous: OutputRef, intent: SequenceIntent) -> InputModel {
    InputModel { txid: previous.txid@, index: previous.index, sequence: encoding(intent) }
}

impl DraftInput {
    /// An input that spends `previous` with the sequence value of `intent`.
    pub fn new(previous: OutputRef, intent: SequenceIntent) -> (input: DraftInput)
        ensures
            input.previous == previous,
            input.sequence == encoding(intent),
            input@ == input_model(previous, intent),
    {
        DraftInput { previous, sequence: resolve(intent) }
    }
}

/// One output of a draft: a value and the script that locks it.
#[derive(Clone, Debug, PartialEq, Eq)]
pub struct DraftOutput {
    pub value: u64,
    pub script: Vec<u8>,
}

/// The mathematical content of a [`DraftOutput`].
pub struct OutputModel {
    pub value: u64,
    pub script: Seq<u8>,
}

impl View for DraftOutput {
    type V = OutputModel;

    open spec fn view(&self) -> OutputModel {
        OutputModel { value: self.value, script: self.script@ }
    }
}

/// A transaction before signing.
#[derive(Clone, Debug, PartialEq, Eq)]
pub struct TransactionDraft {
    pub version: i32,
    pub locktime: u32,
    pub inputs: Vec<DraftInput>,
    pub outputs: Vec<DraftOutput>,
}

/// The mathematical content of a [`TransactionDraft`].
pub struct DraftModel {
    pub version: i32,
    pub locktime: u32,
    pub inputs: Seq<InputModel>,
    pub outputs: Seq<OutputModel>,
}

/// The models of a sequence of inputs, in order.
pub open spec fn input_models(inputs: Seq<DraftInput>) -> Seq<InputModel> {
    Seq::new(inputs.len(), |i: int| inputs[i]@)
}

/// The models of a sequence of outputs, in order.
pub open spec fn output_models(outputs: Seq<DraftOutput>) -> Seq<OutputModel> {
    Seq::new(outputs.len(), |i: int| outputs[i]@)
}

impl View for TransactionDraft {
    type V = DraftModel;

    open spec fn view(&self) -> DraftModel {
        DraftModel {
            version: self.version,
            locktime: self.locktime,
            inputs: input_models(self.inputs@),
            outputs: output_models(self.outputs@),
        }
    }
}

impl DraftOutput {
    /// A copy with the same value and script.
    pub fn duplicate(&self) -> (copy: DraftOutput)
        ensures
            copy@ == self@,
    {
        DraftOutput { value: self.value, script: self.script.clone() }
    }
}

impl TransactionDraft {
    /// A copy with the same content.
    pub fn duplicate(&self) -> (copy: TransactionDraft)
        ensures
            copy@ == self@,
    {
        let mut inputs: Vec<DraftInput> = Vec::new();
        let mut i: usize = 0;
        while i < self.inputs.len()
            invariant
                0 <= i <= self.inputs.len(),
                inputs@.len() == i,
                forall|k: int| 0 <= k < i ==> inputs@[k]@ == self.inputs@[k]@,
            decreases self.inputs.len() - i,
        {
            inputs.push(self.inputs[i]);
            i += 1;
        }
        let mut outputs: Vec<DraftOutput> = Vec::new();
        let mut j: usize = 0;
        while j < self.outputs.len()
            invariant
                0 <= j <= self.outputs.len(),
                outputs@.len() == j,
                forall|k: int| 0 <= k < j ==> outputs@[k]@ == self.outputs@[k]@,
            decreases self.outputs.len() - j,
        {
            outputs.push(self.outputs[j].duplicate());
            j += 1;
        }
        assert(input_models(inputs@) =~= input_models(self.inputs@));
        assert(output_models(outputs@) =~= output_models(self.outputs@));
        TransactionDraft { version: self.version, locktime: self.locktime, inputs, outputs }
    }

    /// A draft of the given version with no inputs and no outputs yet.
    pub fn new(version: i32, locktime: u32) -> (draft: TransactionDraft)
        ensures
            draft@ == (DraftModel { version, locktime, inputs: Seq::empty(), outputs: Seq::empty() }),
    {
        let draft = TransactionDraft { version, locktime, inputs: Vec::new(), outputs: Vec::new() };
        assert(draft@.inputs =~= Seq::empty());
        assert(draft@.outputs =~= Seq::empty());
        draft
    }

    /// Appends an input that spends `previous` with the sequence value of
    /// `intent`. Everything else stays as it was.
    pub fn add_input(&mut self, previous: OutputRef, intent: SequenceIntent)
        ensures
            final(self)@ == (DraftModel {
                inputs: old(self)@.inputs.push(input_model(previous, intent)),
                ..old(self)@
            }),
    {
        self.inputs.push(DraftInput::new(previous, intent));
        assert(self@.inputs =~= old(self)@.inputs.push(input_model(previous, intent)));
    }

    /// Appends an output of `value` locked by `script`. Everything else stays
    /// as it was.
    pub fn add_output(&mut self, value: u64, script: Vec<u8>)
        ensures
            final(self)@ == (DraftModel {
                outputs: old(self)@.outputs.push(OutputModel { value, script: script@ }),
                ..old(self)@
            }),
    {
        self.outputs.push(DraftOutput { value, script });
        assert(self@.outputs =~= old(self)@.outputs.push(OutputModel { value, script: script@ }));
    }
}

} // verus!

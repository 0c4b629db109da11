//! Export of a draft: its wire encoding, its identifier and hexadecimal text.
//!
//! The encoding and the hash are the work of the `bitcoin` crate and the
//! text that of the `hex` crate. The functions marked `external_body` below
//! make those calls, and their contracts are taken on trust.

use vstd::prelude::*;
use bitcoin::absolute::LockTime;
use bitcoin::transaction::Version;
use bitcoin::{Amount, OutPoint, ScriptBuf, Sequence, Transaction, TxIn, TxOut, Witness};
use crate::draft::{DraftModel, TransactionDraft, TxId};

verus! {

/// The bytes that the `bitcoin` crate's consensus encoder writes for the
/// transaction with the draft's fields, every input with an empty unlocking
/// script and an empty witness: the ledger's standard wire encoding.
pub uninterp spec fn wire_encoding(draft: DraftModel) -> Seq<u8>;

/// The identifier that the `bitcoin` crate computes for the transaction with
/// the draft's fields, every input with an empty unlocking script and an
/// empty witness: the double SHA-256 of its encoding without witness data.
pub uninterp spec fn transaction_id(draft: DraftModel) -> Seq<u8>;

/// The sixteen lower-case hexadecimal digits.
pub open spec fn hex_digits() -> Seq<char> {
    seq!['0', '1', '2', '3', '4', '5', '6', '7', '8', '9', 'a', 'b', 'c', 'd', 'e', 'f']
}

/// Two lower-case hexadecimal digits for each byte, the high half first.
pub open spec fn hex_text(bytes: Seq<u8>) -> Seq<char> {
    Seq::new(
        2 * bytes.len(),
        |i: int|
            if i % 2 == 0 {
                hex_digits()[(bytes[i / 2] / 16) as int]
            } else {
                hex_digits()[(bytes[i / 2] % 16) as int]
            },
    )
}

/// Calls `bitcoin::consensus::encode::serialize` on the `bitcoin::Transaction`
/// that holds the draft's fields, with an empty unlocking script and an empty
/// witness on every input. The contract only gives the returned bytes a name:
/// they depend on nothing but the draft's content.
#[verifier::external_body]
fn serialize_transaction(draft: &TransactionDraft) -> (bytes: Vec<u8>)
    ensures
        bytes@ == wire_encoding(draft@),
{
    let input = draft.inputs.iter().map(|i| TxIn {
        previous_output: OutPoint::new(bitcoin::hashes::Hash::from_byte_array(i.previous.txid.bytes), i.previous.index),
        script_sig: ScriptBuf::new(),
        sequence: Sequence(i.sequence),
        witness: Witness::new(),
    }).collect();
    let output = draft.outputs.iter().map(|o| TxOut {
        value: Amount::from_sat(o.value),
        script_pubkey: ScriptBuf::from_bytes(o.script.clone()),
    }).collect();
    let lock_time = LockTime::from_consensus(draft.locktime);
    bitcoin::consensus::encode::serialize(&Transaction { version: Version(draft.version), lock_time, input, output })
}

/// Calls `bitcoin::Transaction::compute_txid` on the `bitcoin::Transaction`
/// that holds the draft's fields, with an empty unlocking script and an empty
/// witness on every input. The contract only gives the returned hash a name:
/// it depends on nothing but the draft's content.
#[verifier::external_body]
fn hash_transaction(draft: &TransactionDraft) -> (id: TxId)
    ensures
        id@ == transaction_id(draft@),
{
    let input = draft.inputs.iter().map(|i| TxIn {
        previous_output: OutPoint::new(bitcoin::hashes::Hash::from_byte_array(i.previous.txid.bytes), i.previous.index),
        script_sig: ScriptBuf::new(),
        sequence: Sequence(i.sequence),
        witness: Witness::new(),
    }).collect();
    let output = draft.outputs.iter().map(|o| TxOut {
        value: Amount::from_sat(o.value),
        script_pubkey: ScriptBuf::from_bytes(o.script.clone()),
    }).collect();
    let lock_time = LockTime::from_consensus(draft.locktime);
    let tx = Transaction { version: Version(draft.version), lock_time, input, output };
    TxId { bytes: bitcoin::hashes::Hash::to_byte_array(tx.compute_txid()) }
}

/// Calls `hex::encode`, which writes each byte as two lower-case hexadecimal
/// digits, the high half first.
#[verifier::external_body]
fn hex_encode(bytes: &Vec<u8>) -> (text: String)
    ensures
        text@ == hex_text(bytes@),
{
    hex::encode(bytes)
}

impl TransactionDraft {
    /// The draft in the ledger's wire encoding, ready for the signer.
    pub fn to_bytes(&self) -> (bytes: Vec<u8>)
        ensures
            bytes@ == wire_encoding(self@),
    {
        serialize_transaction(self)
    }

    /// The draft's wire encoding as lower-case hexadecimal text.
    pub fn to_hex(&self) -> (text: String)
        ensures
            text@ == hex_text(wire_encoding(self@)),
    {
        let bytes = serialize_transaction(self);
        hex_encode(&bytes)
    }

    /// The identifier under which the ledger will know this draft, provided
    /// that signing fills in witness data only.
    pub fn txid(&self) -> (id: TxId)
        ensures
            id@ == transaction_id(self@),
            id@.len() == 32,
    {
        let id = hash_transaction(self);
        proof {
            vstd::array::array_len_matches_n(&id.bytes);
        }
        id
    }
}

/// Lower-case hexadecimal text of `bytes`.
pub fn bytes_to_hex(bytes: &Vec<u8>) -> (text: String)
    ensures
        text@ == hex_text(bytes@),
        text@.len() == 2 * bytes@.len(),
{
    hex_encode(bytes)
}

} // verus!

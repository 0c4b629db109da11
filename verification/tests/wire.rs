use fee_bump::anchor::AnchorValue;
use fee_bump::builder::{anchor_main_draft, build_replacement};
use fee_bump::draft::{DraftInput, DraftOutput, OutputRef, SpendableOutput, TransactionDraft, TxId};
use fee_bump::sequence::SequenceIntent;
use fee_bump::wire::bytes_to_hex;

fn sample() -> TransactionDraft {
    let out = SpendableOutput { txid: TxId::new([0x11; 32]), output_index: 1, value: 100_000_000 };
    build_replacement(&out, &vec![0x51], &vec![10_000, 1_000_000]).unwrap().first().clone()
}

fn sample_bytes() -> Vec<u8> {
    let mut expected: Vec<u8> = vec![0x02, 0, 0, 0];
    expected.push(1);
    expected.extend_from_slice(&[0x11; 32]);
    expected.extend_from_slice(&[1, 0, 0, 0]);
    expected.push(0);
    expected.extend_from_slice(&[0xfd, 0xff, 0xff, 0xff]);
    expected.push(1);
    expected.extend_from_slice(&[0xf0, 0xb9, 0xf5, 0x05, 0, 0, 0, 0]);
    expected.push(1);
    expected.push(0x51);
    expected.extend_from_slice(&[0, 0, 0, 0]);
    expected
}

#[test]
fn to_bytes_is_the_wire_encoding() {
    assert_eq!(sample().to_bytes(), sample_bytes());
}

#[test]
fn to_bytes_can_be_read_back_as_a_transaction() {
    let draft = sample();
    let tx: bitcoin::Transaction =
        bitcoin::consensus::encode::deserialize(&draft.to_bytes()).unwrap();
    assert_eq!(tx.version.0, 2);
    assert_eq!(tx.input.len(), 1);
    assert_eq!(tx.input[0].previous_output.vout, 1);
    assert_eq!(tx.input[0].sequence.0, 0xffff_fffd);
    assert!(tx.input[0].script_sig.is_empty());
    assert!(tx.input[0].witness.is_empty());
    assert_eq!(tx.output.len(), 1);
    assert_eq!(tx.output[0].value.to_sat(), 99_990_000);
    assert_eq!(tx.output[0].script_pubkey.as_bytes(), &[0x51]);
    assert_eq!(tx.lock_time.to_consensus_u32(), 0);
}

#[test]
fn to_hex_is_the_lower_case_text_of_the_bytes() {
    let mut expected = String::from("0200000001");
    expected.push_str(&"11".repeat(32));
    expected.push_str("0100000000fdffffff01f0b9f50500000000015100000000");
    assert_eq!(sample().to_hex(), expected);
}

#[test]
fn bytes_to_hex_writes_two_digits_per_byte() {
    assert_eq!(bytes_to_hex(&vec![]), "");
    assert_eq!(bytes_to_hex(&vec![0x51, 0x02, 0x4e, 0x73]), "51024e73");
    assert_eq!(bytes_to_hex(&vec![1, 2, 3, 15, 16]), "0102030f10");
    assert_eq!(bytes_to_hex(&vec![0x00, 0xff, 0xab, 0x9c]), "00ffab9c");
}

#[test]
fn txid_is_the_double_hash_of_the_encoding() {
    let draft = sample();
    let hash: bitcoin::hashes::sha256d::Hash = bitcoin::hashes::Hash::hash(&draft.to_bytes());
    let expected: [u8; 32] = bitcoin::hashes::Hash::to_byte_array(hash);
    assert_eq!(draft.txid(), TxId::new(expected));
    assert_ne!(draft.txid(), TxId::new([0x11; 32]));
}

#[test]
fn txid_changes_with_the_content() {
    let draft = sample();
    let mut other = draft.clone();
    other.outputs[0].value += 1;
    assert_ne!(draft.txid(), other.txid());
    assert_ne!(draft.to_bytes(), other.to_bytes());
    assert_eq!(draft.txid(), draft.clone().txid());
}

#[test]
fn draft_grows_by_inputs_and_outputs() {
    let mut draft = TransactionDraft::new(3, 0);
    assert!(draft.inputs.is_empty());
    assert!(draft.outputs.is_empty());
    let previous = OutputRef { txid: TxId::new([0x44; 32]), index: 9 };
    draft.add_input(previous, SequenceIntent::NonFinalSpendable);
    draft.add_output(1_234, vec![0x6a]);
    draft.add_output(0, vec![0x51, 0x02, 0x4e, 0x73]);
    assert_eq!(
        draft,
        TransactionDraft {
            version: 3,
            locktime: 0,
            inputs: vec![DraftInput { previous, sequence: 0xffff_fffe }],
            outputs: vec![
                DraftOutput { value: 1_234, script: vec![0x6a] },
                DraftOutput { value: 0, script: vec![0x51, 0x02, 0x4e, 0x73] },
            ],
        }
    );
}

#[test]
fn duplicate_keeps_the_content() {
    let draft = sample();
    assert_eq!(draft.duplicate(), draft);
    assert_eq!(draft.duplicate().to_bytes(), sample_bytes());
    let empty = TransactionDraft::new(2, 0);
    assert_eq!(empty.duplicate(), empty);
    let output = DraftOutput { value: 7, script: vec![1, 2, 3] };
    assert_eq!(output.duplicate(), output);
}

#[test]
fn identifiers_compare_by_their_bytes() {
    let a = TxId::new([7; 32]);
    let mut bytes = [7u8; 32];
    let b = TxId::new(bytes);
    assert!(a.same(&b));
    bytes[31] = 8;
    assert!(!a.same(&TxId::new(bytes)));
    bytes[31] = 7;
    bytes[0] = 0;
    assert!(!a.same(&TxId::new(bytes)));
}

#[test]
fn spendable_output_gives_its_reference() {
    let out = SpendableOutput { txid: TxId::new([0x11; 32]), output_index: 5, value: 9 };
    assert_eq!(out.to_ref(), OutputRef { txid: TxId::new([0x11; 32]), index: 5 });
}

#[test]
fn to_bytes_of_an_anchor_draft_ends_with_the_anchor_output() {
    let out = SpendableOutput { txid: TxId::new([0x11; 32]), output_index: 1, value: 100_000_000 };
    let main = anchor_main_draft(&out, &vec![0x6a], AnchorValue::Zero, 100_000).unwrap();
    let mut expected: Vec<u8> = vec![0x03, 0, 0, 0];
    expected.push(1);
    expected.extend_from_slice(&[0x11; 32]);
    expected.extend_from_slice(&[1, 0, 0, 0]);
    expected.push(0);
    expected.extend_from_slice(&[0xff, 0xff, 0xff, 0xff]);
    expected.push(2);
    expected.extend_from_slice(&[0x60, 0x5a, 0xf4, 0x05, 0, 0, 0, 0]);
    expected.extend_from_slice(&[1, 0x6a]);
    expected.extend_from_slice(&[0; 8]);
    expected.extend_from_slice(&[4, 0x51, 0x02, 0x4e, 0x73]);
    expected.extend_from_slice(&[0, 0, 0, 0]);
    assert_eq!(main.to_bytes(), expected);
}

#[test]
fn to_bytes_carries_the_locktime() {
    let mut draft = TransactionDraft::new(2, 500);
    draft.add_input(OutputRef { txid: TxId::new([0; 32]), index: 0 }, SequenceIntent::Final);
    let bytes = draft.to_bytes();
    assert_eq!(&bytes[bytes.len() - 4..], &[0xf4, 0x01, 0, 0]);
    assert_eq!(bytes.len(), 4 + 1 + 41 + 1 + 4);
}

#[test]
fn to_bytes_of_a_draft_without_inputs_does_not_fail() {
    let draft = TransactionDraft::new(2, 0);
    assert_eq!(draft.to_bytes(), vec![2, 0, 0, 0, 0, 1, 0, 0, 0, 0, 0, 0]);
    assert_eq!(draft.to_hex(), "020000000001000000000000");
    let hash: bitcoin::hashes::sha256d::Hash =
        bitcoin::hashes::Hash::hash(&[2, 0, 0, 0, 0, 0, 0, 0, 0, 0]);
    assert_eq!(draft.txid(), TxId::new(bitcoin::hashes::Hash::to_byte_array(hash)));
}

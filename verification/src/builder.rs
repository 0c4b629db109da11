//! The three package builders.
//!
//! Each builder is a pure function of its arguments: it reads the selected
//! output, the destinations and the fees, and returns the drafts of one
//! topology or a typed failure. None consults the ledger.

use vstd::prelude::*;
use crate::anchor::{anchor_amount, anchor_script_bytes, anchor_value, build_anchor_script, AnchorValue};
use crate::draft::{
    DraftInput, DraftModel, DraftOutput, InputModel, OutputModel, OutputRef, SpendableOutput,
    TransactionDraft, TxId,
};
use crate::error::BuildError;
use crate::package::{second_spending, Package, PackageModel, Topology};
use crate::sequence::{encoding, SequenceIntent};
use crate::wire::{transaction_id, wire_encoding};

verus! {

/// The version of drafts that neither carry nor spend an anchor.
pub const STANDARD_VERSION: i32 = 2;

/// The version of drafts that carry or spend an anchor.
pub const ANCHOR_VERSION: i32 = 3;

/// A change output is only worth creating above this value, in units.
pub const DUST_FLOOR: u64 = 100_000;

/// The content of a built draft, or the failure.
pub open spec fn draft_result_model(r: Result<TransactionDraft, BuildError>) -> Result<
    DraftModel,
    BuildError,
> {
    match r {
        Ok(draft) => Ok(draft@),
        Err(e) => Err(e),
    }
}

/// The content of a built package, or the failure.
pub open spec fn package_result_model(r: Result<Package, BuildError>) -> Result<
    PackageModel,
    BuildError,
> {
    match r {
        Ok(package) => Ok(package@),
        Err(e) => Err(e),
    }
}

/// A draft of the standard version with one input and one output.
pub open spec fn payment(input: InputModel, value: u64, script: Seq<u8>) -> DraftModel {
    DraftModel {
        version: STANDARD_VERSION,
        locktime: 0,
        inputs: seq![input],
        outputs: seq![OutputModel { value, script }],
    }
}

/// The draft that spends output `index` of `txid`, worth `available`, pays
/// `fee` and sends the rest to `destination`; a failure when the fee would
/// leave nothing.
pub open spec fn spend_plan(
    txid: Seq<u8>,
    index: u32,
    intent: SequenceIntent,
    available: u64,
    fee: u64,
    destination: Seq<u8>,
) -> Result<DraftModel, BuildError> {
    if fee >= available {
        Err(BuildError::InsufficientFunds)
    } else {
        Ok(
            payment(
                InputModel { txid, index, sequence: encoding(intent) },
                (available - fee) as u64,
                destination,
            ),
        )
    }
}

/// What [`build_replacement`] returns.
pub open spec fn replacement_plan(
    output: SpendableOutput,
    destination: Seq<u8>,
    fees: Seq<u64>,
) -> Result<PackageModel, BuildError> {
    if fees.len() != 2 {
        Err(BuildError::InvalidTopology)
    } else if fees[0] >= output.value || fees[1] >= output.value {
        Err(BuildError::InsufficientFunds)
    } else {
        let input = InputModel {
            txid: output.txid@,
            index: output.output_index,
            sequence: encoding(SequenceIntent::Replaceable),
        };
        Ok(
            PackageModel {
                topology: Topology::Replacement,
                first: payment(input, (output.value - fees[0]) as u64, destination),
                second: payment(input, (output.value - fees[1]) as u64, destination),
            },
        )
    }
}

/// What [`build_parent_child`] returns.
pub open spec fn parent_child_plan(
    output: SpendableOutput,
    intermediate_destination: Seq<u8>,
    final_destination: Seq<u8>,
    parent_fee: u64,
    child_fee: u64,
) -> Result<PackageModel, BuildError> {
    if parent_fee >= output.value || child_fee >= output.value - parent_fee {
        Err(BuildError::InsufficientFunds)
    } else {
        let parent = payment(
            InputModel {
                txid: output.txid@,
                index: output.output_index,
                sequence: encoding(SequenceIntent::Final),
            },
            (output.value - parent_fee) as u64,
            intermediate_destination,
        );
        let child = payment(
            InputModel {
                txid: transaction_id(parent),
                index: 0,
                sequence: encoding(SequenceIntent::NonFinalSpendable),
            },
            (output.value - parent_fee - child_fee) as u64,
            final_destination,
        );
        Ok(PackageModel { topology: Topology::ParentChild, first: parent, second: child })
    }
}

/// The draft that carries the anchor: it spends `output`, pays `main_fee`,
/// sets the anchor's value aside and sends the rest to `target`. The anchor
/// is its last output. A failure when nothing would be left to send.
pub open spec fn anchor_main_plan(
    output: SpendableOutput,
    target: Seq<u8>,
    config: AnchorValue,
    main_fee: u64,
) -> Result<DraftModel, BuildError> {
    if main_fee + anchor_amount(config) >= output.value {
        Err(BuildError::InsufficientFunds)
    } else {
        Ok(
            DraftModel {
                version: ANCHOR_VERSION,
                locktime: 0,
                inputs: seq![
                    InputModel {
                        txid: output.txid@,
                        index: output.output_index,
                        sequence: encoding(SequenceIntent::Final),
                    },
                ],
                outputs: seq![
                    OutputModel {
                        value: (output.value - main_fee - anchor_amount(config)) as u64,
                        script: target,
                    },
                    OutputModel { value: anchor_amount(config), script: anchor_script_bytes() },
                ],
            },
        )
    }
}

/// The draft that spends the anchor at output `anchor_index` of
/// `anchor_txid` together with `fee_output`, which pays `spend_fee`. What is
/// left of `fee_output` goes to `change` if it exceeds the dust floor, and to
/// the fee otherwise. A failure when the fee would use up `fee_output`.
pub open spec fn anchor_spend_plan(
    anchor_txid: Seq<u8>,
    anchor_index: u32,
    fee_output: SpendableOutput,
    change: Seq<u8>,
    spend_fee: u64,
) -> Result<DraftModel, BuildError> {
    if spend_fee >= fee_output.value {
        Err(BuildError::InsufficientFunds)
    } else {
        Ok(
            DraftModel {
                version: ANCHOR_VERSION,
                locktime: 0,
                inputs: seq![
                    InputModel {
                        txid: anchor_txid,
                        index: anchor_index,
                        sequence: encoding(SequenceIntent::NonFinalSpendable),
                    },
                    InputModel {
                        txid: fee_output.txid@,
                        index: fee_output.output_index,
                        sequence: encoding(SequenceIntent::NonFinalSpendable),
                    },
                ],
                outputs: if fee_output.value - spend_fee > DUST_FLOOR {
                    seq![OutputModel { value: (fee_output.value - spend_fee) as u64, script: change }]
                } else {
                    Seq::empty()
                },
            },
        )
    }
}

/// What [`build_anchor_spend`] returns.
pub open spec fn anchor_package_plan(
    output: SpendableOutput,
    target: Seq<u8>,
    config: AnchorValue,
    fee_output: SpendableOutput,
    change: Seq<u8>,
    main_fee: u64,
    spend_fee: u64,
) -> Result<PackageModel, BuildError> {
    match anchor_main_plan(output, target, config, main_fee) {
        Err(e) => Err(e),
        Ok(main) => match anchor_spend_plan(transaction_id(main), 1, fee_output, change, spend_fee) {
            Err(e) => Err(e),
            Ok(spend) => Ok(
                PackageModel { topology: Topology::AnchorSpend, first: main, second: spend },
            ),
        },
    }
}

/// Builds the draft that spends `previous`, worth `available`, with the
/// sequence value of `intent`, pays `fee` and sends the rest to
/// `destination`.
pub fn single_spend(
    previous: OutputRef,
    intent: SequenceIntent,
    available: u64,
    fee: u64,
    destination: &Vec<u8>,
) -> (draft: Result<TransactionDraft, BuildError>)
    ensures
        draft_result_model(draft) == spend_plan(
            previous.txid@,
            previous.index,
            intent,
            available,
            fee,
            destination@,
        ),
        draft is Err <==> fee >= available,
{
    if fee >= available {
        return Err(BuildError::InsufficientFunds);
    }
    let mut inputs: Vec<DraftInput> = Vec::new();
    inputs.push(DraftInput::new(previous, intent));
    let mut outputs: Vec<DraftOutput> = Vec::new();
    outputs.push(DraftOutput { value: available - fee, script: destination.clone() });
    let draft = TransactionDraft { version: STANDARD_VERSION, locktime: 0, inputs, outputs };
    proof {
        let plan = spend_plan(previous.txid@, previous.index, intent, available, fee, destination@);
        assert(draft@.inputs =~= plan->Ok_0.inputs);
        assert(draft@.outputs =~= plan->Ok_0.outputs);
    }
    Ok(draft)
}

/// Builds two conflicting drafts that both spend `output` to `destination`
/// with a replaceable input, the first paying `fees[0]` and the second
/// `fees[1]`.
///
/// Fails with `InvalidTopology` unless exactly two fees are given, and with
/// `InsufficientFunds` when either fee equals or exceeds the output's value.
pub fn build_replacement(output: &SpendableOutput, destination: &Vec<u8>, fees: &Vec<u64>) -> (package:
    Result<Package, BuildError>)
    ensures
        package_result_model(package) == replacement_plan(*output, destination@, fees@),
        package is Ok <==> fees@.len() == 2 && fees@[0] < output.value && fees@[1] < output.value,
        package is Err ==> (package->Err_0 == BuildError::InvalidTopology <==> fees@.len() != 2),
        package is Err ==> (package->Err_0 == BuildError::InsufficientFunds <==> fees@.len() == 2),
        package is Ok ==> package->Ok_0@.first.inputs == package->Ok_0@.second.inputs,
{
    if fees.len() != 2 {
        return Err(BuildError::InvalidTopology);
    }
    let previous = output.to_ref();
    let original = match single_spend(
        previous,
        SequenceIntent::Replaceable,
        output.value,
        fees[0],
        destination,
    ) {
        Ok(draft) => draft,
        Err(e) => {
            return Err(e);
        },
    };
    let replacement = match single_spend(
        previous,
        SequenceIntent::Replaceable,
        output.value,
        fees[1],
        destination,
    ) {
        Ok(draft) => draft,
        Err(e) => {
            return Err(e);
        },
    };
    Ok(Package::Replacement { original, replacement })
}

/// Builds the parent of a parent-and-child package: it spends `output` with
/// a final input, pays `parent_fee` and sends the rest to `destination`.
pub fn parent_draft(output: &SpendableOutput, destination: &Vec<u8>, parent_fee: u64) -> (draft:
    Result<TransactionDraft, BuildError>)
    ensures
        draft_result_model(draft) == spend_plan(
            output.txid@,
            output.output_index,
            SequenceIntent::Final,
            output.value,
            parent_fee,
            destination@,
        ),
        draft is Err <==> parent_fee >= output.value,
{
    single_spend(output.to_ref(), SequenceIntent::Final, output.value, parent_fee, destination)
}

/// Builds the child of the parent known as `parent_id`: its sole input
/// spends the parent's first output, worth `parent_value`; it pays
/// `child_fee` and sends the rest to `destination`.
pub fn child_draft(parent_id: TxId, parent_value: u64, destination: &Vec<u8>, child_fee: u64) -> (draft:
    Result<TransactionDraft, BuildError>)
    ensures
        draft_result_model(draft) == spend_plan(
            parent_id@,
            0,
            SequenceIntent::NonFinalSpendable,
            parent_value,
            child_fee,
            destination@,
        ),
        draft is Err <==> child_fee >= parent_value,
{
    single_spend(
        OutputRef { txid: parent_id, index: 0 },
        SequenceIntent::NonFinalSpendable,
        parent_value,
        child_fee,
        destination,
    )
}

/// Builds a parent that spends `output` to `intermediate_destination` for
/// `parent_fee`, and a child that spends the parent's first output to
/// `final_destination` for `child_fee`.
///
/// Fails with `InsufficientFunds` when `parent_fee` equals or exceeds the
/// output's value, or `child_fee` equals or exceeds what the parent sends.
pub fn build_parent_child(
    output: &SpendableOutput,
    intermediate_destination: &Vec<u8>,
    final_destination: &Vec<u8>,
    parent_fee: u64,
    child_fee: u64,
) -> (package: Result<Package, BuildError>)
    ensures
        package_result_model(package) == parent_child_plan(
            *output,
            intermediate_destination@,
            final_destination@,
            parent_fee,
            child_fee,
        ),
        package is Ok <==> parent_fee < output.value && child_fee < output.value - parent_fee,
        package is Err ==> package->Err_0 == BuildError::InsufficientFunds,
{
    let parent = match parent_draft(output, intermediate_destination, parent_fee) {
        Ok(draft) => draft,
        Err(e) => {
            return Err(e);
        },
    };
    let parent_id = parent.txid();
    let child = match child_draft(
        parent_id,
        output.value - parent_fee,
        final_destination,
        child_fee,
    ) {
        Ok(draft) => draft,
        Err(e) => {
            return Err(e);
        },
    };
    Ok(Package::ParentChild { parent, child })
}

/// Builds the draft that carries the anchor: one final input that spends
/// `output`, a payment to `target` and, last, the anchor output.
pub fn anchor_main_draft(
    output: &SpendableOutput,
    target: &Vec<u8>,
    config: AnchorValue,
    main_fee: u64,
) -> (draft: Result<TransactionDraft, BuildError>)
    ensures
        draft_result_model(draft) == anchor_main_plan(*output, target@, config, main_fee),
        draft is Err <==> main_fee + anchor_amount(config) >= output.value,
{
    if main_fee >= output.value {
        return Err(BuildError::InsufficientFunds);
    }
    let after_fee: u64 = output.value - main_fee;
    let anchor: u64 = anchor_value(config);
    if anchor >= after_fee {
        return Err(BuildError::InsufficientFunds);
    }
    let mut inputs: Vec<DraftInput> = Vec::new();
    inputs.push(DraftInput::new(output.to_ref(), SequenceIntent::Final));
    let mut outputs: Vec<DraftOutput> = Vec::new();
    outputs.push(DraftOutput { value: after_fee - anchor, script: target.clone() });
    outputs.push(DraftOutput { value: anchor, script: build_anchor_script().into_bytes() });
    let draft = TransactionDraft { version: ANCHOR_VERSION, locktime: 0, inputs, outputs };
    proof {
        let plan = anchor_main_plan(*output, target@, config, main_fee);
        assert(draft@.inputs =~= plan->Ok_0.inputs);
        assert(draft@.outputs =~= plan->Ok_0.outputs);
    }
    Ok(draft)
}

/// Builds the draft that spends the anchor `anchor` together with
/// `fee_output`, both with a non-final input. It pays `spend_fee` out of
/// `fee_output` and returns the rest to `change` when that exceeds the dust
/// floor; otherwise it has no output.
pub fn anchor_spend_draft(
    anchor: OutputRef,
    fee_output: &SpendableOutput,
    change: &Vec<u8>,
    spend_fee: u64,
) -> (draft: Result<TransactionDraft, BuildError>)
    ensures
        draft_result_model(draft) == anchor_spend_plan(
            anchor.txid@,
            anchor.index,
            *fee_output,
            change@,
            spend_fee,
        ),
        draft is Err <==> spend_fee >= fee_output.value,
{
    if spend_fee >= fee_output.value {
        return Err(BuildError::InsufficientFunds);
    }
    let rest: u64 = fee_output.value - spend_fee;
    let mut inputs: Vec<DraftInput> = Vec::new();
    inputs.push(DraftInput::new(anchor, SequenceIntent::NonFinalSpendable));
    inputs.push(DraftInput::new(fee_output.to_ref(), SequenceIntent::NonFinalSpendable));
    let mut outputs: Vec<DraftOutput> = Vec::new();
    if rest > DUST_FLOOR {
        outputs.push(DraftOutput { value: rest, script: change.clone() });
    }
    let draft = TransactionDraft { version: ANCHOR_VERSION, locktime: 0, inputs, outputs };
    proof {
        let plan = anchor_spend_plan(anchor.txid@, anchor.index, *fee_output, change@, spend_fee);
        assert(draft@.inputs =~= plan->Ok_0.inputs);
        assert(draft@.outputs =~= plan->Ok_0.outputs);
    }
    Ok(draft)
}

/// Builds a draft that spends `output` to `target` for `main_fee` and
/// carries an anchor as its last output, and a draft that spends that anchor
/// together with `fee_output` for `spend_fee`, returning change to `change`.
///
/// Fails with `InsufficientFunds` when `main_fee` and the anchor's value
/// leave nothing of `output` to send, or `spend_fee` equals or exceeds the
/// value of `fee_output`.
pub fn build_anchor_spend(
    output: &SpendableOutput,
    target: &Vec<u8>,
    config: AnchorValue,
    fee_output: &SpendableOutput,
    change: &Vec<u8>,
    main_fee: u64,
    spend_fee: u64,
) -> (package: Result<Package, BuildError>)
    ensures
        package_result_model(package) == anchor_package_plan(
            *output,
            target@,
            config,
            *fee_output,
            change@,
            main_fee,
            spend_fee,
        ),
        package is Ok <==> main_fee + anchor_amount(config) < output.value && spend_fee
            < fee_output.value,
        package is Err ==> package->Err_0 == BuildError::InsufficientFunds,
        package is Ok ==> {
            let main = package->Ok_0@.first;
            let spend = package->Ok_0@.second;
            &&& main.outputs.len() == 2
            &&& main.outputs.last().script == anchor_script_bytes()
            &&& main.outputs.last().value == anchor_amount(config)
            &&& spend.inputs.len() == 2
            &&& spend.inputs[0].txid == transaction_id(main)
            &&& spend.inputs[0].index == main.outputs.len() - 1
        },
{
    let main = match anchor_main_draft(output, target, config, main_fee) {
        Ok(draft) => draft,
        Err(e) => {
            return Err(e);
        },
    };
    let anchor = OutputRef { txid: main.txid(), index: 1 };
    let spend = match anchor_spend_draft(anchor, fee_output, change, spend_fee) {
        Ok(draft) => draft,
        Err(e) => {
            return Err(e);
        },
    };
    Ok(Package::AnchorSpend { main, spend })
}

/// Whether two results of a builder agree: the same failure, or packages
/// with the same drafts, which then have the same bytes on the wire and the
/// same identifiers.
pub open spec fn byte_identical(once: Result<Package, BuildError>, again: Result<Package, BuildError>)
    -> bool {
    match (once, again) {
        (Ok(a), Ok(b)) => {
            &&& a@ == b@
            &&& wire_encoding(a@.first) == wire_encoding(b@.first)
            &&& wire_encoding(a@.second) == wire_encoding(b@.second)
            &&& transaction_id(a@.first) == transaction_id(b@.first)
            &&& transaction_id(a@.second) == transaction_id(b@.second)
        },
        (Err(e), Err(f)) => e == f,
        _ => false,
    }
}

/// Two calls of [`build_replacement`] with the same arguments return
/// byte-identical drafts, or the same failure.
pub proof fn lemma_replacement_repeatable(
    output: SpendableOutput,
    destination: Seq<u8>,
    fees: Seq<u64>,
    once: Result<Package, BuildError>,
    again: Result<Package, BuildError>,
)
    requires
        package_result_model(once) == replacement_plan(output, destination, fees),
        package_result_model(again) == replacement_plan(output, destination, fees),
    ensures
        byte_identical(once, again),
{
}

/// Two calls of [`build_parent_child`] with the same arguments return
/// byte-identical drafts, or the same failure.
pub proof fn lemma_parent_child_repeatable(
    output: SpendableOutput,
    intermediate_destination: Seq<u8>,
    final_destination: Seq<u8>,
    parent_fee: u64,
    child_fee: u64,
    once: Result<Package, BuildError>,
    again: Result<Package, BuildError>,
)
    requires
        package_result_model(once) == parent_child_plan(
            output,
            intermediate_destination,
            final_destination,
            parent_fee,
            child_fee,
        ),
        package_result_model(again) == parent_child_plan(
            output,
            intermediate_destination,
            final_destination,
            parent_fee,
            child_fee,
        ),
    ensures
        byte_identical(once, again),
{
}

/// Two calls of [`build_anchor_spend`] with the same arguments return
/// byte-identical drafts, or the same failure.
pub proof fn lemma_anchor_spend_repeatable(
    output: SpendableOutput,
    target: Seq<u8>,
    config: AnchorValue,
    fee_output: SpendableOutput,
    change: Seq<u8>,
    main_fee: u64,
    spend_fee: u64,
    once: Result<Package, BuildError>,
    again: Result<Package, BuildError>,
)
    requires
        package_result_model(once) == anchor_package_plan(
            output,
            target,
            config,
            fee_output,
            change,
            main_fee,
            spend_fee,
        ),
        package_result_model(again) == anchor_package_plan(
            output,
            target,
            config,
            fee_output,
            change,
            main_fee,
            spend_fee,
        ),
    ensures
        byte_identical(once, again),
{
}

/// Both drafts of a replacement pair spend the selected output, and nothing
/// else, with a replaceable input: that is what makes them conflict.
pub proof fn lemma_replacement_shares_input(
    output: SpendableOutput,
    destination: Seq<u8>,
    fees: Seq<u64>,
)
    requires
        replacement_plan(output, destination, fees) is Ok,
    ensures
        ({
            let package = replacement_plan(output, destination, fees)->Ok_0;
            &&& package.first.inputs == package.second.inputs
            &&& package.first.inputs.len() == 1
            &&& package.first.inputs[0].txid == output.txid@
            &&& package.first.inputs[0].index == output.output_index
            &&& package.first.inputs[0].sequence == encoding(SequenceIntent::Replaceable)
            &&& package.first.outputs[0].value == output.value - fees[0]
            &&& package.second.outputs[0].value == output.value - fees[1]
            &&& package.first.outputs[0].value > 0
            &&& package.second.outputs[0].value > 0
        }),
{
}

/// A fee equal to the whole value of the selected output is refused, so
/// that no draft with an output of value zero comes out.
pub proof fn lemma_replacement_refuses_whole_value(
    output: SpendableOutput,
    destination: Seq<u8>,
    fees: Seq<u64>,
)
    requires
        fees.len() == 2,
        fees[0] == output.value || fees[1] == output.value,
    ensures
        replacement_plan(output, destination, fees) == Err::<PackageModel, BuildError>(
            BuildError::InsufficientFunds,
        ),
{
}

/// The parent spends the selected output with a final input; the child's
/// sole input spends the parent's first output with a non-final input, and
/// both send a positive amount.
pub proof fn lemma_child_spends_parent(
    output: SpendableOutput,
    intermediate_destination: Seq<u8>,
    final_destination: Seq<u8>,
    parent_fee: u64,
    child_fee: u64,
)
    requires
        parent_child_plan(
            output,
            intermediate_destination,
            final_destination,
            parent_fee,
            child_fee,
        ) is Ok,
    ensures
        ({
            let package = parent_child_plan(
                output,
                intermediate_destination,
                final_destination,
                parent_fee,
                child_fee,
            )->Ok_0;
            &&& package.first.inputs.len() == 1
            &&& package.first.inputs[0].txid == output.txid@
            &&& package.first.inputs[0].index == output.output_index
            &&& package.first.inputs[0].sequence == encoding(SequenceIntent::Final)
            &&& package.first.outputs.len() == 1
            &&& package.first.outputs[0].value == output.value - parent_fee
            &&& package.second.inputs.len() == 1
            &&& package.second.inputs[0].txid == transaction_id(package.first)
            &&& package.second.inputs[0].index == 0
            &&& package.second.inputs[0].sequence == encoding(SequenceIntent::NonFinalSpendable)
            &&& package.second.outputs.len() == 1
            &&& package.second.outputs[0].value == output.value - parent_fee - child_fee
            &&& package.second.outputs[0].value > 0
        }),
{
}

/// Whatever the configuration, the last output of the draft that carries
/// the anchor holds the four-byte anchor script, and the first input of the
/// draft that spends it points at that output.
pub proof fn lemma_anchor_is_last_output(
    output: SpendableOutput,
    target: Seq<u8>,
    config: AnchorValue,
    fee_output: SpendableOutput,
    change: Seq<u8>,
    main_fee: u64,
    spend_fee: u64,
)
    requires
        anchor_package_plan(output, target, config, fee_output, change, main_fee, spend_fee) is Ok,
    ensures
        ({
            let package = anchor_package_plan(
                output,
                target,
                config,
                fee_output,
                change,
                main_fee,
                spend_fee,
            )->Ok_0;
            &&& package.first.outputs.last().script == anchor_script_bytes()
            &&& package.first.outputs.last().script.len() == 4
            &&& package.second.inputs[0].txid == transaction_id(package.first)
            &&& package.second.inputs[0].index == package.first.outputs.len() - 1
        }),
{
}

/// Nothing is lost in an anchor package: the payment, the anchor and the
/// fee of the first draft add up to the selected output, and the change of
/// the second draft, where there is one, is what its fee leaves of the
/// fee-paying output.
pub proof fn lemma_anchor_package_conserves_value(
    output: SpendableOutput,
    target: Seq<u8>,
    config: AnchorValue,
    fee_output: SpendableOutput,
    change: Seq<u8>,
    main_fee: u64,
    spend_fee: u64,
)
    requires
        anchor_package_plan(output, target, config, fee_output, change, main_fee, spend_fee) is Ok,
    ensures
        ({
            let package = anchor_package_plan(
                output,
                target,
                config,
                fee_output,
                change,
                main_fee,
                spend_fee,
            )->Ok_0;
            &&& package.first.outputs.len() == 2
            &&& package.first.outputs[0].value > 0
            &&& package.first.outputs[0].value + package.first.outputs[1].value + main_fee
                == output.value
            &&& package.second.outputs.len() <= 1
            &&& package.second.outputs.len() == 1 <==> fee_output.value - spend_fee > DUST_FLOOR
            &&& package.second.outputs.len() == 1 ==> package.second.outputs[0].value + spend_fee
                == fee_output.value
        }),
{
}

/// A parent-and-child package leaves the builder with the child naming the
/// identifier of the parent as built: pointing the child at that identifier
/// again changes nothing.
pub proof fn lemma_built_child_names_parent(
    output: SpendableOutput,
    intermediate_destination: Seq<u8>,
    final_destination: Seq<u8>,
    parent_fee: u64,
    child_fee: u64,
)
    requires
        parent_child_plan(
            output,
            intermediate_destination,
            final_destination,
            parent_fee,
            child_fee,
        ) is Ok,
    ensures
        ({
            let package = parent_child_plan(
                output,
                intermediate_destination,
                final_destination,
                parent_fee,
                child_fee,
            )->Ok_0;
            second_spending(package, transaction_id(package.first)) == package.second
        }),
{
    let package = parent_child_plan(
        output,
        intermediate_destination,
        final_destination,
        parent_fee,
        child_fee,
    )->Ok_0;
    assert(second_spending(package, transaction_id(package.first)).inputs
        =~= package.second.inputs);
}

/// An anchor package leaves the builder with the spending draft naming the
/// identifier of the anchor-carrying draft as built: pointing it at that
/// identifier again changes nothing.
pub proof fn lemma_built_spend_names_main(
    output: SpendableOutput,
    target: Seq<u8>,
    config: AnchorValue,
    fee_output: SpendableOutput,
    change: Seq<u8>,
    main_fee: u64,
    spend_fee: u64,
)
    requires
        anchor_package_plan(output, target, config, fee_output, change, main_fee, spend_fee) is Ok,
    ensures
        ({
            let package = anchor_package_plan(
                output,
                target,
                config,
                fee_output,
                change,
                main_fee,
                spend_fee,
            )->Ok_0;
            second_spending(package, transaction_id(package.first)) == package.second
        }),
{
    let package = anchor_package_plan(
        output,
        target,
        config,
        fee_output,
        change,
        main_fee,
        spend_fee,
    )->Ok_0;
    assert(second_spending(package, transaction_id(package.first)).inputs
        =~= package.second.inputs);
}

} // verus!

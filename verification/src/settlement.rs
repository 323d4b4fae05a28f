//! What an operation asks of its collaborators: value to move through the
//! settlement gateway and records to publish on the audit channel.

use soroban_sdk::Address;
use vstd::prelude::*;

verus! {

/// One movement of value through the settlement gateway, in the asset that
/// the ledger was configured with.
#[derive(Debug, PartialEq, Eq)]
pub struct Transfer {
    pub from: Address,
    pub to: Address,
    pub amount: i128,
}

/// The side effects of one successful operation, each list in the order in
/// which it is to be carried out.
#[derive(Debug, PartialEq, Eq)]
pub struct Effects<E> {
    pub transfers: Vec<Transfer>,
    pub events: Vec<E>,
}

impl<E> Effects<E> {
    /// No transfers and no events.
    pub fn none() -> (effects: Self)
        ensures
            effects.transfers@ == Seq::<Transfer>::empty(),
            effects.events@ == Seq::<E>::empty(),
    {
        Effects { transfers: Vec::new(), events: Vec::new() }
    }
}

/// The transfer of a fee from `from` to `recipient`: one transfer where the
/// fee is positive, else none.
pub open spec fn fee_transfers(from: Address, recipient: Address, fee: int) -> Seq<Transfer> {
    if fee > 0 {
        seq![Transfer { from, to: recipient, amount: fee as i128 }]
    } else {
        seq![]
    }
}

/// The amounts of `transfers`, added up.
pub open spec fn total_moved(transfers: Seq<Transfer>) -> int
    decreases transfers.len(),
{
    if transfers.len() == 0 {
        0
    } else {
        total_moved(transfers.drop_last()) + transfers.last().amount
    }
}

/// What two lists of transfers move together is the sum of what each moves.
pub proof fn lemma_total_moved_adds(first: Seq<Transfer>, second: Seq<Transfer>)
    ensures
        total_moved(first + second) == total_moved(first) + total_moved(second),
    decreases second.len(),
{
    if second.len() == 0 {
        assert(first + second =~= first);
    } else {
        lemma_total_moved_adds(first, second.drop_last());
        assert((first + second).drop_last() =~= first + second.drop_last());
    }
}

/// One transfer followed by the transfer of a fee that fits in `i128` moves
/// the transfer's amount and, where it is positive, the fee.
pub proof fn lemma_one_and_fee_move_both(
    first: Transfer,
    from: Address,
    recipient: Address,
    fee: int,
)
    requires
        fee <= i128::MAX,
    ensures
        fee > 0 ==> total_moved(seq![first] + fee_transfers(from, recipient, fee)) == first.amount
            + fee,
        fee <= 0 ==> total_moved(seq![first] + fee_transfers(from, recipient, fee))
            == first.amount,
{
    let one = seq![first];
    let rest = fee_transfers(from, recipient, fee);
    lemma_total_moved_adds(one, rest);
    assert(one.drop_last() =~= Seq::<Transfer>::empty());
    assert(total_moved(one) == first.amount) by {
        reveal_with_fuel(total_moved, 2);
    };
    if fee > 0 {
        assert(rest.drop_last() =~= Seq::<Transfer>::empty());
        assert(total_moved(rest) == fee) by {
            reveal_with_fuel(total_moved, 2);
        };
    }
}

} // verus!

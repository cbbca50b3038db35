//! A model of a ledger that settles each accepted transfer at once and charges
//! the payer a flat fee, and what a transfer through the facade does to it.

use crate::laws::{lemma_extends_by_one, lemma_extends_by_two, transfer_submits_the_transfer};
use crate::sdk::{pubkey_of, transfer_data};
use crate::thin_client::{transferred, Event};
use solana_sdk::pubkey::Pubkey;
use solana_sdk::signature::{Keypair, Signature};
use solana_sdk::transaction::Transaction;
use solana_sdk::transport::TransportError;
use vstd::bytes::{
    lemma_auto_spec_u64_to_from_le_bytes, spec_u64_from_le_bytes, spec_u64_to_le_bytes,
};
use vstd::prelude::*;

verus! {

/// The account that the first instruction of `transaction` names first.
pub open spec fn payer(transaction: Transaction) -> Pubkey {
    let message = transaction.message;
    message.account_keys@[message.instructions@[0].accounts@[0] as int]
}

/// The account that the first instruction of `transaction` names second.
pub open spec fn payee(transaction: Transaction) -> Pubkey {
    let message = transaction.message;
    message.account_keys@[message.instructions@[0].accounts@[1] as int]
}

/// The amount that the first instruction of `transaction` carries behind the
/// operation's index.
pub open spec fn amount(transaction: Transaction) -> int {
    spec_u64_from_le_bytes(transaction.message.instructions@[0].data@.subrange(4, 12)) as int
}

/// The balances once `transaction` is settled: the payer gives the amount and
/// the fee, then the payee receives the amount.
pub open spec fn settled(balances: Map<Pubkey, int>, transaction: Transaction, fee: int) -> Map<
    Pubkey,
    int,
> {
    let debited = balances.insert(
        payer(transaction),
        balances[payer(transaction)] - amount(transaction) - fee,
    );
    debited.insert(payee(transaction), debited[payee(transaction)] + amount(transaction))
}

/// The balances of a ledger that opened with `opening` and was asked what
/// `trace` records: every submission that it accepted is settled, in order, and
/// nothing else changes a balance.
pub open spec fn balances_after(opening: Map<Pubkey, int>, trace: Seq<Event>, fee: int) -> Map<
    Pubkey,
    int,
>
    decreases trace.len(),
{
    if trace.len() == 0 {
        opening
    } else {
        let earlier = balances_after(opening, trace.drop_last(), fee);
        match trace.last() {
            Event::Submitted(transaction, Ok(_)) => settled(earlier, transaction, fee),
            _ => earlier,
        }
    }
}

/// A successful transfer changes the balances of such a ledger by exactly the
/// amount: the recipient has the amount more, the sender the amount and the fee
/// less, and no other account is touched. A sender who pays themselves loses
/// the fee alone.
pub proof fn transfer_moves_the_amount(
    opening: Map<Pubkey, int>,
    fee: int,
    before: Seq<Event>,
    after: Seq<Event>,
    sender: &Keypair,
    to: Pubkey,
    lamports: u64,
    result: Result<Signature, TransportError>,
)
    requires
        transferred(before, after, sender, to, lamports, result),
        result is Ok,
    ensures
        ({
            let from = pubkey_of(*sender);
            let old_balances = balances_after(opening, before, fee);
            let new_balances = balances_after(opening, after, fee);
            &&& from != to ==> new_balances[to] == old_balances[to] + lamports
            &&& from != to ==> new_balances[from] == old_balances[from] - lamports - fee
            &&& from == to ==> new_balances[from] == old_balances[from] - fee
            &&& forall|other: Pubkey|
                other != from && other != to ==> new_balances[other] == old_balances[other]
        }),
{
    transfer_submits_the_transfer(before, after, sender, to, lamports, result);
    lemma_extends_by_two(before, after);
    let fetched = after.drop_last();
    lemma_extends_by_one(before, fetched);
    let transaction = after.last()->Submitted_0;
    assert(fetched.last() == after[before.len() as int]);
    assert(balances_after(opening, fetched, fee) == balances_after(opening, before, fee));
    assert(balances_after(opening, after, fee) == settled(
        balances_after(opening, before, fee),
        transaction,
        fee,
    ));
    lemma_auto_spec_u64_to_from_le_bytes();
    assert(transfer_data(lamports).subrange(4, 12) =~= spec_u64_to_le_bytes(lamports));
    assert(amount(transaction) == lamports);
}

/// A transfer that fails leaves every balance of such a ledger as it was,
/// whether the token fetch failed, and nothing was submitted, or the
/// submission was refused.
pub proof fn failed_transfer_moves_nothing(
    opening: Map<Pubkey, int>,
    fee: int,
    before: Seq<Event>,
    after: Seq<Event>,
    sender: &Keypair,
    to: Pubkey,
    lamports: u64,
    result: Result<Signature, TransportError>,
)
    requires
        transferred(before, after, sender, to, lamports, result),
        result is Err,
    ensures
        balances_after(opening, after, fee) == balances_after(opening, before, fee),
        after[before.len() as int] is Fetched,
        after[before.len() as int]->Fetched_0 is Err ==> after == before.push(
            after[before.len() as int],
        ),
{
    let n = before.len() as int;
    if after[n]->Fetched_0 is Ok {
        let fetched = after.drop_last();
        lemma_extends_by_two(before, after);
        lemma_extends_by_one(before, fetched);
        assert(after.last() == after[n + 1]);
        assert(fetched.last() == after[n]);
        assert(balances_after(opening, fetched, fee) == balances_after(opening, before, fee));
        assert(after.last()->Submitted_1 is Err);
        assert(balances_after(opening, after, fee) == balances_after(opening, fetched, fee));
    } else {
        lemma_extends_by_one(before, after);
        assert(after.last() == after[n]);
        assert(balances_after(opening, after, fee) == balances_after(opening, before, fee));
    }
}

} // verus!

//! What follows, for every transport, from the contracts of the facade.

use crate::sdk::{
    lemma_sender_signs_transfer, pubkey_of, signable, transfer_data, transfer_instruction_of,
};
use crate::thin_client::{
    extends_by, fetched_then_sent, primary_signature, sent, transfer_message, transferred, Event,
};
use solana_sdk::message::Message;
use solana_sdk::pubkey::Pubkey;
use solana_sdk::signature::{Keypair, Signature};
use solana_sdk::transport::TransportError;
use vstd::prelude::*;

verus! {

/// The number of submissions in a trace.
pub open spec fn submissions(trace: Seq<Event>) -> nat
    decreases trace.len(),
{
    if trace.len() == 0 {
        0
    } else {
        submissions(trace.drop_last()) + if trace.last() is Submitted {
            1nat
        } else {
            0nat
        }
    }
}

/// A trace that extends another by one event is that trace with the event
/// pushed behind it.
pub proof fn lemma_extends_by_one(before: Seq<Event>, after: Seq<Event>)
    requires
        extends_by(before, after, 1),
    ensures
        after == before.push(after[before.len() as int]),
        after.drop_last() == before,
{
    let n = before.len() as int;
    assert(after.subrange(0, n) == before);
    assert forall|i: int| 0 <= i < n implies after[i] == before[i] by {
        assert(after.subrange(0, n)[i] == after[i]);
    }
    assert(after =~= before.push(after[n]));
    assert(after.drop_last() =~= before);
}

/// A trace that extends another by two events is that trace with the two
/// events pushed behind it, in their order.
pub proof fn lemma_extends_by_two(before: Seq<Event>, after: Seq<Event>)
    requires
        extends_by(before, after, 2),
    ensures
        after == before.push(after[before.len() as int]).push(after[before.len() as int + 1]),
        extends_by(before, after.drop_last(), 1),
        after.drop_last()[before.len() as int] == after[before.len() as int],
{
    let n = before.len() as int;
    assert(after.subrange(0, n) == before);
    assert forall|i: int| 0 <= i < n implies after[i] == before[i] by {
        assert(after.subrange(0, n)[i] == after[i]);
    }
    assert(after =~= before.push(after[n]).push(after[n + 1]));
    assert(after.drop_last().subrange(0, n) =~= before);
}

/// The signature that a successful send returns is the one in the primary
/// signer's slot of the transaction that the transport was handed: the last
/// event of the trace is that submission, accepted.
pub proof fn returned_signature_is_the_submitted_one(
    before: Seq<Event>,
    after: Seq<Event>,
    signers: Seq<&Keypair>,
    message: Message,
    result: Result<Signature, TransportError>,
)
    requires
        sent(before, after, signers, message, result),
        result is Ok,
    ensures
        extends_by(before, after, 2),
        after.last() is Submitted,
        after.last()->Submitted_1 is Ok,
        result == Ok::<Signature, TransportError>(primary_signature(after.last()->Submitted_0)),
{
}

/// Where the token fetch fails, the send fails with the same failure and the
/// transport is handed nothing: the failed fetch is the only new event.
pub proof fn failed_fetch_submits_nothing(
    before: Seq<Event>,
    after: Seq<Event>,
    signers: Seq<&Keypair>,
    message: Message,
    result: Result<Signature, TransportError>,
    failure: TransportError,
)
    requires
        sent(before, after, signers, message, result),
        after[before.len() as int] == Event::Fetched(Err(failure)),
    ensures
        result == Err::<Signature, TransportError>(failure),
        after == before.push(Event::Fetched(Err(failure))),
        submissions(after) == submissions(before),
{
    lemma_extends_by_one(before, after);
    assert(after.last() == after[before.len() as int]);
    assert(submissions(after) == submissions(before));
}

/// Where the token fetch fails, a send that fetches before it looks at the
/// signers fails with the same failure, whoever the signers are, and the
/// transport is handed nothing: the failed fetch is the only new event.
pub proof fn failed_fetch_fails_whatever_the_signers(
    before: Seq<Event>,
    after: Seq<Event>,
    signers: Seq<&Keypair>,
    message: Message,
    result: Option<Result<Signature, TransportError>>,
    failure: TransportError,
)
    requires
        fetched_then_sent(before, after, signers, message, result),
        after[before.len() as int] == Event::Fetched(Err(failure)),
    ensures
        result == Some(Err::<Signature, TransportError>(failure)),
        after == before.push(Event::Fetched(Err(failure))),
        submissions(after) == submissions(before),
{
    lemma_extends_by_one(before, after);
    assert(after.last() == after[before.len() as int]);
    assert(submissions(after) == submissions(before));
}

/// A send that fetches first asks for exactly one token, and submits once
/// where the fetch succeeded and the signers are the ones that the message
/// requires, and never otherwise.
pub proof fn fetching_send_submits_at_most_once(
    before: Seq<Event>,
    after: Seq<Event>,
    signers: Seq<&Keypair>,
    message: Message,
    result: Option<Result<Signature, TransportError>>,
)
    requires
        fetched_then_sent(before, after, signers, message, result),
    ensures
        after[before.len() as int] is Fetched,
        submissions(after) == submissions(before) + if after[before.len() as int]->Fetched_0
            is Ok && signable(signers, message) {
            1nat
        } else {
            0nat
        },
        result is None <==> after[before.len() as int]->Fetched_0 is Ok && !signable(
            signers,
            message,
        ),
{
    let n = before.len() as int;
    if after[n]->Fetched_0 is Ok && signable(signers, message) {
        send_submits_at_most_once(before, after, signers, message, result->Some_0);
    } else {
        lemma_extends_by_one(before, after);
        assert(after.last() == after[n]);
        assert(submissions(after) == submissions(before));
    }
}

/// Where the submission fails, the send returns that failure, and the
/// transaction was submitted once only.
pub proof fn failed_submission_is_returned(
    before: Seq<Event>,
    after: Seq<Event>,
    signers: Seq<&Keypair>,
    message: Message,
    result: Result<Signature, TransportError>,
    failure: TransportError,
)
    requires
        sent(before, after, signers, message, result),
        after.last() is Submitted,
        after.last()->Submitted_1 == Err::<(), TransportError>(failure),
    ensures
        result == Err::<Signature, TransportError>(failure),
        submissions(after) == submissions(before) + 1,
{
    send_submits_at_most_once(before, after, signers, message, result);
}

/// A send fetches one token and submits once where the fetch succeeded, never
/// where it failed; a send that succeeds has submitted exactly once.
pub proof fn send_submits_at_most_once(
    before: Seq<Event>,
    after: Seq<Event>,
    signers: Seq<&Keypair>,
    message: Message,
    result: Result<Signature, TransportError>,
)
    requires
        sent(before, after, signers, message, result),
    ensures
        after[before.len() as int] is Fetched,
        submissions(after) == submissions(before) + if after[before.len() as int]->Fetched_0
            is Ok {
            1nat
        } else {
            0nat
        },
        result is Ok ==> submissions(after) == submissions(before) + 1,
{
    let n = before.len() as int;
    if after[n]->Fetched_0 is Ok {
        let fetched = after.drop_last();
        lemma_extends_by_two(before, after);
        lemma_extends_by_one(before, fetched);
        assert(after.last() == after[n + 1]);
        assert(fetched.last() == after[n]);
        assert(submissions(fetched) == submissions(before));
        assert(submissions(after) == submissions(fetched) + 1);
    } else {
        lemma_extends_by_one(before, after);
        assert(after.last() == after[n]);
        assert(submissions(after) == submissions(before));
    }
}

/// Sending is not idempotent: two successful sends of the same message for the
/// same signers are two operations. Each fetches a token of its own, and the
/// transport is handed two transactions, the second behind the first, each
/// under the token of its own fetch and each answered by the signature that its
/// send returned. The two transactions differ exactly where the two tokens do.
pub proof fn two_sends_are_two_submissions(
    start: Seq<Event>,
    between: Seq<Event>,
    end: Seq<Event>,
    signers: Seq<&Keypair>,
    message: Message,
    first: Result<Signature, TransportError>,
    second: Result<Signature, TransportError>,
)
    requires
        sent(start, between, signers, message, first),
        sent(between, end, signers, message, second),
        first is Ok,
        second is Ok,
    ensures
        extends_by(start, end, 4),
        submissions(end) == submissions(start) + 2,
        end[start.len() as int] is Fetched,
        end[start.len() as int + 1] is Submitted,
        end[start.len() as int + 2] is Fetched,
        end[start.len() as int + 3] is Submitted,
        first == Ok::<Signature, TransportError>(
            primary_signature(end[start.len() as int + 1]->Submitted_0),
        ),
        second == Ok::<Signature, TransportError>(
            primary_signature(end[start.len() as int + 3]->Submitted_0),
        ),
        ({
            let first_token = end[start.len() as int]->Fetched_0->Ok_0.0;
            let second_token = end[start.len() as int + 2]->Fetched_0->Ok_0.0;
            let first_submitted = end[start.len() as int + 1]->Submitted_0;
            let second_submitted = end[start.len() as int + 3]->Submitted_0;
            &&& first_submitted.message.recent_blockhash == first_token
            &&& second_submitted.message.recent_blockhash == second_token
            &&& first_token != second_token ==> first_submitted != second_submitted
            &&& first_token == second_token ==> first_submitted == second_submitted
        }),
{
    let n = start.len() as int;
    send_submits_at_most_once(start, between, signers, message, first);
    send_submits_at_most_once(between, end, signers, message, second);
    lemma_extends_by_two(start, between);
    lemma_extends_by_two(between, end);
    assert(end.subrange(0, n) =~= start);
}

/// A successful transfer hands the transport exactly one transaction, and that
/// transaction is the transfer asked for: the sender alone signs it, in the
/// first slot, with the signature that the call returned; its one instruction
/// names the sender's account first and the recipient's second and carries the
/// amount; and it is under the token that this call fetched.
pub proof fn transfer_submits_the_transfer(
    before: Seq<Event>,
    after: Seq<Event>,
    sender: &Keypair,
    to: Pubkey,
    lamports: u64,
    result: Result<Signature, TransportError>,
)
    requires
        transferred(before, after, sender, to, lamports, result),
        result is Ok,
    ensures
        submissions(after) == submissions(before) + 1,
        after.last() is Submitted,
        after[before.len() as int] is Fetched,
        after[before.len() as int]->Fetched_0 is Ok,
        ({
            let transaction = after.last()->Submitted_0;
            let message = transaction.message;
            let fetched = after[before.len() as int]->Fetched_0->Ok_0;
            &&& result == Ok::<Signature, TransportError>(primary_signature(transaction))
            &&& transaction.signatures@.len() == 1
            &&& message.recent_blockhash == fetched.0
            &&& message.header.num_required_signatures == 1
            &&& message.account_keys@[0] == pubkey_of(*sender)
            &&& message.instructions@.len() == 1
            &&& message.instructions@[0].data@ == transfer_data(lamports)
            &&& message.instructions@[0].accounts@.len() == 2
            &&& message.account_keys@[message.instructions@[0].accounts@[0] as int] == pubkey_of(
                *sender,
            )
            &&& message.account_keys@[message.instructions@[0].accounts@[1] as int] == to
        }),
{
    let from = pubkey_of(*sender);
    let instruction = transfer_instruction_of(from, to, lamports);
    let asked = transfer_message(from, to, lamports);
    lemma_sender_signs_transfer(sender, to, lamports, instruction, asked);
    send_submits_at_most_once(before, after, seq![sender], asked, result);
    lemma_extends_by_two(before, after);
    assert(asked.instructions@[0].accounts@[0] as int >= 0);
    assert(asked.instructions@[0].accounts@[1] as int >= 0);
}

} // verus!

//! The transport capability and the client facade built on it.
//!
//! A transport keeps a trace: one event for each operation asked of it, with
//! what was asked and what it answered. The facade's contracts say which events
//! a call adds to that trace and how the call's result follows from them.

use crate::sdk::{
    compiles, is_transfer, keypair_pubkey, lemma_sender_signs_transfer, message_of, pubkey_of,
    sign_transaction, signable, signed_over, signed_transaction, single_instruction_message,
    transfer_instruction, transfer_instruction_of,
};
use crate::signing::signers_match;
use solana_sdk::fee_calculator::FeeCalculator;
use solana_sdk::message::Message;
use solana_sdk::pubkey::Pubkey;
use solana_sdk::signature::{Keypair, Signature};
use solana_sdk::transaction::Transaction;
use solana_sdk::transport::TransportError;
use vstd::prelude::*;

verus! {

/// One operation asked of a transport, with its answer.
pub enum Event {
    /// An anti-replay token and its fee schedule were asked for.
    Fetched(Result<(solana_sdk::hash::Hash, FeeCalculator), TransportError>),
    /// A signed transaction was handed over for submission and confirmation.
    Submitted(Transaction, Result<(), TransportError>),
    /// The balance of an account was asked for.
    Balance(Pubkey, Result<u64, TransportError>),
}

/// The record of what was asked of a transport, oldest first.
pub type Trace = Seq<Event>;

/// What a ledger backend must offer. Each operation adds to the trace exactly
/// the event that records its argument and its answer; nothing is promised of
/// the answer itself.
pub trait Client {
    /// The operations asked of this transport so far, oldest first.
    spec fn trace(&self) -> Trace;

    /// Submits a fully signed transaction and returns once the backend has
    /// accepted it durably, or has failed to.
    fn send_and_confirm_transaction1(&mut self, transaction: Transaction) -> (outcome: Result<
        (),
        TransportError,
    >)
        ensures
            final(self).trace() == old(self).trace().push(Event::Submitted(transaction, outcome)),
    ;

    /// The balance of an account, in the smallest unit.
    fn get_balance1(&mut self, pubkey: &Pubkey) -> (balance: Result<u64, TransportError>)
        ensures
            final(self).trace() == old(self).trace().push(Event::Balance(*pubkey, balance)),
    ;

    /// A currently valid anti-replay token and its fee schedule.
    fn get_recent_blockhash_and_fees(&mut self) -> (fetched: Result<
        (solana_sdk::hash::Hash, FeeCalculator),
        TransportError,
    >)
        ensures
            final(self).trace() == old(self).trace().push(Event::Fetched(fetched)),
    ;
}

/// A backend's own answer in the transport's taxonomy: a success as it is, a
/// failure as the custom transport failure that carries its cause.
pub open spec fn translation<T>(answer: Result<T, String>) -> Result<T, TransportError> {
    match answer {
        Ok(value) => Ok(value),
        Err(cause) => Err(TransportError::Custom(cause)),
    }
}

/// Translates the answer of a backend, whose failure has been put into words,
/// into the one taxonomy that crosses the facade.
pub fn translated<T>(answer: Result<T, String>) -> (result: Result<T, TransportError>)
    ensures
        result == translation(answer),
{
    match answer {
        Ok(value) => Ok(value),
        Err(cause) => Err(TransportError::Custom(cause)),
    }
}

/// The facade over one transport, chosen when the facade is made.
pub struct ThinClient<C: Client>(pub C);

/// The primary signer's signature: the one in the first slot.
pub open spec fn primary_signature(transaction: Transaction) -> Signature
    recommends
        transaction.signatures@.len() > 0,
{
    transaction.signatures@[0]
}

/// What a send returns once the transport has answered the submission: the
/// signature taken before submitting, or the transport's failure.
pub open spec fn send_outcome(signature: Signature, outcome: Result<(), TransportError>) -> Result<
    Signature,
    TransportError,
> {
    match outcome {
        Ok(_) => Ok(signature),
        Err(e) => Err(e),
    }
}

/// `after` is `before` with exactly `added` events behind it.
pub open spec fn extends_by(before: Seq<Event>, after: Seq<Event>, added: int) -> bool {
    &&& after.len() == before.len() + added
    &&& after.subrange(0, before.len() as int) == before
}

/// What sending `message` for `signers` does to a transport's trace, and the
/// result it gives. Either the token fetch fails, which is the one new event and
/// the result; or it succeeds and is followed by one submission, that of the
/// transaction signed under the fetched token, whose primary signature is the
/// result where the submission succeeds and whose failure is the result where
/// it fails.
pub open spec fn sent(
    before: Seq<Event>,
    after: Seq<Event>,
    signers: Seq<&Keypair>,
    message: Message,
    result: Result<Signature, TransportError>,
) -> bool {
    let n = before.len() as int;
    &&& after.len() > n
    &&& match after[n] {
        Event::Fetched(Err(e)) => extends_by(before, after, 1) && result == Err::<
            Signature,
            TransportError,
        >(e),
        Event::Fetched(Ok((blockhash, _))) => {
            &&& extends_by(before, after, 2)
            &&& match after[n + 1] {
                Event::Submitted(transaction, outcome) => {
                    &&& transaction == signed_transaction(signers, message, blockhash)
                    &&& signed_over(transaction, message, blockhash)
                    &&& result == send_outcome(primary_signature(transaction), outcome)
                },
                _ => false,
            }
        },
        _ => false,
    }
}

/// What fetching a token first, and sending only then, does to a transport's
/// trace, and the result it gives. The fetch is the first new event in any
/// case. Where it fails, it is the only one and its failure is the result,
/// whatever the signers. Where it succeeds and the signers are the ones that
/// the message requires, the rest is as in `sent`. Where it succeeds and they
/// are not, nothing is signed or submitted and there is no result.
pub open spec fn fetched_then_sent(
    before: Seq<Event>,
    after: Seq<Event>,
    signers: Seq<&Keypair>,
    message: Message,
    result: Option<Result<Signature, TransportError>>,
) -> bool {
    let n = before.len() as int;
    &&& after.len() > n
    &&& match after[n] {
        Event::Fetched(Err(e)) => extends_by(before, after, 1) && result == Some(
            Err::<Signature, TransportError>(e),
        ),
        Event::Fetched(Ok(_)) => if signable(signers, message) {
            result is Some && sent(before, after, signers, message, result->Some_0)
        } else {
            extends_by(before, after, 1) && result is None
        },
        _ => false,
    }
}

/// The message of a transfer of `lamports` from `from` to `to`.
pub open spec fn transfer_message(from: Pubkey, to: Pubkey, lamports: u64) -> Message {
    message_of(transfer_instruction_of(from, to, lamports))
}

/// What transferring `lamports` from `sender` to `to` does to a transport's
/// trace, and the result it gives: those of sending, for the sender alone, the
/// message that holds the one transfer instruction, compiled.
pub open spec fn transferred(
    before: Seq<Event>,
    after: Seq<Event>,
    sender: &Keypair,
    to: Pubkey,
    lamports: u64,
    result: Result<Signature, TransportError>,
) -> bool {
    let from = pubkey_of(*sender);
    let instruction = transfer_instruction_of(from, to, lamports);
    &&& is_transfer(instruction, from, to, lamports)
    &&& compiles(transfer_message(from, to, lamports), instruction)
    &&& sent(before, after, seq![sender], transfer_message(from, to, lamports), result)
}

/// Signs `message` under `blockhash` and takes the primary signer's signature
/// out of the signed transaction, so that it is in hand before the transaction
/// is given away.
pub fn sign_message(message: Message, signers: &Vec<&Keypair>, blockhash: solana_sdk::hash::Hash) -> (signed: (
    Transaction,
    Signature,
))
    requires
        signable(signers@, message),
    ensures
        signed.0 == signed_transaction(signers@, message, blockhash),
        signed_over(signed.0, message, blockhash),
        signed.1 == primary_signature(signed.0),
{
    let transaction = sign_transaction(signers, message, blockhash);
    let signature = transaction.signatures[0];
    (transaction, signature)
}

/// The result of a send whose submission the transport answered with `outcome`.
pub fn confirmed(signature: Signature, outcome: Result<(), TransportError>) -> (result: Result<
    Signature,
    TransportError,
>)
    ensures
        result == send_outcome(signature, outcome),
{
    match outcome {
        Ok(_) => Ok(signature),
        Err(e) => Err(e),
    }
}

impl<C: Client> ThinClient<C> {
    /// The trace of the transport that this facade owns.
    pub open spec fn trace(&self) -> Seq<Event> {
        self.0.trace()
    }

    /// Hands a signed transaction to the transport, once, and returns its answer.
    pub fn send_transaction(&mut self, transaction: Transaction) -> (outcome: Result<
        (),
        TransportError,
    >)
        ensures
            final(self).trace() == old(self).trace().push(Event::Submitted(transaction, outcome)),
    {
        self.0.send_and_confirm_transaction1(transaction)
    }

    /// Fetches a fresh anti-replay token, signs `message` under it, and submits
    /// the signed transaction. Nothing is submitted where the fetch fails, and
    /// nothing is tried twice.
    pub fn send_message(&mut self, message: Message, signers: &Vec<&Keypair>) -> (result: Result<
        Signature,
        TransportError,
    >)
        requires
            signable(signers@, message),
        ensures
            sent(old(self).trace(), final(self).trace(), signers@, message, result),
    {
        let ghost before = self.trace();
        let fetched = self.0.get_recent_blockhash_and_fees();
        match fetched {
            Err(e) => {
                proof {
                    assert(self.trace().subrange(0, before.len() as int) =~= before);
                }
                Err(e)
            },
            Ok((blockhash, _fee_calculator)) => {
                let (transaction, signature) = sign_message(message, signers, blockhash);
                let outcome = self.send_transaction(transaction);
                proof {
                    assert(self.trace().subrange(0, before.len() as int) =~= before);
                }
                confirmed(signature, outcome)
            },
        }
    }

    /// Sends `message` as `send_message` does where `signers` are the ones it
    /// requires, and asks nothing of the transport where they are not.
    pub fn try_send_message(&mut self, message: Message, signers: &Vec<&Keypair>) -> (result:
        Option<Result<Signature, TransportError>>)
        ensures
            match result {
                Some(answer) => {
                    &&& signable(signers@, message)
                    &&& sent(old(self).trace(), final(self).trace(), signers@, message, answer)
                },
                None => !signable(signers@, message) && final(self).trace() == old(self).trace(),
            },
    {
        if signers_match(&message, signers) {
            Some(self.send_message(message, signers))
        } else {
            None
        }
    }

    /// Fetches a fresh anti-replay token before it looks at the signers. A
    /// failed fetch is returned whatever the signers; after a successful one
    /// the message is signed and submitted where the signers are the ones it
    /// requires, and nothing more is asked of the transport where they are not.
    pub fn fetch_then_send_message(&mut self, message: Message, signers: &Vec<&Keypair>) -> (result:
        Option<Result<Signature, TransportError>>)
        ensures
            fetched_then_sent(old(self).trace(), final(self).trace(), signers@, message, result),
    {
        let ghost before = self.trace();
        let fetched = self.0.get_recent_blockhash_and_fees();
        proof {
            assert(self.trace().subrange(0, before.len() as int) =~= before);
        }
        match fetched {
            Err(e) => Some(Err(e)),
            Ok((blockhash, _fee_calculator)) => {
                if signers_match(&message, signers) {
                    let (transaction, signature) = sign_message(message, signers, blockhash);
                    let outcome = self.send_transaction(transaction);
                    proof {
                        assert(self.trace().subrange(0, before.len() as int) =~= before);
                    }
                    Some(confirmed(signature, outcome))
                } else {
                    None
                }
            },
        }
    }

    /// Moves `lamports` from the sender's account to `to_pubkey`: one transfer
    /// instruction, in a message whose only signer is the sender, sent as
    /// `send_message` sends it.
    pub fn transfer(&mut self, lamports: u64, sender_keypair: &Keypair, to_pubkey: &Pubkey) -> (result:
        Result<Signature, TransportError>)
        ensures
            transferred(
                old(self).trace(),
                final(self).trace(),
                sender_keypair,
                *to_pubkey,
                lamports,
                result,
            ),
    {
        let from = keypair_pubkey(sender_keypair);
        let create_instruction = transfer_instruction(&from, to_pubkey, lamports);
        let message = single_instruction_message(create_instruction);
        let mut signers: Vec<&Keypair> = Vec::new();
        signers.push(sender_keypair);
        proof {
            assert(signers@ =~= seq![sender_keypair]);
            lemma_sender_signs_transfer(
                sender_keypair,
                *to_pubkey,
                lamports,
                create_instruction,
                message,
            );
        }
        self.send_message(message, &signers)
    }

    /// Asks the transport, once, for a fresh anti-replay token and its fee
    /// schedule, and returns its answer.
    pub fn get_recent_blockhash_and_fees(&mut self) -> (fetched: Result<
        (solana_sdk::hash::Hash, FeeCalculator),
        TransportError,
    >)
        ensures
            final(self).trace() == old(self).trace().push(Event::Fetched(fetched)),
    {
        self.0.get_recent_blockhash_and_fees()
    }

    /// Asks the transport, once, for the balance of `pubkey`, and returns its
    /// answer.
    pub fn get_balance(&mut self, pubkey: &Pubkey) -> (balance: Result<u64, TransportError>)
        ensures
            final(self).trace() == old(self).trace().push(Event::Balance(*pubkey, balance)),
    {
        self.0.get_balance1(pubkey)
    }
}

} // verus!

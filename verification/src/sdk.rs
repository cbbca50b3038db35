//! The ledger SDK's data types as the verifier sees them, and the calls into it.
//!
//! Messages, instructions and transactions are plain data with public fields, so
//! contracts speak of those fields directly. Keys, hashes, signatures and
//! keypairs are carried through as opaque values.

use solana_sdk::fee_calculator::FeeCalculator;
use solana_sdk::instruction::{AccountMeta, CompiledInstruction, Instruction};
use solana_sdk::message::{Message, MessageHeader};
use solana_sdk::pubkey::Pubkey;
use solana_sdk::signature::{Keypair, Signature, Signer};
use solana_sdk::system_instruction;
use solana_sdk::transaction::Transaction;
use solana_sdk::transport::TransportError;
use vstd::bytes::spec_u64_to_le_bytes;
use vstd::prelude::*;

verus! {

/// `Pubkey`, an account identifier, carried as an opaque value.
#[verifier::external_type_specification]
#[verifier::external_body]
pub struct ExPubkey(Pubkey);

/// `Hash`, here an anti-replay token, carried as an opaque value.
#[verifier::external_type_specification]
#[verifier::external_body]
pub struct ExHash(solana_sdk::hash::Hash);

/// `Signature`, carried as an opaque value.
#[verifier::external_type_specification]
#[verifier::external_body]
pub struct ExSignature(Signature);

/// `Keypair`, a signing credential, carried as an opaque value.
#[verifier::external_type_specification]
#[verifier::external_body]
pub struct ExKeypair(Keypair);

/// `FeeCalculator`, a fee schedule, carried as an opaque value.
#[verifier::external_type_specification]
#[verifier::external_body]
pub struct ExFeeCalculator(FeeCalculator);

/// `std::io::Error`, carried as an opaque value inside a transport failure.
#[verifier::external_type_specification]
#[verifier::external_body]
pub struct ExIoError(std::io::Error);

/// `TransactionError`, carried as an opaque value inside a transport failure.
#[verifier::external_type_specification]
#[verifier::external_body]
pub struct ExTransactionError(solana_sdk::transaction::TransactionError);

/// `TransportError`, with its three kinds of failure.
#[verifier::external_type_specification]
pub struct ExTransportError(TransportError);

/// `AccountMeta`, with its public fields.
#[verifier::external_type_specification]
pub struct ExAccountMeta(AccountMeta);

/// `Instruction`, with its public fields.
#[verifier::external_type_specification]
pub struct ExInstruction(Instruction);

/// `CompiledInstruction`, with its public fields.
#[verifier::external_type_specification]
pub struct ExCompiledInstruction(CompiledInstruction);

/// `MessageHeader`, with its public fields.
#[verifier::external_type_specification]
pub struct ExMessageHeader(MessageHeader);

/// `Message`, with its public fields.
#[verifier::external_type_specification]
pub struct ExMessage(Message);

/// `Transaction`, with its public fields.
#[verifier::external_type_specification]
pub struct ExTransaction(Transaction);

/// The longest sequence that the wire format's short length prefix can announce.
pub const MAX_SHORT_LEN: usize = 65535;

/// The public identifier of a signing credential.
pub uninterp spec fn pubkey_of(keypair: Keypair) -> Pubkey;

/// The instruction by which the system program moves `lamports` from `from` to `to`.
pub uninterp spec fn transfer_instruction_of(from: Pubkey, to: Pubkey, lamports: u64) -> Instruction;

/// The message that carries one instruction and names no separate fee payer.
pub uninterp spec fn message_of(instruction: Instruction) -> Message;

/// The transaction that `signers` make of `message` under the anti-replay token `blockhash`.
pub uninterp spec fn signed_transaction(
    signers: Seq<&Keypair>,
    message: Message,
    blockhash: solana_sdk::hash::Hash,
) -> Transaction;

/// The number of leading account keys of `message` that must sign.
pub open spec fn required_signatures(message: Message) -> int {
    message.header.num_required_signatures as int
}

/// `key` is one of the accounts that `instruction` asks a signature of.
pub open spec fn asks_signature_of(instruction: Instruction, key: Pubkey) -> bool {
    exists|a: int|
        0 <= a < instruction.accounts@.len() && (#[trigger] instruction.accounts@[a]).is_signer
            && instruction.accounts@[a].pubkey == key
}

/// `key` stands among the first `n` of `keys`.
pub open spec fn among_first(keys: Seq<Pubkey>, n: int, key: Pubkey) -> bool {
    exists|j: int| 0 <= j < n && j < keys.len() && #[trigger] keys[j] == key
}

/// The first `n` of `keys` differ from one another.
pub open spec fn first_distinct(keys: Seq<Pubkey>, n: int) -> bool {
    forall|j: int, k: int| 0 <= j < k < n ==> keys[j] != keys[k]
}

/// `key` is the identifier of one of `signers`.
pub open spec fn signs(signers: Seq<&Keypair>, key: Pubkey) -> bool {
    exists|i: int| 0 <= i < signers.len() && pubkey_of(*#[trigger] signers[i]) == key
}

/// Every length that the wire format prefixes fits its short length prefix.
pub open spec fn encodable(message: Message) -> bool {
    &&& message.account_keys@.len() <= MAX_SHORT_LEN
    &&& message.instructions@.len() <= MAX_SHORT_LEN
    &&& forall|k: int|
        0 <= k < message.instructions@.len() ==> {
            &&& (#[trigger] message.instructions@[k]).accounts@.len() <= MAX_SHORT_LEN
            &&& message.instructions@[k].data@.len() <= MAX_SHORT_LEN
        }
}

/// `signers` are exactly the credentials that `message` requires: the message has
/// a primary signer, its signing keys are distinct leading account keys, each of
/// them belongs to a signer and each signer owns one of them.
pub open spec fn signable(signers: Seq<&Keypair>, message: Message) -> bool {
    let keys = message.account_keys@;
    let n = required_signatures(message);
    &&& 1 <= n <= keys.len()
    &&& encodable(message)
    &&& first_distinct(keys, n)
    &&& forall|j: int| 0 <= j < n ==> signs(signers, #[trigger] keys[j])
    &&& forall|i: int|
        0 <= i < signers.len() ==> among_first(keys, n, pubkey_of(*#[trigger] signers[i]))
}

/// The bytes that tell the system program to move `lamports`: the operation's
/// index as four little-endian bytes, then the amount as eight.
pub open spec fn transfer_data(lamports: u64) -> Seq<u8> {
    seq![2u8, 0u8, 0u8, 0u8] + spec_u64_to_le_bytes(lamports)
}

/// Calls `PartialEq::eq` on two account identifiers. Claimed: it tells whether
/// the two are the same identifier.
#[verifier::external_body]
pub(crate) fn same_key(a: &Pubkey, b: &Pubkey) -> (same: bool)
    ensures
        same == (*a == *b),
{
    a == b
}

/// Calls `Signer::pubkey` on a keypair. Claimed: the key returned depends on the
/// keypair alone.
#[verifier::external_body]
pub(crate) fn keypair_pubkey(keypair: &Keypair) -> (key: Pubkey)
    ensures
        key == pubkey_of(*keypair),
{
    keypair.pubkey()
}

/// `instruction` lists `from` as a writable signer, then `to` as a writable
/// non-signer, and carries the transfer of `lamports` as its data.
pub open spec fn is_transfer(instruction: Instruction, from: Pubkey, to: Pubkey, lamports: u64) -> bool {
    &&& instruction.accounts@.len() == 2
    &&& instruction.accounts@[0].pubkey == from
    &&& instruction.accounts@[0].is_signer
    &&& instruction.accounts@[0].is_writable
    &&& instruction.accounts@[1].pubkey == to
    &&& !instruction.accounts@[1].is_signer
    &&& instruction.accounts@[1].is_writable
    &&& instruction.data@ == transfer_data(lamports)
}

/// `message` holds `instruction` alone, compiled: its account keys are distinct
/// and are no more than the listed accounts and the program; its leading,
/// signing keys are exactly the accounts that the instruction asks a signature
/// of; its one compiled instruction keeps the data and names each listed
/// account by the index of its key.
pub open spec fn compiles(message: Message, instruction: Instruction) -> bool {
    let keys = message.account_keys@;
    let n = required_signatures(message);
    &&& 0 <= n <= keys.len()
    &&& keys.len() <= instruction.accounts@.len() + 1
    &&& forall|j: int, k: int| 0 <= j < k < keys.len() ==> keys[j] != keys[k]
    &&& forall|j: int| 0 <= j < n ==> asks_signature_of(instruction, #[trigger] keys[j])
    &&& forall|a: int|
        0 <= a < instruction.accounts@.len() && (#[trigger] instruction.accounts@[a]).is_signer
            ==> among_first(keys, n, instruction.accounts@[a].pubkey)
    &&& message.instructions@.len() == 1
    &&& message.instructions@[0].accounts@.len() == instruction.accounts@.len()
    &&& message.instructions@[0].data@ == instruction.data@
    &&& forall|a: int|
        0 <= a < instruction.accounts@.len() ==> {
            &&& (#[trigger] message.instructions@[0].accounts@[a] as int) < keys.len()
            &&& keys[message.instructions@[0].accounts@[a] as int]
                == instruction.accounts@[a].pubkey
        }
}

/// `transaction` is `message` under the anti-replay token `blockhash`, with one
/// signature slot for each required signer.
pub open spec fn signed_over(
    transaction: Transaction,
    message: Message,
    blockhash: solana_sdk::hash::Hash,
) -> bool {
    &&& transaction.signatures@.len() == required_signatures(message)
    &&& transaction.message.header == message.header
    &&& transaction.message.account_keys@ == message.account_keys@
    &&& transaction.message.instructions@ == message.instructions@
    &&& transaction.message.recent_blockhash == blockhash
}

/// Calls `system_instruction::transfer`. Claimed: the instruction depends on the
/// arguments alone; it lists the source as a writable signer and then the
/// destination as a writable non-signer; its data is the serialized transfer
/// operation.
#[verifier::external_body]
pub(crate) fn transfer_instruction(from: &Pubkey, to: &Pubkey, lamports: u64) -> (instruction:
    Instruction)
    ensures
        instruction == transfer_instruction_of(*from, *to, lamports),
        is_transfer(instruction, *from, *to, lamports),
{
    system_instruction::transfer(from, to, lamports)
}

/// Calls `Message::new` on one instruction, with no fee payer. Required: at
/// most 254 listed accounts, so that with the program's key no more than 255
/// keys are counted, which is what the header's one-byte counters hold.
/// Claimed: the message depends on the instruction alone, and it holds the
/// instruction compiled, each listed account as the index of its key.
#[verifier::external_body]
pub(crate) fn single_instruction_message(instruction: Instruction) -> (message: Message)
    requires
        instruction.accounts@.len() <= 254,
    ensures
        message == message_of(instruction),
        compiles(message, instruction),
{
    Message::new(&[instruction], None)
}

/// Calls `Transaction::new`, which builds the unsigned transaction and signs it
/// in place. Required: what keeps it from panicking, that the signers are
/// exactly those the message requires and that the message can be serialized;
/// that then every slot counts as signed rests on no keypair's signature being
/// the all-zero one. Claimed: the transaction depends on the arguments alone;
/// it has one signature slot per required signer; its message is the given one
/// with the anti-replay token set.
#[verifier::external_body]
pub(crate) fn sign_transaction(signers: &Vec<&Keypair>, message: Message, blockhash: solana_sdk::hash::Hash) -> (transaction:
    Transaction)
    requires
        signable(signers@, message),
    ensures
        transaction == signed_transaction(signers@, message, blockhash),
        signed_over(transaction, message, blockhash),
{
    Transaction::new(signers, message, blockhash)
}

/// The sender of a transfer is exactly the signer that the transfer's message
/// requires.
pub proof fn lemma_sender_signs_transfer(
    sender: &Keypair,
    to: Pubkey,
    lamports: u64,
    instruction: Instruction,
    message: Message,
)
    requires
        is_transfer(instruction, pubkey_of(*sender), to, lamports),
        compiles(message, instruction),
    ensures
        signable(seq![sender], message),
        required_signatures(message) == 1,
        message.account_keys@[0] == pubkey_of(*sender),
{
    let keys = message.account_keys@;
    let n = required_signatures(message);
    let from = pubkey_of(*sender);
    let signers = seq![sender];
    assert(instruction.accounts@[0].is_signer);
    assert(among_first(keys, n, from));
    assert forall|j: int| 0 <= j < n implies #[trigger] keys[j] == from by {
        assert(asks_signature_of(instruction, keys[j]));
        let a = choose|a: int|
            0 <= a < instruction.accounts@.len() && (#[trigger] instruction.accounts@[a]).is_signer
                && instruction.accounts@[a].pubkey == keys[j];
        assert(a == 0);
    }
    if n >= 2 {
        assert(keys[0] == from);
        assert(keys[1] == from);
        assert(false);
    }
    assert(n == 1);
    assert(pubkey_of(*signers[0]) == from);
    assert forall|j: int| 0 <= j < n implies signs(signers, #[trigger] keys[j]) by {
        assert(pubkey_of(*signers[0]) == keys[j]);
    }
    assert forall|i: int| 0 <= i < signers.len() implies among_first(
        keys,
        n,
        pubkey_of(*#[trigger] signers[i]),
    ) by {
        assert(keys[0] == pubkey_of(*signers[i]));
    }
    vstd::bytes::lemma_auto_spec_u64_to_from_le_bytes();
    assert(transfer_data(lamports).len() == 12);
    assert(encodable(message));
}

} // verus!

//! Deciding, before anything is signed, whether a set of signers is the one
//! that a message requires.

use crate::sdk::{
    among_first, encodable, first_distinct, keypair_pubkey, pubkey_of, required_signatures,
    same_key, signable, signs, MAX_SHORT_LEN,
};
use solana_sdk::message::Message;
use solana_sdk::pubkey::Pubkey;
use solana_sdk::signature::Keypair;
use vstd::prelude::*;

verus! {

/// Whether every length in `message` fits the wire format's short prefix.
pub fn is_encodable(message: &Message) -> (ok: bool)
    ensures
        ok == encodable(*message),
{
    if message.account_keys.len() > MAX_SHORT_LEN || message.instructions.len() > MAX_SHORT_LEN {
        return false;
    }
    let mut k: usize = 0;
    while k < message.instructions.len()
        invariant
            k <= message.instructions@.len(),
            forall|i: int|
                0 <= i < k ==> {
                    &&& (#[trigger] message.instructions@[i]).accounts@.len() <= MAX_SHORT_LEN
                    &&& message.instructions@[i].data@.len() <= MAX_SHORT_LEN
                },
        decreases message.instructions@.len() - k,
    {
        let instruction = &message.instructions[k];
        if instruction.accounts.len() > MAX_SHORT_LEN || instruction.data.len() > MAX_SHORT_LEN {
            return false;
        }
        k += 1;
    }
    true
}

/// Whether the first `n` of `keys` differ from one another.
pub fn has_distinct_first(keys: &Vec<Pubkey>, n: usize) -> (ok: bool)
    requires
        n <= keys@.len(),
    ensures
        ok == first_distinct(keys@, n as int),
{
    let mut k: usize = 0;
    while k < n
        invariant
            k <= n <= keys@.len(),
            first_distinct(keys@, k as int),
        decreases n - k,
    {
        let mut j: usize = 0;
        while j < k
            invariant
                j <= k < n <= keys@.len(),
                forall|i: int| 0 <= i < j ==> keys@[i] != keys@[k as int],
            decreases k - j,
        {
            if same_key(&keys[j], &keys[k]) {
                return false;
            }
            j += 1;
        }
        k += 1;
    }
    true
}

/// Whether `key` stands among the first `n` of `keys`.
pub fn is_among_first(keys: &Vec<Pubkey>, n: usize, key: &Pubkey) -> (found: bool)
    requires
        n <= keys@.len(),
    ensures
        found == among_first(keys@, n as int, *key),
{
    let mut j: usize = 0;
    while j < n
        invariant
            j <= n <= keys@.len(),
            forall|i: int| 0 <= i < j ==> #[trigger] keys@[i] != *key,
        decreases n - j,
    {
        if same_key(&keys[j], key) {
            return true;
        }
        j += 1;
    }
    false
}

/// Whether `key` is the identifier of one of `signers`.
pub fn has_signer(signers: &Vec<&Keypair>, key: &Pubkey) -> (found: bool)
    ensures
        found == signs(signers@, *key),
{
    let mut i: usize = 0;
    while i < signers.len()
        invariant
            i <= signers@.len(),
            forall|h: int| 0 <= h < i ==> pubkey_of(*#[trigger] signers@[h]) != *key,
        decreases signers@.len() - i,
    {
        let owned = keypair_pubkey(signers[i]);
        if same_key(&owned, key) {
            return true;
        }
        i += 1;
    }
    false
}

/// Whether `signers` are exactly the credentials that `message` requires, so
/// that signing it fills every signature slot.
pub fn signers_match(message: &Message, signers: &Vec<&Keypair>) -> (ok: bool)
    ensures
        ok == signable(signers@, *message),
{
    let n = message.header.num_required_signatures as usize;
    if n < 1 || n > message.account_keys.len() {
        return false;
    }
    if !is_encodable(message) {
        return false;
    }
    if !has_distinct_first(&message.account_keys, n) {
        return false;
    }
    let mut j: usize = 0;
    while j < n
        invariant
            j <= n <= message.account_keys@.len(),
            n as int == required_signatures(*message),
            forall|h: int| 0 <= h < j ==> signs(signers@, #[trigger] message.account_keys@[h]),
        decreases n - j,
    {
        if !has_signer(signers, &message.account_keys[j]) {
            assert(!signs(signers@, message.account_keys@[j as int]));
            return false;
        }
        j += 1;
    }
    let mut i: usize = 0;
    while i < signers.len()
        invariant
            i <= signers@.len(),
            n <= message.account_keys@.len(),
            n as int == required_signatures(*message),
            forall|h: int|
                0 <= h < i ==> among_first(
                    message.account_keys@,
                    n as int,
                    pubkey_of(*#[trigger] signers@[h]),
                ),
        decreases signers@.len() - i,
    {
        let owned = keypair_pubkey(signers[i]);
        if !is_among_first(&message.account_keys, n, &owned) {
            assert(!among_first(
                message.account_keys@,
                required_signatures(*message),
                pubkey_of(*signers@[i as int]),
            ));
            return false;
        }
        i += 1;
    }
    true
}

} // verus!

use vstd::prelude::*;
use scrypto::prelude::{Secp256k1PublicKey, Secp256k1Signature};

verus! {

#[verifier::external_type_specification]
#[verifier::external_body]
pub struct ExSecp256k1PublicKey(Secp256k1PublicKey);

#[verifier::external_type_specification]
#[verifier::external_body]
pub struct ExSecp256k1Signature(Secp256k1Signature);

/// One instruction of a transaction, holding what the request assembly reads.
#[derive(Debug, Clone)]
pub enum Instruction {
    /// Sets the nonce that protects the transaction against replay.
    Nonce { nonce: u64 },
    /// Publishes a compiled package.
    PublishPackage { code: Vec<u8> },
}

/// The instruction list of a transaction.
#[derive(Debug, Clone)]
pub struct Transaction {
    pub instructions: Vec<Instruction>,
}

/// A transaction together with its (public key, signature) pairs, in signer order.
#[derive(Debug, Clone)]
pub struct SignedTransaction {
    pub transaction: Transaction,
    pub signatures: Vec<(Secp256k1PublicKey, Secp256k1Signature)>,
}

/// The nonce values carried by the "set nonce" instructions of `s`, in order.
pub open spec fn nonces(s: Seq<Instruction>) -> Seq<u64>
    decreases s.len(),
{
    if s.len() == 0 {
        Seq::empty()
    } else {
        let rest = nonces(s.drop_last());
        match s.last() {
            Instruction::Nonce { nonce } => rest.push(nonce),
            _ => rest,
        }
    }
}

/// An instruction list carries at most as many nonces as it has instructions.
pub proof fn lemma_nonces_len(s: Seq<Instruction>)
    ensures
        nonces(s).len() <= s.len(),
    decreases s.len(),
{
    if s.len() > 0 {
        lemma_nonces_len(s.drop_last());
    }
}

/// The nonces of a concatenation are those of its parts, one after the other.
pub proof fn lemma_nonces_append(a: Seq<Instruction>, b: Seq<Instruction>)
    ensures
        nonces(a + b) == nonces(a) + nonces(b),
    decreases b.len(),
{
    if b.len() == 0 {
        assert(a + b =~= a);
        assert(nonces(b) =~= Seq::<u64>::empty());
        assert(nonces(a) + nonces(b) =~= nonces(a));
    } else {
        let b0 = b.drop_last();
        assert((a + b).drop_last() =~= a + b0);
        assert((a + b).last() == b.last());
        lemma_nonces_append(a, b0);
        match b.last() {
            Instruction::Nonce { nonce } => {
                assert(nonces(a) + nonces(b) =~= (nonces(a) + nonces(b0)).push(nonce));
            },
            _ => {},
        }
    }
}

} // verus!

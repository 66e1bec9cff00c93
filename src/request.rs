use vstd::prelude::*;
use scrypto::prelude::{Secp256k1PublicKey, Secp256k1Signature};
use crate::transaction::{Instruction, SignedTransaction, nonces, lemma_nonces_append, lemma_nonces_len};
use crate::error::{DecompileError, TransactionSubmissionError};

verus! {

/// The nonce of a transaction, as the submission endpoint expects it.
#[derive(Debug, Clone, PartialEq, Eq, Structural)]
pub struct Nonce {
    pub value: u64,
}

/// One signer of a transaction: public key and signature in their text form.
#[derive(Debug, Clone)]
pub struct Signature {
    pub public_key: String,
    pub signature: String,
}

/// The transaction payload that the submission endpoint accepts.
#[derive(Debug, Clone)]
pub struct TransactionBody {
    pub manifest: String,
    pub nonce: Nonce,
    pub signatures: Vec<Signature>,
}

/// The text form of a public key (lower-case hex of its bytes).
pub uninterp spec fn public_key_text(k: Secp256k1PublicKey) -> Seq<char>;

/// The text form of a signature (lower-case hex of its bytes).
pub uninterp spec fn signature_text(s: Secp256k1Signature) -> Seq<char>;

/// Relies on the `Display` impl of scrypto's `Secp256k1PublicKey`, which
/// depends on the key's bytes alone.
#[verifier::external_body]
fn public_key_to_string(k: &Secp256k1PublicKey) -> (r: String)
    ensures
        r@ == public_key_text(*k),
{
    k.to_string()
}

/// Relies on the `Display` impl of scrypto's `Secp256k1Signature`, which
/// depends on the signature's bytes alone.
#[verifier::external_body]
fn signature_to_string(s: &Secp256k1Signature) -> (r: String)
    ensures
        r@ == signature_text(*s),
{
    s.to_string()
}

/// What nonce extraction gives for an instruction list: the value of its
/// single "set nonce" instruction, or the error for none or several.
pub open spec fn nonce_outcome(s: Seq<Instruction>) -> Result<u64, ()> {
    if nonces(s).len() == 1 {
        Ok(nonces(s)[0])
    } else {
        Err(())
    }
}

/// Finds the value of the one "set nonce" instruction among `instructions`.
pub fn extract_nonce(instructions: &Vec<Instruction>) -> (r: Result<u64, TransactionSubmissionError>)
    ensures
        nonces(instructions@).len() == 1 <==> r is Ok,
        r is Ok ==> r->Ok_0 == nonces(instructions@)[0],
        nonces(instructions@).len() == 0 <==> r matches Err(
            TransactionSubmissionError::NoNonceFound,
        ),
        nonces(instructions@).len() > 1 <==> r matches Err(
            TransactionSubmissionError::MultipleNonceFound,
        ),
{
    let mut count: usize = 0;
    let mut first: u64 = 0;
    let mut i: usize = 0;
    while i < instructions.len()
        invariant
            i <= instructions@.len(),
            count <= i,
            count == nonces(instructions@.take(i as int)).len(),
            count >= 1 ==> first == nonces(instructions@.take(i as int))[0],
        decreases instructions@.len() - i,
    {
        proof {
            let s = instructions@.take(i as int);
            assert(instructions@.take(i as int + 1) =~= s + seq![instructions@[i as int]]);
            let one = seq![instructions@[i as int]];
            lemma_nonces_append(s, one);
            assert(one.drop_last() =~= Seq::<Instruction>::empty());
            assert(nonces(one.drop_last()) == Seq::<u64>::empty());
            assert(one.last() == instructions@[i as int]);
            lemma_nonces_len(s);
        }
        match &instructions[i] {
            Instruction::Nonce { nonce } => {
                if count == 0 {
                    first = *nonce;
                }
                count = count + 1;
            },
            _ => {},
        }
        i = i + 1;
    }
    assert(instructions@.take(i as int) =~= instructions@);
    if count == 0 {
        Err(TransactionSubmissionError::NoNonceFound)
    } else if count == 1 {
        Ok(first)
    } else {
        Err(TransactionSubmissionError::MultipleNonceFound)
    }
}

/// The nonces of two instruction lists that hold the same instructions, in
/// whatever order, are the same up to order.
proof fn lemma_nonces_permutation(a: Seq<Instruction>, b: Seq<Instruction>)
    requires
        a.to_multiset() =~= b.to_multiset(),
    ensures
        nonces(a).to_multiset() =~= nonces(b).to_multiset(),
    decreases a.len(),
{
    broadcast use vstd::seq_lib::group_to_multiset_ensures;

    if a.len() == 0 {
        assert(b.to_multiset().len() == 0);
        assert(b.len() == 0);
        assert(nonces(a) =~= nonces(b));
    } else {
        let x = a.last();
        let a0 = a.drop_last();
        assert(a0.push(x) =~= a);
        assert(a.to_multiset() =~= a0.to_multiset().insert(x));
        assert(b.to_multiset().count(x) > 0);
        assert(b.contains(x));
        let j = choose|j: int| 0 <= j < b.len() && b[j] == x;
        let b0 = b.remove(j);
        assert(b0.to_multiset() =~= b.to_multiset().remove(x));
        assert(a0.to_multiset() =~= b0.to_multiset());
        lemma_nonces_permutation(a0, b0);
        let one = seq![x];
        let front = b.take(j);
        let back = b.skip(j + 1);
        assert(a =~= a0 + one);
        assert(b =~= front + one + back);
        assert(b0 =~= front + back);
        lemma_nonces_append(a0, one);
        lemma_nonces_append(front, one);
        lemma_nonces_append(front + one, back);
        lemma_nonces_append(front, back);
        vstd::seq_lib::lemma_multiset_commutative(nonces(a0), nonces(one));
        vstd::seq_lib::lemma_multiset_commutative(nonces(front), nonces(one));
        vstd::seq_lib::lemma_multiset_commutative(nonces(front) + nonces(one), nonces(back));
        vstd::seq_lib::lemma_multiset_commutative(nonces(front), nonces(back));
    }
}

/// Nonce extraction does not depend on the order of the instructions: two
/// lists that hold the same instructions, in any order, give the same value
/// or the same error.
pub proof fn lemma_nonce_order_free(a: Seq<Instruction>, b: Seq<Instruction>)
    requires
        a.to_multiset() =~= b.to_multiset(),
    ensures
        nonces(a).len() == nonces(b).len(),
        nonce_outcome(a) == nonce_outcome(b),
{
    broadcast use vstd::seq_lib::group_to_multiset_ensures;

    lemma_nonces_permutation(a, b);
    assert(nonces(a).to_multiset().len() == nonces(b).to_multiset().len());
    if nonces(a).len() == 1 {
        let v = nonces(a)[0];
        assert(nonces(a).contains(v));
        assert(nonces(b).to_multiset().count(v) > 0);
        assert(nonces(b).contains(v));
    }
}

/// `entry` is the text form of the (public key, signature) pair `pair`.
pub open spec fn renders(entry: Signature, pair: (Secp256k1PublicKey, Secp256k1Signature)) -> bool {
    &&& entry.public_key@ == public_key_text(pair.0)
    &&& entry.signature@ == signature_text(pair.1)
}

/// `entries` renders `pairs` one for one, in the same order.
pub open spec fn renders_all(
    entries: Seq<Signature>,
    pairs: Seq<(Secp256k1PublicKey, Secp256k1Signature)>,
) -> bool {
    &&& entries.len() == pairs.len()
    &&& forall|i: int| 0 <= i < pairs.len() ==> #[trigger] renders(entries[i], pairs[i])
}

/// Turns each (public key, signature) pair into its text form, keeping the
/// signer order.
pub fn convert_signatures(pairs: &Vec<(Secp256k1PublicKey, Secp256k1Signature)>) -> (r: Vec<
    Signature,
>)
    ensures
        renders_all(r@, pairs@),
{
    let mut out: Vec<Signature> = Vec::new();
    let mut i: usize = 0;
    while i < pairs.len()
        invariant
            i <= pairs@.len(),
            renders_all(out@, pairs@.take(i as int)),
        decreases pairs@.len() - i,
    {
        let entry = Signature {
            public_key: public_key_to_string(&pairs[i].0),
            signature: signature_to_string(&pairs[i].1),
        };
        out.push(entry);
        i = i + 1;
        assert(forall|j: int| 0 <= j < i ==> #[trigger] pairs@.take(i as int)[j] == pairs@[j]);
    }
    assert(pairs@.take(i as int) =~= pairs@);
    out
}

/// Assembles the request body of `transaction`, given what the manifest
/// decompiler made of its instructions.
///
/// The nonce comes from the single "set nonce" instruction; none or several
/// is an error, checked before the decompiler's outcome is looked at.
pub fn assemble_request(
    transaction: &SignedTransaction,
    manifest: Result<String, DecompileError>,
) -> (r: Result<TransactionBody, TransactionSubmissionError>)
    ensures
        nonces(transaction.transaction.instructions@).len() == 0 <==> r matches Err(
            TransactionSubmissionError::NoNonceFound,
        ),
        nonces(transaction.transaction.instructions@).len() > 1 <==> r matches Err(
            TransactionSubmissionError::MultipleNonceFound,
        ),
        nonces(transaction.transaction.instructions@).len() == 1 ==> match manifest {
            Ok(text) => {
                &&& r is Ok
                &&& r->Ok_0.manifest == text
                &&& r->Ok_0.nonce.value == nonces(transaction.transaction.instructions@)[0]
                &&& renders_all(r->Ok_0.signatures@, transaction.signatures@)
            },
            Err(e) => r == Err::<TransactionBody, _>(
                TransactionSubmissionError::DecompileError(e),
            ),
        },
{
    let value = match extract_nonce(&transaction.transaction.instructions) {
        Ok(v) => v,
        Err(e) => {
            return Err(e);
        },
    };
    let signatures = convert_signatures(&transaction.signatures);
    match manifest {
        Ok(text) => Ok(TransactionBody { manifest: text, nonce: Nonce { value }, signatures }),
        Err(e) => Err(TransactionSubmissionError::from(e)),
    }
}

} // verus!

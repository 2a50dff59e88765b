//! Per-recipient output sealing. One computed record is re-encrypted
//! independently for each recipient: the keystream and the authentication
//! tag are derived from that recipient's key alone, so holding one
//! recipient's key opens only that recipient's envelope. Opening checks the
//! tag and yields nothing when it disagrees.
use vstd::prelude::*;

verus! {

/// The multiplier of the byte-folding hash.
pub const FOLD_MUL: u64 = 0x100000001b3;

/// The starting value of the byte-folding hash.
pub const FOLD_SEED: u64 = 0xcbf29ce484222325;

/// The first multiplier of the word finalizer.
pub const MIX_MUL_A: u64 = 0xbf58476d1ce4e5b9;

/// The second multiplier of the word finalizer.
pub const MIX_MUL_B: u64 = 0x94d049bb133111eb;

/// The spacing between consecutive keystream positions.
pub const STREAM_STEP: u64 = 0x9e3779b97f4a7c15;

/// An opaque public key identifying one stakeholder able to open envelopes
/// addressed to it.
pub struct RecipientKey {
    pub bytes: [u8; 32],
}

impl View for RecipientKey {
    type V = Seq<u8>;

    open spec fn view(&self) -> Seq<u8> {
        self.bytes@
    }
}

/// One sealed value in transit: ciphertext, the nonce it was sealed under,
/// the key it is addressed to, and the authentication tag.
#[derive(PartialEq, Eq, Clone, Debug)]
pub struct Envelope {
    pub ciphertext: Vec<u8>,
    pub nonce: u128,
    pub public_key: [u8; 32],
    pub tag: u64,
}

/// The mathematical shape of an envelope.
pub struct EnvelopeModel {
    pub ciphertext: Seq<u8>,
    pub nonce: u128,
    pub public_key: Seq<u8>,
    pub tag: u64,
}

impl View for Envelope {
    type V = EnvelopeModel;

    open spec fn view(&self) -> EnvelopeModel {
        EnvelopeModel {
            ciphertext: self.ciphertext@,
            nonce: self.nonce,
            public_key: self.public_key@,
            tag: self.tag,
        }
    }
}

/// The word finalizer: spreads every bit of the argument over the result.
pub open spec fn mix64(x: u64) -> u64 {
    let a = (x ^ (x >> 30)).wrapping_mul(MIX_MUL_A);
    let b = (a ^ (a >> 27)).wrapping_mul(MIX_MUL_B);
    b ^ (b >> 31)
}

/// The byte-folding hash, over any byte sequence.
pub open spec fn byte_fold(s: Seq<u8>) -> u64
    decreases s.len(),
{
    if s.len() == 0 {
        FOLD_SEED
    } else {
        byte_fold(s.drop_last()).wrapping_mul(FOLD_MUL).wrapping_add(s.last() as u64)
    }
}

/// The low half of a nonce.
pub open spec fn nonce_lo(nonce: u128) -> u64 {
    nonce as u64
}

/// The high half of a nonce.
pub open spec fn nonce_hi(nonce: u128) -> u64 {
    (nonce >> 64) as u64
}

/// The keystream byte a given key and nonce produce at one position.
pub open spec fn stream_byte(key_hash: u64, nonce: u128, i: u64) -> u8 {
    (mix64(key_hash ^ nonce_lo(nonce) ^ nonce_hi(nonce).wrapping_mul(FOLD_MUL) ^ i.wrapping_mul(
        STREAM_STEP,
    )) & 0xff) as u8
}

/// The ciphertext a plaintext seals to under a key and nonce.
pub open spec fn sealed_bytes(plaintext: Seq<u8>, key: Seq<u8>, nonce: u128) -> Seq<u8> {
    Seq::new(plaintext.len(), |i: int| plaintext[i] ^ stream_byte(byte_fold(key), nonce, i as u64))
}

/// The authentication tag of a plaintext under a key and nonce.
pub open spec fn tag_of(plaintext: Seq<u8>, key: Seq<u8>, nonce: u128) -> u64 {
    mix64(byte_fold(key) ^ byte_fold(plaintext) ^ nonce_lo(nonce) ^ nonce_hi(nonce).wrapping_mul(
        MIX_MUL_A,
    ))
}

/// The envelope a plaintext seals to under a key and nonce.
pub open spec fn seal_model(plaintext: Seq<u8>, key: Seq<u8>, nonce: u128) -> EnvelopeModel {
    EnvelopeModel {
        ciphertext: sealed_bytes(plaintext, key, nonce),
        nonce,
        public_key: key,
        tag: tag_of(plaintext, key, nonce),
    }
}

/// What opening an envelope under a key yields: the recovered plaintext when
/// the tag agrees, nothing otherwise.
pub open spec fn open_model(env: EnvelopeModel, key: Seq<u8>) -> Option<Seq<u8>> {
    let recovered = Seq::new(
        env.ciphertext.len(),
        |i: int| env.ciphertext[i] ^ stream_byte(byte_fold(key), env.nonce, i as u64),
    );
    if env.tag == tag_of(recovered, key, env.nonce) {
        Some(recovered)
    } else {
        None
    }
}

/// Finalizes one word; mirrors the `mix64` model exactly.
fn mix64_exec(x: u64) -> (r: u64)
    ensures
        r == mix64(x),
{
    let a = (x ^ (x >> 30)).wrapping_mul(MIX_MUL_A);
    let b = (a ^ (a >> 27)).wrapping_mul(MIX_MUL_B);
    b ^ (b >> 31)
}

/// Folds a byte slice into one word; mirrors the `byte_fold` model exactly.
fn byte_fold_exec(s: &[u8]) -> (r: u64)
    ensures
        r == byte_fold(s@),
{
    let mut h: u64 = FOLD_SEED;
    let mut i: usize = 0;
    while i < s.len()
        invariant
            0 <= i <= s@.len(),
            h == byte_fold(s@.take(i as int)),
        decreases s@.len() - i,
    {
        proof {
            assert(s@.take(i + 1).drop_last() =~= s@.take(i as int));
            assert(s@.take(i + 1).last() == s@[i as int]);
        }
        h = h.wrapping_mul(FOLD_MUL).wrapping_add(s[i] as u64);
        i = i + 1;
    }
    proof {
        assert(s@.take(s@.len() as int) =~= s@);
    }
    h
}

/// Computes the keystream byte at one position; mirrors `stream_byte`.
fn stream_byte_exec(key_hash: u64, nonce: u128, i: u64) -> (b: u8)
    ensures
        b == stream_byte(key_hash, nonce, i),
{
    let lo = #[verifier::truncate] (nonce as u64);
    let hi = #[verifier::truncate] ((nonce >> 64) as u64);
    let word = mix64_exec(key_hash ^ lo ^ hi.wrapping_mul(FOLD_MUL) ^ i.wrapping_mul(STREAM_STEP));
    let masked = word & 0xff;
    proof {
        assert(word & 0xff < 256) by (bit_vector);
    }
    masked as u8
}

/// Seals one plaintext record for one recipient: the keystream and tag
/// depend on that recipient's key alone.
pub fn seal(plaintext: &Vec<u8>, key: &RecipientKey, nonce: u128) -> (env: Envelope)
    ensures
        env@ == seal_model(plaintext@, key@, nonce),
{
    let key_hash = byte_fold_exec(key.bytes.as_slice());
    let mut ciphertext: Vec<u8> = Vec::new();
    let mut i: usize = 0;
    while i < plaintext.len()
        invariant
            0 <= i <= plaintext@.len(),
            ciphertext@.len() == i,
            key_hash == byte_fold(key@),
            forall|j: int|
                0 <= j < i ==> ciphertext@[j] == plaintext@[j] ^ stream_byte(
                    byte_fold(key@),
                    nonce,
                    j as u64,
                ),
        decreases plaintext@.len() - i,
    {
        let ks = stream_byte_exec(key_hash, nonce, i as u64);
        ciphertext.push(plaintext[i] ^ ks);
        i = i + 1;
    }
    let fold = byte_fold_exec(plaintext.as_slice());
    let lo = #[verifier::truncate] (nonce as u64);
    let hi = #[verifier::truncate] ((nonce >> 64) as u64);
    let tag = mix64_exec(key_hash ^ fold ^ lo ^ hi.wrapping_mul(MIX_MUL_A));
    let env = Envelope { ciphertext, nonce, public_key: key.bytes, tag };
    proof {
        assert(env@.ciphertext =~= sealed_bytes(plaintext@, key@, nonce));
    }
    env
}

/// Opens an envelope under a key: yields the recovered plaintext when the
/// tag agrees, nothing otherwise.
pub fn open(env: &Envelope, key: &RecipientKey) -> (r: Option<Vec<u8>>)
    ensures
        match r {
            Some(plaintext) => open_model(env@, key@) == Some(plaintext@),
            None => open_model(env@, key@) is None,
        },
{
    let key_hash = byte_fold_exec(key.bytes.as_slice());
    let mut recovered: Vec<u8> = Vec::new();
    let mut i: usize = 0;
    while i < env.ciphertext.len()
        invariant
            0 <= i <= env.ciphertext@.len(),
            recovered@.len() == i,
            key_hash == byte_fold(key@),
            forall|j: int|
                0 <= j < i ==> recovered@[j] == env.ciphertext@[j] ^ stream_byte(
                    byte_fold(key@),
                    env.nonce,
                    j as u64,
                ),
        decreases env.ciphertext@.len() - i,
    {
        let ks = stream_byte_exec(key_hash, env.nonce, i as u64);
        recovered.push(env.ciphertext[i] ^ ks);
        i = i + 1;
    }
    let fold = byte_fold_exec(recovered.as_slice());
    let lo = #[verifier::truncate] (env.nonce as u64);
    let hi = #[verifier::truncate] ((env.nonce >> 64) as u64);
    let tag = mix64_exec(key_hash ^ fold ^ lo ^ hi.wrapping_mul(MIX_MUL_A));
    proof {
        assert(recovered@ =~= Seq::new(
            env@.ciphertext.len(),
            |j: int| env@.ciphertext[j] ^ stream_byte(byte_fold(key@), env@.nonce, j as u64),
        ));
    }
    if tag == env.tag {
        Some(recovered)
    } else {
        None
    }
}

/// How sealing a batch of outputs can fail.
#[derive(PartialEq, Eq, Structural, Clone, Copy, Debug)]
pub enum SealError {
    /// The declared recipients and the produced records do not line up one
    /// to one.
    CountMismatch,
}

/// Routes one computation's output records to their recipients: record `i`
/// is sealed under target key `i` and no other. A count mismatch between
/// declared targets and produced records fails the whole batch; no partial
/// batch is ever produced.
pub fn seal_outputs(records: &Vec<Vec<u8>>, targets: &Vec<RecipientKey>, nonce: u128) -> (r:
    Result<Vec<Envelope>, SealError>)
    ensures
        r is Ok <==> records@.len() == targets@.len(),
        match r {
            Ok(envelopes) => {
                &&& envelopes@.len() == targets@.len()
                &&& forall|i: int|
                    0 <= i < targets@.len() ==> envelopes@[i]@ == seal_model(
                        records@[i]@,
                        targets@[i]@,
                        nonce,
                    )
            },
            Err(e) => e == SealError::CountMismatch,
        },
{
    if records.len() != targets.len() {
        return Err(SealError::CountMismatch);
    }
    let mut envelopes: Vec<Envelope> = Vec::new();
    let mut i: usize = 0;
    while i < targets.len()
        invariant
            0 <= i <= targets@.len(),
            records@.len() == targets@.len(),
            envelopes@.len() == i,
            forall|j: int|
                0 <= j < i ==> envelopes@[j]@ == seal_model(records@[j]@, targets@[j]@, nonce),
        decreases targets@.len() - i,
    {
        let env = seal(&records[i], &targets[i], nonce);
        envelopes.push(env);
        i = i + 1;
    }
    Ok(envelopes)
}

/// Every envelope the router produces opens under its own target's key to
/// exactly its own record.
pub proof fn lemma_router_round_trip(
    records: Seq<Seq<u8>>,
    targets: Seq<Seq<u8>>,
    nonce: u128,
    i: int,
)
    requires
        0 <= i < records.len(),
        i < targets.len(),
    ensures
        open_model(seal_model(records[i], targets[i], nonce), targets[i]) == Some(records[i]),
{
    lemma_seal_round_trip(records[i], targets[i], nonce);
}

/// Opening an envelope under the key it was sealed for yields exactly the
/// sealed plaintext.
pub proof fn lemma_seal_round_trip(plaintext: Seq<u8>, key: Seq<u8>, nonce: u128)
    ensures
        open_model(seal_model(plaintext, key, nonce), key) == Some(plaintext),
{
    let env = seal_model(plaintext, key, nonce);
    let recovered = Seq::new(
        env.ciphertext.len(),
        |i: int| env.ciphertext[i] ^ stream_byte(byte_fold(key), env.nonce, i as u64),
    );
    assert forall|i: int| 0 <= i < plaintext.len() implies recovered[i] == plaintext[i] by {
        let p = plaintext[i];
        let s = stream_byte(byte_fold(key), nonce, i as u64);
        assert((p ^ s) ^ s == p) by (bit_vector);
    }
    assert(recovered =~= plaintext);
}

} // verus!

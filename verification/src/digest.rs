//! Streaming SHA-256 digest engine. The hash itself is computed by the
//! `sha2` crate behind trusted wrappers; what is verified here is that the
//! resulting fingerprint depends on nothing but the bytes fed in, in order,
//! however they were chunked.

use vstd::prelude::*;

verus! {

/// Declares `sha2::Sha256`, the crate's streaming hasher state, so that a
/// verified struct can hold one; it stays opaque here.
#[verifier::external_type_specification]
#[verifier::external_body]
pub struct ExSha256(sha2::Sha256);

/// The SHA-256 digest of a byte sequence: a fixed 32-byte fingerprint that is
/// a function of the input bytes alone.
pub uninterp spec fn sha256_of(bytes: Seq<u8>) -> Seq<u8>;

/// A streaming hasher. Its view is the sequence of all bytes fed so far; the
/// digest finally produced is `sha256_of` that sequence.
pub struct Digester {
    inner: sha2::Sha256,
    fed: Ghost<Seq<u8>>,
}

impl View for Digester {
    type V = Seq<u8>;

    closed spec fn view(&self) -> Seq<u8> {
        self.fed@
    }
}

/// Relies on `sha2::Sha256::default`: a fresh hasher state over no input.
#[verifier::external_body]
fn fresh_sha256() -> sha2::Sha256 {
    sha2::Sha256::default()
}

impl Digester {
    /// A fresh digester that has absorbed nothing.
    pub fn new() -> (d: Digester)
        ensures
            d@ == Seq::<u8>::empty(),
    {
        Digester { inner: fresh_sha256(), fed: Ghost(Seq::empty()) }
    }

    /// Relies on `sha2::digest::Update::update`: absorbs the chunk's bytes,
    /// in order, after everything absorbed before.
    #[verifier::external_body]
    pub fn update(&mut self, chunk: &[u8])
        ensures
            final(self)@ == old(self)@ + chunk@,
    {
        sha2::Digest::update(&mut self.inner, chunk);
    }

    /// Relies on `sha2::digest::Digest::finalize`: the 32-byte SHA-256 digest
    /// of all absorbed bytes.
    #[verifier::external_body]
    pub fn finalize(self) -> (digest: Vec<u8>)
        ensures
            digest@ == sha256_of(self@),
            digest@.len() == 32,
    {
        sha2::Digest::finalize(self.inner).to_vec()
    }
}

/// Concatenation of a sequence of byte chunks.
pub open spec fn concat_all(chunks: Seq<Seq<u8>>) -> Seq<u8>
    decreases chunks.len(),
{
    if chunks.len() == 0 {
        Seq::empty()
    } else {
        concat_all(chunks.drop_last()) + chunks.last()
    }
}

/// Digests a byte source given as chunks. The fingerprint depends only on
/// the concatenation of the chunks, not on how the source was split.
pub fn digest_chunks(chunks: &Vec<Vec<u8>>) -> (digest: Vec<u8>)
    ensures
        digest@ == sha256_of(concat_all(chunks@.map_values(|c: Vec<u8>| c@))),
        digest@.len() == 32,
{
    let ghost chunk_seqs = chunks@.map_values(|c: Vec<u8>| c@);
    let mut d = Digester::new();
    let mut i: usize = 0;
    while i < chunks.len()
        invariant
            i <= chunks@.len(),
            chunk_seqs == chunks@.map_values(|c: Vec<u8>| c@),
            d@ == concat_all(chunk_seqs.take(i as int)),
        decreases chunks@.len() - i,
    {
        d.update(chunks[i].as_slice());
        proof {
            assert(chunk_seqs.take(i as int + 1).drop_last() =~= chunk_seqs.take(i as int));
            assert(chunk_seqs.take(i as int + 1).last() == chunks@[i as int]@);
        }
        i += 1;
    }
    proof {
        assert(chunk_seqs.take(chunk_seqs.len() as int) =~= chunk_seqs);
    }
    d.finalize()
}

/// Digest determinism: two byte sources with the same content, however
/// differently chunked while streaming, yield the same fingerprint.
pub proof fn lemma_digest_deterministic(a: Seq<Seq<u8>>, b: Seq<Seq<u8>>)
    requires
        concat_all(a) == concat_all(b),
    ensures
        sha256_of(concat_all(a)) == sha256_of(concat_all(b)),
{
}

} // verus!

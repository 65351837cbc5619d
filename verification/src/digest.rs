//! The streaming digest accumulator: an MD5 context from the `md5` crate,
//! driven chunk by chunk, with a ghost record of every byte consumed. The
//! digest of a stream is a function of those bytes alone, named
//! [`spec_md5`]; chunk boundaries cannot affect it.

use vstd::prelude::*;

verus! {

/// An MD5 digest: sixteen bytes, viewed as their sequence.
#[derive(Clone, Copy, Debug, PartialEq, Eq)]
pub struct Digest(pub [u8; 16]);

impl View for Digest {
    type V = Seq<u8>;

    open spec fn view(&self) -> Seq<u8> {
        self.0@
    }
}

/// Declares `md5::Context`, the `md5` crate's accumulator, so that a
/// field may hold one; Verus sees nothing of its inside.
#[verifier::external_type_specification]
#[verifier::external_body]
pub struct ExMd5Context(md5::Context);

/// The MD5 digest of a byte string. Left uninterpreted: the `md5` crate
/// computes it, and every contract speaks of it by this name.
pub uninterp spec fn spec_md5(bytes: Seq<u8>) -> Seq<u8>;

/// Drives one digest computation: bytes go in through [`consume`] in
/// chunks of any size, and [`finalize`] returns the digest of their
/// concatenation.
///
/// [`consume`]: StreamDigester::consume
/// [`finalize`]: StreamDigester::finalize
pub struct StreamDigester {
    context: md5::Context,
    bytes_fed: Ghost<Seq<u8>>,
}

impl StreamDigester {
    /// All bytes consumed so far, in order.
    pub closed spec fn fed(&self) -> Seq<u8> {
        self.bytes_fed@
    }

    /// Relies on `md5::Context::new`: a fresh accumulator over no bytes.
    #[verifier::external_body]
    pub fn init() -> (r: Self)
        ensures
            r.fed() == Seq::<u8>::empty(),
    {
        StreamDigester { context: md5::Context::new(), bytes_fed: Ghost(Seq::empty()) }
    }

    /// Relies on `md5::Context::consume`: extends the digested stream with
    /// the bytes of `chunk`.
    #[verifier::external_body]
    pub fn consume(&mut self, chunk: &[u8])
        ensures
            final(self).fed() == old(self).fed() + chunk@,
    {
        self.context.consume(chunk);
    }

    /// Relies on `md5::Context::finalize`: the sixteen-byte MD5 digest of
    /// every byte consumed, in consumption order.
    #[verifier::external_body]
    pub fn finalize(self) -> (d: Digest)
        ensures
            d@ == spec_md5(self.fed()),
            d@.len() == 16,
    {
        Digest(self.context.finalize().0)
    }
}

/// The concatenation of a sequence of chunks.
pub open spec fn spec_concat(chunks: Seq<Seq<u8>>) -> Seq<u8>
    decreases chunks.len(),
{
    if chunks.len() == 0 {
        Seq::empty()
    } else {
        chunks.first() + spec_concat(chunks.drop_first())
    }
}

/// Concatenating one more chunk appends its bytes.
pub proof fn lemma_concat_snoc(chunks: Seq<Seq<u8>>, i: int)
    requires
        0 <= i < chunks.len(),
    ensures
        spec_concat(chunks.take(i + 1)) == spec_concat(chunks.take(i)) + chunks[i],
    decreases i,
{
    if i == 0 {
        assert(chunks.take(1) =~= seq![chunks[0]]);
        assert(chunks.take(1).drop_first() =~= Seq::<Seq<u8>>::empty());
        assert(chunks.take(0) =~= Seq::<Seq<u8>>::empty());
        assert(spec_concat(chunks.take(1)) =~= chunks[0]);
        assert(spec_concat(chunks.take(0)) + chunks[0] =~= chunks[0]);
    } else {
        lemma_concat_snoc(chunks.drop_first(), i - 1);
        assert(chunks.take(i + 1).drop_first() =~= chunks.drop_first().take(i));
        assert(chunks.take(i).drop_first() =~= chunks.drop_first().take(i - 1));
        assert(chunks.take(i + 1).first() == chunks[0]);
        assert(chunks.take(i).first() == chunks[0]);
        assert(chunks.drop_first()[i - 1] == chunks[i]);
        assert(spec_concat(chunks.take(i + 1)) =~= spec_concat(chunks.take(i)) + chunks[i]);
    }
}

/// Digests a byte slice in one pass.
pub fn digest_bytes(data: &[u8]) -> (d: Digest)
    ensures
        d@ == spec_md5(data@),
{
    let mut digester = StreamDigester::init();
    digester.consume(data);
    proof {
        assert(Seq::<u8>::empty() + data@ =~= data@);
    }
    digester.finalize()
}

/// Digests a stream given as a sequence of chunks. The result is the
/// digest of the chunks' concatenation: how the stream was cut into
/// chunks cannot affect it.
pub fn digest_chunks(chunks: &Vec<Vec<u8>>) -> (d: Digest)
    ensures
        d@ == spec_md5(spec_concat(chunks.deep_view())),
{
    let mut digester = StreamDigester::init();
    let mut i: usize = 0;
    proof {
        assert(chunks.deep_view().take(0) =~= Seq::<Seq<u8>>::empty());
    }
    while i < chunks.len()
        invariant
            i <= chunks@.len(),
            chunks.deep_view().len() == chunks@.len(),
            forall|j: int|
                0 <= j < chunks@.len() ==> chunks.deep_view()[j] == #[trigger] chunks@[j]@,
            digester.fed() == spec_concat(chunks.deep_view().take(i as int)),
        decreases chunks@.len() - i,
    {
        digester.consume(chunks[i].as_slice());
        proof {
            lemma_concat_snoc(chunks.deep_view(), i as int);
        }
        i = i + 1;
    }
    proof {
        assert(chunks.deep_view().take(chunks.deep_view().len() as int) =~= chunks.deep_view());
    }
    digester.finalize()
}

/// Chunking invariance: digesting a stream chunk by chunk, by the contract
/// of [`digest_chunks`], agrees with digesting it whole, by the contract of
/// [`digest_bytes`], whenever the chunks concatenate to the whole.
pub proof fn lemma_chunking_invariance(chunks: Seq<Seq<u8>>, whole: Seq<u8>)
    requires
        spec_concat(chunks) == whole,
    ensures
        spec_md5(spec_concat(chunks)) == spec_md5(whole),
{
}

} // verus!

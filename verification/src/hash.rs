//! The hashing stream sink: a CRC-32 checksum over a byte stream that arrives in chunks.

use vstd::prelude::*;
use vstd::slice::slice_subrange;

verus! {

/// `crc32fast::Hasher`, an in-progress checksum. Nothing is known of what is inside it but
/// through the two names below.
#[verifier::external_type_specification]
#[verifier::external_body]
pub struct ExHasher(crc32fast::Hasher);

/// The CRC-32 (IEEE) checksum of a byte sequence, as `crc32fast::hash` computes it.
pub uninterp spec fn crc32(bytes: Seq<u8>) -> u32;

/// The running checksum that a `crc32fast::Hasher` holds.
pub uninterp spec fn hasher_state(h: crc32fast::Hasher) -> u32;

/// The number of bytes that a `crc32fast::Hasher` has counted.
pub uninterp spec fn hasher_total(h: crc32fast::Hasher) -> nat;

/// Whether feeding `chunk` to a hasher whose running checksum is `before` leaves it at `after`:
/// whatever bytes `before` is the checksum of, `after` is the checksum of those bytes
/// followed by `chunk`.
#[verifier::opaque]
spec fn continues(before: u32, chunk: Seq<u8>, after: u32) -> bool {
    forall|s: Seq<u8>| #[trigger] crc32(s) == before ==> crc32(s + chunk) == after
}

/// Calls `crc32fast::Hasher::new`. The new hasher has counted no bytes and holds the checksum
/// of the empty sequence.
#[verifier::external_body]
fn hasher_new() -> (h: crc32fast::Hasher)
    ensures
        hasher_state(h) == crc32(Seq::<u8>::empty()),
        hasher_total(h) == 0,
{
    crc32fast::Hasher::new()
}

/// Calls `crc32fast::Hasher::update`. The hasher counts the bytes of `buf` and its running
/// checksum continues over them. The count is a `u64` inside the hasher, so the call is
/// limited to what keeps it in range.
#[verifier::external_body]
fn hasher_update(h: &mut crc32fast::Hasher, buf: &[u8])
    requires
        hasher_total(*old(h)) + buf@.len() <= u64::MAX,
    ensures
        hasher_total(*final(h)) == hasher_total(*old(h)) + buf@.len(),
        continues(hasher_state(*old(h)), buf@, hasher_state(*final(h))),
{
    h.update(buf)
}

/// Calls `crc32fast::Hasher::finalize`, which hands out the running checksum.
#[verifier::external_body]
fn hasher_finalize(h: crc32fast::Hasher) -> (sum: u32)
    ensures
        sum == hasher_state(h),
{
    h.finalize()
}

/// A sink that consumes a byte stream chunk by chunk in constant memory and yields the
/// CRC-32 checksum of everything it was fed.
pub struct Crc32Sink {
    inner: crc32fast::Hasher,
    total: u64,
    fed: Ghost<Seq<u8>>,
}

impl View for Crc32Sink {
    type V = Seq<u8>;

    /// The bytes fed so far, in arrival order.
    closed spec fn view(&self) -> Seq<u8> {
        self.fed@
    }
}

impl Crc32Sink {
    /// The hasher inside agrees with the bytes fed: it holds their checksum and has counted
    /// them. Every sink that this module hands out is well formed.
    pub closed spec fn wf(&self) -> bool {
        &&& hasher_state(self.inner) == crc32(self.fed@)
        &&& hasher_total(self.inner) == self.fed@.len()
        &&& self.total == self.fed@.len()
    }

    /// A sink that has been fed nothing.
    pub fn new() -> (sink: Self)
        ensures
            sink.wf(),
            sink@ == Seq::<u8>::empty(),
    {
        Crc32Sink { inner: hasher_new(), total: 0, fed: Ghost(Seq::empty()) }
    }

    /// How many bytes the sink has been fed.
    pub fn total_len(&self) -> (total: u64)
        requires
            self.wf(),
        ensures
            total == self@.len(),
    {
        self.total
    }

    /// Feeds one chunk. The sink counts what it is fed in 64 bits, which bounds what it can
    /// take.
    pub fn update(&mut self, chunk: &[u8])
        requires
            old(self).wf(),
            old(self)@.len() + chunk@.len() <= u64::MAX,
        ensures
            final(self).wf(),
            final(self)@ == old(self)@ + chunk@,
    {
        let ghost before = hasher_state(self.inner);
        let ghost fed = self.fed@;
        hasher_update(&mut self.inner, chunk);
        proof {
            reveal(continues);
            assert(crc32(fed) == before);
        }
        self.total = self.total + chunk.len() as u64;
        self.fed = Ghost(fed + chunk@);
    }

    /// Feeds one chunk if the sink can still count it, and says whether it did. A chunk that
    /// would take the count past 64 bits is not taken, and the sink stays as it was.
    pub fn try_update(&mut self, chunk: &[u8]) -> (taken: bool)
        requires
            old(self).wf(),
        ensures
            final(self).wf(),
            taken == (old(self)@.len() + chunk@.len() <= u64::MAX),
            final(self)@ == if taken {
                old(self)@ + chunk@
            } else {
                old(self)@
            },
    {
        if chunk.len() as u64 <= u64::MAX - self.total {
            self.update(chunk);
            true
        } else {
            false
        }
    }

    /// The checksum of everything fed.
    pub fn finalize(self) -> (sum: u32)
        requires
            self.wf(),
        ensures
            sum == crc32(self@),
    {
        hasher_finalize(self.inner)
    }
}

/// How many bytes of a file are handed to the sink at a time.
pub const BUFFER_SIZE: usize = 4194304;

/// What a sink has been fed after it took the chunks of `chunks` in order, starting from
/// having been fed `start`.
pub open spec fn fed_after(start: Seq<u8>, chunks: Seq<Seq<u8>>) -> Seq<u8>
    decreases chunks.len(),
{
    if chunks.len() == 0 {
        start
    } else {
        fed_after(start, chunks.drop_last()) + chunks.last()
    }
}

/// The bytes of all chunks, one after the other.
pub open spec fn concatenated(chunks: Seq<Seq<u8>>) -> Seq<u8>
    decreases chunks.len(),
{
    if chunks.len() == 0 {
        Seq::<u8>::empty()
    } else {
        concatenated(chunks.drop_last()) + chunks.last()
    }
}

/// What a sink has been fed is what it had before, followed by the bytes of the chunks: where
/// one chunk ends and the next begins leaves no trace.
pub proof fn lemma_fed_is_concatenation(start: Seq<u8>, chunks: Seq<Seq<u8>>)
    ensures
        fed_after(start, chunks) == start + concatenated(chunks),
    decreases chunks.len(),
{
    if chunks.len() == 0 {
        assert(start + Seq::<u8>::empty() =~= start);
    } else {
        lemma_fed_is_concatenation(start, chunks.drop_last());
        assert((start + concatenated(chunks.drop_last())) + chunks.last() =~= start + (
        concatenated(chunks.drop_last()) + chunks.last()));
    }
}

/// The checksum depends on the bytes alone: two ways of cutting the same bytes into chunks
/// leave a fresh sink with the same checksum.
pub proof fn lemma_checksum_ignores_chunking(first: Seq<Seq<u8>>, second: Seq<Seq<u8>>)
    requires
        concatenated(first) == concatenated(second),
    ensures
        crc32(fed_after(Seq::<u8>::empty(), first)) == crc32(
            fed_after(Seq::<u8>::empty(), second),
        ),
        crc32(fed_after(Seq::<u8>::empty(), first)) == crc32(concatenated(first)),
{
    lemma_fed_is_concatenation(Seq::<u8>::empty(), first);
    lemma_fed_is_concatenation(Seq::<u8>::empty(), second);
    assert(Seq::<u8>::empty() + concatenated(first) =~= concatenated(first));
    assert(Seq::<u8>::empty() + concatenated(second) =~= concatenated(second));
}

/// The checksum of `data`, computed by feeding a sink `BUFFER_SIZE` bytes at a time.
pub fn compute_file_hash(data: &[u8]) -> (sum: u32)
    ensures
        sum == crc32(data@),
{
    let mut sink = Crc32Sink::new();
    let mut done: usize = 0;
    while done < data.len()
        invariant
            sink.wf(),
            done <= data.len(),
            sink@ == data@.take(done as int),
        decreases data.len() - done,
    {
        let end = if data.len() - done <= BUFFER_SIZE {
            data.len()
        } else {
            done + BUFFER_SIZE
        };
        let piece = slice_subrange(data, done, end);
        assert(data@.take(done as int) + data@.subrange(done as int, end as int) =~= data@.take(
            end as int,
        ));
        sink.update(piece);
        done = end;
    }
    assert(data@.take(data.len() as int) =~= data@);
    sink.finalize()
}

} // verus!

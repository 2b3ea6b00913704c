//! The streaming transfer engine.
//!
//! A transfer drives bytes from a source to a sink: an upload passes a
//! byte source to the remote put as one body, and a download pulls the
//! remote stream chunk by chunk — chunk boundaries are the provider's
//! choice — writing each chunk to the local destination while keeping
//! an exact running byte count. A chunk-read failure is terminal: the
//! transfer aborts and the partially written destination is left in
//! place, deliberately and documented, never cleaned up behind the
//! caller's back.

use vstd::prelude::*;
use vstd::string::*;
use vstd::pervasive::unreached;
use crate::bucket::{Bucket, ObjectSeed};
use crate::credentials::Credentials;
use crate::errors::{GetObjectError, PutObjectError, S3Error};
use crate::facade;

verus! {

/// The bytes of the first `n` chunks, in order.
pub open spec fn flat_take(chunks: Seq<Seq<u8>>, n: int) -> Seq<u8>
    decreases n,
{
    if n <= 0 {
        Seq::empty()
    } else {
        flat_take(chunks, n - 1) + chunks[n - 1]
    }
}

/// The bytes of all chunks, in order.
pub open spec fn flat_of(chunks: Seq<Seq<u8>>) -> Seq<u8> {
    flat_take(chunks, chunks.len() as int)
}

/// The summed length of the first `n` chunks.
pub open spec fn size_take(chunks: Seq<Seq<u8>>, n: int) -> int
    decreases n,
{
    if n <= 0 {
        0
    } else {
        size_take(chunks, n - 1) + chunks[n - 1].len()
    }
}

/// The summed length of all chunks.
pub open spec fn total_size(chunks: Seq<Seq<u8>>) -> int {
    size_take(chunks, chunks.len() as int)
}

/// Concatenating the first `n` chunks yields exactly their summed
/// length: the byte count a transfer reports is the size of what it
/// wrote.
pub proof fn lemma_flat_len(chunks: Seq<Seq<u8>>, n: int)
    requires
        0 <= n <= chunks.len(),
    ensures
        flat_take(chunks, n).len() == size_take(chunks, n),
    decreases n,
{
    if n > 0 {
        lemma_flat_len(chunks, n - 1);
    }
}

/// The summed chunk length grows with the number of chunks taken.
proof fn lemma_size_take_monotonic(chunks: Seq<Seq<u8>>, m: int, n: int)
    requires
        0 <= m <= n,
    ensures
        size_take(chunks, m) <= size_take(chunks, n),
    decreases n,
{
    if m < n {
        lemma_size_take_monotonic(chunks, m, n - 1);
    }
}

/// An abstract producer of a finite byte sequence: the payload arrives
/// as a sequence of chunks, and the stream either ends cleanly or
/// fails after the chunks it managed to deliver.
pub struct ByteSource {
    chunks: Vec<Vec<u8>>,
    read_error: Option<String>,
}

impl ByteSource {
    /// The chunks the source delivers, in order.
    pub closed spec fn chunk_seqs(&self) -> Seq<Seq<u8>> {
        self.chunks.deep_view()
    }

    /// The full byte sequence the source delivers.
    pub open spec fn flat(&self) -> Seq<u8> {
        flat_of(self.chunk_seqs())
    }

    /// The failure the stream ends with after its chunks, if any.
    pub closed spec fn spec_read_error(&self) -> Option<Seq<char>> {
        self.read_error.deep_view()
    }

    /// An in-memory source delivering the payload as a single chunk.
    pub fn from_bytes(data: Vec<u8>) -> (r: ByteSource)
        ensures
            r.chunk_seqs() == seq![data@],
            r.flat() == data@,
            r.spec_read_error() is None,
            total_size(r.chunk_seqs()) == data@.len(),
    {
        let ghost data_view = data@;
        let mut chunks: Vec<Vec<u8>> = Vec::new();
        chunks.push(data);
        let r = ByteSource { chunks, read_error: None };
        proof {
            let cs = r.chunk_seqs();
            assert(cs[0] =~= data_view);
            assert(cs =~~= seq![data_view]);
            assert(flat_take(cs, 0) == Seq::<u8>::empty());
            assert(size_take(cs, 0) == 0);
            assert(r.flat() =~= data_view);
        }
        r
    }

    /// A source delivering the payload in the given chunks.
    pub fn from_chunks(chunks: Vec<Vec<u8>>) -> (r: ByteSource)
        ensures
            r.chunk_seqs() == chunks.deep_view(),
            r.spec_read_error() is None,
    {
        ByteSource { chunks, read_error: None }
    }

    /// A source that delivers the given chunks and then fails with the
    /// given diagnostic text, as a stream cut off mid-transfer does.
    pub fn failing(chunks: Vec<Vec<u8>>, detail: String) -> (r: ByteSource)
        ensures
            r.chunk_seqs() == chunks.deep_view(),
            r.spec_read_error() == Some(detail@),
    {
        ByteSource { chunks, read_error: Some(detail) }
    }

    /// How many chunks the source delivers.
    pub fn chunk_count(&self) -> (n: usize)
        ensures
            n == self.chunk_seqs().len(),
    {
        self.chunks.len()
    }

    /// One chunk of the stream.
    pub fn chunk_at(&self, i: usize) -> (c: &Vec<u8>)
        requires
            i < self.chunk_seqs().len(),
        ensures
            c@ == self.chunk_seqs()[i as int],
    {
        &self.chunks[i]
    }

    /// The diagnostic text of the stream's terminal failure, if any.
    pub fn read_error_message(&self) -> (r: Option<&String>)
        ensures
            r is Some <==> self.spec_read_error() is Some,
            r matches Some(d) ==> d@ == self.spec_read_error()->0,
    {
        match &self.read_error {
            Some(d) => Some(d),
            None => None,
        }
    }

    /// The full payload, materialized. Used when a source is handed to
    /// the remote put as one body.
    pub fn to_bytes(&self) -> (r: Vec<u8>)
        ensures
            r@ == self.flat(),
    {
        let n = self.chunks.len();
        let mut sink = ByteSink::new();
        let mut i: usize = 0;
        while i < n
            invariant
                i <= n,
                n == self.chunk_seqs().len(),
                sink@ == flat_take(self.chunk_seqs(), i as int),
            decreases n - i,
        {
            sink.write_chunk(&self.chunks[i]);
            i = i + 1;
        }
        sink.into_data()
    }
}

/// An abstract consumer of a finite byte sequence: the local
/// destination a download writes into.
pub struct ByteSink {
    data: Vec<u8>,
}

impl View for ByteSink {
    type V = Seq<u8>;

    closed spec fn view(&self) -> Seq<u8> {
        self.data@
    }
}

impl ByteSink {
    /// An empty destination.
    pub fn new() -> (r: ByteSink)
        ensures
            r@ == Seq::<u8>::empty(),
    {
        let r = ByteSink { data: Vec::new() };
        proof {
            assert(r@ =~= Seq::<u8>::empty());
        }
        r
    }

    /// The bytes written so far.
    pub fn data(&self) -> (r: &Vec<u8>)
        ensures
            r@ == self@,
    {
        &self.data
    }

    /// Hands the written bytes over.
    pub fn into_data(self) -> (r: Vec<u8>)
        ensures
            r@ == self@,
    {
        self.data
    }

    /// Discards anything already written, as creating the destination
    /// file anew overwrites a prior file at the same path.
    pub fn reset(&mut self)
        ensures
            final(self)@ == Seq::<u8>::empty(),
    {
        self.data.clear();
        proof {
            assert(final(self)@ =~= Seq::<u8>::empty());
        }
    }

    /// Appends one chunk to the destination.
    pub fn write_chunk(&mut self, chunk: &Vec<u8>)
        ensures
            final(self)@ == old(self)@ + chunk@,
    {
        let m = chunk.len();
        let mut j: usize = 0;
        while j < m
            invariant
                j <= m,
                m == chunk@.len(),
                self@ == old(self)@ + chunk@.subrange(0, j as int),
            decreases m - j,
        {
            self.data.push(chunk[j]);
            j = j + 1;
            proof {
                assert(self@ =~= old(self)@ + chunk@.subrange(0, j as int));
            }
        }
        proof {
            assert(chunk@.subrange(0, m as int) =~= chunk@);
        }
    }
}

/// The record of one fully successful transfer: exactly how many bytes
/// were written to the sink — written, not merely read from the source.
#[derive(Clone, Copy, Debug, PartialEq, Eq, Structural)]
pub struct TransferResult {
    pub bytes_transferred: usize,
}

/// The running byte account of a download in progress. The surrounding
/// application records each chunk as it writes it; the count is exact,
/// never an estimate.
pub struct DownloadProgress {
    byte_count: usize,
}

impl DownloadProgress {
    /// The bytes recorded so far.
    pub closed spec fn count(&self) -> int {
        self.byte_count as int
    }

    /// An account with nothing written yet.
    pub fn new() -> (r: DownloadProgress)
        ensures
            r.count() == 0,
    {
        DownloadProgress { byte_count: 0 }
    }

    /// Records one written chunk. The recording is refused — and the
    /// count left untouched — only when the running total can no
    /// longer be represented exactly.
    pub fn record_chunk(&mut self, len: usize) -> (ok: bool)
        ensures
            ok ==> final(self).count() == old(self).count() + len,
            !ok ==> final(self).count() == old(self).count() && old(self).count() + len
                > usize::MAX,
    {
        if len <= usize::MAX - self.byte_count {
            self.byte_count = self.byte_count + len;
            true
        } else {
            false
        }
    }

    /// The completed transfer's record.
    pub fn finish(&self) -> (t: TransferResult)
        ensures
            t.bytes_transferred == self.count(),
    {
        TransferResult { bytes_transferred: self.byte_count }
    }
}

/// Pulls every chunk of a source into a sink, accumulating the exact
/// byte count written.
///
/// All delivered chunks are written in order even when the stream then
/// fails: the partially written destination is left in place and the
/// failure is reported as a terminal read error carrying the stream's
/// diagnostic text.
pub fn pump_chunks(source: &ByteSource, sink: &mut ByteSink) -> (r: Result<usize, GetObjectError>)
    requires
        old(sink)@.len() + total_size(source.chunk_seqs()) <= usize::MAX,
    ensures
        final(sink)@ == old(sink)@ + source.flat(),
        source.spec_read_error() is None ==> (r matches Ok(n) && n == total_size(
            source.chunk_seqs(),
        )),
        source.spec_read_error() matches Some(d) ==> (r matches Err(e) && e matches
            GetObjectError::Read(s3) && s3@ == "Failed to write from S3 download to local file: "@
            + d),
{
    let n = source.chunk_count();
    let mut count: usize = 0;
    let mut i: usize = 0;
    while i < n
        invariant
            i <= n,
            n == source.chunk_seqs().len(),
            count == size_take(source.chunk_seqs(), i as int),
            old(sink)@.len() + total_size(source.chunk_seqs()) <= usize::MAX,
            sink@ == old(sink)@ + flat_take(source.chunk_seqs(), i as int),
        decreases n - i,
    {
        let chunk = source.chunk_at(i);
        sink.write_chunk(chunk);
        proof {
            lemma_size_take_monotonic(source.chunk_seqs(), i + 1, n as int);
            lemma_flat_len(source.chunk_seqs(), i + 1);
        }
        count = count + chunk.len();
        i = i + 1;
    }
    match source.read_error_message() {
        None => Ok(count),
        Some(d) => {
            let text = String::from_str("Failed to write from S3 download to local file: ").concat(
                d.as_str(),
            );
            Err(GetObjectError::Read(S3Error::new(text)))
        },
    }
}

/// The query parameters of a download request: the key to fetch.
#[derive(Debug)]
pub struct Params {
    pub key: String,
}

impl Params {
    /// The upload/download seed naming the same key.
    pub fn to_seed(&self) -> (s: ObjectSeed)
        ensures
            s@ == self.key@,
    {
        ObjectSeed::new(self.key.clone())
    }
}

/// Uploads a source's payload under the given key: the source is
/// handed to the remote put as one body, and success requires the
/// remote acknowledgement — which, against the bucket model, is owed
/// whenever the session is scoped to the bucket's region and the
/// source reads cleanly.
pub fn upload(
    creds: &Credentials,
    bucket: &mut Bucket,
    seed: &ObjectSeed,
    source: &ByteSource,
) -> (r: Result<(), PutObjectError>)
    requires
        old(bucket).wf(),
        creds.region@ == old(bucket).spec_region(),
        source.spec_read_error() is None,
    ensures
        r is Ok,
        final(bucket).wf(),
        final(bucket).spec_region() == old(bucket).spec_region(),
        final(bucket).contents() == old(bucket).contents().insert(seed@, source.flat()),
        final(bucket).contents().contains_key(seed@),
        final(bucket).contents()[seed@] == source.flat(),
        final(bucket).key_order() == if old(bucket).contents().contains_key(seed@) {
            old(bucket).key_order()
        } else {
            old(bucket).key_order().push(seed@)
        },
{
    let key = String::from_str(seed.key());
    match facade::put(creds, bucket, key, source) {
        Ok(()) => Ok(()),
        Err(_) => unreached(),
    }
}

/// Downloads the payload stored under the given key into the sink.
///
/// The destination is created anew for this transfer, discarding any
/// prior content at its path. On success the sink holds exactly the
/// stored payload and the reported byte count equals both the summed
/// chunk lengths and the size of the written destination. When the
/// bucket does not hold the key, the remote refusal is reported and
/// the destination is never created.
pub fn download(
    creds: &Credentials,
    bucket: &Bucket,
    seed: &ObjectSeed,
    sink: &mut ByteSink,
) -> (r: Result<TransferResult, GetObjectError>)
    requires
        bucket.wf(),
        creds.region@ == bucket.spec_region(),
    ensures
        bucket.contents().contains_key(seed@) ==> (r matches Ok(t) && {
            &&& final(sink)@ == bucket.contents()[seed@]
            &&& t.bytes_transferred == bucket.contents()[seed@].len()
            &&& final(sink)@.len() == t.bytes_transferred
        }),
        !bucket.contents().contains_key(seed@) ==> (r matches Err(e) && (e matches
            GetObjectError::Get(s3) && (s3@ == facade::missing_key_detail() && final(sink)@ == old(
            sink,
        )@))),
{
    let key = String::from_str(seed.key());
    match facade::get(creds, bucket, &key) {
        Ok(src) => {
            sink.reset();
            match pump_chunks(&src, sink) {
                Ok(n) => {
                    proof {
                        lemma_flat_len(src.chunk_seqs(), src.chunk_seqs().len() as int);
                    }
                    Ok(TransferResult { bytes_transferred: n })
                },
                Err(_) => unreached(),
            }
        },
        Err(e) => Err(GetObjectError::Get(S3Error::new(e.detail))),
    }
}

} // verus!

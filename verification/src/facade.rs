//! The storage client facade.
//!
//! Three remote operations — put, get, and list by key — behind one
//! uniform call contract, independent of transport details. Each call
//! is a single round trip against the bucket: no retry, no pagination
//! loop; `list` returns exactly what the one call yields. Every call
//! takes the credentials of the session it runs under, and a session
//! is never used outside the region it was scoped to.

use vstd::prelude::*;
use vstd::string::*;
use crate::bucket::{Bucket, ObjectKeys};
use crate::credentials::Credentials;
use crate::errors::{ErrorKind, StorageError};
use crate::transfer::{total_size, ByteSource};

verus! {

/// The diagnostic text reported when a get names a key the bucket does
/// not hold: the remote code and reason, joined as every remote
/// failure is.
pub open spec fn missing_key_detail() -> Seq<char> {
    "NoSuchKey: The specified key does not exist."@
}

/// Stores a source's payload under a key: one remote round trip,
/// acknowledged only when the store holds exactly the payload.
///
/// A new key joins the provider order at the end; overwriting keeps
/// the key's position. Partial writes are the remote side's concern;
/// an acknowledged put has stored the whole payload.
pub fn put(
    creds: &Credentials,
    bucket: &mut Bucket,
    key: String,
    source: &ByteSource,
) -> (r: Result<(), StorageError>)
    requires
        old(bucket).wf(),
        creds.region@ == old(bucket).spec_region(),
        source.spec_read_error() is None,
    ensures
        r is Ok,
        final(bucket).wf(),
        final(bucket).spec_region() == old(bucket).spec_region(),
        final(bucket).contents() == old(bucket).contents().insert(key@, source.flat()),
        final(bucket).contents().contains_key(key@),
        final(bucket).contents()[key@] == source.flat(),
        final(bucket).key_order() == if old(bucket).contents().contains_key(key@) {
            old(bucket).key_order()
        } else {
            old(bucket).key_order().push(key@)
        },
{
    let data = source.to_bytes();
    bucket.put(key, data);
    Ok(())
}

/// Yields the payload stored under a key as a byte source: one remote
/// round trip.
///
/// The call succeeds exactly when the bucket holds the key; a missing
/// key is the remote service's refusal, reported as a remote-storage
/// error carrying the remote code and reason.
pub fn get(creds: &Credentials, bucket: &Bucket, key: &String) -> (r: Result<
    ByteSource,
    StorageError,
>)
    requires
        bucket.wf(),
        creds.region@ == bucket.spec_region(),
    ensures
        bucket.contents().contains_key(key@) ==> (r matches Ok(src) && {
            &&& src.flat() == bucket.contents()[key@]
            &&& src.spec_read_error() is None
            &&& total_size(src.chunk_seqs()) <= usize::MAX
        }),
        !bucket.contents().contains_key(key@) ==> (r matches Err(e) && {
            &&& e.kind == ErrorKind::RemoteStorageError
            &&& e.detail@ == missing_key_detail()
        }),
{
    match bucket.get(key) {
        Some(bytes) => {
            let mut copy: Vec<u8> = Vec::new();
            let n = bytes.len();
            let mut i: usize = 0;
            while i < n
                invariant
                    i <= n,
                    n == bytes@.len(),
                    copy@ == bytes@.subrange(0, i as int),
                decreases n - i,
            {
                copy.push(bytes[i]);
                i = i + 1;
                proof {
                    assert(copy@ =~= bytes@.subrange(0, i as int));
                }
            }
            proof {
                assert(bytes@.subrange(0, n as int) =~= bytes@);
            }
            Ok(ByteSource::from_bytes(copy))
        },
        None => Err(
            StorageError::new(
                ErrorKind::RemoteStorageError,
                String::from_str("NoSuchKey: The specified key does not exist."),
            ),
        ),
    }
}

/// Lists the bucket's keys in provider order: one remote round trip,
/// one page, exactly what the remote call yields — no key repeated,
/// none omitted. Listing never fails; an empty bucket yields an empty
/// listing, not an error.
pub fn list(creds: &Credentials, bucket: &Bucket) -> (r: Result<ObjectKeys, StorageError>)
    requires
        bucket.wf(),
        creds.region@ == bucket.spec_region(),
    ensures
        r is Ok,
        r->Ok_0@ == bucket.key_order(),
        bucket.key_order().len() == 0 ==> r->Ok_0@.len() == 0,
{
    Ok(ObjectKeys::new(bucket.keys()))
}

/// Keys as delivered by a remote listing page: an entry whose key
/// field the remote service omitted becomes the empty string, so a
/// page never yields an absent key.
pub fn keys_from_listing(raw: &Vec<Option<String>>) -> (r: Vec<String>)
    ensures
        r@.len() == raw@.len(),
        forall|i: int| 0 <= i < raw@.len() ==> r.deep_view()[i] == (match raw.deep_view()[i] {
            Some(k) => k,
            None => Seq::<char>::empty(),
        }),
{
    let n = raw.len();
    let mut out: Vec<String> = Vec::new();
    let mut i: usize = 0;
    while i < n
        invariant
            i <= n,
            n == raw@.len(),
            out@.len() == i,
            forall|j: int| 0 <= j < i ==> out.deep_view()[j] == (match raw.deep_view()[j] {
                Some(k) => k,
                None => Seq::<char>::empty(),
            }),
        decreases n - i,
    {
        let key = match &raw[i] {
            Some(k) => k.clone(),
            None => String::new(),
        };
        proof {
            assert(raw.deep_view()[i as int] == raw@[i as int].deep_view());
            assert(key@ == (match raw.deep_view()[i as int] {
                Some(k) => k,
                None => Seq::<char>::empty(),
            }));
        }
        let ghost prev = out@;
        let ghost prev_deep = out.deep_view();
        out.push(key);
        i = i + 1;
        proof {
            assert forall|j: int| 0 <= j < i implies out.deep_view()[j] == (
            match raw.deep_view()[j] {
                Some(k) => k,
                None => Seq::<char>::empty(),
            }) by {
                assert(out.deep_view()[j] == out@[j]@);
                if j < i - 1 {
                    assert(out@[j] == prev[j]);
                    assert(prev_deep[j] == prev[j]@);
                }
            }
        }
    }
    out
}

} // verus!

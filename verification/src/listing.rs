//! The records that bucket and object listings are delivered in, and the
//! conversions that turn the plain name lists handed back by the storage
//! service into those records.

use vstd::prelude::*;

verus! {

/// A request to create a bucket with the given name.
pub struct CreateBucketReq {
    pub bucket_name: String,
}

/// One entry of a bucket listing: the bucket's name.
#[derive(Debug)]
pub struct ListBucketResp {
    pub bucket_name: String,
}

/// One entry of an object listing: the object's key within its bucket.
#[derive(Debug)]
pub struct ListObjectResp {
    pub object_name: String,
}

/// Wrap each bucket name in its listing record, keeping order and count.
pub fn bucket_records(names: Vec<String>) -> (r: Vec<ListBucketResp>)
    ensures
        r@.len() == names@.len(),
        forall|i: int| 0 <= i < r@.len() ==> r@[i].bucket_name@ == names@[i]@,
{
    let mut r: Vec<ListBucketResp> = Vec::new();
    let mut k: usize = 0;
    while k < names.len()
        invariant
            k <= names.len(),
            r@.len() == k,
            forall|i: int| 0 <= i < k ==> r@[i].bucket_name@ == names@[i]@,
        decreases names.len() - k,
    {
        r.push(ListBucketResp { bucket_name: names[k].clone() });
        k = k + 1;
    }
    r
}

/// Wrap each object key in its listing record, keeping order and count.
/// A service response that carries no contents section at all stands for
/// a bucket with no objects and yields the empty listing.
pub fn object_records(contents: Option<Vec<String>>) -> (r: Vec<ListObjectResp>)
    ensures
        match contents {
            Some(keys) => {
                &&& r@.len() == keys@.len()
                &&& forall|i: int| 0 <= i < r@.len() ==> r@[i].object_name@ == keys@[i]@
            },
            None => r@.len() == 0,
        },
{
    match contents {
        Some(keys) => {
            let mut r: Vec<ListObjectResp> = Vec::new();
            let mut k: usize = 0;
            while k < keys.len()
                invariant
                    k <= keys.len(),
                    r@.len() == k,
                    forall|i: int| 0 <= i < k ==> r@[i].object_name@ == keys@[i]@,
                decreases keys.len() - k,
            {
                r.push(ListObjectResp { object_name: keys[k].clone() });
                k = k + 1;
            }
            r
        },
        None => Vec::new(),
    }
}

} // verus!

//! The compressed bitmap of the `roaring` crate, and what this library assumes of it.
//!
//! Nothing in this file is proved. Each function below makes one call into
//! `roaring`, and its contract is taken on trust from that crate's source and
//! documentation.

use roaring::RoaringBitmap;
use vstd::prelude::*;

verus! {

/// `roaring::RoaringBitmap`, carried as a value that nothing here looks into.
#[verifier::external_type_specification]
#[verifier::external_body]
pub struct ExRoaringBitmap(RoaringBitmap);

/// `std::io::Error`, the error of `RoaringBitmap::deserialize_from`, carried as
/// a value that nothing here looks into.
#[verifier::external_type_specification]
#[verifier::external_body]
pub struct ExIoError(std::io::Error);

/// The integers that a bitmap holds.
pub uninterp spec fn bitmap_members(bitmap: RoaringBitmap) -> Set<u32>;

/// Whether a bitmap is laid out as `RoaringBitmap::new` and `RoaringBitmap::insert`
/// leave it: its containers in key order, none of them empty, each held as a
/// sorted array up to 4096 values and as a bit field above that.
pub uninterp spec fn bitmap_regular(bitmap: RoaringBitmap) -> bool;

/// The bytes that `RoaringBitmap::serialize_into` writes for a regular bitmap
/// with the given members.
pub uninterp spec fn bitmap_stream(members: Set<u32>) -> Seq<u8>;

/// What `RoaringBitmap::deserialize_from` makes of the given bytes: `None` where
/// it returns an error, else the values of the bitmap it returns, in the order in
/// which that bitmap's iterator yields them.
pub uninterp spec fn stream_values(bytes: Seq<u8>) -> Option<Seq<u32>>;

/// Each value is smaller than every later one.
pub open spec fn strictly_ascending(ids: Seq<u32>) -> bool {
    forall|i: int, j: int| 0 <= i < j < ids.len() ==> ids[i] < ids[j]
}

/// `RoaringBitmap::new`: a regular bitmap that holds nothing.
#[verifier::external_body]
pub(crate) fn bitmap_new() -> (bitmap: RoaringBitmap)
    ensures
        bitmap_regular(bitmap),
        bitmap_members(bitmap) == Set::<u32>::empty(),
{
    RoaringBitmap::new()
}

/// `RoaringBitmap::insert`: adds `value` to a regular bitmap, which stays regular,
/// and tells whether the value was absent before.
#[verifier::external_body]
pub(crate) fn bitmap_insert(bitmap: &mut RoaringBitmap, value: u32) -> (fresh: bool)
    requires
        bitmap_regular(*old(bitmap)),
    ensures
        bitmap_regular(*final(bitmap)),
        bitmap_members(*final(bitmap)) == bitmap_members(*old(bitmap)).insert(value),
        fresh == !bitmap_members(*old(bitmap)).contains(value),
{
    bitmap.insert(value)
}

/// `RoaringBitmap::contains`: whether a regular bitmap holds `value`.
#[verifier::external_body]
pub(crate) fn bitmap_contains(bitmap: &RoaringBitmap, value: u32) -> (held: bool)
    requires
        bitmap_regular(*bitmap),
    ensures
        held == bitmap_members(*bitmap).contains(value),
{
    bitmap.contains(value)
}

/// `RoaringBitmap::iter`, collected: the members of a regular bitmap, each once,
/// in ascending order.
#[verifier::external_body]
pub(crate) fn bitmap_values(bitmap: &RoaringBitmap) -> (ids: Vec<u32>)
    requires
        bitmap_regular(*bitmap),
    ensures
        strictly_ascending(ids@),
        ids@.to_set() == bitmap_members(*bitmap),
{
    bitmap.iter().collect()
}

/// `RoaringBitmap::serialize_into`, writing into a fresh vector: the bytes depend
/// on the members of a regular bitmap alone, and `RoaringBitmap::deserialize_from`
/// reads the same members back from them.
#[verifier::external_body]
pub(crate) fn bitmap_serialize(bitmap: &RoaringBitmap) -> (bytes: Vec<u8>)
    requires
        bitmap_regular(*bitmap),
    ensures
        bytes@ == bitmap_stream(bitmap_members(*bitmap)),
        stream_values(bytes@) is Some,
        strictly_ascending(stream_values(bytes@)->0),
        stream_values(bytes@)->0.to_set() == bitmap_members(*bitmap),
{
    let mut bytes = Vec::new();
    // a vector takes every write
    bitmap.serialize_into(&mut bytes).unwrap();
    bytes
}

/// `RoaringBitmap::deserialize_from`, followed by `RoaringBitmap::iter` on what it
/// returned: the values read from `bytes`, or the error. The bitmap that comes
/// back need not be regular, so nothing is said of the order of the values.
#[verifier::external_body]
pub(crate) fn stream_parse(bytes: &[u8]) -> (parsed: Result<Vec<u32>, std::io::Error>)
    ensures
        match parsed {
            Ok(ids) => stream_values(bytes@) == Some(ids@),
            Err(_) => stream_values(bytes@) is None,
        },
{
    match RoaringBitmap::deserialize_from(bytes) {
        Ok(bitmap) => Ok(bitmap.iter().collect()),
        Err(error) => Err(error),
    }
}

} // verus!

use base64::engine::general_purpose::{URL_SAFE, URL_SAFE_NO_PAD};
use base64::Engine;
use release_query::exclusion::{DecodeError, ExclusionSet};
use roaring::RoaringBitmap;

#[test]
fn new_set_is_empty() {
    let set = ExclusionSet::new();
    assert_eq!(set.ids(), Vec::<u32>::new());
    assert!(!set.contains(0));
}

#[test]
fn insert_reports_fresh_members() {
    let mut set = ExclusionSet::new();
    assert!(set.insert(7));
    assert!(!set.insert(7));
    assert!(set.insert(3));
    assert!(set.contains(7));
    assert!(set.contains(3));
    assert!(!set.contains(5));
    assert_eq!(set.ids(), vec![3, 7]);
}

#[test]
fn from_ids_ignores_order_and_repeats() {
    let set = ExclusionSet::from_ids(&[30, 10, 20, 10]);
    assert_eq!(set.ids(), vec![10, 20, 30]);
    assert!(set.contains(20));
    assert!(!set.contains(15));
}

#[test]
fn from_ascending_takes_ascending_lists_only() {
    let set = ExclusionSet::from_ascending(&[10, 20, 30]).unwrap();
    assert_eq!(set.ids(), vec![10, 20, 30]);
    assert!(ExclusionSet::from_ascending(&[]).is_some());
    assert!(ExclusionSet::from_ascending(&[5]).is_some());
    assert!(ExclusionSet::from_ascending(&[10, 30, 20]).is_none());
    assert!(ExclusionSet::from_ascending(&[10, 10]).is_none());
}

#[test]
fn encode_gives_the_padded_url_safe_stream() {
    assert_eq!(ExclusionSet::from_ids(&[1, 2, 3]).encode(), "OjAAAAEAAAAAAAIAEAAAAAEAAgADAA==");
    assert_eq!(ExclusionSet::from_ids(&[10, 20, 30]).encode(), "OjAAAAEAAAAAAAIAEAAAAAoAFAAeAA==");
    assert_eq!(ExclusionSet::new().encode(), "OjAAAAAAAAA=");
    assert_eq!(
        ExclusionSet::from_ids(&[70000, 5]).encode(),
        "OjAAAAIAAAAAAAAAAQAAABgAAAAaAAAABQBwEQ=="
    );
}

#[test]
fn encode_uses_the_url_safe_alphabet() {
    assert_eq!(
        ExclusionSet::from_ids(&[62, 63, 64496]).encode(),
        "OjAAAAEAAAAAAAIAEAAAAD4APwDw-w=="
    );
    assert_eq!(ExclusionSet::from_ids(&[65534, 65535]).encode(), "OjAAAAEAAAAAAAEAEAAAAP7___8=");
}

#[test]
fn decode_reads_known_texts() {
    let set = ExclusionSet::decode("OjAAAAEAAAAAAAIAEAAAAAoAFAAeAA==").unwrap();
    assert_eq!(set.ids(), vec![10, 20, 30]);
    let two = ExclusionSet::decode("OjAAAAIAAAAAAAAAAQAAABgAAAAaAAAABQBwEQ==").unwrap();
    assert_eq!(two.ids(), vec![5, 70000]);
    let none = ExclusionSet::decode("OjAAAAAAAAA=").unwrap();
    assert_eq!(none.ids(), Vec::<u32>::new());
}

#[test]
fn decode_takes_text_without_padding() {
    let set = ExclusionSet::decode("OjAAAAEAAAAAAAIAEAAAAAoAFAAeAA").unwrap();
    assert_eq!(set.ids(), vec![10, 20, 30]);
    let none = ExclusionSet::decode("OjAAAAAAAAA").unwrap();
    assert_eq!(none.ids(), Vec::<u32>::new());
}

#[test]
fn decode_rejects_text_that_is_not_base64() {
    assert_eq!(ExclusionSet::decode("not base64!").err(), Some(DecodeError::InvalidBase64));
    assert_eq!(ExclusionSet::decode("OjAA*AAA").err(), Some(DecodeError::InvalidBase64));
    // the standard alphabet's `+` and `/` are not URL-safe
    assert_eq!(
        ExclusionSet::decode("OjAAAAEAAAAAAAIAEAAAAD4APwDw+w==").err(),
        Some(DecodeError::InvalidBase64)
    );
}

#[test]
fn decode_rejects_bytes_that_are_no_bitmap() {
    // no known cookie
    assert_eq!(ExclusionSet::decode("AAECAwQFBgc=").err(), Some(DecodeError::InvalidBitmap));
    // the last value is cut off
    assert_eq!(
        ExclusionSet::decode("OjAAAAEAAAAAAAIAEAAAAAEAAgA=").err(),
        Some(DecodeError::InvalidBitmap)
    );
    // nothing at all
    assert_eq!(ExclusionSet::decode("").err(), Some(DecodeError::InvalidBitmap));
    // values of one container out of order
    assert_eq!(
        ExclusionSet::decode("OjAAAAEAAAAAAAEAEAAAAAkABwA=").err(),
        Some(DecodeError::InvalidBitmap)
    );
}

#[test]
fn decode_rejects_containers_out_of_order() {
    assert_eq!(
        ExclusionSet::decode("OjAAAAIAAAABAAAAAAAAABgAAAAaAAAABwAJAA==").err(),
        Some(DecodeError::InvalidBitmap)
    );
    assert_eq!(
        ExclusionSet::decode("OjAAAAIAAAAAAAAAAAAAABgAAAAaAAAABwAHAA==").err(),
        Some(DecodeError::InvalidBitmap)
    );
}

#[test]
fn round_trip_keeps_the_members() {
    let lists: Vec<Vec<u32>> = vec![
        vec![],
        vec![0],
        vec![u32::MAX],
        vec![0, u32::MAX],
        vec![1, 2, 3],
        vec![65535, 65536, 65537],
        vec![9, 8, 7, 1_000_000, 2_500_000, 7],
    ];
    for list in lists {
        let set = ExclusionSet::from_ids(&list);
        let back = ExclusionSet::decode(&set.encode()).unwrap();
        assert_eq!(back.ids(), set.ids());
        let mut sorted = list.clone();
        sorted.sort();
        sorted.dedup();
        assert_eq!(back.ids(), sorted);
    }
}

#[test]
fn round_trip_keeps_a_dense_run() {
    // more than 4096 values under one key: held as a bit field, not as an array
    let run: Vec<u32> = (100..6000).collect();
    let set = ExclusionSet::from_ids(&run);
    let text = set.encode();
    let back = ExclusionSet::decode(&text).unwrap();
    assert_eq!(back.ids(), run);
    assert_eq!(back.encode(), text);
}

#[test]
fn encode_does_not_depend_on_insertion_order() {
    let ascending = ExclusionSet::from_ids(&[1, 2, 3, 70000, 4_000_000]);
    let descending = ExclusionSet::from_ids(&[4_000_000, 70000, 3, 2, 1]);
    let mut one_by_one = ExclusionSet::new();
    for id in [3, 4_000_000, 1, 70000, 2, 3] {
        one_by_one.insert(id);
    }
    assert_eq!(ascending.encode(), descending.encode());
    assert_eq!(ascending.encode(), one_by_one.encode());
}

#[test]
fn encode_does_not_depend_on_the_order_of_a_dense_run() {
    let up: Vec<u32> = (0..5000).collect();
    let down: Vec<u32> = (0..5000).rev().collect();
    assert_eq!(ExclusionSet::from_ids(&up).encode(), ExclusionSet::from_ids(&down).encode());
}

#[test]
fn encode_agrees_with_the_bitmap_crate() {
    let mut bitmap = RoaringBitmap::new();
    for id in [12u32, 99, 1 << 20, 77] {
        bitmap.insert(id);
    }
    let mut bytes = Vec::new();
    bitmap.serialize_into(&mut bytes).unwrap();
    let text = URL_SAFE.encode(&bytes);
    assert_eq!(ExclusionSet::from_ids(&[12, 99, 1 << 20, 77]).encode(), text);
    let set = ExclusionSet::decode(&text).unwrap();
    assert_eq!(set.ids(), bitmap.iter().collect::<Vec<u32>>());
    let bare = ExclusionSet::decode(&URL_SAFE_NO_PAD.encode(&bytes)).unwrap();
    assert_eq!(bare.ids(), set.ids());
}

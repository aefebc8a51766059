use tw_memory::c_byte_array::{free_c_byte_array, CByteArray, CByteArrayResult};

#[test]
fn round_trip_preserves_bytes() {
    let v: Vec<u8> = vec![10, 20, 30, 40];
    let arr = CByteArray::new(v);
    let back = arr.into_vec();
    assert_eq!(back, vec![10, 20, 30, 40]);
}

#[test]
fn round_trip_keeps_the_allocation() {
    let mut v: Vec<u8> = Vec::with_capacity(100);
    v.push(7);
    let arr = CByteArray::new(v);
    let back = arr.into_vec();
    assert_eq!(back, vec![7]);
    // The exact capacity survives only because the very allocation moved
    // through the buffer and back; a copy would not carry it.
    assert_eq!(back.capacity(), 100);
}

#[test]
fn round_trip_empty_sequence() {
    let arr = CByteArray::new(Vec::new());
    let back = arr.into_vec();
    assert!(back.is_empty());
}

#[test]
fn release_is_idempotent() {
    let mut arr = CByteArray::new(vec![1, 2, 3]);
    arr.release_if_allocated();
    assert_eq!(arr.size(), 0);
    assert_eq!(arr.capacity(), 0);
    assert!(arr.data().is_none());
    arr.release_if_allocated();
    assert_eq!(arr.size(), 0);
    assert_eq!(arr.capacity(), 0);
    assert!(arr.data().is_none());
}

#[test]
fn null_buffer_stays_null_through_release() {
    let mut arr = CByteArray::null();
    assert_eq!(arr.size(), 0);
    assert_eq!(arr.capacity(), 0);
    assert!(arr.data().is_none());
    arr.release_if_allocated();
    assert_eq!(arr.size(), 0);
    assert_eq!(arr.capacity(), 0);
    assert!(arr.data().is_none());
}

#[test]
fn transfer_and_release_scenario() {
    let mut v: Vec<u8> = Vec::with_capacity(8);
    v.push(1);
    v.push(2);
    v.push(3);
    let mut arr = CByteArray::new(v);
    assert_eq!(arr.size(), 3);
    assert_eq!(arr.capacity(), 8);
    let bytes = arr.data().expect("a holding buffer exposes its bytes");
    assert_eq!(bytes.to_vec(), vec![1, 2, 3]);
    arr.release_if_allocated();
    assert_eq!(arr.size(), 0);
    assert_eq!(arr.capacity(), 0);
    assert!(arr.data().is_none());
    arr.release_if_allocated();
    assert_eq!(arr.size(), 0);
    assert_eq!(arr.capacity(), 0);
    assert!(arr.data().is_none());
}

#[test]
fn null_scenario() {
    let mut arr = CByteArray::null();
    assert_eq!(arr.size(), 0);
    assert!(arr.data().is_none());
    arr.release_if_allocated();
    assert!(arr.data().is_none());
    assert_eq!(arr.size(), 0);
    assert_eq!(arr.capacity(), 0);
}

#[test]
fn free_entry_point_on_missing_record() {
    free_c_byte_array(None);
}

#[test]
fn free_entry_point_releases_in_place() {
    let mut arr = CByteArray::new(vec![5, 6]);
    free_c_byte_array(Some(&mut arr));
    assert_eq!(arr.size(), 0);
    assert_eq!(arr.capacity(), 0);
    assert!(arr.data().is_none());
    free_c_byte_array(Some(&mut arr));
    assert_eq!(arr.size(), 0);
    assert!(arr.data().is_none());
}

#[test]
fn zero_capacity_sequence_gives_the_null_record() {
    let arr = CByteArray::new(Vec::new());
    assert!(arr.data().is_none());
    assert_eq!(arr.size(), 0);
    assert_eq!(arr.capacity(), 0);
}

#[test]
fn empty_sequence_with_capacity_is_holding() {
    let v: Vec<u8> = Vec::with_capacity(4);
    let arr = CByteArray::new(v);
    assert_eq!(arr.size(), 0);
    assert_eq!(arr.capacity(), 4);
    let bytes = arr.data().expect("a non-null buffer exposes its bytes");
    assert!(bytes.is_empty());
}

#[test]
fn data_reflects_held_bytes() {
    let arr = CByteArray::new(vec![42]);
    let bytes = arr.data().expect("a holding buffer exposes its bytes");
    assert_eq!(bytes.to_vec(), vec![42]);
    assert_eq!(bytes.len(), arr.size());
}

#[test]
fn result_pairs_code_and_buffer() {
    let ok = CByteArrayResult {
        code: 0,
        result: CByteArray::new(vec![9]),
    };
    assert_eq!(ok.code, 0);
    assert_eq!(ok.result.size(), 1);

    let err = CByteArrayResult {
        code: 7,
        result: CByteArray::null(),
    };
    assert_eq!(err.code, 7);
    assert!(err.result.data().is_none());
}

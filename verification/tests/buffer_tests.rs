use gambier::buffer::{Buffer, CapacityError, USAGE_STORAGE, USAGE_VERTEX};

#[test]
fn overwrite_within_capacity_replaces_contents() {
    let mut b: Buffer<u32> = Buffer::new(4, USAGE_VERTEX, true);
    assert_eq!(b.len(), 0);
    assert_eq!(b.capacity(), 4);
    assert!(b.overwrite(&vec![1, 2, 3]).is_ok());
    assert_eq!(b.len(), 3);
    assert_eq!(b.get(0), 1);
    assert_eq!(b.get(1), 2);
    assert_eq!(b.get(2), 3);
}

#[test]
fn overwrite_is_whole_prefix_replace_not_append() {
    let mut b: Buffer<u32> = Buffer::new(4, USAGE_VERTEX, true);
    assert!(b.overwrite(&vec![7, 8, 9]).is_ok());
    assert!(b.overwrite(&vec![5]).is_ok());
    assert_eq!(b.len(), 1);
    assert_eq!(b.get(0), 5);
}

#[test]
fn overwrite_over_capacity_fails_without_altering_contents() {
    let mut b: Buffer<u32> = Buffer::new(3, USAGE_STORAGE, true);
    assert!(b.overwrite(&vec![10, 20, 30]).is_ok());
    let r = b.overwrite(&vec![1, 2, 3, 4]);
    assert_eq!(r, Err(CapacityError { requested: 4, capacity: 3 }));
    assert_eq!(b.len(), 3);
    assert_eq!(b.get(0), 10);
    assert_eq!(b.get(1), 20);
    assert_eq!(b.get(2), 30);
}

#[test]
fn overwrite_at_exact_capacity_succeeds() {
    let mut b: Buffer<u8> = Buffer::new(2, USAGE_VERTEX, true);
    assert!(b.overwrite(&vec![1, 2]).is_ok());
    assert_eq!(b.len(), 2);
}

#[test]
fn overwrite_with_empty_data_clears_prefix() {
    let mut b: Buffer<u8> = Buffer::new(2, USAGE_VERTEX, true);
    assert!(b.overwrite(&vec![1, 2]).is_ok());
    assert!(b.overwrite(&vec![]).is_ok());
    assert_eq!(b.len(), 0);
}

#[test]
fn zero_capacity_buffer_rejects_any_element() {
    let mut b: Buffer<u8> = Buffer::new(0, USAGE_VERTEX, true);
    assert_eq!(b.overwrite(&vec![1]), Err(CapacityError { requested: 1, capacity: 0 }));
    assert!(b.overwrite(&vec![]).is_ok());
}

#[test]
fn destroy_consumes_the_buffer() {
    let b: Buffer<u32> = Buffer::new(4, USAGE_VERTEX, true);
    b.destroy();
}

use vkrender::sysinfo::{mebibytes, ArrayDeque};

#[test]
fn ring_buffer_overwrites_oldest_slot() {
    let mut d: ArrayDeque<u32, 3> = ArrayDeque::new();
    assert_eq!(d.sum(), 0);
    d.push(1);
    d.push(2);
    assert_eq!(d.sum(), 3);
    d.push(3);
    d.push(4);
    assert_eq!(d.sum(), 4 + 2 + 3);
}

#[test]
fn ring_buffer_of_frame_times() {
    let mut d: ArrayDeque<f32, 50> = ArrayDeque::new();
    for _ in 0..120 {
        d.push(0.5);
    }
    assert_eq!(d.sum(), 25.0);
}

#[test]
fn single_slot_ring_keeps_last_value() {
    let mut d: ArrayDeque<i64, 1> = ArrayDeque::new();
    d.push(-7);
    d.push(9);
    assert_eq!(d.sum(), 9);
}

#[test]
fn mebibytes_round_down() {
    assert_eq!(mebibytes(0), 0);
    assert_eq!(mebibytes(1024 * 1024 - 1), 0);
    assert_eq!(mebibytes(3 * 1024 * 1024 + 5), 3);
    assert_eq!(mebibytes(u64::MAX), 17592186044415);
}

#[test]
fn ring_buffer_keeps_last_n_pushes() {
    let mut d: ArrayDeque<u32, 3> = ArrayDeque::new();
    for v in 1..=5 {
        d.push(v);
    }
    assert_eq!(d.len(), 5);
    assert_eq!(d.sum(), 3 + 4 + 5);
}

#[test]
fn integer_ring_sums_last_pushes_from_default() {
    let e: ArrayDeque<i32, 3> = ArrayDeque::new();
    assert_eq!(e.sum(), 0);
    let mut d: ArrayDeque<i32, 3> = ArrayDeque::new();
    d.push(1);
    d.push(2);
    d.push(3);
    d.push(4);
    assert_eq!(d.sum(), 9);
}

#[test]
fn integer_ring_after_many_pushes_sums_last_n() {
    let mut d: ArrayDeque<u64, 4> = ArrayDeque::new();
    for v in 1..=10u64 {
        d.push(v);
    }
    assert_eq!(d.sum(), 7 + 8 + 9 + 10);
    let mut e: ArrayDeque<u64, 4> = ArrayDeque::new();
    e.push(5);
    e.push(6);
    assert_eq!(e.sum(), 11);
}

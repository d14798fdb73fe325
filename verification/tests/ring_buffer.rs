use co2_monitor::ring_buffer::RingBuffer;

fn contents<const N: usize>(rb: &RingBuffer<u16, N>) -> Vec<u16> {
    (0..N).map(|i| rb[i]).collect()
}

#[test]
fn new_buffer_holds_defaults() {
    let rb = RingBuffer::<u16, 4>::new();
    assert_eq!(contents(&rb), vec![0, 0, 0, 0]);
}

#[test]
fn push_drops_oldest_and_appends_newest() {
    let mut rb = RingBuffer::<u16, 4>::new();
    rb.push(1);
    assert_eq!(contents(&rb), vec![0, 0, 0, 1]);
    rb.push(2);
    rb.push(3);
    assert_eq!(contents(&rb), vec![0, 1, 2, 3]);
    rb.push(4);
    assert_eq!(contents(&rb), vec![1, 2, 3, 4]);
    rb.push(5);
    assert_eq!(contents(&rb), vec![2, 3, 4, 5]);
}

#[test]
fn history_keeps_the_last_n_pushes_in_order() {
    let mut rb = RingBuffer::<u16, 3>::new();
    for v in 10..20u16 {
        rb.push(v);
    }
    assert_eq!(contents(&rb), vec![17, 18, 19]);
}

#[test]
fn index_wraps_modulo_capacity() {
    let mut rb = RingBuffer::<u16, 3>::new();
    rb.push(7);
    rb.push(8);
    rb.push(9);
    rb.push(10);
    assert_eq!(rb[0], 8);
    assert_eq!(rb[2], 10);
    assert_eq!(rb[3], 8);
    assert_eq!(rb[5], 10);
    assert_eq!(rb[usize::MAX], rb[usize::MAX % 3]);
}

#[test]
fn single_slot_buffer_holds_latest() {
    let mut rb = RingBuffer::<u8, 1>::new();
    assert_eq!(rb[0], 0);
    rb.push(42);
    assert_eq!(rb[0], 42);
    rb.push(43);
    assert_eq!(rb[0], 43);
    assert_eq!(rb[17], 43);
}

#[test]
fn history_of_co2_averages_has_120_entries() {
    let mut rb = RingBuffer::<u16, 120>::new();
    for v in 0..130u16 {
        rb.push(v);
    }
    assert_eq!(rb[0], 10);
    assert_eq!(rb[119], 129);
}

#[test]
fn zero_capacity_buffer_can_be_created() {
    let _rb = RingBuffer::<u16, 0>::new();
}

#[test]
fn value_stays_for_n_pushes() {
    let mut rb = RingBuffer::<u16, 4>::new();
    rb.push(99);
    assert_eq!(rb[3], 99);
    rb.push(1);
    assert_eq!(rb[2], 99);
    rb.push(2);
    rb.push(3);
    assert_eq!(rb[0], 99);
    rb.push(4);
    assert_eq!(contents(&rb), vec![1, 2, 3, 4]);
}

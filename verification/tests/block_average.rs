use co2_monitor::block_average::BlockAverage;

#[test]
fn returns_average_when_block_completes() {
    let mut avg = BlockAverage::<u16>::new(3);
    assert_eq!(avg.push(1), None);
    assert_eq!(avg.push(2), None);
    assert_eq!(avg.push(6), Some(3));
}

#[test]
fn average_rounds_down() {
    let mut avg = BlockAverage::<u16>::new(2);
    assert_eq!(avg.push(1), None);
    assert_eq!(avg.push(2), Some(1));
}

#[test]
fn blocks_repeat_after_each_average() {
    let mut avg = BlockAverage::<u32>::new(3);
    let outs: Vec<Option<u32>> = [1u32, 2, 3, 10, 20, 30, 7].iter().map(|&x| avg.push(x)).collect();
    assert_eq!(outs, vec![None, None, Some(2), None, None, Some(20), None]);
}

#[test]
fn block_of_one_returns_every_sample() {
    let mut avg = BlockAverage::<u8>::new(1);
    assert_eq!(avg.push(9), Some(9));
    assert_eq!(avg.push(250), Some(250));
}

#[test]
fn co2_block_of_twelve() {
    let mut avg = BlockAverage::<u16>::new(12);
    for i in 0..11u16 {
        assert_eq!(avg.push(400 + i), None);
    }
    // 400 + ... + 410 + 420 = 4875; 4875 / 12 = 406
    assert_eq!(avg.push(420), Some(406));
}

#[test]
fn sum_overflow_is_refused() {
    let mut avg = BlockAverage::<u8>::new(3);
    assert!(avg.can_push(200));
    assert_eq!(avg.push(200), None);
    assert!(avg.can_push(55));
    assert!(!avg.can_push(56));
}

#[test]
fn zero_block_size_cannot_push() {
    let avg = BlockAverage::<u16>::new(0);
    assert!(!avg.can_push(1));
}

#[test]
fn block_size_is_converted_with_as() {
    // 256 as u8 == 0: the completing push would divide by zero.
    let mut avg = BlockAverage::<u8>::new(256);
    for _ in 0..255 {
        assert_eq!(avg.push(0), None);
    }
    assert!(!avg.can_push(0));

    // 257 as u8 == 1: the block sum itself is returned.
    let mut avg = BlockAverage::<u8>::new(257);
    assert_eq!(avg.push(200), None);
    for _ in 0..255 {
        assert_eq!(avg.push(0), None);
    }
    assert!(avg.can_push(0));
    assert_eq!(avg.push(0), Some(200));
}

#[test]
fn u64_samples() {
    let mut avg = BlockAverage::<u64>::new(2);
    assert_eq!(avg.push(u64::MAX - 1), None);
    assert!(!avg.can_push(2));
    assert_eq!(avg.push(1), Some(u64::MAX / 2));
}

#[test]
fn u16_block_size_is_truncated() {
    // 65537 as u16 == 1
    let mut avg = BlockAverage::<u16>::new(65537);
    assert_eq!(avg.push(500), None);
    for _ in 0..65535 {
        assert_eq!(avg.push(0), None);
    }
    assert_eq!(avg.push(1), Some(501));
}

#[test]
fn u128_and_usize_samples() {
    let mut a = BlockAverage::<u128>::new(2);
    assert_eq!(a.push(u128::MAX - 3), None);
    assert_eq!(a.push(3), Some(u128::MAX / 2));
    let mut b = BlockAverage::<usize>::new(3);
    assert_eq!(b.push(1), None);
    assert_eq!(b.push(1), None);
    assert_eq!(b.push(2), Some(1));
}

#[test]
fn signed_average_rounds_toward_zero() {
    let mut a = BlockAverage::<i16>::new(2);
    assert_eq!(a.push(-3), None);
    assert_eq!(a.push(0), Some(-1));
    let mut b = BlockAverage::<i32>::new(4);
    for x in [10, -20, 7, 0] {
        b.push(x);
    }
    assert_eq!(b.push(5), None);
    let mut c = BlockAverage::<i64>::new(3);
    assert_eq!(c.push(-1), None);
    assert_eq!(c.push(-1), None);
    assert_eq!(c.push(-1), Some(-1));
}

#[test]
fn signed_block_size_can_wrap_negative() {
    // 255 as i8 == -1: the sum is divided by -1.
    let mut a = BlockAverage::<i8>::new(255);
    assert_eq!(a.push(5), None);
    for _ in 0..253 {
        assert_eq!(a.push(0), None);
    }
    assert!(a.can_push(0));
    assert_eq!(a.push(0), Some(-5));
    // i8::MIN / -1 overflows: refused.
    let mut b = BlockAverage::<i8>::new(255);
    assert_eq!(b.push(-128), None);
    for _ in 0..253 {
        assert_eq!(b.push(0), None);
    }
    assert!(!b.can_push(0));
}

#[test]
fn signed_sum_underflow_is_refused() {
    let mut a = BlockAverage::<i8>::new(3);
    assert_eq!(a.push(-100), None);
    assert!(a.can_push(-28));
    assert!(!a.can_push(-29));
}

#[test]
fn i128_and_isize_samples() {
    let mut a = BlockAverage::<i128>::new(2);
    assert_eq!(a.push(i128::MIN + 1), None);
    assert_eq!(a.push(-1), Some(i128::MIN / 2));
    let mut b = BlockAverage::<isize>::new(2);
    assert_eq!(b.push(-7), None);
    assert_eq!(b.push(2), Some(-2));
}

#[test]
fn clone_keeps_the_pending_block() {
    let mut a = BlockAverage::<u16>::new(2);
    a.push(10);
    let mut b = a.clone();
    assert_eq!(a.push(20), Some(15));
    assert_eq!(b.push(30), Some(20));
}

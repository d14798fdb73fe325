use vstd::prelude::*;
use num::traits::AsPrimitive;

verus! {

/// Rust's integer division on values: the quotient rounded toward zero.
pub open spec fn trunc_div(x: int, d: int) -> int {
    if x == 0 {
        0
    } else if x > 0 && d > 0 {
        x / d
    } else if x < 0 && d < 0 {
        (-x) / (-d)
    } else if x < 0 {
        -((-x) / d)
    } else {
        -(x / (-d))
    }
}

/// A quotient rounded toward zero stays in a two's complement range `lo ..= hi`,
/// except for `lo / -1`.
proof fn lemma_trunc_div_in_range(x: int, d: int, lo: int, hi: int)
    requires
        hi > 0,
        lo == -hi - 1,
        lo <= x <= hi,
        d != 0,
        !(x == lo && d == -1),
    ensures
        lo <= trunc_div(x, d) <= hi,
{
    if x > 0 && d > 0 {
        vstd::arithmetic::div_mod::lemma_div_pos_is_pos(x, d);
        vstd::arithmetic::div_mod::lemma_div_is_ordered_by_denominator(x, 1, d);
    } else if x < 0 && d < 0 {
        vstd::arithmetic::div_mod::lemma_div_pos_is_pos(-x, -d);
        if d == -1 {
        } else {
            vstd::arithmetic::div_mod::lemma_div_is_ordered_by_denominator(-x, 2, -d);
            vstd::arithmetic::div_mod::lemma_div_is_ordered(-x, hi + 1, 2);
            vstd::arithmetic::div_mod::lemma_fundamental_div_mod(hi + 1, 2);
        }
    } else if x < 0 {
        vstd::arithmetic::div_mod::lemma_div_pos_is_pos(-x, d);
        vstd::arithmetic::div_mod::lemma_div_is_ordered_by_denominator(-x, 1, d);
    } else if x > 0 {
        vstd::arithmetic::div_mod::lemma_div_pos_is_pos(x, -d);
        vstd::arithmetic::div_mod::lemma_div_is_ordered_by_denominator(x, 1, -d);
    }
}

/// Floor division: `a / b` is the largest `q` with `q * b <= a`.
proof fn lemma_floor_div(a: int, b: int)
    requires
        0 <= a,
        0 < b,
    ensures
        (a / b) * b <= a < (a / b) * b + b,
{
    vstd::arithmetic::div_mod::lemma_fundamental_div_mod(a, b);
    let q = a / b;
    assert(q * b == b * q) by (nonlinear_arith);
}

/// Rounding toward zero: the remainder `a - trunc_div(a, b) * b` is smaller than
/// the divisor in magnitude and has the sign of the dividend.
proof fn lemma_trunc_div_remainder(a: int, b: int)
    requires
        b != 0,
    ensures
        ({
            let r = a - trunc_div(a, b) * b;
            &&& -(if b > 0 { b } else { -b }) < r < (if b > 0 { b } else { -b })
            &&& a >= 0 ==> r >= 0
            &&& a <= 0 ==> r <= 0
        }),
{
    let x = if a >= 0 { a } else { -a };
    let d = if b > 0 { b } else { -b };
    lemma_floor_div(x, d);
    let q = x / d;
    if a == 0 {
        assert(trunc_div(a, b) == 0);
        assert(0 * b == 0) by (nonlinear_arith);
    } else if a > 0 && b > 0 {
        assert(trunc_div(a, b) == q);
    } else if a < 0 && b < 0 {
        assert(trunc_div(a, b) == q);
        assert(q * b == -(q * d)) by (nonlinear_arith)
            requires
                d == -b,
        ;
    } else if a < 0 {
        assert(trunc_div(a, b) == -q);
        assert((-q) * b == -(q * d)) by (nonlinear_arith)
            requires
                d == b,
        ;
    } else {
        assert(trunc_div(a, b) == -q);
        assert((-q) * b == q * d) by (nonlinear_arith)
            requires
                d == -b,
        ;
    }
}

/// An integer sample type that a `BlockAverage` can accumulate.
///
/// `value` is the mathematical value of a sample; the executable operations
/// are the ones the averaging needs: the zero of the type (its `Default`),
/// addition without overflow, conversion of the block length with the `as`
/// operator, and Rust's integer division.
pub trait BlockSample: Copy + Sized {
    /// The mathematical value of the sample.
    spec fn value(self) -> int;

    /// The smallest value the type can hold.
    spec fn min_value() -> int;

    /// The largest value the type can hold.
    spec fn max_value() -> int;

    /// The value of `n as Self`: `n` wrapped into the type's range.
    spec fn count_value(n: usize) -> int;

    /// The value of `a / b` on the type.
    spec fn quotient(a: int, b: int) -> int;

    /// Whether `a / b` is defined on the type (it panics otherwise).
    spec fn can_divide(a: int, b: int) -> bool;

    proof fn value_bounds(self)
        ensures
            Self::min_value() <= self.value() <= Self::max_value(),
    ;

    proof fn count_value_of_small(n: usize)
        requires
            n <= Self::max_value(),
        ensures
            Self::count_value(n) == n,
    ;

    /// `Self::default()`.
    fn zero() -> (r: Self)
        ensures
            r.value() == 0,
    ;

    /// `self + other`.
    fn plus(self, other: Self) -> (r: Self)
        requires
            Self::min_value() <= self.value() + other.value() <= Self::max_value(),
        ensures
            r.value() == self.value() + other.value(),
    ;

    /// `self.checked_add(other)`.
    fn checked_plus(self, other: Self) -> (r: Option<Self>)
        ensures
            r is Some <==> Self::min_value() <= self.value() + other.value() <= Self::max_value(),
            r matches Some(x) ==> x.value() == self.value() + other.value(),
    ;

    /// Whether `self / divisor` is defined.
    fn divides(self, divisor: Self) -> (b: bool)
        ensures
            b == Self::can_divide(self.value(), divisor.value()),
    ;

    /// `n as Self`, through `num`'s `AsPrimitive`.
    fn from_count(n: usize) -> (r: Self)
        ensures
            r.value() == Self::count_value(n),
    ;

    /// `self / divisor`.
    fn divided_by(self, divisor: Self) -> (r: Self)
        requires
            Self::can_divide(self.value(), divisor.value()),
        ensures
            r.value() == Self::quotient(self.value(), divisor.value()),
    ;
}

/// `n as u8`, computed by `num::traits::AsPrimitive::<u8>::as_`, which is documented
/// as the `as` operator and implemented as `self as u8`.
#[verifier::external_body]
fn usize_as_u8(n: usize) -> (r: u8)
    ensures
        r == n as u8,
{
    AsPrimitive::<u8>::as_(n)
}

/// `n as u16`, computed by `num::traits::AsPrimitive::<u16>::as_`, which is documented
/// as the `as` operator and implemented as `self as u16`.
#[verifier::external_body]
fn usize_as_u16(n: usize) -> (r: u16)
    ensures
        r == n as u16,
{
    AsPrimitive::<u16>::as_(n)
}

/// `n as u32`, computed by `num::traits::AsPrimitive::<u32>::as_`, which is documented
/// as the `as` operator and implemented as `self as u32`.
#[verifier::external_body]
fn usize_as_u32(n: usize) -> (r: u32)
    ensures
        r == n as u32,
{
    AsPrimitive::<u32>::as_(n)
}

/// `n as u64`, computed by `num::traits::AsPrimitive::<u64>::as_`, which is documented
/// as the `as` operator and implemented as `self as u64`.
#[verifier::external_body]
fn usize_as_u64(n: usize) -> (r: u64)
    ensures
        r == n as u64,
{
    AsPrimitive::<u64>::as_(n)
}

/// `n as u128`, computed by `num::traits::AsPrimitive::<u128>::as_`, which is documented
/// as the `as` operator and implemented as `self as u128`.
#[verifier::external_body]
fn usize_as_u128(n: usize) -> (r: u128)
    ensures
        r == n as u128,
{
    AsPrimitive::<u128>::as_(n)
}

/// `n as usize`, computed by `num::traits::AsPrimitive::<usize>::as_`, which is documented
/// as the `as` operator and implemented as `self as usize`.
#[verifier::external_body]
fn usize_as_usize(n: usize) -> (r: usize)
    ensures
        r == n as usize,
{
    AsPrimitive::<usize>::as_(n)
}

/// `n as i8`, computed by `num::traits::AsPrimitive::<i8>::as_`, which is documented
/// as the `as` operator and implemented as `self as i8`.
#[verifier::external_body]
fn usize_as_i8(n: usize) -> (r: i8)
    ensures
        r == n as i8,
{
    AsPrimitive::<i8>::as_(n)
}

/// `n as i16`, computed by `num::traits::AsPrimitive::<i16>::as_`, which is documented
/// as the `as` operator and implemented as `self as i16`.
#[verifier::external_body]
fn usize_as_i16(n: usize) -> (r: i16)
    ensures
        r == n as i16,
{
    AsPrimitive::<i16>::as_(n)
}

/// `n as i32`, computed by `num::traits::AsPrimitive::<i32>::as_`, which is documented
/// as the `as` operator and implemented as `self as i32`.
#[verifier::external_body]
fn usize_as_i32(n: usize) -> (r: i32)
    ensures
        r == n as i32,
{
    AsPrimitive::<i32>::as_(n)
}

/// `n as i64`, computed by `num::traits::AsPrimitive::<i64>::as_`, which is documented
/// as the `as` operator and implemented as `self as i64`.
#[verifier::external_body]
fn usize_as_i64(n: usize) -> (r: i64)
    ensures
        r == n as i64,
{
    AsPrimitive::<i64>::as_(n)
}

/// `n as i128`, computed by `num::traits::AsPrimitive::<i128>::as_`, which is documented
/// as the `as` operator and implemented as `self as i128`.
#[verifier::external_body]
fn usize_as_i128(n: usize) -> (r: i128)
    ensures
        r == n as i128,
{
    AsPrimitive::<i128>::as_(n)
}

/// `n as isize`, computed by `num::traits::AsPrimitive::<isize>::as_`, which is documented
/// as the `as` operator and implemented as `self as isize`.
#[verifier::external_body]
fn usize_as_isize(n: usize) -> (r: isize)
    ensures
        r == n as isize,
{
    AsPrimitive::<isize>::as_(n)
}

impl BlockSample for u8 {
    open spec fn value(self) -> int {
        self as int
    }

    open spec fn min_value() -> int {
        0
    }

    open spec fn max_value() -> int {
        u8::MAX as int
    }

    open spec fn count_value(n: usize) -> int {
        (n as u8) as int
    }

    open spec fn quotient(a: int, b: int) -> int {
        a / b
    }

    open spec fn can_divide(a: int, b: int) -> bool {
        b != 0
    }

    proof fn value_bounds(self) {
    }

    proof fn count_value_of_small(n: usize) {
        assert(n <= u8::MAX ==> (n as u8) as usize == n) by (bit_vector);
    }

    fn zero() -> (r: Self) {
        u8::default()
    }

    fn plus(self, other: Self) -> (r: Self) {
        self + other
    }

    fn checked_plus(self, other: Self) -> (r: Option<Self>) {
        self.checked_add(other)
    }

    fn divides(self, divisor: Self) -> (b: bool) {
        divisor != 0
    }

    fn from_count(n: usize) -> (r: Self) {
        usize_as_u8(n)
    }

    fn divided_by(self, divisor: Self) -> (r: Self) {
        self / divisor
    }
}

impl BlockSample for u16 {
    open spec fn value(self) -> int {
        self as int
    }

    open spec fn min_value() -> int {
        0
    }

    open spec fn max_value() -> int {
        u16::MAX as int
    }

    open spec fn count_value(n: usize) -> int {
        (n as u16) as int
    }

    open spec fn quotient(a: int, b: int) -> int {
        a / b
    }

    open spec fn can_divide(a: int, b: int) -> bool {
        b != 0
    }

    proof fn value_bounds(self) {
    }

    proof fn count_value_of_small(n: usize) {
        assert(n <= u16::MAX ==> (n as u16) as usize == n) by (bit_vector);
    }

    fn zero() -> (r: Self) {
        u16::default()
    }

    fn plus(self, other: Self) -> (r: Self) {
        self + other
    }

    fn checked_plus(self, other: Self) -> (r: Option<Self>) {
        self.checked_add(other)
    }

    fn divides(self, divisor: Self) -> (b: bool) {
        divisor != 0
    }

    fn from_count(n: usize) -> (r: Self) {
        usize_as_u16(n)
    }

    fn divided_by(self, divisor: Self) -> (r: Self) {
        self / divisor
    }
}

impl BlockSample for u32 {
    open spec fn value(self) -> int {
        self as int
    }

    open spec fn min_value() -> int {
        0
    }

    open spec fn max_value() -> int {
        u32::MAX as int
    }

    open spec fn count_value(n: usize) -> int {
        (n as u32) as int
    }

    open spec fn quotient(a: int, b: int) -> int {
        a / b
    }

    open spec fn can_divide(a: int, b: int) -> bool {
        b != 0
    }

    proof fn value_bounds(self) {
    }

    proof fn count_value_of_small(n: usize) {
        assert(n <= u32::MAX ==> (n as u32) as usize == n) by (bit_vector);
    }

    fn zero() -> (r: Self) {
        u32::default()
    }

    fn plus(self, other: Self) -> (r: Self) {
        self + other
    }

    fn checked_plus(self, other: Self) -> (r: Option<Self>) {
        self.checked_add(other)
    }

    fn divides(self, divisor: Self) -> (b: bool) {
        divisor != 0
    }

    fn from_count(n: usize) -> (r: Self) {
        usize_as_u32(n)
    }

    fn divided_by(self, divisor: Self) -> (r: Self) {
        self / divisor
    }
}

impl BlockSample for u64 {
    open spec fn value(self) -> int {
        self as int
    }

    open spec fn min_value() -> int {
        0
    }

    open spec fn max_value() -> int {
        u64::MAX as int
    }

    open spec fn count_value(n: usize) -> int {
        (n as u64) as int
    }

    open spec fn quotient(a: int, b: int) -> int {
        a / b
    }

    open spec fn can_divide(a: int, b: int) -> bool {
        b != 0
    }

    proof fn value_bounds(self) {
    }

    proof fn count_value_of_small(n: usize) {
        assert(n <= u64::MAX ==> (n as u64) as usize == n) by (bit_vector);
    }

    fn zero() -> (r: Self) {
        u64::default()
    }

    fn plus(self, other: Self) -> (r: Self) {
        self + other
    }

    fn checked_plus(self, other: Self) -> (r: Option<Self>) {
        self.checked_add(other)
    }

    fn divides(self, divisor: Self) -> (b: bool) {
        divisor != 0
    }

    fn from_count(n: usize) -> (r: Self) {
        usize_as_u64(n)
    }

    fn divided_by(self, divisor: Self) -> (r: Self) {
        self / divisor
    }
}

impl BlockSample for u128 {
    open spec fn value(self) -> int {
        self as int
    }

    open spec fn min_value() -> int {
        0
    }

    open spec fn max_value() -> int {
        u128::MAX as int
    }

    open spec fn count_value(n: usize) -> int {
        (n as u128) as int
    }

    open spec fn quotient(a: int, b: int) -> int {
        a / b
    }

    open spec fn can_divide(a: int, b: int) -> bool {
        b != 0
    }

    proof fn value_bounds(self) {
    }

    proof fn count_value_of_small(n: usize) {
        assert(n <= u128::MAX ==> (n as u128) as usize == n) by (bit_vector);
    }

    fn zero() -> (r: Self) {
        u128::default()
    }

    fn plus(self, other: Self) -> (r: Self) {
        self + other
    }

    fn checked_plus(self, other: Self) -> (r: Option<Self>) {
        self.checked_add(other)
    }

    fn divides(self, divisor: Self) -> (b: bool) {
        divisor != 0
    }

    fn from_count(n: usize) -> (r: Self) {
        usize_as_u128(n)
    }

    fn divided_by(self, divisor: Self) -> (r: Self) {
        self / divisor
    }
}

impl BlockSample for usize {
    open spec fn value(self) -> int {
        self as int
    }

    open spec fn min_value() -> int {
        0
    }

    open spec fn max_value() -> int {
        usize::MAX as int
    }

    open spec fn count_value(n: usize) -> int {
        (n as usize) as int
    }

    open spec fn quotient(a: int, b: int) -> int {
        a / b
    }

    open spec fn can_divide(a: int, b: int) -> bool {
        b != 0
    }

    proof fn value_bounds(self) {
    }

    proof fn count_value_of_small(n: usize) {
    }

    fn zero() -> (r: Self) {
        usize::default()
    }

    fn plus(self, other: Self) -> (r: Self) {
        self + other
    }

    fn checked_plus(self, other: Self) -> (r: Option<Self>) {
        self.checked_add(other)
    }

    fn divides(self, divisor: Self) -> (b: bool) {
        divisor != 0
    }

    fn from_count(n: usize) -> (r: Self) {
        usize_as_usize(n)
    }

    fn divided_by(self, divisor: Self) -> (r: Self) {
        self / divisor
    }
}

impl BlockSample for i8 {
    open spec fn value(self) -> int {
        self as int
    }

    open spec fn min_value() -> int {
        i8::MIN as int
    }

    open spec fn max_value() -> int {
        i8::MAX as int
    }

    open spec fn count_value(n: usize) -> int {
        (n as i8) as int
    }

    open spec fn quotient(a: int, b: int) -> int {
        trunc_div(a, b)
    }

    open spec fn can_divide(a: int, b: int) -> bool {
        b != 0 && !(a == i8::MIN && b == -1)
    }

    proof fn value_bounds(self) {
    }

    proof fn count_value_of_small(n: usize) {
        assert(n <= i8::MAX ==> (n as i8) as usize == n) by (bit_vector);
    }

    fn zero() -> (r: Self) {
        i8::default()
    }

    fn plus(self, other: Self) -> (r: Self) {
        self + other
    }

    fn checked_plus(self, other: Self) -> (r: Option<Self>) {
        self.checked_add(other)
    }

    fn divides(self, divisor: Self) -> (b: bool) {
        divisor != 0 && !(self == i8::MIN && divisor == -1)
    }

    fn from_count(n: usize) -> (r: Self) {
        usize_as_i8(n)
    }

    fn divided_by(self, divisor: Self) -> (r: Self) {
        proof {
            lemma_trunc_div_in_range(self as int, divisor as int, i8::MIN as int, i8::MAX as int);
        }
        self.checked_div(divisor).unwrap()
    }
}

impl BlockSample for i16 {
    open spec fn value(self) -> int {
        self as int
    }

    open spec fn min_value() -> int {
        i16::MIN as int
    }

    open spec fn max_value() -> int {
        i16::MAX as int
    }

    open spec fn count_value(n: usize) -> int {
        (n as i16) as int
    }

    open spec fn quotient(a: int, b: int) -> int {
        trunc_div(a, b)
    }

    open spec fn can_divide(a: int, b: int) -> bool {
        b != 0 && !(a == i16::MIN && b == -1)
    }

    proof fn value_bounds(self) {
    }

    proof fn count_value_of_small(n: usize) {
        assert(n <= i16::MAX ==> (n as i16) as usize == n) by (bit_vector);
    }

    fn zero() -> (r: Self) {
        i16::default()
    }

    fn plus(self, other: Self) -> (r: Self) {
        self + other
    }

    fn checked_plus(self, other: Self) -> (r: Option<Self>) {
        self.checked_add(other)
    }

    fn divides(self, divisor: Self) -> (b: bool) {
        divisor != 0 && !(self == i16::MIN && divisor == -1)
    }

    fn from_count(n: usize) -> (r: Self) {
        usize_as_i16(n)
    }

    fn divided_by(self, divisor: Self) -> (r: Self) {
        proof {
            lemma_trunc_div_in_range(self as int, divisor as int, i16::MIN as int, i16::MAX as int);
        }
        self.checked_div(divisor).unwrap()
    }
}

impl BlockSample for i32 {
    open spec fn value(self) -> int {
        self as int
    }

    open spec fn min_value() -> int {
        i32::MIN as int
    }

    open spec fn max_value() -> int {
        i32::MAX as int
    }

    open spec fn count_value(n: usize) -> int {
        (n as i32) as int
    }

    open spec fn quotient(a: int, b: int) -> int {
        trunc_div(a, b)
    }

    open spec fn can_divide(a: int, b: int) -> bool {
        b != 0 && !(a == i32::MIN && b == -1)
    }

    proof fn value_bounds(self) {
    }

    proof fn count_value_of_small(n: usize) {
        assert(n <= i32::MAX ==> (n as i32) as usize == n) by (bit_vector);
    }

    fn zero() -> (r: Self) {
        i32::default()
    }

    fn plus(self, other: Self) -> (r: Self) {
        self + other
    }

    fn checked_plus(self, other: Self) -> (r: Option<Self>) {
        self.checked_add(other)
    }

    fn divides(self, divisor: Self) -> (b: bool) {
        divisor != 0 && !(self == i32::MIN && divisor == -1)
    }

    fn from_count(n: usize) -> (r: Self) {
        usize_as_i32(n)
    }

    fn divided_by(self, divisor: Self) -> (r: Self) {
        proof {
            lemma_trunc_div_in_range(self as int, divisor as int, i32::MIN as int, i32::MAX as int);
        }
        self.checked_div(divisor).unwrap()
    }
}

impl BlockSample for i64 {
    open spec fn value(self) -> int {
        self as int
    }

    open spec fn min_value() -> int {
        i64::MIN as int
    }

    open spec fn max_value() -> int {
        i64::MAX as int
    }

    open spec fn count_value(n: usize) -> int {
        (n as i64) as int
    }

    open spec fn quotient(a: int, b: int) -> int {
        trunc_div(a, b)
    }

    open spec fn can_divide(a: int, b: int) -> bool {
        b != 0 && !(a == i64::MIN && b == -1)
    }

    proof fn value_bounds(self) {
    }

    proof fn count_value_of_small(n: usize) {
        assert(n <= i64::MAX ==> (n as i64) as usize == n) by (bit_vector);
    }

    fn zero() -> (r: Self) {
        i64::default()
    }

    fn plus(self, other: Self) -> (r: Self) {
        self + other
    }

    fn checked_plus(self, other: Self) -> (r: Option<Self>) {
        self.checked_add(other)
    }

    fn divides(self, divisor: Self) -> (b: bool) {
        divisor != 0 && !(self == i64::MIN && divisor == -1)
    }

    fn from_count(n: usize) -> (r: Self) {
        usize_as_i64(n)
    }

    fn divided_by(self, divisor: Self) -> (r: Self) {
        proof {
            lemma_trunc_div_in_range(self as int, divisor as int, i64::MIN as int, i64::MAX as int);
        }
        self.checked_div(divisor).unwrap()
    }
}

impl BlockSample for i128 {
    open spec fn value(self) -> int {
        self as int
    }

    open spec fn min_value() -> int {
        i128::MIN as int
    }

    open spec fn max_value() -> int {
        i128::MAX as int
    }

    open spec fn count_value(n: usize) -> int {
        (n as i128) as int
    }

    open spec fn quotient(a: int, b: int) -> int {
        trunc_div(a, b)
    }

    open spec fn can_divide(a: int, b: int) -> bool {
        b != 0 && !(a == i128::MIN && b == -1)
    }

    proof fn value_bounds(self) {
    }

    proof fn count_value_of_small(n: usize) {
        assert(n <= i128::MAX ==> (n as i128) as usize == n) by (bit_vector);
    }

    fn zero() -> (r: Self) {
        i128::default()
    }

    fn plus(self, other: Self) -> (r: Self) {
        self + other
    }

    fn checked_plus(self, other: Self) -> (r: Option<Self>) {
        self.checked_add(other)
    }

    fn divides(self, divisor: Self) -> (b: bool) {
        divisor != 0 && !(self == i128::MIN && divisor == -1)
    }

    fn from_count(n: usize) -> (r: Self) {
        usize_as_i128(n)
    }

    fn divided_by(self, divisor: Self) -> (r: Self) {
        proof {
            lemma_trunc_div_in_range(self as int, divisor as int, i128::MIN as int, i128::MAX as int);
        }
        self.checked_div(divisor).unwrap()
    }
}

impl BlockSample for isize {
    open spec fn value(self) -> int {
        self as int
    }

    open spec fn min_value() -> int {
        isize::MIN as int
    }

    open spec fn max_value() -> int {
        isize::MAX as int
    }

    open spec fn count_value(n: usize) -> int {
        (n as isize) as int
    }

    open spec fn quotient(a: int, b: int) -> int {
        trunc_div(a, b)
    }

    open spec fn can_divide(a: int, b: int) -> bool {
        b != 0 && !(a == isize::MIN && b == -1)
    }

    proof fn value_bounds(self) {
    }

    proof fn count_value_of_small(n: usize) {
    }

    fn zero() -> (r: Self) {
        isize::default()
    }

    fn plus(self, other: Self) -> (r: Self) {
        self + other
    }

    fn checked_plus(self, other: Self) -> (r: Option<Self>) {
        self.checked_add(other)
    }

    fn divides(self, divisor: Self) -> (b: bool) {
        divisor != 0 && !(self == isize::MIN && divisor == -1)
    }

    fn from_count(n: usize) -> (r: Self) {
        usize_as_isize(n)
    }

    fn divided_by(self, divisor: Self) -> (r: Self) {
        proof {
            lemma_trunc_div_in_range(self as int, divisor as int, isize::MIN as int, isize::MAX as int);
        }
        self.checked_div(divisor).unwrap()
    }
}

/// Division law for `u8` samples: dividing a non-negative block sum `a` by a
/// positive divisor `b` gives the largest `q` with `q * b <= a` (Rust's integer
/// division), and is always defined.
pub proof fn law_u8_division(a: int, b: int)
    requires
        0 <= a,
        0 < b,
    ensures
        <u8 as BlockSample>::can_divide(a, b),
        ({
            let q = <u8 as BlockSample>::quotient(a, b);
            q * b <= a < (q + 1) * b
        }),
{
    lemma_floor_div(a, b);
    let q = a / b;
    assert((q + 1) * b == q * b + b) by (nonlinear_arith);
}

/// Division law for `u16` samples: dividing a non-negative block sum `a` by a
/// positive divisor `b` gives the largest `q` with `q * b <= a` (Rust's integer
/// division), and is always defined.
pub proof fn law_u16_division(a: int, b: int)
    requires
        0 <= a,
        0 < b,
    ensures
        <u16 as BlockSample>::can_divide(a, b),
        ({
            let q = <u16 as BlockSample>::quotient(a, b);
            q * b <= a < (q + 1) * b
        }),
{
    lemma_floor_div(a, b);
    let q = a / b;
    assert((q + 1) * b == q * b + b) by (nonlinear_arith);
}

/// Division law for `u32` samples: dividing a non-negative block sum `a` by a
/// positive divisor `b` gives the largest `q` with `q * b <= a` (Rust's integer
/// division), and is always defined.
pub proof fn law_u32_division(a: int, b: int)
    requires
        0 <= a,
        0 < b,
    ensures
        <u32 as BlockSample>::can_divide(a, b),
        ({
            let q = <u32 as BlockSample>::quotient(a, b);
            q * b <= a < (q + 1) * b
        }),
{
    lemma_floor_div(a, b);
    let q = a / b;
    assert((q + 1) * b == q * b + b) by (nonlinear_arith);
}

/// Division law for `u64` samples: dividing a non-negative block sum `a` by a
/// positive divisor `b` gives the largest `q` with `q * b <= a` (Rust's integer
/// division), and is always defined.
pub proof fn law_u64_division(a: int, b: int)
    requires
        0 <= a,
        0 < b,
    ensures
        <u64 as BlockSample>::can_divide(a, b),
        ({
            let q = <u64 as BlockSample>::quotient(a, b);
            q * b <= a < (q + 1) * b
        }),
{
    lemma_floor_div(a, b);
    let q = a / b;
    assert((q + 1) * b == q * b + b) by (nonlinear_arith);
}

/// Division law for `u128` samples: dividing a non-negative block sum `a` by a
/// positive divisor `b` gives the largest `q` with `q * b <= a` (Rust's integer
/// division), and is always defined.
pub proof fn law_u128_division(a: int, b: int)
    requires
        0 <= a,
        0 < b,
    ensures
        <u128 as BlockSample>::can_divide(a, b),
        ({
            let q = <u128 as BlockSample>::quotient(a, b);
            q * b <= a < (q + 1) * b
        }),
{
    lemma_floor_div(a, b);
    let q = a / b;
    assert((q + 1) * b == q * b + b) by (nonlinear_arith);
}

/// Division law for `usize` samples: dividing a non-negative block sum `a` by a
/// positive divisor `b` gives the largest `q` with `q * b <= a` (Rust's integer
/// division), and is always defined.
pub proof fn law_usize_division(a: int, b: int)
    requires
        0 <= a,
        0 < b,
    ensures
        <usize as BlockSample>::can_divide(a, b),
        ({
            let q = <usize as BlockSample>::quotient(a, b);
            q * b <= a < (q + 1) * b
        }),
{
    lemma_floor_div(a, b);
    let q = a / b;
    assert((q + 1) * b == q * b + b) by (nonlinear_arith);
}

/// Division law for `i8` samples: the quotient is defined exactly when the divisor
/// is not zero and the division is not `i8::MIN / -1`, and it is rounded toward
/// zero: the remainder `a - q * b` is smaller than `b` in magnitude and has the
/// sign of `a`.
pub proof fn law_i8_division(a: int, b: int)
    requires
        b != 0,
    ensures
        <i8 as BlockSample>::can_divide(a, b) <==> !(a == i8::MIN && b == -1),
        ({
            let q = <i8 as BlockSample>::quotient(a, b);
            let r = a - q * b;
            &&& -(if b > 0 { b } else { -b }) < r < (if b > 0 { b } else { -b })
            &&& a >= 0 ==> r >= 0
            &&& a <= 0 ==> r <= 0
        }),
{
    lemma_trunc_div_remainder(a, b);
}

/// Division law for `i16` samples: the quotient is defined exactly when the divisor
/// is not zero and the division is not `i16::MIN / -1`, and it is rounded toward
/// zero: the remainder `a - q * b` is smaller than `b` in magnitude and has the
/// sign of `a`.
pub proof fn law_i16_division(a: int, b: int)
    requires
        b != 0,
    ensures
        <i16 as BlockSample>::can_divide(a, b) <==> !(a == i16::MIN && b == -1),
        ({
            let q = <i16 as BlockSample>::quotient(a, b);
            let r = a - q * b;
            &&& -(if b > 0 { b } else { -b }) < r < (if b > 0 { b } else { -b })
            &&& a >= 0 ==> r >= 0
            &&& a <= 0 ==> r <= 0
        }),
{
    lemma_trunc_div_remainder(a, b);
}

/// Division law for `i32` samples: the quotient is defined exactly when the divisor
/// is not zero and the division is not `i32::MIN / -1`, and it is rounded toward
/// zero: the remainder `a - q * b` is smaller than `b` in magnitude and has the
/// sign of `a`.
pub proof fn law_i32_division(a: int, b: int)
    requires
        b != 0,
    ensures
        <i32 as BlockSample>::can_divide(a, b) <==> !(a == i32::MIN && b == -1),
        ({
            let q = <i32 as BlockSample>::quotient(a, b);
            let r = a - q * b;
            &&& -(if b > 0 { b } else { -b }) < r < (if b > 0 { b } else { -b })
            &&& a >= 0 ==> r >= 0
            &&& a <= 0 ==> r <= 0
        }),
{
    lemma_trunc_div_remainder(a, b);
}

/// Division law for `i64` samples: the quotient is defined exactly when the divisor
/// is not zero and the division is not `i64::MIN / -1`, and it is rounded toward
/// zero: the remainder `a - q * b` is smaller than `b` in magnitude and has the
/// sign of `a`.
pub proof fn law_i64_division(a: int, b: int)
    requires
        b != 0,
    ensures
        <i64 as BlockSample>::can_divide(a, b) <==> !(a == i64::MIN && b == -1),
        ({
            let q = <i64 as BlockSample>::quotient(a, b);
            let r = a - q * b;
            &&& -(if b > 0 { b } else { -b }) < r < (if b > 0 { b } else { -b })
            &&& a >= 0 ==> r >= 0
            &&& a <= 0 ==> r <= 0
        }),
{
    lemma_trunc_div_remainder(a, b);
}

/// Division law for `i128` samples: the quotient is defined exactly when the divisor
/// is not zero and the division is not `i128::MIN / -1`, and it is rounded toward
/// zero: the remainder `a - q * b` is smaller than `b` in magnitude and has the
/// sign of `a`.
pub proof fn law_i128_division(a: int, b: int)
    requires
        b != 0,
    ensures
        <i128 as BlockSample>::can_divide(a, b) <==> !(a == i128::MIN && b == -1),
        ({
            let q = <i128 as BlockSample>::quotient(a, b);
            let r = a - q * b;
            &&& -(if b > 0 { b } else { -b }) < r < (if b > 0 { b } else { -b })
            &&& a >= 0 ==> r >= 0
            &&& a <= 0 ==> r <= 0
        }),
{
    lemma_trunc_div_remainder(a, b);
}

/// Division law for `isize` samples: the quotient is defined exactly when the divisor
/// is not zero and the division is not `isize::MIN / -1`, and it is rounded toward
/// zero: the remainder `a - q * b` is smaller than `b` in magnitude and has the
/// sign of `a`.
pub proof fn law_isize_division(a: int, b: int)
    requires
        b != 0,
    ensures
        <isize as BlockSample>::can_divide(a, b) <==> !(a == isize::MIN && b == -1),
        ({
            let q = <isize as BlockSample>::quotient(a, b);
            let r = a - q * b;
            &&& -(if b > 0 { b } else { -b }) < r < (if b > 0 { b } else { -b })
            &&& a >= 0 ==> r >= 0
            &&& a <= 0 ==> r <= 0
        }),
{
    lemma_trunc_div_remainder(a, b);
}

} // verus!

//! Byte-level operations on slices of primitive integers: wiping, comparing
//! and testing for zero, each over every element without an early exit.
use vstd::prelude::*;

verus! {

/// `256` to the power `n`: the number of values that `n` bytes can hold.
pub open spec fn pow256(n: nat) -> nat
    decreases n,
{
    if n == 0 {
        1
    } else {
        256 * pow256((n - 1) as nat)
    }
}

/// The primitive integer types.
pub trait Integer: Sized + Copy {
    /// The mathematical value.
    spec fn to_int(self) -> int;

    /// A value is determined by its mathematical value.
    proof fn lemma_value_injective(self, other: Self)
        ensures
            self.to_int() == other.to_int() ==> self == other,
    ;

    /// Zero in this type.
    fn zero() -> (r: Self)
        ensures
            r.to_int() == 0,
    ;
}

/// The primitive unsigned integer types, seen as little-endian strings of bytes.
pub trait Unsigned: Integer {
    /// The size of the type in bytes.
    spec fn width() -> nat;

    /// The size of the type in bytes.
    fn byte_width() -> (r: usize)
        ensures
            r == Self::width(),
            1 <= r <= 16,
    ;

    /// Every value fits in `width()` bytes.
    proof fn lemma_range(self)
        ensures
            0 <= self.to_int() < pow256(Self::width()),
    ;

    /// The size is between one and sixteen bytes.
    proof fn lemma_width()
        ensures
            1 <= Self::width() <= 16,
    ;

    /// A value is determined by its mathematical value.
    proof fn lemma_injective(self, other: Self)
        ensures
            self.to_int() == other.to_int() ==> self == other,
    ;

    /// The lowest byte.
    fn low_byte(&self) -> (r: u8)
        ensures
            r == self.to_int() % 256,
    ;

    /// The value shifted down by one byte.
    fn drop_low_byte(&self) -> (r: Self)
        ensures
            r.to_int() == self.to_int() / 256,
    ;

    /// Bitwise or: zero exactly when both operands are zero.
    fn bit_or(&self, other: &Self) -> (r: Self)
        ensures
            r.to_int() == 0 <==> (self.to_int() == 0 && other.to_int() == 0),
    ;

    /// Whether the value is zero.
    fn is_zero_value(&self) -> (r: bool)
        ensures
            r == (self.to_int() == 0),
    ;
}

impl Integer for i8 {
    open spec fn to_int(self) -> int {
        self as int
    }

    proof fn lemma_value_injective(self, other: Self) {
    }

    fn zero() -> (r: i8) {
        0
    }
}

impl Integer for i16 {
    open spec fn to_int(self) -> int {
        self as int
    }

    proof fn lemma_value_injective(self, other: Self) {
    }

    fn zero() -> (r: i16) {
        0
    }
}

impl Integer for i32 {
    open spec fn to_int(self) -> int {
        self as int
    }

    proof fn lemma_value_injective(self, other: Self) {
    }

    fn zero() -> (r: i32) {
        0
    }
}

impl Integer for i64 {
    open spec fn to_int(self) -> int {
        self as int
    }

    proof fn lemma_value_injective(self, other: Self) {
    }

    fn zero() -> (r: i64) {
        0
    }
}

impl Integer for i128 {
    open spec fn to_int(self) -> int {
        self as int
    }

    proof fn lemma_value_injective(self, other: Self) {
    }

    fn zero() -> (r: i128) {
        0
    }
}

impl Integer for isize {
    open spec fn to_int(self) -> int {
        self as int
    }

    proof fn lemma_value_injective(self, other: Self) {
    }

    fn zero() -> (r: isize) {
        0
    }
}

impl Integer for u8 {
    open spec fn to_int(self) -> int {
        self as int
    }

    proof fn lemma_value_injective(self, other: Self) {
    }

    fn zero() -> (r: u8) {
        0
    }
}

impl Integer for u16 {
    open spec fn to_int(self) -> int {
        self as int
    }

    proof fn lemma_value_injective(self, other: Self) {
    }

    fn zero() -> (r: u16) {
        0
    }
}

impl Integer for u32 {
    open spec fn to_int(self) -> int {
        self as int
    }

    proof fn lemma_value_injective(self, other: Self) {
    }

    fn zero() -> (r: u32) {
        0
    }
}

impl Integer for u64 {
    open spec fn to_int(self) -> int {
        self as int
    }

    proof fn lemma_value_injective(self, other: Self) {
    }

    fn zero() -> (r: u64) {
        0
    }
}

impl Integer for u128 {
    open spec fn to_int(self) -> int {
        self as int
    }

    proof fn lemma_value_injective(self, other: Self) {
    }

    fn zero() -> (r: u128) {
        0
    }
}

impl Integer for usize {
    open spec fn to_int(self) -> int {
        self as int
    }

    proof fn lemma_value_injective(self, other: Self) {
    }

    fn zero() -> (r: usize) {
        0
    }
}

impl Unsigned for u8 {
    open spec fn width() -> nat {
        1
    }

    fn byte_width() -> (r: usize) {
        1
    }

    proof fn lemma_range(self) {
        reveal_with_fuel(pow256, 2);
    }

    proof fn lemma_width() {
    }

    proof fn lemma_injective(self, other: Self) {
    }

    fn low_byte(&self) -> (r: u8) {
        *self
    }

    fn drop_low_byte(&self) -> (r: u8) {
        0
    }

    fn bit_or(&self, other: &Self) -> (r: u8) {
        let x = *self;
        let y = *other;
        assert((x | y) == 0 <==> (x == 0 && y == 0)) by (bit_vector);
        x | y
    }

    fn is_zero_value(&self) -> (r: bool) {
        *self == 0
    }
}

impl Unsigned for u16 {
    open spec fn width() -> nat {
        2
    }

    fn byte_width() -> (r: usize) {
        2
    }

    proof fn lemma_range(self) {
        reveal_with_fuel(pow256, 3);
    }

    proof fn lemma_width() {
    }

    proof fn lemma_injective(self, other: Self) {
    }

    fn low_byte(&self) -> (r: u8) {
        let x = *self;
        assert((x & 0xff) == x % 256) by (bit_vector);
        (x & 0xff) as u8
    }

    fn drop_low_byte(&self) -> (r: u16) {
        let x = *self;
        assert((x >> 8) == x / 256) by (bit_vector);
        x >> 8
    }

    fn bit_or(&self, other: &Self) -> (r: u16) {
        let x = *self;
        let y = *other;
        assert((x | y) == 0 <==> (x == 0 && y == 0)) by (bit_vector);
        x | y
    }

    fn is_zero_value(&self) -> (r: bool) {
        *self == 0
    }
}

impl Unsigned for u32 {
    open spec fn width() -> nat {
        4
    }

    fn byte_width() -> (r: usize) {
        4
    }

    proof fn lemma_range(self) {
        reveal_with_fuel(pow256, 5);
    }

    proof fn lemma_width() {
    }

    proof fn lemma_injective(self, other: Self) {
    }

    fn low_byte(&self) -> (r: u8) {
        let x = *self;
        assert((x & 0xff) == x % 256) by (bit_vector);
        (x & 0xff) as u8
    }

    fn drop_low_byte(&self) -> (r: u32) {
        let x = *self;
        assert((x >> 8) == x / 256) by (bit_vector);
        x >> 8
    }

    fn bit_or(&self, other: &Self) -> (r: u32) {
        let x = *self;
        let y = *other;
        assert((x | y) == 0 <==> (x == 0 && y == 0)) by (bit_vector);
        x | y
    }

    fn is_zero_value(&self) -> (r: bool) {
        *self == 0
    }
}

impl Unsigned for u64 {
    open spec fn width() -> nat {
        8
    }

    fn byte_width() -> (r: usize) {
        8
    }

    proof fn lemma_range(self) {
        reveal_with_fuel(pow256, 9);
    }

    proof fn lemma_width() {
    }

    proof fn lemma_injective(self, other: Self) {
    }

    fn low_byte(&self) -> (r: u8) {
        let x = *self;
        assert((x & 0xff) == x % 256) by (bit_vector);
        (x & 0xff) as u8
    }

    fn drop_low_byte(&self) -> (r: u64) {
        let x = *self;
        assert((x >> 8) == x / 256) by (bit_vector);
        x >> 8
    }

    fn bit_or(&self, other: &Self) -> (r: u64) {
        let x = *self;
        let y = *other;
        assert((x | y) == 0 <==> (x == 0 && y == 0)) by (bit_vector);
        x | y
    }

    fn is_zero_value(&self) -> (r: bool) {
        *self == 0
    }
}

impl Unsigned for u128 {
    open spec fn width() -> nat {
        16
    }

    fn byte_width() -> (r: usize) {
        16
    }

    proof fn lemma_range(self) {
        reveal_with_fuel(pow256, 17);
    }

    proof fn lemma_width() {
    }

    proof fn lemma_injective(self, other: Self) {
    }

    fn low_byte(&self) -> (r: u8) {
        let x = *self;
        assert((x & 0xff) == x % 256) by (bit_vector);
        (x & 0xff) as u8
    }

    fn drop_low_byte(&self) -> (r: u128) {
        let x = *self;
        assert((x >> 8) == x / 256) by (bit_vector);
        x >> 8
    }

    fn bit_or(&self, other: &Self) -> (r: u128) {
        let x = *self;
        let y = *other;
        assert((x | y) == 0 <==> (x == 0 && y == 0)) by (bit_vector);
        x | y
    }

    fn is_zero_value(&self) -> (r: bool) {
        *self == 0
    }
}

impl Unsigned for usize {
    open spec fn width() -> nat {
        (usize::BITS / 8) as nat
    }

    fn byte_width() -> (r: usize) {
        (usize::BITS / 8) as usize
    }

    proof fn lemma_range(self) {
        reveal_with_fuel(pow256, 9);
    }

    proof fn lemma_width() {
    }

    proof fn lemma_injective(self, other: Self) {
    }

    fn low_byte(&self) -> (r: u8) {
        let x = *self;
        assert((x & 0xff) == x % 256) by (bit_vector);
        (x & 0xff) as u8
    }

    fn drop_low_byte(&self) -> (r: usize) {
        let x = *self;
        assert((x >> 8) == x / 256) by (bit_vector);
        x >> 8
    }

    fn bit_or(&self, other: &Self) -> (r: usize) {
        let x = *self;
        let y = *other;
        assert((x | y) == 0 <==> (x == 0 && y == 0)) by (bit_vector);
        x | y
    }

    fn is_zero_value(&self) -> (r: bool) {
        *self == 0
    }
}

/// Whether every element of `s` is zero.
pub open spec fn all_zero<T: Integer>(s: Seq<T>) -> bool {
    forall|i: int| 0 <= i < s.len() ==> #[trigger] s[i].to_int() == 0
}

/// The number of byte positions, among the `n` lowest bytes of `a` and `b`,
/// at which they differ.
pub open spec fn byte_diff(a: int, b: int, n: nat) -> nat
    decreases n,
{
    if n == 0 {
        0
    } else {
        (if a % 256 != b % 256 { 1nat } else { 0nat }) + byte_diff(a / 256, b / 256, (n - 1) as nat)
    }
}

/// The number of byte positions at which the memory of two equally long
/// sequences of unsigned integers differs.
pub open spec fn seq_byte_diff<T: Unsigned>(a: Seq<T>, b: Seq<T>) -> nat
    decreases a.len(),
{
    if a.len() == 0 {
        0
    } else {
        seq_byte_diff(a.drop_last(), b.drop_last()) + byte_diff(
            a.last().to_int(),
            b.last().to_int(),
            T::width(),
        )
    }
}

proof fn lemma_byte_diff_bound(a: int, b: int, n: nat)
    ensures
        byte_diff(a, b, n) <= n,
    decreases n,
{
    if n > 0 {
        lemma_byte_diff_bound(a / 256, b / 256, (n - 1) as nat);
    }
}

/// Hints to the compiler that the slice is used, so that a wipe just before
/// is less likely to be removed as a store never read. This is best effort:
/// `std::hint::black_box` promises no such thing and is documented as not
/// for security. Its documentation describes it as an identity function, and
/// the contract claims only that the contents are unchanged.
#[verifier::external_body]
fn keep_observed<T>(bytes: &mut [T])
    ensures
        final(bytes)@ == old(bytes)@,
{
    std::hint::black_box(bytes);
}

/// Overwrites every element of `bytes` with zero. Nothing here guarantees
/// that the compiler keeps the stores; `keep_observed` only discourages it.
pub fn secure_zero<T: Integer>(bytes: &mut [T])
    ensures
        final(bytes)@.len() == old(bytes)@.len(),
        all_zero(final(bytes)@),
{
    let n = bytes.len();
    let mut i: usize = 0;
    while i < n
        invariant
            n == bytes@.len(),
            n == old(bytes)@.len(),
            i <= n,
            forall|j: int| 0 <= j < i ==> #[trigger] bytes@[j].to_int() == 0,
        decreases n - i,
    {
        bytes[i] = T::zero();
        i = i + 1;
    }
    keep_observed(bytes);
}

/// The number of byte positions at which `x` and `y` differ.
fn element_diff<T: Unsigned>(x: T, y: T) -> (r: usize)
    ensures
        r == byte_diff(x.to_int(), y.to_int(), T::width()),
        r <= T::width(),
{
    let w = T::byte_width();
    let mut a = x;
    let mut b = y;
    let mut k: usize = 0;
    let mut count: usize = 0;
    while k < w
        invariant
            w == T::width(),
            k <= w,
            count <= k,
            count + byte_diff(a.to_int(), b.to_int(), (w - k) as nat) == byte_diff(
                x.to_int(),
                y.to_int(),
                T::width(),
            ),
        decreases w - k,
    {
        let la = a.low_byte();
        let lb = b.low_byte();
        let x: u8 = la ^ lb;
        let differs: u16 = ((x as u16) + 255u16) >> 8u16;
        assert(x == 0u8 <==> la == lb) by (bit_vector)
            requires
                x == la ^ lb,
        ;
        assert(differs <= 1u16 && (differs == 0u16 <==> x == 0u8)) by (bit_vector)
            requires
                differs == (((x as u16) + 255u16) as u16) >> 8u16,
        ;
        count = count + differs as usize;
        a = a.drop_low_byte();
        b = b.drop_low_byte();
        k = k + 1;
    }
    count
}

/// `x`, or `usize::MAX` when `x` does not fit in a `usize`.
pub open spec fn clamp_usize(x: nat) -> usize {
    if x > usize::MAX {
        usize::MAX
    } else {
        x as usize
    }
}

/// What `const_time_mem_diff` returns for the contents `a` and `b`:
/// `Err(())` when they are not equally long, else the number of differing
/// bytes. (The count never exceeds the size in bytes of a slice, which fits in
/// a `usize`; the clamp only covers lengths that no slice in memory has.)
pub open spec fn mem_diff_result<T: Unsigned>(a: Seq<T>, b: Seq<T>) -> Result<usize, ()> {
    if a.len() != b.len() {
        Err(())
    } else {
        Ok(clamp_usize(seq_byte_diff(a, b)))
    }
}

/// The number of bytes at which the memory of `m0` and of `m1` differs, or
/// `Err(())` when the two slices are not equally long. Every byte is compared,
/// without a branch on the compared data.
pub fn const_time_mem_diff<T: Unsigned>(m0: &[T], m1: &[T]) -> (r: Result<usize, ()>)
    ensures
        r == mem_diff_result(m0@, m1@),
        m0@.len() != m1@.len() ==> r == Err::<usize, ()>(()),
        m0@.len() == m1@.len() && seq_byte_diff(m0@, m1@) <= usize::MAX ==> r == Ok::<usize, ()>(
            seq_byte_diff(m0@, m1@) as usize,
        ),
{
    if m0.len() != m1.len() {
        return Err(());
    }
    let n = m0.len();
    let mut i: usize = 0;
    let mut count: usize = 0;
    while i < n
        invariant
            n == m0@.len(),
            n == m1@.len(),
            i <= n,
            count == clamp_usize(seq_byte_diff(m0@.take(i as int), m1@.take(i as int))),
        decreases n - i,
    {
        let d = element_diff(m0[i], m1[i]);
        assert(m0@.take(i + 1).drop_last() =~= m0@.take(i as int));
        assert(m1@.take(i + 1).drop_last() =~= m1@.take(i as int));
        count = count.saturating_add(d);
        i = i + 1;
    }
    assert(m0@.take(n as int) =~= m0@);
    assert(m1@.take(n as int) =~= m1@);
    Ok(count)
}

/// Whether every element of `mem` is zero; every element is read.
pub fn const_time_is_zero<T: Unsigned>(mem: &[T]) -> (r: bool)
    ensures
        r == all_zero(mem@),
{
    let n = mem.len();
    let mut acc = T::zero();
    let mut i: usize = 0;
    while i < n
        invariant
            n == mem@.len(),
            i <= n,
            acc.to_int() == 0 <==> all_zero(mem@.take(i as int)),
        decreases n - i,
    {
        let x = mem[i];
        proof {
            let before = mem@.take(i as int);
            let after = mem@.take(i + 1);
            assert(after =~= before.push(x));
            if all_zero(after) {
                assert(after[i as int] == x);
                assert forall|j: int| 0 <= j < before.len() implies #[trigger] before[j].to_int()
                    == 0 by {
                    assert(after[j] == before[j]);
                }
            }
            if all_zero(before) && x.to_int() == 0 {
                assert forall|j: int| 0 <= j < after.len() implies #[trigger] after[j].to_int()
                    == 0 by {
                    if j < i {
                        assert(after[j] == before[j]);
                    }
                }
            }
        }
        acc = acc.bit_or(&x);
        i = i + 1;
    }
    assert(mem@.take(n as int) =~= mem@);
    acc.is_zero_value()
}

proof fn lemma_byte_diff_zero(a: int, b: int, n: nat)
    requires
        0 <= a < pow256(n),
        0 <= b < pow256(n),
    ensures
        byte_diff(a, b, n) == 0 <==> a == b,
    decreases n,
{
    if n > 0 {
        let p = pow256((n - 1) as nat);
        assert(a / 256 < p && b / 256 < p) by (nonlinear_arith)
            requires
                0 <= a < 256 * p,
                0 <= b < 256 * p,
        ;
        lemma_byte_diff_zero(a / 256, b / 256, (n - 1) as nat);
    }
}

proof fn lemma_byte_diff_symmetric(a: int, b: int, n: nat)
    ensures
        byte_diff(a, b, n) == byte_diff(b, a, n),
    decreases n,
{
    if n > 0 {
        lemma_byte_diff_symmetric(a / 256, b / 256, (n - 1) as nat);
    }
}

proof fn lemma_seq_diff_zero_iff_equal<T: Unsigned>(a: Seq<T>, b: Seq<T>)
    requires
        a.len() == b.len(),
    ensures
        seq_byte_diff(a, b) == 0 <==> a == b,
    decreases a.len(),
{
    if a.len() > 0 {
        lemma_seq_diff_zero_iff_equal(a.drop_last(), b.drop_last());
        let x = a.last();
        let y = b.last();
        x.lemma_range();
        y.lemma_range();
        x.lemma_injective(y);
        lemma_byte_diff_zero(x.to_int(), y.to_int(), T::width());
        if seq_byte_diff(a, b) == 0 {
            assert(a =~= a.drop_last().push(x));
            assert(b =~= b.drop_last().push(y));
        }
        if a == b {
            assert(a.drop_last() == b.drop_last());
        }
    } else {
        assert(a =~= b);
    }
}

proof fn lemma_seq_diff_symmetric<T: Unsigned>(a: Seq<T>, b: Seq<T>)
    requires
        a.len() == b.len(),
    ensures
        seq_byte_diff(a, b) == seq_byte_diff(b, a),
    decreases a.len(),
{
    if a.len() > 0 {
        lemma_seq_diff_symmetric(a.drop_last(), b.drop_last());
        lemma_byte_diff_symmetric(a.last().to_int(), b.last().to_int(), T::width());
    }
}

/// `const_time_mem_diff` reports `Ok(0)` exactly for slices with the same
/// contents.
pub proof fn lemma_mem_diff_zero_iff_equal<T: Unsigned>(a: Seq<T>, b: Seq<T>)
    ensures
        mem_diff_result(a, b) == Ok::<usize, ()>(0) <==> a == b,
{
    if a.len() == b.len() {
        lemma_seq_diff_zero_iff_equal(a, b);
    }
}

/// `const_time_mem_diff` does not depend on the order of its operands.
pub proof fn lemma_mem_diff_symmetric<T: Unsigned>(a: Seq<T>, b: Seq<T>)
    ensures
        mem_diff_result(a, b) == mem_diff_result(b, a),
{
    if a.len() == b.len() {
        lemma_seq_diff_symmetric(a, b);
    }
}

/// At most every byte of the slices differs.
pub proof fn lemma_mem_diff_bound<T: Unsigned>(a: Seq<T>, b: Seq<T>)
    requires
        a.len() == b.len(),
    ensures
        seq_byte_diff(a, b) <= a.len() * T::width(),
    decreases a.len(),
{
    if a.len() > 0 {
        lemma_mem_diff_bound(a.drop_last(), b.drop_last());
        lemma_byte_diff_bound(a.last().to_int(), b.last().to_int(), T::width());
        assert((a.len() - 1) * T::width() + T::width() == a.len() * T::width()) by (nonlinear_arith);
    }
}

/// A slice is all zero exactly when it differs in no byte from an equally long
/// slice of zeros: `const_time_is_zero(s)` is `const_time_mem_diff(s, zeros) == Ok(0)`.
pub proof fn lemma_is_zero_iff_no_diff_from_zeros<T: Unsigned>(s: Seq<T>, zeros: Seq<T>)
    requires
        zeros.len() == s.len(),
        all_zero(zeros),
    ensures
        all_zero(s) <==> mem_diff_result(s, zeros) == Ok::<usize, ()>(0),
{
    lemma_mem_diff_zero_iff_equal(s, zeros);
    if all_zero(s) {
        assert forall|i: int| 0 <= i < s.len() implies s[i] == zeros[i] by {
            assert(s[i].to_int() == 0);
            assert(zeros[i].to_int() == 0);
            s[i].lemma_injective(zeros[i]);
        }
        assert(s =~= zeros);
    }
}

/// Byte `k` (byte 0 is the lowest) of a non-negative value `v`.
pub open spec fn byte_at(v: int, k: nat) -> int {
    (v / (pow256(k) as int)) % 256
}

/// The number of byte positions `k < n` at which byte `k` of `a` and of `b`
/// differ.
pub open spec fn differing_bytes(a: int, b: int, n: nat) -> nat
    decreases n,
{
    if n == 0 {
        0
    } else {
        differing_bytes(a, b, (n - 1) as nat) + (if byte_at(a, (n - 1) as nat) != byte_at(
            b,
            (n - 1) as nat,
        ) {
            1nat
        } else {
            0nat
        })
    }
}

proof fn lemma_pow256_pos(n: nat)
    ensures
        pow256(n) > 0,
    decreases n,
{
    if n > 0 {
        lemma_pow256_pos((n - 1) as nat);
    }
}

proof fn lemma_byte_at_shift(a: int, n: nat)
    requires
        0 <= a,
    ensures
        byte_at(a / 256, n) == byte_at(a, n + 1),
{
    lemma_pow256_pos(n);
    vstd::arithmetic::div_mod::lemma_div_denominator(a, 256, pow256(n) as int);
    assert(pow256(n + 1) == 256 * pow256(n));
}

proof fn lemma_byte_diff_top(a: int, b: int, n: nat)
    requires
        0 <= a,
        0 <= b,
    ensures
        byte_diff(a, b, n + 1) == byte_diff(a, b, n) + (if byte_at(a, n) != byte_at(b, n) {
            1nat
        } else {
            0nat
        }),
    decreases n,
{
    if n == 0 {
        assert(pow256(0) == 1);
        assert(byte_diff(a / 256, b / 256, 0) == 0);
    } else {
        lemma_byte_diff_top(a / 256, b / 256, (n - 1) as nat);
        lemma_byte_at_shift(a, (n - 1) as nat);
        lemma_byte_at_shift(b, (n - 1) as nat);
    }
}

proof fn lemma_byte_diff_counts(a: int, b: int, n: nat)
    requires
        0 <= a,
        0 <= b,
    ensures
        byte_diff(a, b, n) == differing_bytes(a, b, n),
    decreases n,
{
    if n > 0 {
        lemma_byte_diff_counts(a, b, (n - 1) as nat);
        lemma_byte_diff_top(a, b, (n - 1) as nat);
    }
}

proof fn lemma_differing_bytes_all(a: int, b: int, n: nat)
    requires
        forall|k: nat| k < n ==> byte_at(a, k) != byte_at(b, k),
    ensures
        differing_bytes(a, b, n) == n,
    decreases n,
{
    if n > 0 {
        lemma_differing_bytes_all(a, b, (n - 1) as nat);
        assert(byte_at(a, (n - 1) as nat) != byte_at(b, (n - 1) as nat));
    }
}

proof fn lemma_seq_diff_concat<T: Unsigned>(a: Seq<T>, b: Seq<T>, c: Seq<T>, d: Seq<T>)
    requires
        a.len() == b.len(),
        c.len() == d.len(),
    ensures
        seq_byte_diff(a + c, b + d) == seq_byte_diff(a, b) + seq_byte_diff(c, d),
    decreases c.len(),
{
    if c.len() == 0 {
        assert(a + c =~= a);
        assert(b + d =~= b);
    } else {
        lemma_seq_diff_concat(a, b, c.drop_last(), d.drop_last());
        assert((a + c).drop_last() =~= a + c.drop_last());
        assert((b + d).drop_last() =~= b + d.drop_last());
        assert((a + c).last() == c.last());
        assert((b + d).last() == d.last());
    }
}

proof fn lemma_seq_diff_all<T: Unsigned>(a: Seq<T>, b: Seq<T>)
    requires
        a.len() == b.len(),
        forall|i: int, k: nat|
            0 <= i < a.len() && k < T::width() ==> #[trigger] byte_at(a[i].to_int(), k)
                != byte_at(b[i].to_int(), k),
    ensures
        seq_byte_diff(a, b) == a.len() * T::width(),
    decreases a.len(),
{
    if a.len() > 0 {
        let i = a.len() - 1;
        assert forall|j: int, k: nat|
            0 <= j < a.drop_last().len() && k < T::width() implies #[trigger] byte_at(
            a.drop_last()[j].to_int(),
            k,
        ) != byte_at(b.drop_last()[j].to_int(), k) by {
            assert(byte_at(a[j].to_int(), k) != byte_at(b[j].to_int(), k));
        }
        lemma_seq_diff_all(a.drop_last(), b.drop_last());
        let x = a.last();
        let y = b.last();
        x.lemma_range();
        y.lemma_range();
        assert forall|k: nat| k < T::width() implies byte_at(x.to_int(), k) != byte_at(
            y.to_int(),
            k,
        ) by {
            assert(byte_at(a[i].to_int(), k) != byte_at(b[i].to_int(), k));
        }
        lemma_differing_bytes_all(x.to_int(), y.to_int(), T::width());
        lemma_byte_diff_counts(x.to_int(), y.to_int(), T::width());
        let w = T::width();
        let len = a.len();
        assert(byte_diff(x.to_int(), y.to_int(), w) == w);
        assert(seq_byte_diff(a.drop_last(), b.drop_last()) == (len - 1) * w);
        assert(seq_byte_diff(a, b) == seq_byte_diff(a.drop_last(), b.drop_last()) + byte_diff(
            x.to_int(),
            y.to_int(),
            w,
        ));
        assert((len - 1) * w + w == len * w) by (nonlinear_arith);
    } else {
        assert(a.len() * T::width() == 0) by (nonlinear_arith)
            requires
                a.len() == 0,
        ;
    }
}

/// For two single values, `const_time_mem_diff` counts the byte positions at
/// which they differ.
pub proof fn lemma_mem_diff_single<T: Unsigned>(x: T, y: T)
    ensures
        mem_diff_result(seq![x], seq![y]) == Ok::<usize, ()>(
            differing_bytes(x.to_int(), y.to_int(), T::width()) as usize,
        ),
        differing_bytes(x.to_int(), y.to_int(), T::width()) <= T::width(),
{
    x.lemma_range();
    y.lemma_range();
    lemma_byte_diff_counts(x.to_int(), y.to_int(), T::width());
    lemma_byte_diff_bound(x.to_int(), y.to_int(), T::width());
    assert(seq![x].drop_last() =~= Seq::<T>::empty());
    assert(seq![y].drop_last() =~= Seq::<T>::empty());
    assert(seq_byte_diff(Seq::<T>::empty(), Seq::<T>::empty()) == 0);
    assert(seq![x].last() == x);
    assert(seq![y].last() == y);
    assert(seq_byte_diff(seq![x], seq![y]) == byte_diff(x.to_int(), y.to_int(), T::width()));
    T::lemma_width();
}

/// The count is additive: the differences of two joined pairs of slices add
/// up, as long as the whole fits in memory.
pub proof fn lemma_mem_diff_additive<T: Unsigned>(a: Seq<T>, b: Seq<T>, c: Seq<T>, d: Seq<T>)
    requires
        a.len() == b.len(),
        c.len() == d.len(),
        (a.len() + c.len()) * T::width() <= usize::MAX,
    ensures
        mem_diff_result(a + c, b + d) matches Ok(n) && mem_diff_result(a, b) matches Ok(n1)
            && mem_diff_result(c, d) matches Ok(n2) && n == n1 + n2,
{
    lemma_seq_diff_concat(a, b, c, d);
    lemma_mem_diff_bound(a, b);
    lemma_mem_diff_bound(c, d);
    assert(a.len() * T::width() + c.len() * T::width() == (a.len() + c.len()) * T::width())
        by (nonlinear_arith);
}

/// Two equally long slices that differ in every byte differ in
/// `len * size` bytes: the whole size of the slices.
pub proof fn lemma_mem_diff_all_bytes<T: Unsigned>(a: Seq<T>, b: Seq<T>)
    requires
        a.len() == b.len(),
        a.len() * T::width() <= usize::MAX,
        forall|i: int, k: nat|
            0 <= i < a.len() && k < T::width() ==> #[trigger] byte_at(a[i].to_int(), k)
                != byte_at(b[i].to_int(), k),
    ensures
        mem_diff_result(a, b) == Ok::<usize, ()>((a.len() * T::width()) as usize),
{
    lemma_seq_diff_all(a, b);
}

/// A sequence is all zero exactly when each element is: the empty sequence
/// is, and adding an element keeps it so exactly when that element is zero.
pub proof fn lemma_all_zero_push<T: Integer>(s: Seq<T>, x: T)
    ensures
        all_zero(Seq::<T>::empty()),
        all_zero(s.push(x)) <==> (all_zero(s) && x.to_int() == 0),
{
    if all_zero(s.push(x)) {
        assert(s.push(x)[s.len() as int] == x);
        assert forall|i: int| 0 <= i < s.len() implies #[trigger] s[i].to_int() == 0 by {
            assert(s.push(x)[i] == s[i]);
        }
    }
    if all_zero(s) && x.to_int() == 0 {
        assert forall|i: int| 0 <= i < s.push(x).len() implies #[trigger] s.push(x)[i].to_int()
            == 0 by {
            if i < s.len() {
                assert(s.push(x)[i] == s[i]);
            }
        }
    }
}

/// A sequence in which every element is zero holds nothing but the zero of
/// its type: every element equals any value whose mathematical value is 0.
pub proof fn lemma_all_zero_elements<T: Integer>(s: Seq<T>, zero: T)
    requires
        zero.to_int() == 0,
        all_zero(s),
    ensures
        forall|i: int| 0 <= i < s.len() ==> s[i] == zero,
{
    assert forall|i: int| 0 <= i < s.len() implies s[i] == zero by {
        assert(s[i].to_int() == 0);
        s[i].lemma_value_injective(zero);
    }
}

} // verus!

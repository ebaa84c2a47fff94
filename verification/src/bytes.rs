//! The byte view of numeric sequences.
//!
//! A graphics buffer is filled from raw memory. Instead of reinterpreting the
//! memory of a slice, the functions here write every element out byte by byte,
//! in the byte order of the machine that will hand the bytes to the driver.
//! Floating-point data travels as IEEE-754 bit patterns in `u32` elements.

use vstd::prelude::*;

verus! {

/// The order in which a machine stores the bytes of a multi-byte integer.
#[derive(Copy, Clone, Debug, PartialEq, Eq, Structural)]
pub enum ByteOrder {
    /// Least significant byte at the lowest address.
    LittleEndian,
    /// Most significant byte at the lowest address.
    BigEndian,
}

/// 256 raised to `place`: the weight of the byte at that place of an integer.
pub open spec fn place_value(place: nat) -> nat
    decreases place,
{
    if place == 0 {
        1
    } else {
        256 * place_value((place - 1) as nat)
    }
}

/// The byte of weight `256^place` in `value`.
pub open spec fn byte_at(value: nat, place: nat) -> u8 {
    ((value / place_value(place)) % 256) as u8
}

/// The place of the byte stored at `position` within an element of `size`
/// bytes.
pub open spec fn place_of(position: int, size: nat, order: ByteOrder) -> nat {
    match order {
        ByteOrder::LittleEndian => position as nat,
        ByteOrder::BigEndian => (size - 1 - position) as nat,
    }
}

/// The bytes that a contiguous sequence of integers, each `size` bytes wide,
/// occupies in the memory of a machine with the given byte order.
pub open spec fn mem_image(values: Seq<nat>, size: nat, order: ByteOrder) -> Seq<u8> {
    Seq::new(
        values.len() * size,
        |k: int| byte_at(values[k / (size as int)], place_of(k % (size as int), size, order)),
    )
}

/// The elements of a `u8` sequence as natural numbers.
pub open spec fn values_u8(elements: Seq<u8>) -> Seq<nat> {
    Seq::new(elements.len(), |i: int| elements[i] as nat)
}

/// The elements of a `u16` sequence as natural numbers.
pub open spec fn values_u16(elements: Seq<u16>) -> Seq<nat> {
    Seq::new(elements.len(), |i: int| elements[i] as nat)
}

/// The elements of a `u32` sequence as natural numbers.
pub open spec fn values_u32(elements: Seq<u32>) -> Seq<nat> {
    Seq::new(elements.len(), |i: int| elements[i] as nat)
}

/// `bytes` is the memory image of `values` in one of the two byte orders.
pub open spec fn is_mem_image(bytes: Seq<u8>, values: Seq<nat>, size: nat) -> bool {
    bytes == mem_image(values, size, ByteOrder::LittleEndian) || bytes == mem_image(
        values,
        size,
        ByteOrder::BigEndian,
    )
}

/// The memory image of `k` elements of `size` bytes holds exactly `k * size`
/// bytes, and element `i` occupies the bytes from `i * size` on, one byte for
/// each place of the element.
pub proof fn lemma_mem_image_layout(values: Seq<nat>, size: nat, order: ByteOrder)
    ensures
        mem_image(values, size, order).len() == values.len() * size,
        forall|i: int, j: int|
            0 <= i < values.len() && 0 <= j < size ==> #[trigger] mem_image(values, size, order)[i
                * size + j] == byte_at(values[i], place_of(j, size, order)),
{
    assert forall|i: int, j: int| 0 <= i < values.len() && 0 <= j < size implies #[trigger] mem_image(
        values,
        size,
        order,
    )[i * size + j] == byte_at(values[i], place_of(j, size, order)) by {
        lemma_position(i, j, size as int);
        assert(0 <= i * size + j < values.len() * size) by (nonlinear_arith)
            requires
                0 <= i < values.len(),
                0 <= j < size,
        ;
    }
}

/// Position `i * size + j` with `j` below `size` belongs to element `i` and is
/// its byte number `j`.
proof fn lemma_position(i: int, j: int, size: int)
    requires
        0 <= i,
        0 <= j < size,
    ensures
        (i * size + j) / size == i,
        (i * size + j) % size == j,
{
    vstd::arithmetic::div_mod::lemma_fundamental_div_mod_converse(i * size + j, size, i, j);
}

/// The bytes of one `u16` in the given order.
fn bytes_of_u16(value: u16, order: ByteOrder) -> (bytes: [u8; 2])
    ensures
        forall|j: int| 0 <= j < 2 ==> #[trigger] bytes@[j] == byte_at(value as nat, place_of(j, 2, order)),
{
    proof {
        reveal_with_fuel(place_value, 2);
        assert((value & 0xff) == value % 256) by (bit_vector);
        assert(((value >> 8) & 0xff) == (value / 256) % 256) by (bit_vector);
    }
    let low: u8 = (value & 0xff) as u8;
    let high: u8 = ((value >> 8) & 0xff) as u8;
    assert(place_value(0) == 1);
    assert(low == byte_at(value as nat, 0));
    assert(high == byte_at(value as nat, 1));
    match order {
        ByteOrder::LittleEndian => [low, high],
        ByteOrder::BigEndian => [high, low],
    }
}

/// The bytes of one `u32` in the given order.
fn bytes_of_u32(value: u32, order: ByteOrder) -> (bytes: [u8; 4])
    ensures
        forall|j: int| 0 <= j < 4 ==> #[trigger] bytes@[j] == byte_at(value as nat, place_of(j, 4, order)),
{
    proof {
        reveal_with_fuel(place_value, 4);
        assert((value & 0xff) == value % 256) by (bit_vector);
        assert(((value >> 8) & 0xff) == (value / 256) % 256) by (bit_vector);
        assert(((value >> 16) & 0xff) == (value / 65536) % 256) by (bit_vector);
        assert(((value >> 24) & 0xff) == (value / 16777216) % 256) by (bit_vector);
    }
    let b0: u8 = (value & 0xff) as u8;
    let b1: u8 = ((value >> 8) & 0xff) as u8;
    let b2: u8 = ((value >> 16) & 0xff) as u8;
    let b3: u8 = ((value >> 24) & 0xff) as u8;
    assert(place_value(0) == 1);
    assert(b0 == byte_at(value as nat, 0));
    assert(b1 == byte_at(value as nat, 1));
    assert(b2 == byte_at(value as nat, 2));
    assert(b3 == byte_at(value as nat, 3));
    match order {
        ByteOrder::LittleEndian => [b0, b1, b2, b3],
        ByteOrder::BigEndian => [b3, b2, b1, b0],
    }
}

/// Writes a sequence of bytes out unchanged: a byte has one place only, so
/// both byte orders give the same image.
pub fn to_bytes_u8(elements: &[u8], order: ByteOrder) -> (bytes: Vec<u8>)
    ensures
        bytes@ == mem_image(values_u8(elements@), 1, order),
        bytes@ == elements@,
{
    let mut bytes: Vec<u8> = Vec::new();
    let mut i: usize = 0;
    while i < elements.len()
        invariant
            i <= elements.len(),
            bytes@ == elements@.take(i as int),
        decreases elements.len() - i,
    {
        bytes.push(elements[i]);
        i += 1;
    }
    proof {
        assert(bytes@ =~= elements@);
        assert forall|k: int| 0 <= k < elements@.len() implies elements@[k] == #[trigger] mem_image(
            values_u8(elements@),
            1,
            order,
        )[k] by {
            assert(place_of(k % 1, 1, order) == 0);
            assert(place_value(0) == 1);
        }
        assert(bytes@ =~= mem_image(values_u8(elements@), 1, order));
    }
    bytes
}

/// Writes every element of a `u16` sequence out as two bytes in the given
/// order.
pub fn to_bytes_u16(elements: &[u16], order: ByteOrder) -> (bytes: Vec<u8>)
    ensures
        bytes@ == mem_image(values_u16(elements@), 2, order),
{
    let mut bytes: Vec<u8> = Vec::new();
    let mut i: usize = 0;
    while i < elements.len()
        invariant
            i <= elements.len(),
            bytes@.len() == 2 * i,
            forall|k: int|
                0 <= k < 2 * i ==> #[trigger] bytes@[k] == mem_image(values_u16(elements@), 2, order)[k],
        decreases elements.len() - i,
    {
        let word = bytes_of_u16(elements[i], order);
        proof {
            lemma_mem_image_layout(values_u16(elements@), 2, order);
            assert(mem_image(values_u16(elements@), 2, order)[i * 2 + 0] == word@[0]);
            assert(mem_image(values_u16(elements@), 2, order)[i * 2 + 1] == word@[1]);
        }
        bytes.push(word[0]);
        bytes.push(word[1]);
        i += 1;
    }
    assert(bytes@ =~= mem_image(values_u16(elements@), 2, order));
    bytes
}

/// Writes every element of a `u32` sequence out as four bytes in the given
/// order.
pub fn to_bytes_u32(elements: &[u32], order: ByteOrder) -> (bytes: Vec<u8>)
    ensures
        bytes@ == mem_image(values_u32(elements@), 4, order),
{
    let mut bytes: Vec<u8> = Vec::new();
    let mut i: usize = 0;
    while i < elements.len()
        invariant
            i <= elements.len(),
            bytes@.len() == 4 * i,
            forall|k: int|
                0 <= k < 4 * i ==> #[trigger] bytes@[k] == mem_image(values_u32(elements@), 4, order)[k],
        decreases elements.len() - i,
    {
        let word = bytes_of_u32(elements[i], order);
        proof {
            lemma_mem_image_layout(values_u32(elements@), 4, order);
            assert(mem_image(values_u32(elements@), 4, order)[i * 4 + 0] == word@[0]);
            assert(mem_image(values_u32(elements@), 4, order)[i * 4 + 1] == word@[1]);
            assert(mem_image(values_u32(elements@), 4, order)[i * 4 + 2] == word@[2]);
            assert(mem_image(values_u32(elements@), 4, order)[i * 4 + 3] == word@[3]);
        }
        bytes.push(word[0]);
        bytes.push(word[1]);
        bytes.push(word[2]);
        bytes.push(word[3]);
        i += 1;
    }
    assert(bytes@ =~= mem_image(values_u32(elements@), 4, order));
    bytes
}

/// `u16::to_ne_bytes` of the standard library: the two bytes of `value` as
/// this machine stores them. The contract claims only that they are the
/// little-endian or the big-endian image of `value`; which of the two depends
/// on the machine.
#[verifier::external_body]
fn native_bytes_of_u16(value: u16) -> (bytes: [u8; 2])
    ensures
        is_mem_image(bytes@, seq![value as nat], 2),
{
    value.to_ne_bytes()
}

/// The byte order of a machine that stores the 16-bit number one as `stored`:
/// little-endian where the first byte is the one, big-endian otherwise. Where
/// `stored` is the image of the number one in either order, it is the image
/// in the order returned.
pub fn byte_order_of_one(stored: [u8; 2]) -> (order: ByteOrder)
    ensures
        order == (if stored@[0] == 1 {
            ByteOrder::LittleEndian
        } else {
            ByteOrder::BigEndian
        }),
        is_mem_image(stored@, seq![1nat], 2) ==> stored@ == mem_image(seq![1nat], 2, order),
{
    proof {
        reveal_with_fuel(place_value, 2);
        let one = seq![1nat];
        assert(place_value(0) == 1);
        assert(place_value(1) == 256);
        assert(mem_image(one, 2, ByteOrder::LittleEndian)[0] == 1u8);
        assert(mem_image(one, 2, ByteOrder::BigEndian)[0] == 0u8);
    }
    if stored[0] == 1 {
        ByteOrder::LittleEndian
    } else {
        ByteOrder::BigEndian
    }
}

/// The byte order of the machine this code runs on, found by looking at how
/// it stores the number one.
pub fn native_byte_order() -> (order: ByteOrder) {
    byte_order_of_one(native_bytes_of_u16(1))
}

/// A contiguous sequence of fixed-size numbers that can be handed to a
/// graphics buffer as raw bytes.
pub trait SliceAsBytes<T> {
    /// The elements of the sequence as natural numbers.
    spec fn values(&self) -> Seq<nat>;

    /// The size of one element in bytes.
    spec fn element_size(&self) -> nat;

    /// The bytes of the sequence as this machine stores them: for `k` elements
    /// of `s` bytes exactly `k * s` bytes, element after element.
    fn as_mem_bytes(&self) -> (bytes: Vec<u8>)
        ensures
            is_mem_image(bytes@, self.values(), self.element_size()),
            bytes@.len() == self.values().len() * self.element_size(),
    ;
}

impl SliceAsBytes<u8> for [u8] {
    open spec fn values(&self) -> Seq<nat> {
        values_u8(self@)
    }

    open spec fn element_size(&self) -> nat {
        1
    }

    fn as_mem_bytes(&self) -> (bytes: Vec<u8>) {
        to_bytes_u8(self, native_byte_order())
    }
}

impl SliceAsBytes<u16> for [u16] {
    open spec fn values(&self) -> Seq<nat> {
        values_u16(self@)
    }

    open spec fn element_size(&self) -> nat {
        2
    }

    fn as_mem_bytes(&self) -> (bytes: Vec<u8>) {
        to_bytes_u16(self, native_byte_order())
    }
}

impl SliceAsBytes<u32> for [u32] {
    open spec fn values(&self) -> Seq<nat> {
        values_u32(self@)
    }

    open spec fn element_size(&self) -> nat {
        4
    }

    fn as_mem_bytes(&self) -> (bytes: Vec<u8>) {
        to_bytes_u32(self, native_byte_order())
    }
}

impl SliceAsBytes<u8> for Vec<u8> {
    open spec fn values(&self) -> Seq<nat> {
        values_u8(self@)
    }

    open spec fn element_size(&self) -> nat {
        1
    }

    fn as_mem_bytes(&self) -> (bytes: Vec<u8>) {
        to_bytes_u8(self.as_slice(), native_byte_order())
    }
}

impl SliceAsBytes<u16> for Vec<u16> {
    open spec fn values(&self) -> Seq<nat> {
        values_u16(self@)
    }

    open spec fn element_size(&self) -> nat {
        2
    }

    fn as_mem_bytes(&self) -> (bytes: Vec<u8>) {
        to_bytes_u16(self.as_slice(), native_byte_order())
    }
}

impl SliceAsBytes<u32> for Vec<u32> {
    open spec fn values(&self) -> Seq<nat> {
        values_u32(self@)
    }

    open spec fn element_size(&self) -> nat {
        4
    }

    fn as_mem_bytes(&self) -> (bytes: Vec<u8>) {
        to_bytes_u32(self.as_slice(), native_byte_order())
    }
}

} // verus!

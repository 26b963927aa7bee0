//! Reading primitive values from the raw bytes of a fuzzer.
//!
//! The bytes are held by [`arbitrary::Unstructured`]. The model of a source is the sequence of
//! the bytes that it has not yet handed out; each reader says which value those bytes give and
//! which of them are left. No reader fails: past the end of the data, every byte reads as zero.
use arbitrary::Unstructured;
use vstd::prelude::*;

verus! {

/// The source of bytes, which Verus sees as opaque.
#[verifier::external_type_specification]
#[verifier::external_body]
pub struct ExUnstructured<'a>(Unstructured<'a>);

/// The error of the source's readers, which Verus sees as opaque.
#[verifier::external_type_specification]
#[verifier::external_body]
pub struct ExError(arbitrary::Error);

/// The bytes that a source has not yet handed out.
pub uninterp spec fn unread(source: &Unstructured) -> Seq<u8>;

/// The byte at position `i`, zero past the end.
pub open spec fn byte_at(bytes: Seq<u8>, i: int) -> u8 {
    if 0 <= i < bytes.len() {
        bytes[i]
    } else {
        0
    }
}

/// What is left after `n` bytes were read.
pub open spec fn after(bytes: Seq<u8>, n: int) -> Seq<u8> {
    if n <= bytes.len() {
        bytes.skip(n)
    } else {
        Seq::empty()
    }
}

/// The number that the first `n` bytes stand for, the least significant byte first.
pub open spec fn little_endian(bytes: Seq<u8>, n: nat) -> nat
    decreases n,
{
    if n == 0 {
        0
    } else {
        byte_at(bytes, 0) as nat + 256 * little_endian(after(bytes, 1), (n - 1) as nat)
    }
}

/// The number that all of `bytes` stand for, the most significant byte first.
pub open spec fn big_endian(bytes: Seq<u8>) -> nat
    decreases bytes.len(),
{
    if bytes.len() == 0 {
        0
    } else {
        256 * big_endian(bytes.drop_last()) + bytes.last() as nat
    }
}

/// How many bytes it takes to write `n`; none for zero.
pub open spec fn byte_width(n: nat) -> nat
    decreases n,
{
    if n == 0 {
        0
    } else {
        1 + byte_width(n / 256)
    }
}

/// How many bytes a number from `0..=last` takes from the source: as many as `last` needs, or all
/// that is left.
pub open spec fn range_width(bytes: Seq<u8>, last: nat) -> nat {
    if byte_width(last) <= bytes.len() {
        byte_width(last)
    } else {
        bytes.len()
    }
}

/// The number from `0..=last` that the source gives, and what is left.
pub open spec fn in_range(bytes: Seq<u8>, last: nat) -> (nat, Seq<u8>) {
    let n = range_width(bytes, last) as int;
    (big_endian(bytes.take(n)) % (last + 1), bytes.skip(n))
}

/// The code point that a number stands for: reduced to the range of code points, and moved out of
/// the surrogates.
pub open spec fn code_point(n: nat) -> nat {
    let c = n % 0x11_0000;
    if 0xD800 <= c <= 0xDFFF {
        (c - 0xD800) as nat
    } else {
        c
    }
}

/// Calls [`Unstructured::new`]: a source that has handed out none of `data` yet.
#[verifier::external_body]
pub(crate) fn source_of(data: &[u8]) -> (r: Unstructured<'_>)
    ensures
        unread(&r) == data@,
{
    Unstructured::new(data)
}

/// Calls [`Unstructured::arbitrary`] for a `u8`: the next byte, or zero when there is none.
/// Claimed besides: the call does not fail, and consumes that byte alone.
#[verifier::external_body]
pub(crate) fn take_u8(source: &mut Unstructured) -> (r: Result<u8, arbitrary::Error>)
    ensures
        r == Ok::<u8, arbitrary::Error>(byte_at(unread(old(source)), 0)),
        unread(final(source)) == after(unread(old(source)), 1),
{
    source.arbitrary::<u8>()
}

/// Calls [`Unstructured::arbitrary`] for a `bool`: whether the next byte is odd.
/// Claimed besides: the call does not fail, and consumes that byte alone.
#[verifier::external_body]
pub(crate) fn take_bool(source: &mut Unstructured) -> (r: Result<bool, arbitrary::Error>)
    ensures
        r == Ok::<bool, arbitrary::Error>(byte_at(unread(old(source)), 0) % 2 == 1),
        unread(final(source)) == after(unread(old(source)), 1),
{
    source.arbitrary::<bool>()
}

/// Calls [`Unstructured::arbitrary`] for a `u64`: the next eight bytes, little-endian, padded with
/// zeros. Claimed besides: the call does not fail, and consumes those bytes alone.
#[verifier::external_body]
pub(crate) fn take_u64(source: &mut Unstructured) -> (r: Result<u64, arbitrary::Error>)
    ensures
        r == Ok::<u64, arbitrary::Error>(little_endian(unread(old(source)), 8) as u64),
        unread(final(source)) == after(unread(old(source)), 8),
{
    source.arbitrary::<u64>()
}

/// Calls [`Unstructured::arbitrary`] for a `char`: the code point of the next four bytes, read as
/// a little-endian number. Claimed besides: the call does not fail, and consumes those bytes
/// alone.
#[verifier::external_body]
pub(crate) fn take_char(source: &mut Unstructured) -> (r: Result<char, arbitrary::Error>)
    ensures
        r == Ok::<char, arbitrary::Error>(
            code_point(little_endian(unread(old(source)), 4)) as char,
        ),
        unread(final(source)) == after(unread(old(source)), 4),
{
    source.arbitrary::<char>()
}

/// Calls [`Unstructured::int_in_range`] for a `u8` from `0..=last`. It reads the bytes that `last`
/// needs as a big-endian number and reduces that modulo the size of the range; it does not fail.
#[verifier::external_body]
pub(crate) fn u8_in_range(source: &mut Unstructured, last: u8) -> (r: Result<u8, arbitrary::Error>)
    ensures
        r == Ok::<u8, arbitrary::Error>(in_range(unread(old(source)), last as nat).0 as u8),
        unread(final(source)) == in_range(unread(old(source)), last as nat).1,
{
    source.int_in_range(0..=last)
}

/// Calls [`Unstructured::int_in_range`] for a `usize` from `0..=last`, as [`u8_in_range`] does for
/// a `u8`.
#[verifier::external_body]
pub(crate) fn usize_in_range(source: &mut Unstructured, last: usize) -> (r: Result<
    usize,
    arbitrary::Error,
>)
    ensures
        r == Ok::<usize, arbitrary::Error>(in_range(unread(old(source)), last as nat).0 as usize),
        unread(final(source)) == in_range(unread(old(source)), last as nat).1,
{
    source.int_in_range(0..=last)
}

/// A number from a range lies in it.
pub proof fn in_range_is_bounded(bytes: Seq<u8>, last: nat)
    ensures
        in_range(bytes, last).0 <= last,
        last == 0 ==> in_range(bytes, last) == (0nat, bytes),
{
    let n = big_endian(bytes.take(range_width(bytes, last) as int));
    assert(n % (last + 1) < last + 1) by (nonlinear_arith)
        requires
            last >= 0,
    ;
    if last == 0 {
        assert(bytes.skip(0) =~= bytes);
        assert(n % 1 == 0);
    }
}

/// A number from a range of at most 256 values takes one byte.
pub proof fn small_range(bytes: Seq<u8>, last: nat)
    requires
        0 < last < 256,
    ensures
        in_range(bytes, last) == (
            (byte_at(bytes, 0) as nat) % (last + 1),
            after(bytes, 1),
        ),
{
    reveal_with_fuel(byte_width, 3);
    reveal_with_fuel(big_endian, 3);
    assert(byte_width(last) == 1);
    if bytes.len() == 0 {
        assert(bytes.take(0) =~= Seq::<u8>::empty());
        assert(bytes.skip(0) =~= Seq::<u8>::empty());
        assert(0nat % (last + 1) == 0) by (nonlinear_arith)
            requires
                last >= 0,
        ;
    } else {
        let t = bytes.take(1);
        assert(t.drop_last() =~= Seq::<u8>::empty());
        assert(t.last() == bytes[0]);
    }
}

} // verus!

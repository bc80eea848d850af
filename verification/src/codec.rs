use vstd::prelude::*;
use crate::types::field_element::{limb_base, FieldElement};
use crate::types::u256::U256;

verus! {

/// Any destination that field elements can be written into, one at a time.
/// This is typically a `Vec<FieldElement>`, but can also be something like a
/// stateful hasher.
pub trait FeltWriter {
    /// The elements accepted so far, oldest first.
    spec fn felts(&self) -> Seq<FieldElement>;

    /// Accepts one element: it comes after everything written before it.
    fn write(&mut self, felt: FieldElement)
        ensures
            final(self).felts() == old(self).felts().push(felt),
    ;
}

/// Any value that can be serialized into a series of field elements.
pub trait AbiEncode {
    /// The elements that stand for the value, in the order they are written.
    spec fn encoding(&self) -> Seq<FieldElement>;

    /// Writes the value's elements to `writer`, after whatever it holds and
    /// in the order of `encoding`.
    fn encode<W: FeltWriter>(&self, writer: &mut W)
        ensures
            final(writer).felts() == old(writer).felts() + self.encoding(),
    ;
}

impl FeltWriter for Vec<FieldElement> {
    open spec fn felts(&self) -> Seq<FieldElement> {
        self@
    }

    fn write(&mut self, felt: FieldElement) {
        self.push(felt);
    }
}

impl AbiEncode for FieldElement {
    /// A field element stands for itself.
    open spec fn encoding(&self) -> Seq<FieldElement> {
        seq![*self]
    }

    fn encode<W: FeltWriter>(&self, writer: &mut W)
        ensures
            final(writer).felts() == old(writer).felts().push(*self),
    {
        writer.write(*self);
        assert(old(writer).felts().push(*self) =~= old(writer).felts() + self.encoding());
    }
}

impl AbiEncode for u8 {
    /// One element, whose value is the integer.
    open spec fn encoding(&self) -> Seq<FieldElement> {
        seq![FieldElement::from_nat(*self as nat)]
    }

    fn encode<W: FeltWriter>(&self, writer: &mut W)
        ensures
            final(writer).felts().len() == old(writer).felts().len() + 1,
            final(writer).felts().last()@ == *self as nat,
    {
        writer.write(FieldElement::from(*self));
        assert(old(writer).felts().push(FieldElement::from_nat(*self as nat)) =~= old(
            writer,
        ).felts() + self.encoding());
    }
}

impl AbiEncode for u16 {
    /// One element, whose value is the integer.
    open spec fn encoding(&self) -> Seq<FieldElement> {
        seq![FieldElement::from_nat(*self as nat)]
    }

    fn encode<W: FeltWriter>(&self, writer: &mut W)
        ensures
            final(writer).felts().len() == old(writer).felts().len() + 1,
            final(writer).felts().last()@ == *self as nat,
    {
        writer.write(FieldElement::from(*self));
        assert(old(writer).felts().push(FieldElement::from_nat(*self as nat)) =~= old(
            writer,
        ).felts() + self.encoding());
    }
}

impl AbiEncode for u32 {
    /// One element, whose value is the integer.
    open spec fn encoding(&self) -> Seq<FieldElement> {
        seq![FieldElement::from_nat(*self as nat)]
    }

    fn encode<W: FeltWriter>(&self, writer: &mut W)
        ensures
            final(writer).felts().len() == old(writer).felts().len() + 1,
            final(writer).felts().last()@ == *self as nat,
    {
        writer.write(FieldElement::from(*self));
        assert(old(writer).felts().push(FieldElement::from_nat(*self as nat)) =~= old(
            writer,
        ).felts() + self.encoding());
    }
}

impl AbiEncode for u64 {
    /// One element, whose value is the integer.
    open spec fn encoding(&self) -> Seq<FieldElement> {
        seq![FieldElement::from_nat(*self as nat)]
    }

    fn encode<W: FeltWriter>(&self, writer: &mut W)
        ensures
            final(writer).felts().len() == old(writer).felts().len() + 1,
            final(writer).felts().last()@ == *self as nat,
    {
        writer.write(FieldElement::from(*self));
        assert(old(writer).felts().push(FieldElement::from_nat(*self as nat)) =~= old(
            writer,
        ).felts() + self.encoding());
    }
}

impl AbiEncode for u128 {
    /// One element, whose value is the integer.
    open spec fn encoding(&self) -> Seq<FieldElement> {
        seq![FieldElement::from_nat(*self as nat)]
    }

    fn encode<W: FeltWriter>(&self, writer: &mut W)
        ensures
            final(writer).felts().len() == old(writer).felts().len() + 1,
            final(writer).felts().last()@ == *self as nat,
    {
        writer.write(FieldElement::from(*self));
        assert(old(writer).felts().push(FieldElement::from_nat(*self as nat)) =~= old(
            writer,
        ).felts() + self.encoding());
    }
}

impl AbiEncode for U256 {
    /// Two elements: the low 128 bits, then the high 128 bits.
    open spec fn encoding(&self) -> Seq<FieldElement> {
        seq![
            FieldElement::from_nat(self@ % limb_base()),
            FieldElement::from_nat(self@ / limb_base()),
        ]
    }

    fn encode<W: FeltWriter>(&self, writer: &mut W)
        ensures
            final(writer).felts().len() == old(writer).felts().len() + 2,
            final(writer).felts()[old(writer).felts().len() as int]@ == self@ % limb_base(),
            final(writer).felts()[old(writer).felts().len() as int + 1]@ == self@ / limb_base(),
    {
        let low = self.low();
        let high = self.high();
        low.encode(writer);
        high.encode(writer);
        assert(old(writer).felts() + low.encoding() + high.encoding() =~= old(writer).felts()
            + self.encoding());
    }
}

/// An unsigned integer of 8, 16, 32, 64 or 128 bits is encoded as exactly one
/// element, and that element's value is the integer itself: nothing is lost
/// to the modulus.
pub proof fn lemma_integer_encoding_exact(a: u8, b: u16, c: u32, d: u64, e: u128)
    ensures
        a.encoding().len() == 1 && a.encoding()[0]@ == a as nat,
        b.encoding().len() == 1 && b.encoding()[0]@ == b as nat,
        c.encoding().len() == 1 && c.encoding()[0]@ == c as nat,
        d.encoding().len() == 1 && d.encoding()[0]@ == d as nat,
        e.encoding().len() == 1 && e.encoding()[0]@ == e as nat,
{
    FieldElement::lemma_from_nat_value(a as nat);
    FieldElement::lemma_from_nat_value(b as nat);
    FieldElement::lemma_from_nat_value(c as nat);
    FieldElement::lemma_from_nat_value(d as nat);
    FieldElement::lemma_from_nat_value(e as nat);
}

/// A 256-bit integer made of the limbs `low` and `high` is encoded as
/// exactly two elements: the one of value `low` first, then the one of value
/// `high`.
pub proof fn lemma_u256_encoding_low_then_high(value: U256, low: u128, high: u128)
    requires
        value@ == high as nat * limb_base() + low as nat,
    ensures
        value.encoding().len() == 2,
        value.encoding()[0]@ == low as nat,
        value.encoding()[1]@ == high as nat,
{
    FieldElement::lemma_from_nat_value(low as nat);
    FieldElement::lemma_from_nat_value(high as nat);
}

/// Encoding the parts of a composite one after another into the same sink
/// writes the concatenation of their encodings, in that order. The parts
/// may themselves be composites, so this holds at any depth of nesting.
///
/// `w0` to `w3` are the states that the sink passes through; each premise is
/// what `encode` ensures of one part.
pub proof fn lemma_composite_encoding_in_field_order<
    A: AbiEncode,
    B: AbiEncode,
    C: AbiEncode,
    W: FeltWriter,
>(a: A, b: B, c: C, w0: W, w1: W, w2: W, w3: W)
    requires
        w1.felts() == w0.felts() + a.encoding(),
        w2.felts() == w1.felts() + b.encoding(),
        w3.felts() == w2.felts() + c.encoding(),
    ensures
        w3.felts() == w0.felts() + (a.encoding() + b.encoding() + c.encoding()),
{
    assert(w0.felts() + a.encoding() + b.encoding() + c.encoding() =~= w0.felts() + (a.encoding()
        + b.encoding() + c.encoding()));
}

/// Encoding is a function of the value alone: two empty sinks that each
/// take one encoding of the same value end up holding the same sequence.
///
/// The premises on `filled1` and `filled2` are what `encode` ensures.
pub proof fn lemma_encoding_deterministic<T: AbiEncode, W: FeltWriter>(
    value: T,
    fresh1: W,
    filled1: W,
    fresh2: W,
    filled2: W,
)
    requires
        fresh1.felts().len() == 0,
        fresh2.felts().len() == 0,
        filled1.felts() == fresh1.felts() + value.encoding(),
        filled2.felts() == fresh2.felts() + value.encoding(),
    ensures
        filled1.felts() == filled2.felts(),
        filled1.felts() == value.encoding(),
{
    assert(fresh1.felts() =~= fresh2.felts());
    assert(fresh1.felts() + value.encoding() =~= value.encoding());
}

/// What is written does not depend on the kind of sink: two sinks of any
/// two kinds that held the same elements hold the same elements after each
/// has taken an encoding of the same value.
///
/// The premises on `after1` and `after2` are what `encode` ensures.
pub proof fn lemma_encoding_sink_neutral<T: AbiEncode, W1: FeltWriter, W2: FeltWriter>(
    value: T,
    before1: W1,
    after1: W1,
    before2: W2,
    after2: W2,
)
    requires
        before1.felts() == before2.felts(),
        after1.felts() == before1.felts() + value.encoding(),
        after2.felts() == before2.felts() + value.encoding(),
    ensures
        after1.felts() == after2.felts(),
{
}

} // verus!

//! The wire encoding: one tag byte, then a payload whose multi-byte fields
//! are little-endian. Every encodable type declares how many bytes it takes
//! and writes exactly that many.

use crate::byte_order::{
    le_bytes_u16, le_bytes_u32, twos_complement_16, twos_complement_32, twos_complement_8,
    write_i16_le, write_i32_le, write_i8, write_u16_le, write_u32_le, write_u8,
};
use crate::ser_constants::TypeTag;
use vstd::prelude::*;
use vstd::string::StringSliceAdditionalSpecFns;

verus! {

/// The wire form of a boolean: a tag that tells the two apart, and no payload.
pub open spec fn wire_bool(b: bool) -> Seq<u8> {
    seq![if b { TypeTag::BoolTrue.code() } else { TypeTag::BoolFalse.code() }]
}

/// The wire form of a signed byte.
pub open spec fn wire_i8(n: i8) -> Seq<u8> {
    seq![TypeTag::Int8.code(), twos_complement_8(n)]
}

/// The wire form of an unsigned byte.
pub open spec fn wire_u8(n: u8) -> Seq<u8> {
    seq![TypeTag::UInt8.code(), n]
}

/// The wire form of a signed 16-bit number.
pub open spec fn wire_i16(n: i16) -> Seq<u8> {
    seq![TypeTag::Int16.code()] + le_bytes_u16(twos_complement_16(n))
}

/// The wire form of an unsigned 16-bit number.
pub open spec fn wire_u16(n: u16) -> Seq<u8> {
    seq![TypeTag::UInt16.code()] + le_bytes_u16(n)
}

/// The wire form of a signed 32-bit number.
pub open spec fn wire_i32(n: i32) -> Seq<u8> {
    seq![TypeTag::Int32.code()] + le_bytes_u32(twos_complement_32(n))
}

/// The wire form of an unsigned 32-bit number.
pub open spec fn wire_u32(n: u32) -> Seq<u8> {
    seq![TypeTag::UInt32.code()] + le_bytes_u32(n)
}

/// The wire form of a text that is `len` bytes long and lies at `addr` in
/// the module's memory: the text goes by reference, its bytes stay where
/// they are.
pub open spec fn wire_text(len: u32, addr: u32) -> Seq<u8> {
    seq![TypeTag::String.code()] + le_bytes_u32(len) + le_bytes_u32(addr)
}

/// The length field of a text of `n` bytes: `n` cut to 32 bits.
pub open spec fn text_len_field(n: nat) -> u32 {
    (n % 0x1_0000_0000) as u32
}

/// A value that can be sent to the host.
pub trait JsSerializable {
    /// Whether `bytes` is what this value looks like on the wire.
    spec fn is_wire_form(&self, bytes: Seq<u8>) -> bool;

    /// How many bytes this value takes on the wire, the tag byte included.
    spec fn wire_size(&self) -> nat;

    /// The declared size is the size of every wire form, and no wire form
    /// lacks its tag byte.
    proof fn lemma_wire_form_size(&self, bytes: Seq<u8>) where Self: Sized
        requires
            self.is_wire_form(bytes),
        ensures
            bytes.len() == self.wire_size(),
            1 <= bytes.len() <= u8::MAX,
    ;

    /// The number of bytes that `ser` writes: at least the tag byte.
    fn size(&self) -> (n: u8)
        ensures
            n == self.wire_size(),
            n >= 1,
    ;

    /// Appends this value's wire form to `cursor`, and nothing else.
    fn ser(&self, cursor: &mut Vec<u8>)
        ensures
            final(cursor)@.len() == old(cursor)@.len() + self.wire_size(),
            final(cursor)@.subrange(0, old(cursor)@.len() as int) == old(cursor)@,
            self.is_wire_form(
                final(cursor)@.subrange(old(cursor)@.len() as int, final(cursor)@.len() as int),
            ),
    ;
}

impl JsSerializable for bool {
    open spec fn is_wire_form(&self, bytes: Seq<u8>) -> bool {
        bytes == wire_bool(*self)
    }

    open spec fn wire_size(&self) -> nat {
        1
    }

    proof fn lemma_wire_form_size(&self, bytes: Seq<u8>) {
    }

    fn size(&self) -> (n: u8) {
        1
    }

    fn ser(&self, cursor: &mut Vec<u8>) {
        match *self {
            false => write_u8(cursor, TypeTag::BoolFalse.to_u8()),
            true => write_u8(cursor, TypeTag::BoolTrue.to_u8()),
        }
        assert(cursor@.subrange(old(cursor)@.len() as int, cursor@.len() as int) =~= wire_bool(
            *self,
        ));
        assert(cursor@.subrange(0, old(cursor)@.len() as int) =~= old(cursor)@);
    }
}

impl JsSerializable for i8 {
    open spec fn is_wire_form(&self, bytes: Seq<u8>) -> bool {
        bytes == wire_i8(*self)
    }

    open spec fn wire_size(&self) -> nat {
        2
    }

    proof fn lemma_wire_form_size(&self, bytes: Seq<u8>) {
    }

    fn size(&self) -> (n: u8) {
        2
    }

    fn ser(&self, cursor: &mut Vec<u8>) {
        write_u8(cursor, TypeTag::Int8.to_u8());
        write_i8(cursor, *self);
        assert(cursor@.subrange(old(cursor)@.len() as int, cursor@.len() as int) =~= wire_i8(
            *self,
        ));
        assert(cursor@.subrange(0, old(cursor)@.len() as int) =~= old(cursor)@);
    }
}

impl JsSerializable for u8 {
    open spec fn is_wire_form(&self, bytes: Seq<u8>) -> bool {
        bytes == wire_u8(*self)
    }

    open spec fn wire_size(&self) -> nat {
        2
    }

    proof fn lemma_wire_form_size(&self, bytes: Seq<u8>) {
    }

    fn size(&self) -> (n: u8) {
        2
    }

    fn ser(&self, cursor: &mut Vec<u8>) {
        write_u8(cursor, TypeTag::UInt8.to_u8());
        write_u8(cursor, *self);
        assert(cursor@.subrange(old(cursor)@.len() as int, cursor@.len() as int) =~= wire_u8(
            *self,
        ));
        assert(cursor@.subrange(0, old(cursor)@.len() as int) =~= old(cursor)@);
    }
}

impl JsSerializable for i16 {
    open spec fn is_wire_form(&self, bytes: Seq<u8>) -> bool {
        bytes == wire_i16(*self)
    }

    open spec fn wire_size(&self) -> nat {
        3
    }

    proof fn lemma_wire_form_size(&self, bytes: Seq<u8>) {
    }

    fn size(&self) -> (n: u8) {
        3
    }

    fn ser(&self, cursor: &mut Vec<u8>) {
        write_u8(cursor, TypeTag::Int16.to_u8());
        write_i16_le(cursor, *self);
        assert(cursor@.subrange(old(cursor)@.len() as int, cursor@.len() as int) =~= wire_i16(
            *self,
        ));
        assert(cursor@.subrange(0, old(cursor)@.len() as int) =~= old(cursor)@);
    }
}

impl JsSerializable for u16 {
    open spec fn is_wire_form(&self, bytes: Seq<u8>) -> bool {
        bytes == wire_u16(*self)
    }

    open spec fn wire_size(&self) -> nat {
        3
    }

    proof fn lemma_wire_form_size(&self, bytes: Seq<u8>) {
    }

    fn size(&self) -> (n: u8) {
        3
    }

    fn ser(&self, cursor: &mut Vec<u8>) {
        write_u8(cursor, TypeTag::UInt16.to_u8());
        write_u16_le(cursor, *self);
        assert(cursor@.subrange(old(cursor)@.len() as int, cursor@.len() as int) =~= wire_u16(
            *self,
        ));
        assert(cursor@.subrange(0, old(cursor)@.len() as int) =~= old(cursor)@);
    }
}

impl JsSerializable for i32 {
    open spec fn is_wire_form(&self, bytes: Seq<u8>) -> bool {
        bytes == wire_i32(*self)
    }

    open spec fn wire_size(&self) -> nat {
        5
    }

    proof fn lemma_wire_form_size(&self, bytes: Seq<u8>) {
    }

    fn size(&self) -> (n: u8) {
        5
    }

    fn ser(&self, cursor: &mut Vec<u8>) {
        write_u8(cursor, TypeTag::Int32.to_u8());
        write_i32_le(cursor, *self);
        assert(cursor@.subrange(old(cursor)@.len() as int, cursor@.len() as int) =~= wire_i32(
            *self,
        ));
        assert(cursor@.subrange(0, old(cursor)@.len() as int) =~= old(cursor)@);
    }
}

impl JsSerializable for u32 {
    open spec fn is_wire_form(&self, bytes: Seq<u8>) -> bool {
        bytes == wire_u32(*self)
    }

    open spec fn wire_size(&self) -> nat {
        5
    }

    proof fn lemma_wire_form_size(&self, bytes: Seq<u8>) {
    }

    fn size(&self) -> (n: u8) {
        5
    }

    fn ser(&self, cursor: &mut Vec<u8>) {
        write_u8(cursor, TypeTag::UInt32.to_u8());
        write_u32_le(cursor, *self);
        assert(cursor@.subrange(old(cursor)@.len() as int, cursor@.len() as int) =~= wire_u32(
            *self,
        ));
        assert(cursor@.subrange(0, old(cursor)@.len() as int) =~= old(cursor)@);
    }
}

/// `str::as_ptr`, cut to 32 bits: where the text's bytes lie in the module's
/// memory. The contract claims nothing of the address: it is the allocator's
/// choice.
#[verifier::external_body]
fn text_address(text: &str) -> (addr: u32) {
    text.as_ptr() as u32
}

/// Appends the wire form of a text that is `len` bytes long and lies at
/// `addr`.
pub fn ser_text_ref(len: u32, addr: u32, cursor: &mut Vec<u8>)
    ensures
        final(cursor)@ == old(cursor)@ + wire_text(len, addr),
{
    write_u8(cursor, TypeTag::String.to_u8());
    write_u32_le(cursor, len);
    write_u32_le(cursor, addr);
    assert(cursor@ =~= old(cursor)@ + wire_text(len, addr));
}

impl<'a> JsSerializable for &'a str {
    /// The tag, the length in bytes, and the address, which no one can tell
    /// from the text alone.
    open spec fn is_wire_form(&self, bytes: Seq<u8>) -> bool {
        exists|addr: u32| bytes == wire_text(text_len_field(self.spec_bytes().len()), addr)
    }

    open spec fn wire_size(&self) -> nat {
        9
    }

    proof fn lemma_wire_form_size(&self, bytes: Seq<u8>) {
    }

    fn size(&self) -> (n: u8) {
        9
    }

    fn ser(&self, cursor: &mut Vec<u8>) {
        let n: usize = self.as_bytes().len();
        let len: u32 = ((n as u64) % 0x1_0000_0000) as u32;
        let addr: u32 = text_address(*self);
        ser_text_ref(len, addr, cursor);
        proof {
            let written = cursor@.subrange(old(cursor)@.len() as int, cursor@.len() as int);
            assert(written =~= wire_text(text_len_field(self.spec_bytes().len()), addr));
            assert(cursor@.subrange(0, old(cursor)@.len() as int) =~= old(cursor)@);
        }
    }
}

/// How many bytes the values of `args` take on the wire, all together.
pub open spec fn wire_size_sum(args: Seq<&dyn JsSerializable>) -> nat
    decreases args.len(),
{
    if args.len() == 0 {
        0
    } else {
        wire_size_sum(args.drop_last()) + args.last().wire_size()
    }
}

/// Whether `bytes` is a wire form of each value of `args`, one behind the
/// other, in the order of `args`, and nothing else.
pub open spec fn is_wire_stream(args: Seq<&dyn JsSerializable>, bytes: Seq<u8>) -> bool
    decreases args.len(),
{
    if args.len() == 0 {
        bytes.len() == 0
    } else {
        let n = args.last().wire_size();
        &&& bytes.len() >= n
        &&& is_wire_stream(args.drop_last(), bytes.subrange(0, bytes.len() - n))
        &&& args.last().is_wire_form(bytes.subrange(bytes.len() - n, bytes.len() as int))
    }
}

/// A stream is as long as the declared sizes of its values say.
pub proof fn lemma_wire_stream_size(args: Seq<&dyn JsSerializable>, bytes: Seq<u8>)
    requires
        is_wire_stream(args, bytes),
    ensures
        bytes.len() == wire_size_sum(args),
    decreases args.len(),
{
    if args.len() > 0 {
        let n = args.last().wire_size();
        lemma_wire_stream_size(args.drop_last(), bytes.subrange(0, bytes.len() - n));
    }
}

/// The values in front take no more bytes than all of them.
proof fn lemma_wire_size_sum_take(args: Seq<&dyn JsSerializable>, i: int)
    requires
        0 <= i <= args.len(),
    ensures
        wire_size_sum(args.take(i)) <= wire_size_sum(args),
        i < args.len() ==> wire_size_sum(args.take(i + 1)) == wire_size_sum(args.take(i))
            + args[i].wire_size(),
    decreases args.len() - i,
{
    if i < args.len() {
        assert(args.take(i + 1).drop_last() == args.take(i));
        lemma_wire_size_sum_take(args, i + 1);
    } else {
        assert(args.take(i) == args);
    }
}

/// The number of bytes that `ser_args` writes for `args`: the sum of the
/// sizes that the values declare.
pub fn args_size(args: &[&dyn JsSerializable]) -> (total: u32)
    requires
        wire_size_sum(args@) <= u32::MAX,
    ensures
        total == wire_size_sum(args@),
        args@.len() <= total,
{
    let mut total: u32 = 0;
    let mut i: usize = 0;
    while i < args.len()
        invariant
            i <= args@.len(),
            total == wire_size_sum(args@.take(i as int)),
            i <= total,
            wire_size_sum(args@) <= u32::MAX,
        decreases args@.len() - i,
    {
        let n: u8 = args[i].size();
        proof {
            lemma_wire_size_sum_take(args@, i as int);
            lemma_wire_size_sum_take(args@, i + 1);
        }
        total = total + n as u32;
        i = i + 1;
    }
    assert(args@.take(i as int) == args@);
    total
}

/// Encodes a list of arguments: the buffer is made once, as large as the
/// values declare, and each value is written behind the one before it.
pub fn ser_args(args: &[&dyn JsSerializable]) -> (bytes: Vec<u8>)
    requires
        wire_size_sum(args@) <= u32::MAX,
    ensures
        is_wire_stream(args@, bytes@),
        bytes@.len() == wire_size_sum(args@),
        args@.len() <= bytes@.len(),
{
    let alloc_size: u32 = args_size(args);
    let mut cursor: Vec<u8> = Vec::with_capacity(alloc_size as usize);
    let mut i: usize = 0;
    while i < args.len()
        invariant
            i <= args@.len(),
            is_wire_stream(args@.take(i as int), cursor@),
        decreases args@.len() - i,
    {
        let ghost before = cursor@;
        args[i].ser(&mut cursor);
        proof {
            let done = args@.take(i + 1);
            assert(done.drop_last() == args@.take(i as int));
            assert(done.last() == args@[i as int]);
            assert(cursor@.subrange(0, cursor@.len() - done.last().wire_size()) == before);
        }
        i = i + 1;
    }
    proof {
        assert(args@.take(i as int) == args@);
        lemma_wire_stream_size(args@, cursor@);
    }
    cursor
}

} // verus!

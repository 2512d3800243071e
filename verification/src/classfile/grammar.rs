//! What the bytes of a classfile denote. Each function reads one production
//! at an offset and gives the value together with the offset after it, or
//! the error that stops the parse there. All numbers are big-endian.

use super::access_flags::AccessFlags;
use super::attribute::AttributeView;
use super::attribute::CodeAttributeView;
use super::attribute::ExceptionTableEntry;
use super::constant::ClassInfo;
use super::constant::ConstantView;
use super::constant::InvokeDynamicInfo;
use super::constant::MethodHandleInfo;
use super::constant::MethodTypeInfo;
use super::constant::NameAndTypeInfo;
use super::constant::RefInfo;
use super::error::ErrorView;
use super::ClassFileView;
use super::MemberView;
use crate::bytes::as_signed;
use crate::bytes::be_u16_at;
use crate::bytes::be_u32_at;
use crate::io::IoError;
use crate::text::decimal;
use crate::text::hex_upper;
use crate::text::lossy_text;
use vstd::prelude::*;

verus! {

/// A value read from the bytes and the offset after it, or the error.
pub type Parsed<T> = Result<(T, int), ErrorView>;

/// The first four bytes of every classfile, as a number.
pub const MAGIC: u32 = 0xCAFE_BABE;

/// The error of a read past the end of the bytes.
pub open spec fn eof() -> ErrorView {
    ErrorView::IO(IoError::UnexpectedEof)
}

/// One byte.
pub open spec fn u8_at(b: Seq<u8>, at: int) -> Parsed<u8> {
    if 0 <= at && at + 1 <= b.len() {
        Ok((b[at], at + 1))
    } else {
        Err(eof())
    }
}

/// An unsigned 16-bit number.
pub open spec fn u16_at(b: Seq<u8>, at: int) -> Parsed<u16> {
    if 0 <= at && at + 2 <= b.len() {
        Ok((be_u16_at(b, at), at + 2))
    } else {
        Err(eof())
    }
}

/// An unsigned 32-bit number.
pub open spec fn u32_at(b: Seq<u8>, at: int) -> Parsed<u32> {
    if 0 <= at && at + 4 <= b.len() {
        Ok((be_u32_at(b, at), at + 4))
    } else {
        Err(eof())
    }
}

/// A signed 32-bit number.
pub open spec fn i32_at(b: Seq<u8>, at: int) -> Parsed<i32> {
    if 0 <= at && at + 4 <= b.len() {
        Ok((as_signed(be_u32_at(b, at)), at + 4))
    } else {
        Err(eof())
    }
}

/// A run of `n` bytes.
pub open spec fn bytes_at(b: Seq<u8>, at: int, n: int) -> Parsed<Seq<u8>> {
    if 0 <= at && at + n <= b.len() {
        Ok((b.subrange(at, at + n), at + n))
    } else {
        Err(eof())
    }
}

/// Two unsigned 16-bit numbers in a row.
pub open spec fn u16_pair_at(b: Seq<u8>, at: int) -> Parsed<(u16, u16)> {
    if 0 <= at && at + 4 <= b.len() {
        Ok(((be_u16_at(b, at), be_u16_at(b, at + 2)), at + 4))
    } else {
        Err(eof())
    }
}

/// The message for a magic identifier that is not the expected one.
pub open spec fn invalid_magic_message(magic: u32) -> Seq<char> {
    "Invalid magic identifier: 0x"@ + hex_upper(magic as nat)
}

/// The magic identifier: four bytes that must spell `0xCAFEBABE`. Any other
/// number is reported in hexadecimal, at the offset after it.
pub open spec fn magic_at(b: Seq<u8>, at: int) -> Parsed<()> {
    match u32_at(b, at) {
        Err(e) => Err(e),
        Ok((magic, next)) => if magic == MAGIC {
            Ok(((), next))
        } else {
            Err(ErrorView::ReadError(invalid_magic_message(magic), next as usize))
        },
    }
}

/// The version: the minor number comes first in the bytes, the major number
/// first in the value.
pub open spec fn version_at(b: Seq<u8>, at: int) -> Parsed<(u16, u16)> {
    match u16_pair_at(b, at) {
        Err(e) => Err(e),
        Ok(((minor, major), next)) => Ok(((major, minor), next)),
    }
}

/// The 64-bit two's complement number whose high and low halves are given.
pub open spec fn long_of(high: u32, low: u32) -> i64 {
    if high < 0x8000_0000 {
        (high * 0x1_0000_0000 + low) as i64
    } else {
        (high * 0x1_0000_0000 + low - 0x1_0000_0000_0000_0000) as i64
    }
}

/// The message for a tag that names no kind of constant.
pub open spec fn invalid_tag_message(tag: u8) -> Seq<char> {
    "Invalid cp info tag: "@ + decimal(tag as nat)
}

/// A reference to a member: class index, then name-and-type index.
pub open spec fn ref_info_at(b: Seq<u8>, at: int) -> Parsed<RefInfo> {
    match u16_pair_at(b, at) {
        Err(e) => Err(e),
        Ok(((class_index, name_and_type_index), next)) => Ok(
            (RefInfo { class_index, name_and_type_index }, next),
        ),
    }
}

/// A `Utf8` constant after its tag: a 16-bit length and that many bytes,
/// decoded lossily.
pub open spec fn utf8_at(b: Seq<u8>, at: int) -> Parsed<ConstantView> {
    match u16_at(b, at) {
        Err(e) => Err(e),
        Ok((length, start)) => match bytes_at(b, start, length as int) {
            Err(e) => Err(e),
            Ok((bytes, next)) => Ok((ConstantView::Utf8(lossy_text(bytes)), next)),
        },
    }
}

/// A `Long` constant after its tag: the high half, then the low half.
pub open spec fn long_at(b: Seq<u8>, at: int) -> Parsed<ConstantView> {
    match u32_at(b, at) {
        Err(e) => Err(e),
        Ok((high, middle)) => match u32_at(b, middle) {
            Err(e) => Err(e),
            Ok((low, next)) => Ok((ConstantView::Long(long_of(high, low)), next)),
        },
    }
}

/// A `MethodHandle` constant after its tag: a kind byte and an index.
pub open spec fn method_handle_at(b: Seq<u8>, at: int) -> Parsed<ConstantView> {
    match u8_at(b, at) {
        Err(e) => Err(e),
        Ok((reference_kind, middle)) => match u16_at(b, middle) {
            Err(e) => Err(e),
            Ok((reference_index, next)) => Ok(
                (
                    ConstantView::MethodHandle(
                        MethodHandleInfo { reference_kind, reference_index },
                    ),
                    next,
                ),
            ),
        },
    }
}

/// What follows the tag of a constant whose payload is one 16-bit index.
pub open spec fn one_index_at(b: Seq<u8>, at: int, tag: u8) -> Parsed<ConstantView> {
    match u16_at(b, at) {
        Err(e) => Err(e),
        Ok((index, next)) => Ok(
            (
                if tag == 7 {
                    ConstantView::Class(ClassInfo { name_index: index })
                } else if tag == 8 {
                    ConstantView::String { string_index: index }
                } else {
                    ConstantView::MethodType(MethodTypeInfo { descriptor_index: index })
                },
                next,
            ),
        ),
    }
}

/// What follows the tag of a constant whose payload is two 16-bit indices.
pub open spec fn two_indices_at(b: Seq<u8>, at: int, tag: u8) -> Parsed<ConstantView> {
    match u16_pair_at(b, at) {
        Err(e) => Err(e),
        Ok(((first, second), next)) => Ok(
            (
                if tag == 9 {
                    ConstantView::FieldRef(
                        RefInfo { class_index: first, name_and_type_index: second },
                    )
                } else if tag == 10 {
                    ConstantView::MethodRef(
                        RefInfo { class_index: first, name_and_type_index: second },
                    )
                } else if tag == 11 {
                    ConstantView::InterfaceMethodRef(
                        RefInfo { class_index: first, name_and_type_index: second },
                    )
                } else if tag == 12 {
                    ConstantView::NameAndType(
                        NameAndTypeInfo { name_index: first, descriptor_index: second },
                    )
                } else {
                    ConstantView::InvokeDynamic(
                        InvokeDynamicInfo {
                            bootstrap_method_attr_index: first,
                            name_and_type_index: second,
                        },
                    )
                },
                next,
            ),
        ),
    }
}

/// One entry of the constant pool: a tag byte that selects the variant, and
/// the variant's payload. A tag that names no variant is an error at the
/// offset of the tag.
pub open spec fn cp_info_at(b: Seq<u8>, at: int) -> Parsed<ConstantView> {
    match u8_at(b, at) {
        Err(e) => Err(e),
        Ok((tag, next)) => if tag == 1 {
            utf8_at(b, next)
        } else if tag == 3 {
            match i32_at(b, next) {
                Err(e) => Err(e),
                Ok((value, end)) => Ok((ConstantView::Integer(value), end)),
            }
        } else if tag == 5 {
            long_at(b, next)
        } else if tag == 7 || tag == 8 || tag == 16 {
            one_index_at(b, next, tag)
        } else if tag == 9 || tag == 10 || tag == 11 || tag == 12 || tag == 18 {
            two_indices_at(b, next, tag)
        } else if tag == 15 {
            method_handle_at(b, next)
        } else {
            Err(ErrorView::ReadError(invalid_tag_message(tag), at as usize))
        },
    }
}

/// The number of slots that a constant takes: two for a `Long`, else one.
pub open spec fn slots_of(constant: ConstantView) -> nat {
    if constant is Long {
        2
    } else {
        1
    }
}

/// The entries of the pool from `at` on, with `remaining` slots still to fill
/// after those in `acc`. Each entry is appended; a two-slot entry is followed
/// by an unusable slot. A two-slot entry for which one slot is left is
/// refused like a tag that names nothing.
pub open spec fn constants_from(b: Seq<u8>, at: int, remaining: nat, acc: Seq<ConstantView>)
    -> Parsed<Seq<ConstantView>>
    decreases remaining,
{
    if remaining == 0 {
        Ok((acc, at))
    } else {
        match cp_info_at(b, at) {
            Err(e) => Err(e),
            Ok((constant, next)) => if slots_of(constant) > remaining {
                Err(ErrorView::ReadError(invalid_tag_message(b[at]), at as usize))
            } else if slots_of(constant) == 2 {
                constants_from(
                    b,
                    next,
                    (remaining - 2) as nat,
                    acc.push(constant).push(ConstantView::Unusable),
                )
            } else {
                constants_from(b, next, (remaining - 1) as nat, acc.push(constant))
            },
        }
    }
}

/// The message for a constant pool that claims to have no slot at all.
pub open spec fn invalid_count_message(count: u16) -> Seq<char> {
    "Invalid constant pool count: "@ + decimal(count as nat)
}

/// The constant pool: a 16-bit count of slots, the reserved first slot
/// included, and the entries that fill the other slots. A count of zero
/// leaves no room for the reserved slot and is an error at the offset after
/// the count.
pub open spec fn constant_pool_at(b: Seq<u8>, at: int) -> Parsed<Seq<ConstantView>> {
    match u16_at(b, at) {
        Err(e) => Err(e),
        Ok((count, next)) => if count == 0 {
            Err(ErrorView::ReadError(invalid_count_message(count), next as usize))
        } else {
            constants_from(b, next, (count - 1) as nat, seq![ConstantView::Unusable])
        },
    }
}

/// One attribute: the index of its name, a 32-bit length, and that many
/// bytes of payload.
pub open spec fn attribute_at(b: Seq<u8>, at: int) -> Parsed<AttributeView> {
    match u16_at(b, at) {
        Err(e) => Err(e),
        Ok((attribute_name_index, middle)) => match u32_at(b, middle) {
            Err(e) => Err(e),
            Ok((length, start)) => match bytes_at(b, start, length as int) {
                Err(e) => Err(e),
                Ok((info, next)) => Ok((AttributeView { attribute_name_index, info }, next)),
            },
        },
    }
}

/// `remaining` more attributes from `at` on, after those in `acc`.
pub open spec fn attributes_from(b: Seq<u8>, at: int, remaining: nat, acc: Seq<AttributeView>)
    -> Parsed<Seq<AttributeView>>
    decreases remaining,
{
    if remaining == 0 {
        Ok((acc, at))
    } else {
        match attribute_at(b, at) {
            Err(e) => Err(e),
            Ok((attribute, next)) => attributes_from(
                b,
                next,
                (remaining - 1) as nat,
                acc.push(attribute),
            ),
        }
    }
}

/// A 16-bit count and that many attributes.
pub open spec fn attribute_list_at(b: Seq<u8>, at: int) -> Parsed<Seq<AttributeView>> {
    match u16_at(b, at) {
        Err(e) => Err(e),
        Ok((count, next)) => attributes_from(b, next, count as nat, Seq::empty()),
    }
}

/// A field or a method: access flags, the indices of name and descriptor,
/// and a list of attributes.
pub open spec fn member_at(b: Seq<u8>, at: int) -> Parsed<MemberView> {
    match u16_at(b, at) {
        Err(e) => Err(e),
        Ok((flags, second)) => match u16_pair_at(b, second) {
            Err(e) => Err(e),
            Ok(((name_index, descriptor_index), third)) => match attribute_list_at(b, third) {
                Err(e) => Err(e),
                Ok((attributes, next)) => Ok(
                    (
                        MemberView {
                            access_flags: AccessFlags::truncated(flags),
                            name_index,
                            descriptor_index,
                            attributes,
                        },
                        next,
                    ),
                ),
            },
        },
    }
}

/// `remaining` more fields or methods from `at` on, after those in `acc`.
pub open spec fn members_from(b: Seq<u8>, at: int, remaining: nat, acc: Seq<MemberView>)
    -> Parsed<Seq<MemberView>>
    decreases remaining,
{
    if remaining == 0 {
        Ok((acc, at))
    } else {
        match member_at(b, at) {
            Err(e) => Err(e),
            Ok((member, next)) => members_from(b, next, (remaining - 1) as nat, acc.push(member)),
        }
    }
}

/// A 16-bit count and that many fields or methods.
pub open spec fn member_list_at(b: Seq<u8>, at: int) -> Parsed<Seq<MemberView>> {
    match u16_at(b, at) {
        Err(e) => Err(e),
        Ok((count, next)) => members_from(b, next, count as nat, Seq::empty()),
    }
}

/// A 16-bit count and that many 16-bit numbers.
pub open spec fn u16_list_at(b: Seq<u8>, at: int) -> Parsed<Seq<u16>> {
    match u16_at(b, at) {
        Err(e) => Err(e),
        Ok((count, next)) => if next + 2 * count <= b.len() {
            Ok((Seq::new(count as nat, |i: int| be_u16_at(b, next + 2 * i)), next + 2 * count))
        } else {
            Err(eof())
        },
    }
}

/// One row of an exception table: four 16-bit numbers.
pub open spec fn exception_entry_at(b: Seq<u8>, at: int) -> Parsed<ExceptionTableEntry> {
    if 0 <= at && at + 8 <= b.len() {
        Ok(
            (
                ExceptionTableEntry {
                    start_pc: be_u16_at(b, at),
                    end_pc: be_u16_at(b, at + 2),
                    handler_pc: be_u16_at(b, at + 4),
                    catch_type: be_u16_at(b, at + 6),
                },
                at + 8,
            ),
        )
    } else {
        Err(eof())
    }
}

/// `remaining` more rows of an exception table, after those in `acc`.
pub open spec fn exception_entries_from(
    b: Seq<u8>,
    at: int,
    remaining: nat,
    acc: Seq<ExceptionTableEntry>,
) -> Parsed<Seq<ExceptionTableEntry>>
    decreases remaining,
{
    if remaining == 0 {
        Ok((acc, at))
    } else {
        match exception_entry_at(b, at) {
            Err(e) => Err(e),
            Ok((entry, next)) => exception_entries_from(
                b,
                next,
                (remaining - 1) as nat,
                acc.push(entry),
            ),
        }
    }
}

/// A 16-bit count and that many rows of an exception table.
pub open spec fn exception_table_at(b: Seq<u8>, at: int) -> Parsed<Seq<ExceptionTableEntry>> {
    match u16_at(b, at) {
        Err(e) => Err(e),
        Ok((count, next)) => exception_entries_from(b, next, count as nat, Seq::empty()),
    }
}

/// The start of a code block: the stack and locals limits, and the code
/// itself behind its 32-bit length.
pub open spec fn code_head_at(b: Seq<u8>, at: int) -> Parsed<(u16, u16, Seq<u8>)> {
    match u16_pair_at(b, at) {
        Err(e) => Err(e),
        Ok(((max_stack, max_locals), second)) => match u32_at(b, second) {
            Err(e) => Err(e),
            Ok((length, start)) => match bytes_at(b, start, length as int) {
                Err(e) => Err(e),
                Ok((code, next)) => Ok(((max_stack, max_locals, code), next)),
            },
        },
    }
}

/// The payload of a `Code` attribute: the limits and the code, the exception
/// table, and a list of attributes.
pub open spec fn code_attribute_at(b: Seq<u8>, at: int) -> Parsed<CodeAttributeView> {
    match code_head_at(b, at) {
        Err(e) => Err(e),
        Ok(((max_stack, max_locals, code), second)) => match exception_table_at(b, second) {
            Err(e) => Err(e),
            Ok((exception_table, third)) => match attribute_list_at(b, third) {
                Err(e) => Err(e),
                Ok((attributes, next)) => Ok(
                    (
                        CodeAttributeView {
                            max_stack,
                            max_locals,
                            code,
                            exception_table,
                            attributes,
                        },
                        next,
                    ),
                ),
            },
        },
    }
}

/// What comes before the constant pool: the magic identifier and the version.
pub open spec fn preamble_at(b: Seq<u8>, at: int) -> Parsed<(u16, u16)> {
    match magic_at(b, at) {
        Err(e) => Err(e),
        Ok((_, next)) => version_at(b, next),
    }
}

/// What follows the constant pool: the access flags, the indices of this
/// class and of its superclass, and the list of interfaces.
pub open spec fn class_head_at(b: Seq<u8>, at: int) -> Parsed<(AccessFlags, u16, u16, Seq<u16>)> {
    match u16_at(b, at) {
        Err(e) => Err(e),
        Ok((flags, second)) => match u16_pair_at(b, second) {
            Err(e) => Err(e),
            Ok(((this_class, super_class), third)) => match u16_list_at(b, third) {
                Err(e) => Err(e),
                Ok((interfaces, next)) => Ok(
                    ((AccessFlags::truncated(flags), this_class, super_class, interfaces), next),
                ),
            },
        },
    }
}

/// The fields, the methods and the attributes of the class.
pub open spec fn class_body_at(b: Seq<u8>, at: int) -> Parsed<
    (Seq<MemberView>, Seq<MemberView>, Seq<AttributeView>),
> {
    match member_list_at(b, at) {
        Err(e) => Err(e),
        Ok((fields, second)) => match member_list_at(b, second) {
            Err(e) => Err(e),
            Ok((methods, third)) => match attribute_list_at(b, third) {
                Err(e) => Err(e),
                Ok((attributes, next)) => Ok(((fields, methods, attributes), next)),
            },
        },
    }
}

/// A whole classfile that starts at `at`: the preamble, the constant pool,
/// the head and the body of the class.
pub open spec fn class_file_at(b: Seq<u8>, at: int) -> Parsed<ClassFileView> {
    match preamble_at(b, at) {
        Err(e) => Err(e),
        Ok((_, first)) => match constant_pool_at(b, first) {
            Err(e) => Err(e),
            Ok((constant_pool, second)) => match class_head_at(b, second) {
                Err(e) => Err(e),
                Ok(((access_flags, this_class, super_class, interfaces), third)) =>
                    match class_body_at(b, third) {
                    Err(e) => Err(e),
                    Ok(((fields, methods, attributes), next)) => Ok(
                        (
                            ClassFileView {
                                constant_pool,
                                access_flags,
                                this_class,
                                super_class,
                                interfaces,
                                fields,
                                methods,
                                attributes,
                            },
                            next,
                        ),
                    ),
                },
            },
        },
    }
}

/// A whole classfile, read from the first byte on. Bytes after its last
/// attribute are not looked at.
pub open spec fn class_file_of(b: Seq<u8>) -> Result<ClassFileView, ErrorView> {
    match class_file_at(b, 0) {
        Err(e) => Err(e),
        Ok((class_file, _)) => Ok(class_file),
    }
}

/// The payload of a `Code` attribute, read from the first byte of `b` on.
pub open spec fn code_attribute_of(b: Seq<u8>) -> Result<CodeAttributeView, ErrorView> {
    match code_attribute_at(b, 0) {
        Err(e) => Err(e),
        Ok((code, _)) => Ok(code),
    }
}

} // verus!

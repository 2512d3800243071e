//! The parser: a cursor over the bytes of a classfile, with one function for
//! each production of the grammar.

use super::access_flags::AccessFlags;
use super::attribute::Attribute;
use super::attribute::AttributeView;
use super::attribute::Attributes;
use super::attribute::CodeAttribute;
use super::attribute::ExceptionTableEntry;
use super::constant::ClassInfo;
use super::constant::Constant;
use super::constant::ConstantPool;
use super::constant::ConstantView;
use super::constant::InvokeDynamicInfo;
use super::constant::MethodHandleInfo;
use super::constant::MethodTypeInfo;
use super::constant::NameAndTypeInfo;
use super::constant::RefInfo;
use super::error::Error;
use super::error::ErrorView;
use super::grammar::attribute_at;
use super::grammar::attribute_list_at;
use super::grammar::attributes_from;
use super::grammar::bytes_at;
use super::grammar::constant_pool_at;
use super::grammar::constants_from;
use super::grammar::cp_info_at;
use super::grammar::exception_entries_from;
use super::grammar::exception_entry_at;
use super::grammar::exception_table_at;
use super::grammar::i32_at;
use super::grammar::long_at;
use super::grammar::long_of;
use super::grammar::magic_at;
use super::grammar::member_at;
use super::grammar::member_list_at;
use super::grammar::members_from;
use super::grammar::method_handle_at;
use super::grammar::one_index_at;
use super::grammar::ref_info_at;
use super::grammar::slots_of;
use super::grammar::two_indices_at;
use super::grammar::u16_at;
use super::grammar::u16_list_at;
use super::grammar::u32_at;
use super::grammar::u8_at;
use super::grammar::utf8_at;
use super::grammar::version_at;
use super::grammar::Parsed;
use super::grammar::MAGIC;
use super::laws::lemma_pool_slots;
use super::laws::slots_well_formed;
use crate::bytes::be_u16_at;
use super::ClassFile;
use super::FieldInfo;
use super::MemberView;
use super::MethodInfo;
use crate::bytes::read_be_i32;
use crate::bytes::read_be_u16;
use crate::bytes::read_be_u32;
use crate::io::IoError;
use crate::text::decode_lossy;
use crate::text::push_decimal;
use crate::text::push_hex_upper;
use crate::views::lemma_views_push;
use crate::views::views;
use vstd::prelude::*;
use vstd::string::StringExecFns;

verus! {

/// Whether the outcome `r` of a read that left the cursor at `end` is what
/// the grammar expects.
pub open spec fn yields<T>(r: Result<T, Error>, end: int, expected: Parsed<T>) -> bool {
    match r {
        Ok(value) => expected == Ok::<(T, int), ErrorView>((value, end)),
        Err(e) => expected == Err::<(T, int), ErrorView>(e@),
    }
}

/// Whether the view of the outcome `r` of a read that left the cursor at
/// `end` is what the grammar expects.
pub open spec fn yields_view<T: View>(r: Result<T, Error>, end: int, expected: Parsed<T::V>)
    -> bool {
    match r {
        Ok(value) => expected == Ok::<(T::V, int), ErrorView>((value@, end)),
        Err(e) => expected == Err::<(T::V, int), ErrorView>(e@),
    }
}

/// A cursor over the bytes of a classfile, or of one attribute's payload.
pub struct Parser<'a> {
    buf: &'a [u8],
    pos: usize,
}

impl<'a> Parser<'a> {
    /// The bytes that are parsed.
    pub closed spec fn bytes(&self) -> Seq<u8> {
        self.buf@
    }

    /// The offset of the next byte to read.
    pub closed spec fn position(&self) -> int {
        self.pos as int
    }

    /// A parser at the start of `buf`.
    pub fn new(buf: &'a [u8]) -> (parser: Parser<'a>)
        ensures
            parser.bytes() == buf@,
            parser.position() == 0,
    {
        Parser { buf, pos: 0 }
    }

    /// Whether `n` more bytes are there.
    fn has(&self, n: usize) -> (enough: bool)
        ensures
            enough == (self.position() + n <= self.bytes().len()),
            self.bytes().len() <= usize::MAX,
    {
        self.pos <= self.buf.len() && n <= self.buf.len() - self.pos
    }

    fn read_u8(&mut self) -> (r: Result<u8, Error>)
        ensures
            final(self).bytes() == old(self).bytes(),
            yields(r, final(self).position(), u8_at(old(self).bytes(), old(self).position())),
    {
        if !self.has(1) {
            return Err(Error::IO(IoError::UnexpectedEof));
        }
        let value = self.buf[self.pos];
        self.pos += 1;
        Ok(value)
    }

    fn read_u16(&mut self) -> (r: Result<u16, Error>)
        ensures
            final(self).bytes() == old(self).bytes(),
            yields(r, final(self).position(), u16_at(old(self).bytes(), old(self).position())),
    {
        if !self.has(2) {
            return Err(Error::IO(IoError::UnexpectedEof));
        }
        let value = read_be_u16(self.buf, self.pos);
        self.pos += 2;
        Ok(value)
    }

    fn read_u32(&mut self) -> (r: Result<u32, Error>)
        ensures
            final(self).bytes() == old(self).bytes(),
            yields(r, final(self).position(), u32_at(old(self).bytes(), old(self).position())),
    {
        if !self.has(4) {
            return Err(Error::IO(IoError::UnexpectedEof));
        }
        let value = read_be_u32(self.buf, self.pos);
        self.pos += 4;
        Ok(value)
    }

    fn read_i32(&mut self) -> (r: Result<i32, Error>)
        ensures
            final(self).bytes() == old(self).bytes(),
            yields(r, final(self).position(), i32_at(old(self).bytes(), old(self).position())),
    {
        if !self.has(4) {
            return Err(Error::IO(IoError::UnexpectedEof));
        }
        let value = read_be_i32(self.buf, self.pos);
        self.pos += 4;
        Ok(value)
    }

    /// Reads a run of `n` bytes.
    fn read_bytes(&mut self, n: usize) -> (r: Result<Vec<u8>, Error>)
        ensures
            final(self).bytes() == old(self).bytes(),
            match r {
                Ok(bytes) => bytes_at(old(self).bytes(), old(self).position(), n as int) == Ok::<
                    (Seq<u8>, int),
                    ErrorView,
                >((bytes@, final(self).position())),
                Err(e) => bytes_at(old(self).bytes(), old(self).position(), n as int) == Err::<
                    (Seq<u8>, int),
                    ErrorView,
                >(e@),
            },
    {
        if !self.has(n) {
            return Err(Error::IO(IoError::UnexpectedEof));
        }
        let bytes = vstd::slice::slice_to_vec(
            vstd::slice::slice_subrange(self.buf, self.pos, self.pos + n),
        );
        self.pos += n;
        Ok(bytes)
    }

    /// Reads the magic identifier: four bytes that must spell `0xCAFEBABE`.
    /// Any other number is reported in hexadecimal, at the offset after it.
    pub fn parse_magic_identifier(&mut self) -> (r: Result<(), Error>)
        ensures
            final(self).bytes() == old(self).bytes(),
            yields(r, final(self).position(), magic_at(old(self).bytes(), old(self).position())),
    {
        let magic_identifier = self.read_u32()?;
        if magic_identifier == MAGIC {
            Ok(())
        } else {
            let mut message = String::from_str("Invalid magic identifier: 0x");
            push_hex_upper(&mut message, magic_identifier as u64);
            Err(Error::ReadError(message, self.pos))
        }
    }

    fn parse_version(&mut self) -> (r: Result<(u16, u16), Error>)
        ensures
            final(self).bytes() == old(self).bytes(),
            yields(
                r,
                final(self).position(),
                version_at(old(self).bytes(), old(self).position()),
            ),
    {
        let minor = self.read_u16()?;
        let major = self.read_u16()?;
        Ok((major, minor))
    }

    fn parse_ref_info(&mut self) -> (r: Result<RefInfo, Error>)
        ensures
            final(self).bytes() == old(self).bytes(),
            yields(
                r,
                final(self).position(),
                ref_info_at(old(self).bytes(), old(self).position()),
            ),
    {
        let class_index = self.read_u16()?;
        let name_and_type_index = self.read_u16()?;
        Ok(RefInfo { class_index, name_and_type_index })
    }

    fn parse_utf8(&mut self) -> (r: Result<Constant, Error>)
        ensures
            final(self).bytes() == old(self).bytes(),
            yields_view(
                r,
                final(self).position(),
                utf8_at(old(self).bytes(), old(self).position()),
            ),
    {
        let length = self.read_u16()?;
        let bytes = self.read_bytes(length as usize)?;
        Ok(Constant::Utf8(decode_lossy(bytes.as_slice())))
    }

    fn parse_integer(&mut self) -> (r: Result<Constant, Error>)
        ensures
            final(self).bytes() == old(self).bytes(),
            match r {
                Ok(constant) => i32_at(old(self).bytes(), old(self).position()) matches Ok(
                    (value, end),
                ) && constant@ == ConstantView::Integer(value) && end == final(self).position(),
                Err(e) => i32_at(old(self).bytes(), old(self).position()) == Err::<
                    (i32, int),
                    ErrorView,
                >(e@),
            },
    {
        let value = self.read_i32()?;
        Ok(Constant::Integer(value))
    }

    fn parse_long(&mut self) -> (r: Result<Constant, Error>)
        ensures
            final(self).bytes() == old(self).bytes(),
            yields_view(
                r,
                final(self).position(),
                long_at(old(self).bytes(), old(self).position()),
            ),
    {
        let high_bytes = self.read_u32()?;
        let low_bytes = self.read_u32()?;
        let value: i64 = if high_bytes < 0x8000_0000 {
            (high_bytes as i64) * 0x1_0000_0000 + low_bytes as i64
        } else {
            (high_bytes as i64 - 0x1_0000_0000) * 0x1_0000_0000 + low_bytes as i64
        };
        assert(value == long_of(high_bytes, low_bytes));
        Ok(Constant::Long(value))
    }

    fn parse_class_info(&mut self) -> (r: Result<Constant, Error>)
        ensures
            final(self).bytes() == old(self).bytes(),
            yields_view(
                r,
                final(self).position(),
                one_index_at(old(self).bytes(), old(self).position(), 7),
            ),
    {
        let name_index = self.read_u16()?;
        Ok(Constant::Class(ClassInfo { name_index }))
    }

    fn parse_string(&mut self) -> (r: Result<Constant, Error>)
        ensures
            final(self).bytes() == old(self).bytes(),
            yields_view(
                r,
                final(self).position(),
                one_index_at(old(self).bytes(), old(self).position(), 8),
            ),
    {
        let string_index = self.read_u16()?;
        Ok(Constant::String { string_index })
    }

    fn parse_method_type_info(&mut self) -> (r: Result<Constant, Error>)
        ensures
            final(self).bytes() == old(self).bytes(),
            yields_view(
                r,
                final(self).position(),
                one_index_at(old(self).bytes(), old(self).position(), 16),
            ),
    {
        let descriptor_index = self.read_u16()?;
        Ok(Constant::MethodType(MethodTypeInfo { descriptor_index }))
    }

    fn parse_field_ref(&mut self) -> (r: Result<Constant, Error>)
        ensures
            final(self).bytes() == old(self).bytes(),
            yields_view(
                r,
                final(self).position(),
                two_indices_at(old(self).bytes(), old(self).position(), 9),
            ),
    {
        let ref_info = self.parse_ref_info()?;
        Ok(Constant::FieldRef(ref_info))
    }

    fn parse_method_ref(&mut self) -> (r: Result<Constant, Error>)
        ensures
            final(self).bytes() == old(self).bytes(),
            yields_view(
                r,
                final(self).position(),
                two_indices_at(old(self).bytes(), old(self).position(), 10),
            ),
    {
        let ref_info = self.parse_ref_info()?;
        Ok(Constant::MethodRef(ref_info))
    }

    fn parse_interface_method_ref(&mut self) -> (r: Result<Constant, Error>)
        ensures
            final(self).bytes() == old(self).bytes(),
            yields_view(
                r,
                final(self).position(),
                two_indices_at(old(self).bytes(), old(self).position(), 11),
            ),
    {
        let ref_info = self.parse_ref_info()?;
        Ok(Constant::InterfaceMethodRef(ref_info))
    }

    fn parse_name_and_type_info(&mut self) -> (r: Result<Constant, Error>)
        ensures
            final(self).bytes() == old(self).bytes(),
            yields_view(
                r,
                final(self).position(),
                two_indices_at(old(self).bytes(), old(self).position(), 12),
            ),
    {
        let name_index = self.read_u16()?;
        let descriptor_index = self.read_u16()?;
        Ok(Constant::NameAndType(NameAndTypeInfo { name_index, descriptor_index }))
    }

    fn parse_invoke_dynamic_info(&mut self) -> (r: Result<Constant, Error>)
        ensures
            final(self).bytes() == old(self).bytes(),
            yields_view(
                r,
                final(self).position(),
                two_indices_at(old(self).bytes(), old(self).position(), 18),
            ),
    {
        let bootstrap_method_attr_index = self.read_u16()?;
        let name_and_type_index = self.read_u16()?;
        Ok(
            Constant::InvokeDynamic(
                InvokeDynamicInfo { bootstrap_method_attr_index, name_and_type_index },
            ),
        )
    }

    fn parse_method_handle(&mut self) -> (r: Result<Constant, Error>)
        ensures
            final(self).bytes() == old(self).bytes(),
            yields_view(
                r,
                final(self).position(),
                method_handle_at(old(self).bytes(), old(self).position()),
            ),
    {
        let reference_kind = self.read_u8()?;
        let reference_index = self.read_u16()?;
        Ok(Constant::MethodHandle(MethodHandleInfo { reference_kind, reference_index }))
    }

    /// Parses one entry of the constant pool and says how many slots it takes.
    fn parse_cp_info(&mut self) -> (r: Result<(Constant, usize), Error>)
        ensures
            final(self).bytes() == old(self).bytes(),
            match r {
                Ok((constant, slots)) => cp_info_at(old(self).bytes(), old(self).position())
                    == Ok::<(ConstantView, int), ErrorView>((constant@, final(self).position()))
                    && slots == slots_of(constant@),
                Err(e) => cp_info_at(old(self).bytes(), old(self).position()) == Err::<
                    (ConstantView, int),
                    ErrorView,
                >(e@),
            },
    {
        let tag = self.read_u8()?;
        let (cp_info, slots): (Constant, usize) = match tag {
            1 => (self.parse_utf8()?, 1),
            3 => (self.parse_integer()?, 1),
            5 => (self.parse_long()?, 2),
            7 => (self.parse_class_info()?, 1),
            8 => (self.parse_string()?, 1),
            9 => (self.parse_field_ref()?, 1),
            10 => (self.parse_method_ref()?, 1),
            11 => (self.parse_interface_method_ref()?, 1),
            12 => (self.parse_name_and_type_info()?, 1),
            15 => (self.parse_method_handle()?, 1),
            16 => (self.parse_method_type_info()?, 1),
            18 => (self.parse_invoke_dynamic_info()?, 1),
            _ => {
                let mut message = String::from_str("Invalid cp info tag: ");
                push_decimal(&mut message, tag as u64);
                return Err(Error::ReadError(message, self.pos - 1));
            },
        };
        Ok((cp_info, slots))
    }

    /// Parses the constant pool: a 16-bit count of slots, the reserved first
    /// slot included, and the entries that fill the other slots. The pool
    /// has as many slots as the count says; its first slot holds nothing,
    /// and neither does the slot after each `Long`.
    pub fn parse_constant_pool(&mut self) -> (r: Result<ConstantPool, Error>)
        ensures
            final(self).bytes() == old(self).bytes(),
            yields_view(
                r,
                final(self).position(),
                constant_pool_at(old(self).bytes(), old(self).position()),
            ),
            r matches Ok(pool) ==> slots_well_formed(pool@) && pool@.len() == be_u16_at(
                old(self).bytes(),
                old(self).position(),
            ),
    {
        proof {
            if constant_pool_at(self.bytes(), self.position()) is Ok {
                lemma_pool_slots(self.bytes(), self.position());
            }
        }
        let constant_pool_count = self.read_u16()?;
        if constant_pool_count == 0 {
            let mut message = String::from_str("Invalid constant pool count: ");
            push_decimal(&mut message, constant_pool_count as u64);
            return Err(Error::ReadError(message, self.pos));
        }
        let ghost whole = constant_pool_at(old(self).bytes(), old(self).position());
        let mut count: usize = constant_pool_count as usize - 1;
        let mut res: Vec<Constant> = Vec::new();
        res.push(Constant::Unusable);
        assert(views(res@) =~= seq![ConstantView::Unusable]);
        while count > 0
            invariant
                self.bytes() == old(self).bytes(),
                whole == constant_pool_at(old(self).bytes(), old(self).position()),
                whole == constants_from(self.bytes(), self.position(), count as nat, views(res@)),
            decreases count,
        {
            let at = self.pos;
            let (cp_info, slot_size) = self.parse_cp_info()?;
            if slot_size > count {
                let mut message = String::from_str("Invalid cp info tag: ");
                push_decimal(&mut message, self.buf[at] as u64);
                return Err(Error::ReadError(message, at));
            }
            proof {
                lemma_views_push(res@, cp_info);
                if slot_size == 2 {
                    lemma_views_push(res@.push(cp_info), Constant::Unusable);
                }
            }
            res.push(cp_info);
            if slot_size == 2 {
                res.push(Constant::Unusable);
            }
            count -= slot_size;
        }
        Ok(ConstantPool::new(res))
    }

    /// Parses a whole classfile from where the parser stands.
    pub fn parse(&mut self) -> (r: Result<ClassFile, Error>)
        ensures
            final(self).bytes() == old(self).bytes(),
            yields_view(
                r,
                final(self).position(),
                super::grammar::class_file_at(old(self).bytes(), old(self).position()),
            ),
    {
        let _ = self.parse_magic_identifier()?;
        let _version = self.parse_version()?;
        let constant_pool = self.parse_constant_pool()?;
        let access_flags = AccessFlags::from_bits_truncate(self.read_u16()?);
        let this_class = self.read_u16()?;
        let super_class = self.read_u16()?;
        let interfaces = self.parse_interfaces()?;
        let fields = self.parse_fields()?;
        let methods = self.parse_methods()?;
        let attributes = self.parse_attribute_list()?;
        Ok(
            ClassFile {
                constant_pool,
                access_flags,
                this_class,
                super_class,
                interfaces,
                fields,
                methods,
                attributes,
            },
        )
    }

    /// Parses one attribute.
    pub fn parse_attribute(&mut self) -> (r: Result<Attribute, Error>)
        ensures
            final(self).bytes() == old(self).bytes(),
            yields_view(
                r,
                final(self).position(),
                attribute_at(old(self).bytes(), old(self).position()),
            ),
    {
        let attribute_name_index = self.read_u16()?;
        let attribute_length = self.read_u32()?;
        let info = self.read_bytes(attribute_length as usize)?;
        Ok(Attribute { attribute_name_index, info })
    }

    fn parse_attributes(&mut self, attributes_count: u16) -> (r: Result<Attributes, Error>)
        ensures
            final(self).bytes() == old(self).bytes(),
            yields_view(
                r,
                final(self).position(),
                attributes_from(
                    old(self).bytes(),
                    old(self).position(),
                    attributes_count as nat,
                    Seq::empty(),
                ),
            ),
    {
        let ghost whole = attributes_from(
            old(self).bytes(),
            old(self).position(),
            attributes_count as nat,
            Seq::empty(),
        );
        let mut attributes: Vec<Attribute> = Vec::new();
        assert(views(attributes@) =~= Seq::<AttributeView>::empty());
        let mut remaining: u16 = attributes_count;
        while remaining > 0
            invariant
                self.bytes() == old(self).bytes(),
                whole == attributes_from(
                    old(self).bytes(),
                    old(self).position(),
                    attributes_count as nat,
                    Seq::empty(),
                ),
                whole == attributes_from(
                    self.bytes(),
                    self.position(),
                    remaining as nat,
                    views(attributes@),
                ),
            decreases remaining,
        {
            let attribute = self.parse_attribute()?;
            proof {
                lemma_views_push(attributes@, attribute);
            }
            attributes.push(attribute);
            remaining -= 1;
        }
        Ok(Attributes::new(attributes))
    }

    /// Parses a 16-bit count and that many attributes.
    fn parse_attribute_list(&mut self) -> (r: Result<Attributes, Error>)
        ensures
            final(self).bytes() == old(self).bytes(),
            yields_view(
                r,
                final(self).position(),
                attribute_list_at(old(self).bytes(), old(self).position()),
            ),
    {
        let attributes_count = self.read_u16()?;
        self.parse_attributes(attributes_count)
    }

    fn parse_field_info(&mut self) -> (r: Result<FieldInfo, Error>)
        ensures
            final(self).bytes() == old(self).bytes(),
            yields_view(
                r,
                final(self).position(),
                member_at(old(self).bytes(), old(self).position()),
            ),
    {
        let access_flags = AccessFlags::from_bits_truncate(self.read_u16()?);
        let name_index = self.read_u16()?;
        let descriptor_index = self.read_u16()?;
        let attributes = self.parse_attribute_list()?;
        Ok(FieldInfo { access_flags, name_index, descriptor_index, attributes })
    }

    fn parse_method_info(&mut self) -> (r: Result<MethodInfo, Error>)
        ensures
            final(self).bytes() == old(self).bytes(),
            yields_view(
                r,
                final(self).position(),
                member_at(old(self).bytes(), old(self).position()),
            ),
    {
        let access_flags = AccessFlags::from_bits_truncate(self.read_u16()?);
        let name_index = self.read_u16()?;
        let descriptor_index = self.read_u16()?;
        let attributes = self.parse_attribute_list()?;
        Ok(MethodInfo { access_flags, name_index, descriptor_index, attributes })
    }

    /// Parses a 16-bit count and that many fields.
    fn parse_fields(&mut self) -> (r: Result<Vec<FieldInfo>, Error>)
        ensures
            final(self).bytes() == old(self).bytes(),
            match r {
                Ok(fields) => member_list_at(old(self).bytes(), old(self).position()) == Ok::<
                    (Seq<MemberView>, int),
                    ErrorView,
                >((views(fields@), final(self).position())),
                Err(e) => member_list_at(old(self).bytes(), old(self).position()) == Err::<
                    (Seq<MemberView>, int),
                    ErrorView,
                >(e@),
            },
    {
        let fields_count = self.read_u16()?;
        let ghost whole = member_list_at(old(self).bytes(), old(self).position());
        let mut fields: Vec<FieldInfo> = Vec::new();
        assert(views(fields@) =~= Seq::<MemberView>::empty());
        let mut remaining: u16 = fields_count;
        while remaining > 0
            invariant
                self.bytes() == old(self).bytes(),
                whole == member_list_at(old(self).bytes(), old(self).position()),
                whole == members_from(
                    self.bytes(),
                    self.position(),
                    remaining as nat,
                    views(fields@),
                ),
            decreases remaining,
        {
            let field = self.parse_field_info()?;
            proof {
                lemma_views_push(fields@, field);
            }
            fields.push(field);
            remaining -= 1;
        }
        Ok(fields)
    }

    /// Parses a 16-bit count and that many methods.
    fn parse_methods(&mut self) -> (r: Result<Vec<MethodInfo>, Error>)
        ensures
            final(self).bytes() == old(self).bytes(),
            match r {
                Ok(methods) => member_list_at(old(self).bytes(), old(self).position()) == Ok::<
                    (Seq<MemberView>, int),
                    ErrorView,
                >((views(methods@), final(self).position())),
                Err(e) => member_list_at(old(self).bytes(), old(self).position()) == Err::<
                    (Seq<MemberView>, int),
                    ErrorView,
                >(e@),
            },
    {
        let methods_count = self.read_u16()?;
        let ghost whole = member_list_at(old(self).bytes(), old(self).position());
        let mut methods: Vec<MethodInfo> = Vec::new();
        assert(views(methods@) =~= Seq::<MemberView>::empty());
        let mut remaining: u16 = methods_count;
        while remaining > 0
            invariant
                self.bytes() == old(self).bytes(),
                whole == member_list_at(old(self).bytes(), old(self).position()),
                whole == members_from(
                    self.bytes(),
                    self.position(),
                    remaining as nat,
                    views(methods@),
                ),
            decreases remaining,
        {
            let method = self.parse_method_info()?;
            proof {
                lemma_views_push(methods@, method);
            }
            methods.push(method);
            remaining -= 1;
        }
        Ok(methods)
    }

    /// Parses a 16-bit count and that many 16-bit numbers.
    fn parse_interfaces(&mut self) -> (r: Result<Vec<u16>, Error>)
        ensures
            final(self).bytes() == old(self).bytes(),
            match r {
                Ok(interfaces) => u16_list_at(old(self).bytes(), old(self).position()) == Ok::<
                    (Seq<u16>, int),
                    ErrorView,
                >((interfaces@, final(self).position())),
                Err(e) => u16_list_at(old(self).bytes(), old(self).position()) == Err::<
                    (Seq<u16>, int),
                    ErrorView,
                >(e@),
            },
    {
        let interfaces_count = self.read_u16()?;
        if !self.has(2 * interfaces_count as usize) {
            return Err(Error::IO(IoError::UnexpectedEof));
        }
        let start = self.pos;
        let mut interfaces: Vec<u16> = Vec::new();
        let mut i: usize = 0;
        while i < interfaces_count as usize
            invariant
                i <= interfaces_count,
                self.bytes() == old(self).bytes(),
                self.position() == start + 2 * i,
                start + 2 * interfaces_count <= self.bytes().len() <= usize::MAX,
                interfaces@ == Seq::new(
                    i as nat,
                    |k: int| be_u16_at(self.bytes(), start + 2 * k),
                ),
            decreases interfaces_count - i,
        {
            interfaces.push(read_be_u16(self.buf, self.pos));
            self.pos += 2;
            i += 1;
        }
        Ok(interfaces)
    }

    fn parse_exception_table_entry(&mut self) -> (r: Result<ExceptionTableEntry, Error>)
        ensures
            final(self).bytes() == old(self).bytes(),
            yields(
                r,
                final(self).position(),
                exception_entry_at(old(self).bytes(), old(self).position()),
            ),
    {
        let start_pc = self.read_u16()?;
        let end_pc = self.read_u16()?;
        let handler_pc = self.read_u16()?;
        let catch_type = self.read_u16()?;
        Ok(ExceptionTableEntry { start_pc, end_pc, handler_pc, catch_type })
    }

    /// Parses a 16-bit count and that many rows of an exception table.
    fn parse_exception_table(&mut self) -> (r: Result<Vec<ExceptionTableEntry>, Error>)
        ensures
            final(self).bytes() == old(self).bytes(),
            match r {
                Ok(table) => exception_table_at(old(self).bytes(), old(self).position()) == Ok::<
                    (Seq<ExceptionTableEntry>, int),
                    ErrorView,
                >((table@, final(self).position())),
                Err(e) => exception_table_at(old(self).bytes(), old(self).position()) == Err::<
                    (Seq<ExceptionTableEntry>, int),
                    ErrorView,
                >(e@),
            },
    {
        let exception_table_length = self.read_u16()?;
        let ghost whole = exception_table_at(old(self).bytes(), old(self).position());
        let mut table: Vec<ExceptionTableEntry> = Vec::new();
        let mut remaining: u16 = exception_table_length;
        while remaining > 0
            invariant
                self.bytes() == old(self).bytes(),
                whole == exception_table_at(old(self).bytes(), old(self).position()),
                whole == exception_entries_from(
                    self.bytes(),
                    self.position(),
                    remaining as nat,
                    table@,
                ),
            decreases remaining,
        {
            let entry = self.parse_exception_table_entry()?;
            table.push(entry);
            remaining -= 1;
        }
        Ok(table)
    }

    /// Parses the payload of a `Code` attribute from where the parser stands.
    pub fn parse_code_attribute(&mut self) -> (r: Result<CodeAttribute, Error>)
        ensures
            final(self).bytes() == old(self).bytes(),
            yields_view(
                r,
                final(self).position(),
                super::grammar::code_attribute_at(old(self).bytes(), old(self).position()),
            ),
    {
        let max_stack = self.read_u16()?;
        let max_locals = self.read_u16()?;
        let code_length = self.read_u32()?;
        let code = self.read_bytes(code_length as usize)?;
        let exception_table = self.parse_exception_table()?;
        let attributes = self.parse_attribute_list()?;
        Ok(CodeAttribute { max_stack, max_locals, code, exception_table, attributes })
    }
}

} // verus!

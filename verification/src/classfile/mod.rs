//! The classfile: its in-memory model, the parser that builds it from bytes,
//! and typed access to the constant pool.

pub mod access_flags;
pub mod attribute;
pub mod constant;
pub mod error;
pub mod grammar;
pub mod laws;
pub mod listing;
pub mod parser;

use crate::views::views;
use constant::class_name_in;
use constant::utf8_in;
use vstd::prelude::*;

pub use access_flags::AccessFlags;
pub use attribute::Attribute;
pub use attribute::AttributeView;
pub use attribute::Attributes;
pub use attribute::CodeAttribute;
pub use attribute::CodeAttributeView;
pub use attribute::ExceptionTableEntry;
pub use constant::Constant;
pub use constant::ConstantPool;
pub use constant::ConstantRef;
pub use constant::ConstantView;
pub use error::Error;
pub use error::ErrorView;

verus! {

/// A field of a class.
#[derive(Debug)]
pub struct FieldInfo {
    pub access_flags: AccessFlags,
    pub name_index: u16,
    pub descriptor_index: u16,
    pub attributes: Attributes,
}

/// A method of a class.
#[derive(Debug)]
pub struct MethodInfo {
    pub access_flags: AccessFlags,
    pub name_index: u16,
    pub descriptor_index: u16,
    pub attributes: Attributes,
}

/// A field or a method, as plain values.
pub struct MemberView {
    pub access_flags: AccessFlags,
    pub name_index: u16,
    pub descriptor_index: u16,
    pub attributes: Seq<AttributeView>,
}

impl View for FieldInfo {
    type V = MemberView;

    open spec fn view(&self) -> MemberView {
        MemberView {
            access_flags: self.access_flags,
            name_index: self.name_index,
            descriptor_index: self.descriptor_index,
            attributes: self.attributes@,
        }
    }
}

impl View for MethodInfo {
    type V = MemberView;

    open spec fn view(&self) -> MemberView {
        MemberView {
            access_flags: self.access_flags,
            name_index: self.name_index,
            descriptor_index: self.descriptor_index,
            attributes: self.attributes@,
        }
    }
}

/// A parsed classfile.
#[derive(Debug)]
pub struct ClassFile {
    pub constant_pool: ConstantPool,
    pub access_flags: AccessFlags,
    pub this_class: u16,
    pub super_class: u16,
    pub interfaces: Vec<u16>,
    pub fields: Vec<FieldInfo>,
    pub methods: Vec<MethodInfo>,
    pub attributes: Attributes,
}

/// A [`ClassFile`] as plain values.
pub struct ClassFileView {
    pub constant_pool: Seq<ConstantView>,
    pub access_flags: AccessFlags,
    pub this_class: u16,
    pub super_class: u16,
    pub interfaces: Seq<u16>,
    pub fields: Seq<MemberView>,
    pub methods: Seq<MemberView>,
    pub attributes: Seq<AttributeView>,
}

impl View for ClassFile {
    type V = ClassFileView;

    open spec fn view(&self) -> ClassFileView {
        ClassFileView {
            constant_pool: self.constant_pool@,
            access_flags: self.access_flags,
            this_class: self.this_class,
            super_class: self.super_class,
            interfaces: self.interfaces@,
            fields: views(self.fields@),
            methods: views(self.methods@),
            attributes: self.attributes@,
        }
    }
}

impl ClassFile {
    /// Parses a classfile from its bytes. Bytes after the last attribute of
    /// the class are not looked at.
    pub fn parse(bytes: &[u8]) -> (r: Result<ClassFile, Error>)
        ensures
            match r {
                Ok(class_file) => grammar::class_file_of(bytes@) == Ok::<
                    ClassFileView,
                    ErrorView,
                >(class_file@),
                Err(e) => grammar::class_file_of(bytes@) == Err::<ClassFileView, ErrorView>(e@),
            },
            r matches Ok(class_file) ==> laws::slots_well_formed(class_file@.constant_pool),
    {
        let mut parser = parser::Parser::new(bytes);
        let r = parser.parse();
        proof {
            if r is Ok {
                laws::lemma_parsed_pool_slots(bytes@);
            }
        }
        r
    }

    /// The name of the class: the text that the `Class` constant at
    /// `this_class` refers to.
    pub fn class_name(&self) -> (r: Result<&str, Error>)
        ensures
            match r {
                Ok(name) => class_name_in(self@.constant_pool, self@.this_class) == Ok::<
                    Seq<char>,
                    ErrorView,
                >(name@),
                Err(e) => class_name_in(self@.constant_pool, self@.this_class) == Err::<
                    Seq<char>,
                    ErrorView,
                >(e@),
            },
    {
        self.constant_pool.get(self.this_class)?.class_name()
    }

    /// The name of the superclass, or nothing for a class that has none.
    pub fn super_class_name(&self) -> (r: Result<Option<&str>, Error>)
        ensures
            match r {
                Ok(None) => self@.super_class_name() == Ok::<Option<Seq<char>>, ErrorView>(None),
                Ok(Some(name)) => self@.super_class_name() == Ok::<
                    Option<Seq<char>>,
                    ErrorView,
                >(Some(name@)),
                Err(e) => self@.super_class_name() == Err::<Option<Seq<char>>, ErrorView>(e@),
            },
    {
        if self.super_class == 0 {
            Ok(None)
        } else {
            let name = self.constant_pool.get(self.super_class)?.class_name()?;
            Ok(Some(name))
        }
    }

    /// The methods, each together with this classfile, in order.
    pub fn methods(&self) -> (methods: Vec<MethodRef<'_>>)
        ensures
            methods@.len() == self@.methods.len(),
            forall|i: int|
                0 <= i < methods@.len() ==> (#[trigger] methods@[i]).class_file() == self@
                    && methods@[i].method() == self@.methods[i],
    {
        let mut methods: Vec<MethodRef<'_>> = Vec::new();
        let mut i: usize = 0;
        while i < self.methods.len()
            invariant
                i <= self.methods@.len(),
                methods@.len() == i,
                forall|k: int|
                    0 <= k < i ==> (#[trigger] methods@[k]).class_file() == self@
                        && methods@[k].method() == self@.methods[k],
            decreases self.methods@.len() - i,
        {
            methods.push(MethodRef { class_file: self, method_info: &self.methods[i] });
            i += 1;
        }
        methods
    }
}

impl ClassFileView {
    /// The name of the class.
    pub open spec fn class_name(self) -> Result<Seq<char>, ErrorView> {
        class_name_in(self.constant_pool, self.this_class)
    }

    /// The name of the superclass: nothing where `super_class` is zero, else
    /// the text that the `Class` constant at that index refers to.
    pub open spec fn super_class_name(self) -> Result<Option<Seq<char>>, ErrorView> {
        if self.super_class == 0 {
            Ok(None)
        } else {
            match class_name_in(self.constant_pool, self.super_class) {
                Ok(name) => Ok(Some(name)),
                Err(e) => Err(e),
            }
        }
    }
}

/// A method together with the classfile that its indices refer into.
pub struct MethodRef<'a> {
    class_file: &'a ClassFile,
    method_info: &'a MethodInfo,
}

impl<'a> MethodRef<'a> {
    /// The classfile.
    pub closed spec fn class_file(&self) -> ClassFileView {
        self.class_file@
    }

    /// The method.
    pub closed spec fn method(&self) -> MemberView {
        self.method_info@
    }

    /// The name of the method.
    pub fn name(&self) -> (r: Result<&'a str, Error>)
        ensures
            match r {
                Ok(name) => utf8_in(self.class_file().constant_pool, self.method().name_index)
                    == Ok::<Seq<char>, ErrorView>(name@),
                Err(e) => utf8_in(self.class_file().constant_pool, self.method().name_index)
                    == Err::<Seq<char>, ErrorView>(e@),
            },
    {
        let class_file: &'a ClassFile = self.class_file;
        class_file.constant_pool.get(self.method_info.name_index)?.utf8()
    }

    /// The access flags of the method.
    pub fn access_flags(&self) -> (flags: &'a AccessFlags)
        ensures
            *flags == self.method().access_flags,
    {
        &self.method_info.access_flags
    }

    /// The attributes of the method, together with the constant pool.
    pub fn attributes(&self) -> (attributes: AttributesRef<'a>)
        ensures
            attributes.pool() == self.class_file().constant_pool,
            attributes.attributes() == self.method().attributes,
    {
        AttributesRef {
            constant_pool: &self.class_file.constant_pool,
            attributes: &self.method_info.attributes,
        }
    }
}

/// The index of the first attribute from `from` on whose name is `name`. An
/// attribute whose name cannot be had stops the search with that error.
pub open spec fn find_named(
    pool: Seq<ConstantView>,
    attributes: Seq<AttributeView>,
    name: Seq<char>,
    from: int,
) -> Result<Option<int>, ErrorView>
    decreases attributes.len() - from,
{
    if from < 0 || from >= attributes.len() {
        Ok(None)
    } else {
        match utf8_in(pool, attributes[from].attribute_name_index) {
            Err(e) => Err(e),
            Ok(text) => if text == name {
                Ok(Some(from))
            } else {
                find_named(pool, attributes, name, from + 1)
            },
        }
    }
}

/// The decoded code of the first attribute named `Code`, or nothing where
/// no attribute has that name.
pub open spec fn code_in(pool: Seq<ConstantView>, attributes: Seq<AttributeView>) -> Result<
    Option<CodeAttributeView>,
    ErrorView,
> {
    match find_named(pool, attributes, "Code"@, 0) {
        Err(e) => Err(e),
        Ok(None) => Ok(None),
        Ok(Some(i)) => match grammar::code_attribute_of(attributes[i].info) {
            Err(e) => Err(e),
            Ok(code) => Ok(Some(code)),
        },
    }
}

impl Attributes {
    /// The first attribute whose name, looked up in `constant_pool`, is
    /// `name`. A name that cannot be had ends the search without a finding.
    pub fn find_by_name<'a>(&'a self, name: &str, constant_pool: &'a ConstantPool) -> (found:
        Option<&'a Attribute>)
        ensures
            match found {
                Some(attribute) => find_named(constant_pool@, self@, name@, 0) matches Ok(Some(i))
                    && attribute@ == self@[i],
                None => !(find_named(constant_pool@, self@, name@, 0) matches Ok(Some(_))),
            },
    {
        let all = AttributesRef { constant_pool, attributes: self };
        match all.by_name(name) {
            Ok(Some(found)) => Some(found.attribute),
            _ => None,
        }
    }

    /// The decoded code of the first attribute named `Code`, or nothing
    /// where there is none or it does not decode.
    pub fn code_attribute(&self, constant_pool: &ConstantPool) -> (code: Option<CodeAttribute>)
        ensures
            match code {
                Some(code) => code_in(constant_pool@, self@) == Ok::<
                    Option<CodeAttributeView>,
                    ErrorView,
                >(Some(code@)),
                None => !(code_in(constant_pool@, self@) matches Ok(Some(_))),
            },
    {
        let all = AttributesRef { constant_pool, attributes: self };
        match all.code() {
            Ok(code) => code,
            Err(_) => None,
        }
    }
}

/// A list of attributes together with the constant pool that names them.
pub struct AttributesRef<'a> {
    constant_pool: &'a ConstantPool,
    attributes: &'a Attributes,
}

impl<'a> AttributesRef<'a> {
    /// The constant pool.
    pub closed spec fn pool(&self) -> Seq<ConstantView> {
        self.constant_pool@
    }

    /// The attributes.
    pub closed spec fn attributes(&self) -> Seq<AttributeView> {
        self.attributes@
    }

    /// The first attribute whose name is `name`.
    pub fn by_name(&self, name: &str) -> (r: Result<Option<AttributeRef<'a>>, Error>)
        ensures
            match r {
                Ok(None) => find_named(self.pool(), self.attributes(), name@, 0) == Ok::<
                    Option<int>,
                    ErrorView,
                >(None),
                Ok(Some(found)) => find_named(self.pool(), self.attributes(), name@, 0)
                    matches Ok(Some(i)) && found.attribute() == self.attributes()[i]
                    && found.pool() == self.pool(),
                Err(e) => find_named(self.pool(), self.attributes(), name@, 0) == Err::<
                    Option<int>,
                    ErrorView,
                >(e@),
            },
    {
        let attributes: &'a Attributes = self.attributes;
        let pool: &'a ConstantPool = self.constant_pool;
        let mut i: usize = 0;
        while i < attributes.0.len()
            invariant
                i <= attributes.0@.len(),
                attributes@ == self.attributes(),
                pool@ == self.pool(),
                find_named(self.pool(), self.attributes(), name@, 0) == find_named(
                    self.pool(),
                    self.attributes(),
                    name@,
                    i as int,
                ),
            decreases attributes.0@.len() - i,
        {
            let attribute = AttributeRef { constant_pool: pool, attribute: &attributes.0[i] };
            if crate::text::same_text(attribute.name()?, name) {
                return Ok(Some(attribute));
            }
            i += 1;
        }
        Ok(None)
    }

    /// The attributes, each together with the constant pool, in order.
    pub fn iter(&self) -> (all: Vec<AttributeRef<'a>>)
        ensures
            all@.len() == self.attributes().len(),
            forall|i: int|
                0 <= i < all@.len() ==> (#[trigger] all@[i]).attribute() == self.attributes()[i]
                    && all@[i].pool() == self.pool(),
    {
        let attributes: &'a Attributes = self.attributes;
        let pool: &'a ConstantPool = self.constant_pool;
        let mut all: Vec<AttributeRef<'a>> = Vec::new();
        let mut i: usize = 0;
        while i < attributes.0.len()
            invariant
                i <= attributes.0@.len(),
                attributes@ == self.attributes(),
                pool@ == self.pool(),
                all@.len() == i,
                forall|k: int|
                    0 <= k < i ==> (#[trigger] all@[k]).attribute() == self.attributes()[k]
                        && all@[k].pool() == self.pool(),
            decreases attributes.0@.len() - i,
        {
            all.push(AttributeRef { constant_pool: pool, attribute: &attributes.0[i] });
            i += 1;
        }
        all
    }

    /// The decoded code of the first attribute named `Code`.
    pub fn code(&self) -> (r: Result<Option<CodeAttribute>, Error>)
        ensures
            match r {
                Ok(None) => code_in(self.pool(), self.attributes()) == Ok::<
                    Option<CodeAttributeView>,
                    ErrorView,
                >(None),
                Ok(Some(code)) => code_in(self.pool(), self.attributes()) == Ok::<
                    Option<CodeAttributeView>,
                    ErrorView,
                >(Some(code@)),
                Err(e) => code_in(self.pool(), self.attributes()) == Err::<
                    Option<CodeAttributeView>,
                    ErrorView,
                >(e@),
            },
    {
        match self.by_name("Code")? {
            Some(attribute) => {
                let mut parser = parser::Parser::new(attribute.attribute.info.as_slice());
                Ok(Some(parser.parse_code_attribute()?))
            },
            None => Ok(None),
        }
    }
}

/// An attribute together with the constant pool that names it.
pub struct AttributeRef<'a> {
    constant_pool: &'a ConstantPool,
    attribute: &'a Attribute,
}

impl<'a> AttributeRef<'a> {
    /// The constant pool.
    pub closed spec fn pool(&self) -> Seq<ConstantView> {
        self.constant_pool@
    }

    /// The attribute.
    pub closed spec fn attribute(&self) -> AttributeView {
        self.attribute@
    }

    /// The name of the attribute.
    pub fn name(&self) -> (r: Result<&'a str, Error>)
        ensures
            match r {
                Ok(name) => utf8_in(self.pool(), self.attribute().attribute_name_index) == Ok::<
                    Seq<char>,
                    ErrorView,
                >(name@),
                Err(e) => utf8_in(self.pool(), self.attribute().attribute_name_index) == Err::<
                    Seq<char>,
                    ErrorView,
                >(e@),
            },
    {
        let pool: &'a ConstantPool = self.constant_pool;
        pool.get(self.attribute.attribute_name_index)?.utf8()
    }

    /// The payload of the attribute.
    pub fn info(&self) -> (info: &'a [u8])
        ensures
            info@ == self.attribute().info,
    {
        let attribute: &'a Attribute = self.attribute;
        attribute.info.as_slice()
    }
}

} // verus!

//! The constant pool: its entries, and typed access to them by index.

use super::error::Error;
use super::error::ErrorView;
use crate::text::decimal;
use crate::text::push_decimal;
use crate::text::push_signed_decimal;
use crate::text::quote;
use crate::text::quoted_text;
use crate::text::signed_decimal;
use crate::views::views;
use vstd::prelude::*;
use vstd::string::StringExecFns;

verus! {

/// A reference to a member: its class and its name and type.
#[derive(Clone, Copy, Debug, PartialEq, Eq, Structural)]
pub struct RefInfo {
    pub class_index: u16,
    pub name_and_type_index: u16,
}

/// A class, by the index of its name.
#[derive(Clone, Copy, Debug, PartialEq, Eq, Structural)]
pub struct ClassInfo {
    pub name_index: u16,
}

/// A name and a descriptor, each by index.
#[derive(Clone, Copy, Debug, PartialEq, Eq, Structural)]
pub struct NameAndTypeInfo {
    pub name_index: u16,
    pub descriptor_index: u16,
}

/// A dynamic call site.
#[derive(Clone, Copy, Debug, PartialEq, Eq, Structural)]
pub struct InvokeDynamicInfo {
    pub bootstrap_method_attr_index: u16,
    pub name_and_type_index: u16,
}

/// A method handle.
#[derive(Clone, Copy, Debug, PartialEq, Eq, Structural)]
pub struct MethodHandleInfo {
    pub reference_kind: u8,
    pub reference_index: u16,
}

/// A method type, by the index of its descriptor.
#[derive(Clone, Copy, Debug, PartialEq, Eq, Structural)]
pub struct MethodTypeInfo {
    pub descriptor_index: u16,
}

/// One entry of the constant pool. Every index in an entry refers to
/// another entry of the same pool.
#[derive(Debug, PartialEq, Eq)]
pub enum Constant {
    MethodRef(RefInfo),
    FieldRef(RefInfo),
    InterfaceMethodRef(RefInfo),
    Class(ClassInfo),
    NameAndType(NameAndTypeInfo),
    Utf8(String),
    String { string_index: u16 },
    InvokeDynamic(InvokeDynamicInfo),
    Integer(i32),
    MethodHandle(MethodHandleInfo),
    MethodType(MethodTypeInfo),
    Long(i64),
    /// A slot that holds nothing: the reserved first slot, and the second
    /// slot of each `Long`.
    Unusable,
}

/// A [`Constant`] with its text as a sequence of characters.
pub enum ConstantView {
    MethodRef(RefInfo),
    FieldRef(RefInfo),
    InterfaceMethodRef(RefInfo),
    Class(ClassInfo),
    NameAndType(NameAndTypeInfo),
    Utf8(Seq<char>),
    String { string_index: u16 },
    InvokeDynamic(InvokeDynamicInfo),
    Integer(i32),
    MethodHandle(MethodHandleInfo),
    MethodType(MethodTypeInfo),
    Long(i64),
    Unusable,
}

impl View for Constant {
    type V = ConstantView;

    open spec fn view(&self) -> ConstantView {
        match *self {
            Constant::MethodRef(r) => ConstantView::MethodRef(r),
            Constant::FieldRef(r) => ConstantView::FieldRef(r),
            Constant::InterfaceMethodRef(r) => ConstantView::InterfaceMethodRef(r),
            Constant::Class(i) => ConstantView::Class(i),
            Constant::NameAndType(n) => ConstantView::NameAndType(n),
            Constant::Utf8(s) => ConstantView::Utf8(s@),
            Constant::String { string_index } => ConstantView::String { string_index },
            Constant::InvokeDynamic(i) => ConstantView::InvokeDynamic(i),
            Constant::Integer(i) => ConstantView::Integer(i),
            Constant::MethodHandle(h) => ConstantView::MethodHandle(h),
            Constant::MethodType(t) => ConstantView::MethodType(t),
            Constant::Long(l) => ConstantView::Long(l),
            Constant::Unusable => ConstantView::Unusable,
        }
    }
}

/// How a reference to a member is written out.
pub open spec fn ref_info_text(r: RefInfo) -> Seq<char> {
    "RefInfo { class_index: "@ + decimal(r.class_index as nat) + ", name_and_type_index: "@
        + decimal(r.name_and_type_index as nat) + " }"@
}

impl ConstantView {
    /// How the constant is written out in messages: the variant's name, and
    /// in brackets what it holds, field by field.
    pub open spec fn text(self) -> Seq<char> {
        match self {
            ConstantView::MethodRef(r) => "MethodRef("@ + ref_info_text(r) + ")"@,
            ConstantView::FieldRef(r) => "FieldRef("@ + ref_info_text(r) + ")"@,
            ConstantView::InterfaceMethodRef(r) => "InterfaceMethodRef("@ + ref_info_text(r)
                + ")"@,
            ConstantView::Class(i) => "Class(ClassInfo { name_index: "@ + decimal(
                i.name_index as nat,
            ) + " })"@,
            ConstantView::NameAndType(n) => "NameAndType(NameAndTypeInfo { name_index: "@
                + decimal(n.name_index as nat) + ", descriptor_index: "@ + decimal(
                n.descriptor_index as nat,
            ) + " })"@,
            ConstantView::Utf8(s) => "Utf8("@ + quoted_text(s) + ")"@,
            ConstantView::String { string_index } => "String { string_index: "@ + decimal(
                string_index as nat,
            ) + " }"@,
            ConstantView::InvokeDynamic(i) =>
                "InvokeDynamic(InvokeDynamicInfo { bootstrap_method_attr_index: "@ + decimal(
                i.bootstrap_method_attr_index as nat,
            ) + ", name_and_type_index: "@ + decimal(i.name_and_type_index as nat) + " })"@,
            ConstantView::Integer(i) => "Integer("@ + signed_decimal(i as int) + ")"@,
            ConstantView::MethodHandle(h) => "MethodHandle(MethodHandleInfo { reference_kind: "@
                + decimal(h.reference_kind as nat) + ", reference_index: "@ + decimal(
                h.reference_index as nat,
            ) + " })"@,
            ConstantView::MethodType(t) => "MethodType(MethodTypeInfo { descriptor_index: "@
                + decimal(t.descriptor_index as nat) + " })"@,
            ConstantView::Long(l) => "Long("@ + signed_decimal(l as int) + ")"@,
            ConstantView::Unusable => "Unusable"@,
        }
    }
}

/// The message that says which variant was expected and what was found.
pub open spec fn unexpected_message(expected: Seq<char>, found: ConstantView) -> Seq<char> {
    "Expected "@ + expected + ", found "@ + found.text()
}

/// Appends `label` and the decimal numeral of `n`.
fn push_labelled(out: &mut String, label: &str, n: u64)
    ensures
        final(out)@ == old(out)@ + label@ + decimal(n as nat),
{
    out.append(label);
    push_decimal(out, n);
}

/// Appends a reference to a member, written out.
fn push_ref_info(out: &mut String, r: &RefInfo)
    ensures
        final(out)@ == old(out)@ + ref_info_text(*r),
{
    push_labelled(out, "RefInfo { class_index: ", r.class_index as u64);
    push_labelled(out, ", name_and_type_index: ", r.name_and_type_index as u64);
    out.append(" }");
    assert(out@ =~= old(out)@ + ref_info_text(*r));
}

impl Constant {
    /// Writes the constant out as it appears in messages.
    pub fn describe(&self) -> (text: String)
        ensures
            text@ == self@.text(),
    {
        let mut out = String::new();
        match self {
            Constant::MethodRef(r) => {
                out.append("MethodRef(");
                push_ref_info(&mut out, r);
                out.append(")");
            },
            Constant::FieldRef(r) => {
                out.append("FieldRef(");
                push_ref_info(&mut out, r);
                out.append(")");
            },
            Constant::InterfaceMethodRef(r) => {
                out.append("InterfaceMethodRef(");
                push_ref_info(&mut out, r);
                out.append(")");
            },
            Constant::Class(i) => {
                push_labelled(&mut out, "Class(ClassInfo { name_index: ", i.name_index as u64);
                out.append(" })");
            },
            Constant::NameAndType(n) => {
                push_labelled(
                    &mut out,
                    "NameAndType(NameAndTypeInfo { name_index: ",
                    n.name_index as u64,
                );
                push_labelled(&mut out, ", descriptor_index: ", n.descriptor_index as u64);
                out.append(" })");
            },
            Constant::Utf8(s) => {
                out.append("Utf8(");
                let quoted = quote(s.as_str());
                out.append(quoted.as_str());
                out.append(")");
            },
            Constant::String { string_index } => {
                push_labelled(&mut out, "String { string_index: ", *string_index as u64);
                out.append(" }");
            },
            Constant::InvokeDynamic(i) => {
                push_labelled(
                    &mut out,
                    "InvokeDynamic(InvokeDynamicInfo { bootstrap_method_attr_index: ",
                    i.bootstrap_method_attr_index as u64,
                );
                push_labelled(&mut out, ", name_and_type_index: ", i.name_and_type_index as u64);
                out.append(" })");
            },
            Constant::Integer(i) => {
                out.append("Integer(");
                push_signed_decimal(&mut out, *i as i64);
                out.append(")");
            },
            Constant::MethodHandle(h) => {
                push_labelled(
                    &mut out,
                    "MethodHandle(MethodHandleInfo { reference_kind: ",
                    h.reference_kind as u64,
                );
                push_labelled(&mut out, ", reference_index: ", h.reference_index as u64);
                out.append(" })");
            },
            Constant::MethodType(t) => {
                push_labelled(
                    &mut out,
                    "MethodType(MethodTypeInfo { descriptor_index: ",
                    t.descriptor_index as u64,
                );
                out.append(" })");
            },
            Constant::Long(l) => {
                out.append("Long(");
                push_signed_decimal(&mut out, *l);
                out.append(")");
            },
            Constant::Unusable => {
                out.append("Unusable");
            },
        }
        assert(out@ =~= self@.text());
        out
    }

    /// The text of a `Utf8` constant.
    pub fn to_utf8(&self) -> (r: Result<&str, Error>)
        ensures
            match r {
                Ok(text) => self@ == ConstantView::Utf8(text@),
                Err(e) => !(self@ is Utf8) && e@ == ErrorView::UnexpectedConstant(
                    unexpected_message("Utf8"@, self@),
                ),
            },
    {
        match self {
            Constant::Utf8(s) => Ok(s.as_str()),
            _ => Err(Error::unexpected_constant("Utf8", self)),
        }
    }

    /// What a `Class` constant holds.
    pub fn to_class_info(&self) -> (r: Result<&ClassInfo, Error>)
        ensures
            match r {
                Ok(info) => self@ == ConstantView::Class(*info),
                Err(e) => !(self@ is Class) && e@ == ErrorView::UnexpectedConstant(
                    unexpected_message("ClassInfo"@, self@),
                ),
            },
    {
        match self {
            Constant::Class(i) => Ok(i),
            _ => Err(Error::unexpected_constant("ClassInfo", self)),
        }
    }

    /// What a `NameAndType` constant holds.
    pub fn to_name_and_type(&self) -> (r: Result<&NameAndTypeInfo, Error>)
        ensures
            match r {
                Ok(info) => self@ == ConstantView::NameAndType(*info),
                Err(e) => !(self@ is NameAndType) && e@ == ErrorView::UnexpectedConstant(
                    unexpected_message("NameAndType"@, self@),
                ),
            },
    {
        match self {
            Constant::NameAndType(n) => Ok(n),
            _ => Err(Error::unexpected_constant("NameAndType", self)),
        }
    }

    /// What a `FieldRef` constant holds.
    pub fn to_field_ref(&self) -> (r: Result<&RefInfo, Error>)
        ensures
            match r {
                Ok(info) => self@ == ConstantView::FieldRef(*info),
                Err(e) => !(self@ is FieldRef) && e@ == ErrorView::UnexpectedConstant(
                    unexpected_message("FieldRef"@, self@),
                ),
            },
    {
        match self {
            Constant::FieldRef(r) => Ok(r),
            _ => Err(Error::unexpected_constant("FieldRef", self)),
        }
    }

    /// What a `MethodRef` constant holds.
    pub fn to_method_ref(&self) -> (r: Result<&RefInfo, Error>)
        ensures
            match r {
                Ok(info) => self@ == ConstantView::MethodRef(*info),
                Err(e) => !(self@ is MethodRef) && e@ == ErrorView::UnexpectedConstant(
                    unexpected_message("MethodRef"@, self@),
                ),
            },
    {
        match self {
            Constant::MethodRef(r) => Ok(r),
            _ => Err(Error::unexpected_constant("MethodRef", self)),
        }
    }

    /// Whether two constants are the same.
    pub fn same(&self, other: &Constant) -> (same: bool)
        ensures
            same == (self@ == other@),
    {
        match (self, other) {
            (Constant::MethodRef(a), Constant::MethodRef(b)) => *a == *b,
            (Constant::FieldRef(a), Constant::FieldRef(b)) => *a == *b,
            (Constant::InterfaceMethodRef(a), Constant::InterfaceMethodRef(b)) => *a == *b,
            (Constant::Class(a), Constant::Class(b)) => *a == *b,
            (Constant::NameAndType(a), Constant::NameAndType(b)) => *a == *b,
            (Constant::Utf8(a), Constant::Utf8(b)) => *a == *b,
            (Constant::String { string_index: a }, Constant::String { string_index: b }) => *a
                == *b,
            (Constant::InvokeDynamic(a), Constant::InvokeDynamic(b)) => *a == *b,
            (Constant::Integer(a), Constant::Integer(b)) => *a == *b,
            (Constant::MethodHandle(a), Constant::MethodHandle(b)) => *a == *b,
            (Constant::MethodType(a), Constant::MethodType(b)) => *a == *b,
            (Constant::Long(a), Constant::Long(b)) => *a == *b,
            (Constant::Unusable, Constant::Unusable) => true,
            _ => false,
        }
    }
}

/// The text of the `Utf8` constant at `index` of `pool`.
pub open spec fn utf8_in(pool: Seq<ConstantView>, index: u16) -> Result<Seq<char>, ErrorView> {
    if index >= pool.len() {
        Err(ErrorView::ConstantNotFound(index))
    } else {
        match pool[index as int] {
            ConstantView::Utf8(text) => Ok(text),
            other => Err(ErrorView::UnexpectedConstant(unexpected_message("Utf8"@, other))),
        }
    }
}

/// The name of the class that the `Class` constant at `index` of `pool`
/// stands for: the text of the `Utf8` constant that it refers to.
pub open spec fn class_name_in(pool: Seq<ConstantView>, index: u16) -> Result<
    Seq<char>,
    ErrorView,
> {
    if index >= pool.len() {
        Err(ErrorView::ConstantNotFound(index))
    } else {
        match pool[index as int] {
            ConstantView::Class(info) => utf8_in(pool, info.name_index),
            other => Err(ErrorView::UnexpectedConstant(unexpected_message("ClassInfo"@, other))),
        }
    }
}

/// The constants of a classfile, by index. The first slot is reserved and
/// holds nothing; the entries proper start at index 1.
#[derive(Debug)]
pub struct ConstantPool {
    constants: Vec<Constant>,
}

impl View for ConstantPool {
    type V = Seq<ConstantView>;

    closed spec fn view(&self) -> Seq<ConstantView> {
        views(self.constants@)
    }
}

impl Default for ConstantPool {
    fn default() -> (pool: ConstantPool)
        ensures
            pool@ == Seq::<ConstantView>::empty(),
    {
        let pool = ConstantPool { constants: Vec::new() };
        assert(pool@ =~= Seq::<ConstantView>::empty());
        pool
    }
}

impl ConstantPool {
    /// A pool of the given constants, in their order.
    pub fn new(constants: Vec<Constant>) -> (pool: ConstantPool)
        ensures
            pool@ == views(constants@),
    {
        ConstantPool { constants }
    }

    /// The number of slots, the reserved one included.
    pub fn len(&self) -> (n: usize)
        ensures
            n == self@.len(),
    {
        self.constants.len()
    }

    /// Whether some slot holds `constant`.
    pub fn contains(&self, constant: &Constant) -> (found: bool)
        ensures
            found == self@.contains(constant@),
    {
        let mut i: usize = 0;
        while i < self.constants.len()
            invariant
                i <= self.constants@.len(),
                forall|k: int| 0 <= k < i ==> self@[k] != constant@,
            decreases self.constants@.len() - i,
        {
            if self.constants[i].same(constant) {
                assert(self@[i as int] == constant@);
                return true;
            }
            i += 1;
        }
        false
    }

    /// The constant in the slot `index`, which must exist.
    pub(crate) fn constant(&self, index: usize) -> (constant: &Constant)
        requires
            index < self@.len(),
        ensures
            constant@ == self@[index as int],
    {
        &self.constants[index]
    }

    /// The constants, slot by slot.
    pub fn constants(&self) -> (all: &[Constant])
        ensures
            views(all@) == self@,
    {
        self.constants.as_slice()
    }

    /// The constant at `index`, together with the pool it refers into.
    pub fn get(&self, index: u16) -> (r: Result<ConstantRef<'_>, Error>)
        ensures
            match r {
                Ok(entry) => index < self@.len() && entry.pool() == self@ && entry.constant()
                    == self@[index as int],
                Err(e) => index >= self@.len() && e@ == ErrorView::ConstantNotFound(index),
            },
    {
        if (index as usize) < self.constants.len() {
            Ok(ConstantRef { pool: self, constant: &self.constants[index as usize] })
        } else {
            Err(Error::ConstantNotFound(index))
        }
    }
}

/// A constant together with the pool that its indices refer into.
pub struct ConstantRef<'a> {
    pool: &'a ConstantPool,
    constant: &'a Constant,
}

impl<'a> ConstantRef<'a> {
    /// The pool.
    pub closed spec fn pool(&self) -> Seq<ConstantView> {
        self.pool@
    }

    /// The constant.
    pub closed spec fn constant(&self) -> ConstantView {
        self.constant@
    }

    /// The constant itself.
    pub fn get(&self) -> (constant: &'a Constant)
        ensures
            constant@ == self.constant(),
    {
        self.constant
    }

    /// The text of the constant, which must be a `Utf8`.
    pub fn utf8(&self) -> (r: Result<&'a str, Error>)
        ensures
            match r {
                Ok(text) => self.constant() == ConstantView::Utf8(text@),
                Err(e) => !(self.constant() is Utf8) && e@ == ErrorView::UnexpectedConstant(
                    unexpected_message("Utf8"@, self.constant()),
                ),
            },
    {
        self.constant.to_utf8()
    }

    /// The name of the class that the constant, which must be a `Class`,
    /// stands for: the text of the `Utf8` constant that it refers to.
    pub fn class_name(&self) -> (r: Result<&'a str, Error>)
        ensures
            match r {
                Ok(name) => self.constant() matches ConstantView::Class(info) && utf8_in(
                    self.pool(),
                    info.name_index,
                ) == Ok::<Seq<char>, ErrorView>(name@),
                Err(e) => match self.constant() {
                    ConstantView::Class(info) => utf8_in(self.pool(), info.name_index) == Err::<
                        Seq<char>,
                        ErrorView,
                    >(e@),
                    other => e@ == ErrorView::UnexpectedConstant(
                        unexpected_message("ClassInfo"@, other),
                    ),
                },
            },
    {
        let info = self.constant.to_class_info()?;
        let pool: &'a ConstantPool = self.pool;
        let name = pool.get(info.name_index)?;
        name.utf8()
    }
}

impl Error {
    /// The error for a constant that is not of the expected variant.
    pub fn unexpected_constant(expected: &str, constant: &Constant) -> (e: Error)
        ensures
            e@ == ErrorView::UnexpectedConstant(unexpected_message(expected@, constant@)),
    {
        let mut message = String::from_str("Expected ");
        message.append(expected);
        message.append(", found ");
        let found = constant.describe();
        message.append(found.as_str());
        assert(message@ =~= unexpected_message(expected@, constant@));
        Error::UnexpectedConstant(message)
    }
}

} // verus!

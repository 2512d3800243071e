//! Attributes: named, length-prefixed payloads, and the decoded form of the
//! one that holds a method's code.

use crate::views::views;
use vstd::prelude::*;

verus! {

/// A named payload. What `info` means is decided by the `Utf8` constant at
/// `attribute_name_index`.
#[derive(Debug, PartialEq, Eq)]
pub struct Attribute {
    pub attribute_name_index: u16,
    pub info: Vec<u8>,
}

/// An [`Attribute`] with its payload as a sequence.
pub struct AttributeView {
    pub attribute_name_index: u16,
    pub info: Seq<u8>,
}

impl View for Attribute {
    type V = AttributeView;

    open spec fn view(&self) -> AttributeView {
        AttributeView { attribute_name_index: self.attribute_name_index, info: self.info@ }
    }
}

/// The attributes of a class, a field, a method or a code block, in the
/// order in which the classfile lists them.
#[derive(Debug, PartialEq, Eq)]
pub struct Attributes(pub Vec<Attribute>);

impl View for Attributes {
    type V = Seq<AttributeView>;

    open spec fn view(&self) -> Seq<AttributeView> {
        views(self.0@)
    }
}

impl Attributes {
    /// The given attributes, in their order.
    pub fn new(attributes: Vec<Attribute>) -> (all: Attributes)
        ensures
            all@ == views(attributes@),
    {
        Attributes(attributes)
    }

    /// The attributes, in order.
    pub fn iter(&self) -> (items: &[Attribute])
        ensures
            views(items@) == self@,
    {
        self.0.as_slice()
    }
}

/// One row of a code block's exception table.
#[derive(Clone, Copy, Debug, PartialEq, Eq, Structural)]
pub struct ExceptionTableEntry {
    pub start_pc: u16,
    pub end_pc: u16,
    pub handler_pc: u16,
    pub catch_type: u16,
}

/// The decoded payload of an attribute named `Code`.
#[derive(Debug, PartialEq, Eq)]
pub struct CodeAttribute {
    pub max_stack: u16,
    pub max_locals: u16,
    pub code: Vec<u8>,
    pub exception_table: Vec<ExceptionTableEntry>,
    pub attributes: Attributes,
}

/// A [`CodeAttribute`] as plain values.
pub struct CodeAttributeView {
    pub max_stack: u16,
    pub max_locals: u16,
    pub code: Seq<u8>,
    pub exception_table: Seq<ExceptionTableEntry>,
    pub attributes: Seq<AttributeView>,
}

impl View for CodeAttribute {
    type V = CodeAttributeView;

    open spec fn view(&self) -> CodeAttributeView {
        CodeAttributeView {
            max_stack: self.max_stack,
            max_locals: self.max_locals,
            code: self.code@,
            exception_table: self.exception_table@,
            attributes: self.attributes@,
        }
    }
}

} // verus!

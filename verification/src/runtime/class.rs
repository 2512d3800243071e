//! Loaded classes and their methods.

use crate::classfile::CodeAttribute;
use crate::classfile::CodeAttributeView;
use crate::classfile::ConstantPool;
use crate::classfile::ConstantView;
use crate::text::same_text;
use crate::views::views;
use vstd::prelude::*;

verus! {

/// The handle of a loaded class: its place in the registry.
pub type ClassId = usize;

/// A handle, if there is one, as a number without bound.
pub open spec fn handle_of(id: Option<ClassId>) -> Option<nat> {
    match id {
        Some(id) => Some(id as nat),
        None => None,
    }
}

/// What a method does when it is run.
#[derive(Debug)]
pub enum MethodBody {
    /// The method is implemented outside the class.
    Native,
    /// The method has code.
    Code(CodeAttribute),
    /// The method has no body at all.
    Absent,
}

/// A [`MethodBody`] as plain values.
pub enum MethodBodyView {
    Native,
    Code(CodeAttributeView),
    Absent,
}

impl View for MethodBody {
    type V = MethodBodyView;

    open spec fn view(&self) -> MethodBodyView {
        match *self {
            MethodBody::Native => MethodBodyView::Native,
            MethodBody::Code(code) => MethodBodyView::Code(code@),
            MethodBody::Absent => MethodBodyView::Absent,
        }
    }
}

/// A method of a loaded class.
#[derive(Debug)]
pub struct Method {
    pub name: String,
    pub body: MethodBody,
}

/// A [`Method`] as plain values.
pub struct MethodView {
    pub name: Seq<char>,
    pub body: MethodBodyView,
}

impl View for Method {
    type V = MethodView;

    open spec fn view(&self) -> MethodView {
        MethodView { name: self.name@, body: self.body@ }
    }
}

/// A loaded class.
#[derive(Debug)]
pub struct Class {
    name: String,
    super_class: Option<ClassId>,
    constant_pool: ConstantPool,
    methods: Vec<Method>,
    initialized: bool,
}

/// A [`Class`] as plain values.
pub struct ClassView {
    pub name: Seq<char>,
    pub super_class: Option<nat>,
    pub constant_pool: Seq<ConstantView>,
    pub methods: Seq<MethodView>,
    pub initialized: bool,
}

impl View for Class {
    type V = ClassView;

    closed spec fn view(&self) -> ClassView {
        ClassView {
            name: self.name@,
            super_class: handle_of(self.super_class),
            constant_pool: self.constant_pool@,
            methods: views(self.methods@),
            initialized: self.initialized,
        }
    }
}

/// The index of the first method from `from` on whose name is `name`.
pub open spec fn find_method_in(methods: Seq<MethodView>, name: Seq<char>, from: int) -> Option<
    int,
>
    decreases methods.len() - from,
{
    if from < 0 || from >= methods.len() {
        None
    } else if methods[from].name == name {
        Some(from)
    } else {
        find_method_in(methods, name, from + 1)
    }
}

/// A method together with the class that it belongs to.
pub struct ClassMethod<'a> {
    class: &'a Class,
    method: &'a Method,
}

impl<'a> ClassMethod<'a> {
    /// The class.
    pub closed spec fn class(&self) -> ClassView {
        self.class@
    }

    /// The method.
    pub closed spec fn method(&self) -> MethodView {
        self.method@
    }

    /// The name of the method.
    pub fn name(&self) -> (name: &'a str)
        ensures
            name@ == self.method().name,
    {
        let method: &'a Method = self.method;
        method.name.as_str()
    }

    /// What the method does when it is run.
    pub fn body(&self) -> (body: &'a MethodBody)
        ensures
            body@ == self.method().body,
    {
        let method: &'a Method = self.method;
        &method.body
    }
}

impl Class {
    /// The name of the class.
    pub fn name(&self) -> (name: &str)
        ensures
            name@ == self@.name,
    {
        self.name.as_str()
    }

    /// The handle of the superclass.
    pub fn super_class(&self) -> (super_class: Option<ClassId>)
        ensures
            handle_of(super_class) == self@.super_class,
    {
        self.super_class
    }

    /// The constant pool.
    pub fn constant_pool(&self) -> (pool: &ConstantPool)
        ensures
            pool@ == self@.constant_pool,
    {
        &self.constant_pool
    }

    /// Whether the class has been initialized.
    pub fn is_initialized(&self) -> (initialized: bool)
        ensures
            initialized == self@.initialized,
    {
        self.initialized
    }

    /// A class of the given parts, not yet initialized.
    pub(crate) fn new(
        name: String,
        super_class: Option<ClassId>,
        constant_pool: ConstantPool,
        methods: Vec<Method>,
    ) -> (class: Class)
        ensures
            class@ == (ClassView {
                name: name@,
                super_class: handle_of(super_class),
                constant_pool: constant_pool@,
                methods: views(methods@),
                initialized: false,
            }),
    {
        Class { name, super_class, constant_pool, methods, initialized: false }
    }

    /// Marks the class as initialized.
    pub(crate) fn mark_initialized(&mut self)
        ensures
            final(self)@ == (ClassView { initialized: true, ..old(self)@ }),
    {
        self.initialized = true;
    }

    /// The first method whose name is `name`. The types of the parameters
    /// are taken but not looked at: among methods of one name the first
    /// wins, whatever it takes.
    pub fn find_method(&self, name: &str, parameter_types: &[Type]) -> (found: Option<
        ClassMethod<'_>,
    >)
        ensures
            match found {
                None => find_method_in(self@.methods, name@, 0) is None,
                Some(method) => find_method_in(self@.methods, name@, 0) matches Some(i)
                    && method.method() == self@.methods[i] && method.class() == self@,
            },
    {
        let mut i: usize = 0;
        while i < self.methods.len()
            invariant
                i <= self.methods@.len(),
                find_method_in(self@.methods, name@, 0) == find_method_in(
                    self@.methods,
                    name@,
                    i as int,
                ),
            decreases self.methods@.len() - i,
        {
            assert(self@.methods[i as int] == self.methods@[i as int]@);
            if same_text(self.methods[i].name.as_str(), name) {
                return Some(ClassMethod { class: self, method: &self.methods[i] });
            }
            i += 1;
        }
        None
    }
}

/// The type of a parameter.
#[derive(Clone, Copy, Debug, PartialEq, Eq, Structural)]
pub enum Type {
    Primitive(PrimitiveType),
}

/// A type that is no class.
#[derive(Clone, Copy, Debug, PartialEq, Eq, Structural)]
pub enum PrimitiveType {
    Void,
}

} // verus!

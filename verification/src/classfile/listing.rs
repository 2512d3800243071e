//! The constant pool written out as a list, one slot to a line, with the
//! texts that the indices of an entry lead to.

use super::constant::ClassInfo;
use super::constant::Constant;
use super::constant::ConstantPool;
use super::constant::ConstantView;
use super::constant::NameAndTypeInfo;
use super::constant::RefInfo;
use crate::text::decimal;
use crate::text::push_char;
use crate::text::push_decimal;
use crate::text::push_signed_decimal;
use crate::text::quote;
use crate::text::quoted_text;
use crate::text::signed_decimal;
use vstd::prelude::*;
use vstd::string::StringExecFns;

verus! {

/// The text of the `Utf8` constant at `index`, or three question marks
/// where there is no such constant, between quotes.
pub open spec fn text_at(pool: Seq<ConstantView>, index: u16) -> Seq<char> {
    if index < pool.len() && pool[index as int] is Utf8 {
        quoted_text(pool[index as int]->Utf8_0)
    } else {
        quoted_text("???"@)
    }
}

/// An index, and in brackets what it leads to.
pub open spec fn pointer_text(label: Seq<char>, index: u16, target: Seq<char>) -> Seq<char> {
    label + decimal(index as nat) + " ("@ + target + ")"@
}

/// A class, with its name.
pub open spec fn class_info_text(pool: Seq<ConstantView>, info: ClassInfo) -> Seq<char> {
    "{ "@ + pointer_text("name_index: "@, info.name_index, text_at(pool, info.name_index))
        + " }"@
}

/// A name and a descriptor, each with its text.
pub open spec fn name_and_type_text(pool: Seq<ConstantView>, info: NameAndTypeInfo) -> Seq<
    char,
> {
    "{ "@ + pointer_text("name_index: "@, info.name_index, text_at(pool, info.name_index))
        + ", "@ + pointer_text(
        "descriptor_index: "@,
        info.descriptor_index,
        text_at(pool, info.descriptor_index),
    ) + " }"@
}

/// The class at `index`, written out, or three question marks where the
/// slot holds no class.
pub open spec fn class_at_text(pool: Seq<ConstantView>, index: u16) -> Seq<char> {
    if index < pool.len() && pool[index as int] is Class {
        class_info_text(pool, pool[index as int]->Class_0)
    } else {
        "???"@
    }
}

/// The name and type at `index`, written out, or three question marks
/// where the slot holds none.
pub open spec fn name_and_type_at_text(pool: Seq<ConstantView>, index: u16) -> Seq<char> {
    if index < pool.len() && pool[index as int] is NameAndType {
        name_and_type_text(pool, pool[index as int]->NameAndType_0)
    } else {
        "???"@
    }
}

/// A reference to a member, with its class and its name and type.
pub open spec fn member_ref_text(pool: Seq<ConstantView>, info: RefInfo) -> Seq<char> {
    "{ "@ + pointer_text("class_index: "@, info.class_index, class_at_text(pool, info.class_index))
        + ", "@ + pointer_text(
        "name_and_type_index: "@,
        info.name_and_type_index,
        name_and_type_at_text(pool, info.name_and_type_index),
    ) + " }"@
}

/// What the list says of one constant. Classes, references to fields and
/// methods, names and types, texts, long numbers and strings are written
/// out; every other constant is three question marks.
pub open spec fn entry_text(pool: Seq<ConstantView>, constant: ConstantView) -> Seq<char> {
    match constant {
        ConstantView::Class(info) => "Class "@ + class_info_text(pool, info),
        ConstantView::FieldRef(info) => "FieldRef "@ + member_ref_text(pool, info),
        ConstantView::MethodRef(info) => "MethodRef "@ + member_ref_text(pool, info),
        ConstantView::NameAndType(info) => "NameAndType "@ + name_and_type_text(pool, info),
        ConstantView::Utf8(text) => "Utf8: "@ + quoted_text(text),
        ConstantView::Long(value) => "Long: "@ + signed_decimal(value as int),
        ConstantView::String { string_index } => "String: { "@ + pointer_text(
            "string_index: "@,
            string_index,
            text_at(pool, string_index),
        ) + " }"@,
        _ => "???"@,
    }
}

/// One line of the list: four spaces, the index of the slot, a dot and a
/// space, what the list says of the constant, and a line feed.
pub open spec fn line_text(pool: Seq<ConstantView>, index: int) -> Seq<char> {
    "    "@ + decimal(index as nat) + ". "@ + entry_text(pool, pool[index]) + seq!['\n']
}

/// The lines of the slots before `upto`, one after another.
pub open spec fn lines_text(pool: Seq<ConstantView>, upto: int) -> Seq<char>
    decreases upto,
{
    if upto <= 0 {
        Seq::empty()
    } else {
        lines_text(pool, upto - 1) + line_text(pool, upto - 1)
    }
}

/// The whole list: an opening bracket on a line of its own, a line for each
/// slot, and a closing bracket.
pub open spec fn listing(pool: Seq<ConstantView>) -> Seq<char> {
    "[\n"@ + lines_text(pool, pool.len() as int) + "]"@
}

/// Appends an index and, in brackets, what it leads to.
fn push_pointer(out: &mut String, label: &str, index: u16, target: &str)
    ensures
        final(out)@ == old(out)@ + pointer_text(label@, index, target@),
{
    out.append(label);
    push_decimal(out, index as u64);
    out.append(" (");
    out.append(target);
    out.append(")");
    assert(out@ =~= old(out)@ + pointer_text(label@, index, target@));
}

impl ConstantPool {
    /// The text of the `Utf8` constant at `index`, between quotes.
    fn fmt_text(&self, index: u16) -> (text: String)
        ensures
            text@ == text_at(self@, index),
    {
        match self.get(index) {
            Ok(entry) => match entry.get() {
                Constant::Utf8(text) => quote(text.as_str()),
                _ => quote("???"),
            },
            Err(_) => quote("???"),
        }
    }

    /// Writes a class out, with its name.
    pub fn fmt_class_info(&self, info: &ClassInfo) -> (text: String)
        ensures
            text@ == class_info_text(self@, *info),
    {
        let mut out = String::from_str("{ ");
        let name = self.fmt_text(info.name_index);
        push_pointer(&mut out, "name_index: ", info.name_index, name.as_str());
        out.append(" }");
        assert(out@ =~= class_info_text(self@, *info));
        out
    }

    /// Writes a name and a descriptor out, each with its text.
    pub fn fmt_name_and_type_index(&self, info: &NameAndTypeInfo) -> (text: String)
        ensures
            text@ == name_and_type_text(self@, *info),
    {
        let mut out = String::from_str("{ ");
        let name = self.fmt_text(info.name_index);
        push_pointer(&mut out, "name_index: ", info.name_index, name.as_str());
        out.append(", ");
        let descriptor = self.fmt_text(info.descriptor_index);
        push_pointer(&mut out, "descriptor_index: ", info.descriptor_index, descriptor.as_str());
        out.append(" }");
        assert(out@ =~= name_and_type_text(self@, *info));
        out
    }

    /// Writes a reference to a member out, with its class and its name and
    /// type.
    pub fn fmt_ref_info(&self, info: &RefInfo) -> (text: String)
        ensures
            text@ == member_ref_text(self@, *info),
    {
        let class = match self.get(info.class_index) {
            Ok(entry) => match entry.get() {
                Constant::Class(class) => self.fmt_class_info(class),
                _ => String::from_str("???"),
            },
            Err(_) => String::from_str("???"),
        };
        let name_and_type = match self.get(info.name_and_type_index) {
            Ok(entry) => match entry.get() {
                Constant::NameAndType(name_and_type) => self.fmt_name_and_type_index(
                    name_and_type,
                ),
                _ => String::from_str("???"),
            },
            Err(_) => String::from_str("???"),
        };
        let mut out = String::from_str("{ ");
        push_pointer(&mut out, "class_index: ", info.class_index, class.as_str());
        out.append(", ");
        push_pointer(
            &mut out,
            "name_and_type_index: ",
            info.name_and_type_index,
            name_and_type.as_str(),
        );
        out.append(" }");
        assert(out@ =~= member_ref_text(self@, *info));
        out
    }

    /// Writes out what the list says of `constant`.
    fn fmt_entry(&self, constant: &Constant) -> (text: String)
        ensures
            text@ == entry_text(self@, constant@),
    {
        let mut out = String::new();
        match constant {
            Constant::Class(info) => {
                out.append("Class ");
                let text = self.fmt_class_info(info);
                out.append(text.as_str());
            },
            Constant::FieldRef(info) => {
                out.append("FieldRef ");
                let text = self.fmt_ref_info(info);
                out.append(text.as_str());
            },
            Constant::MethodRef(info) => {
                out.append("MethodRef ");
                let text = self.fmt_ref_info(info);
                out.append(text.as_str());
            },
            Constant::NameAndType(info) => {
                out.append("NameAndType ");
                let text = self.fmt_name_and_type_index(info);
                out.append(text.as_str());
            },
            Constant::Utf8(text) => {
                out.append("Utf8: ");
                let quoted = quote(text.as_str());
                out.append(quoted.as_str());
            },
            Constant::Long(value) => {
                out.append("Long: ");
                push_signed_decimal(&mut out, *value);
            },
            Constant::String { string_index } => {
                out.append("String: { ");
                let text = self.fmt_text(*string_index);
                push_pointer(&mut out, "string_index: ", *string_index, text.as_str());
                out.append(" }");
            },
            _ => {
                out.append("???");
            },
        }
        assert(out@ =~= entry_text(self@, constant@));
        out
    }

    /// Writes the pool out as a list, one slot to a line.
    pub fn to_string(&self) -> (text: String)
        ensures
            text@ == listing(self@),
    {
        let mut out = String::from_str("[\n");
        let count = self.len();
        let mut i: usize = 0;
        while i < count
            invariant
                i <= count == self@.len(),
                out@ == "[\n"@ + lines_text(self@, i as int),
            decreases count - i,
        {
            let ghost before = out@;
            out.append("    ");
            push_decimal(&mut out, i as u64);
            out.append(". ");
            let entry = self.fmt_entry(self.constant(i));
            out.append(entry.as_str());
            push_char(&mut out, '\n');
            assert(out@ =~= before + line_text(self@, i as int));
            i += 1;
            assert(out@ =~= "[\n"@ + lines_text(self@, i as int));
        }
        out.append("]");
        out
    }
}

} // verus!

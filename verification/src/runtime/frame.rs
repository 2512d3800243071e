//! The dispatch loop: a frame walks the code of a method and decodes it,
//! instruction by instruction, into a trace. Nothing is executed.

use super::class::MethodBody;
use super::class::MethodBodyView;
use super::class::MethodView;
use crate::bytecode;
use crate::bytecode::decode;
use crate::bytecode::Bytecode;
use crate::bytecode::BytecodeStream;
use crate::bytecode::Descriptor;
use crate::bytecode::Table;
use crate::classfile::CodeAttribute;
use crate::error::Error;
use crate::error::ErrorView;
use crate::io::IoError;
use vstd::prelude::*;
use vstd::string::StringExecFns;

verus! {

/// One decoded instruction of a trace, with the offset it was found at.
#[derive(Clone, Copy, Debug, PartialEq, Eq)]
pub struct Step {
    pub pc: usize,
    pub bytecode: Bytecode,
}

/// What a run gives: the steps that were decoded, and how the run ended.
/// The steps decoded before an error are kept beside it.
#[derive(Debug, PartialEq, Eq)]
pub struct Traced {
    pub steps: Vec<Step>,
    pub outcome: Result<(), Error>,
}

/// A [`Traced`] as plain values.
pub struct TracedView {
    pub steps: Seq<Step>,
    pub outcome: Result<(), ErrorView>,
}

impl View for Traced {
    type V = TracedView;

    open spec fn view(&self) -> TracedView {
        TracedView {
            steps: self.steps@,
            outcome: match self.outcome {
                Ok(_) => Ok(()),
                Err(e) => Err(e@),
            },
        }
    }
}

/// The trace of `code` from offset `pc` on, after the steps in `acc`: one
/// step for each instruction, until the code ends. Code that ends within an
/// instruction ends the trace before it. An opcode that the table does not
/// declare ends the trace with an error, after the steps before it.
pub open spec fn trace_from(
    table: Seq<Option<Descriptor>>,
    code: Seq<u8>,
    pc: int,
    acc: Seq<Step>,
) -> TracedView
    decreases code.len() - pc,
{
    if pc < 0 || pc >= code.len() {
        TracedView { steps: acc, outcome: Ok(()) }
    } else {
        match decode(table, code.skip(pc)) {
            Ok((bytecode, length)) => trace_from(
                table,
                code,
                pc + length,
                acc.push(Step { pc: pc as usize, bytecode }),
            ),
            Err(bytecode::Error::IO(_)) => TracedView { steps: acc, outcome: Ok(()) },
            Err(e) => TracedView { steps: acc, outcome: Err(ErrorView::Bytecode(e)) },
        }
    }
}

/// The trace of the whole of `code`.
pub open spec fn traced(table: Seq<Option<Descriptor>>, code: Seq<u8>) -> TracedView {
    trace_from(table, code, 0, Seq::empty())
}

/// What running `method` gives: the trace of its code, which is empty where
/// there is no body at all. A native method cannot be run.
pub open spec fn invoked(table: Seq<Option<Descriptor>>, method: MethodView) -> TracedView {
    match method.body {
        MethodBodyView::Native => TracedView {
            steps: Seq::empty(),
            outcome: Err(ErrorView::NativeMethod(method.name)),
        },
        MethodBodyView::Absent => TracedView { steps: Seq::empty(), outcome: Ok(()) },
        MethodBodyView::Code(code) => traced(table, code.code),
    }
}

/// The place of a running method in its code.
pub struct Frame<'a> {
    pc: usize,
    code_attribute: &'a CodeAttribute,
}

impl<'a> Frame<'a> {
    /// The offset of the next instruction.
    pub closed spec fn spec_pc(&self) -> int {
        self.pc as int
    }

    /// The code that is run.
    pub closed spec fn code(&self) -> Seq<u8> {
        self.code_attribute.code@
    }

    /// A frame at the start of the code.
    pub fn new(code_attribute: &'a CodeAttribute) -> (frame: Frame<'a>)
        ensures
            frame.spec_pc() == 0,
            frame.code() == code_attribute@.code,
            frame.remaining() == code_attribute@.code,
    {
        let frame = Frame { pc: 0, code_attribute };
        assert(frame.remaining() =~= code_attribute@.code);
        frame
    }

    /// The offset of the next instruction.
    pub fn pc(&self) -> (pc: usize)
        ensures
            pc == self.spec_pc(),
    {
        self.pc
    }

    /// Decodes the instruction at the current offset and moves past it.
    /// Code that ends there, or within the instruction, gives nothing and
    /// leaves the frame where it is.
    pub fn step(&mut self, table: &Table) -> (r: Result<Option<Bytecode>, bytecode::Error>)
        ensures
            final(self).code() == old(self).code(),
            old(self).spec_pc() >= old(self).code().len() ==> r == Ok::<
                Option<Bytecode>,
                bytecode::Error,
            >(None) && final(self).spec_pc() == old(self).spec_pc(),
            old(self).spec_pc() < old(self).code().len() ==> match decode(
                table@,
                old(self).code().skip(old(self).spec_pc()),
            ) {
                Ok((bytecode, length)) => r == Ok::<Option<Bytecode>, bytecode::Error>(
                    Some(bytecode),
                ) && final(self).spec_pc() == old(self).spec_pc() + length && length >= 1
                    && final(self).spec_pc() <= old(self).code().len(),
                Err(bytecode::Error::IO(_)) => r == Ok::<
                    Option<Bytecode>,
                    bytecode::Error,
                >(None) && final(self).spec_pc() == old(self).spec_pc(),
                Err(e) => r == Err::<Option<Bytecode>, bytecode::Error>(e)
                    && final(self).spec_pc() == old(self).spec_pc(),
            },
    {
        let code = self.code_attribute.code.as_slice();
        if self.pc >= code.len() {
            return Ok(None);
        }
        let rest = vstd::slice::slice_subrange(code, self.pc, code.len());
        assert(rest@ =~= self.code().skip(self.spec_pc()));
        match Bytecode::decode(table, rest) {
            Ok((bytecode, length)) => {
                self.pc += length;
                Ok(Some(bytecode))
            },
            Err(bytecode::Error::IO(_)) => Ok(None),
            Err(e) => Err(e),
        }
    }
}

impl<'a> BytecodeStream for Frame<'a> {
    /// The code from the current offset on.
    open spec fn remaining(&self) -> Seq<u8> {
        if self.spec_pc() <= self.code().len() {
            self.code().skip(self.spec_pc())
        } else {
            Seq::empty()
        }
    }

    fn read_u8(&mut self) -> (r: Result<u8, IoError>)
        ensures
            final(self).code() == old(self).code(),
            match r {
                Ok(byte) => old(self).spec_pc() < old(self).code().len()
                    && byte == old(self).code()[old(self).spec_pc()]
                    && final(self).spec_pc() == old(self).spec_pc() + 1,
                Err(_) => old(self).spec_pc() >= old(self).code().len() && final(self).spec_pc()
                    == old(self).spec_pc(),
            },
    {
        if self.pc < self.code_attribute.code.len() {
            let byte = self.code_attribute.code[self.pc];
            assert(self.code().skip(self.spec_pc()).skip(1) =~= self.code().skip(
                self.spec_pc() + 1,
            ));
            self.pc += 1;
            Ok(byte)
        } else {
            assert(self.remaining() =~= Seq::<u8>::empty());
            Err(IoError::UnexpectedEof)
        }
    }
}

/// Decodes `code_attribute`'s code from its start into a trace.
pub fn trace(code_attribute: &CodeAttribute, table: &Table) -> (t: Traced)
    ensures
        t@ == traced(table@, code_attribute@.code),
{
    let ghost whole = traced(table@, code_attribute@.code);
    let mut frame = Frame::new(code_attribute);
    let mut steps: Vec<Step> = Vec::new();
    loop
        invariant
            frame.code() == code_attribute@.code,
            0 <= frame.spec_pc(),
            whole == traced(table@, code_attribute@.code),
            whole == trace_from(table@, frame.code(), frame.spec_pc(), steps@),
        decreases frame.code().len() - frame.spec_pc(),
    {
        let pc = frame.pc();
        match frame.step(table) {
            Ok(Some(bytecode)) => {
                steps.push(Step { pc, bytecode });
            },
            Ok(None) => {
                return Traced { steps, outcome: Ok(()) };
            },
            Err(e) => {
                return Traced { steps, outcome: Err(Error::Bytecode(e)) };
            },
        }
    }
}

impl MethodBody {
    /// Runs the body of the method `name` with the instructions of `table`:
    /// the code is decoded from its start into a trace, which is empty
    /// where there is no body. A native body cannot be run.
    pub fn invoke(&self, name: &str, table: &Table) -> (t: Traced)
        ensures
            t@ == invoked(table@, MethodView { name: name@, body: self@ }),
    {
        match self {
            MethodBody::Native => Traced {
                steps: Vec::new(),
                outcome: Err(Error::NativeMethod(String::from_str(name))),
            },
            MethodBody::Absent => Traced { steps: Vec::new(), outcome: Ok(()) },
            MethodBody::Code(code_attribute) => trace(code_attribute, table),
        }
    }
}

} // verus!

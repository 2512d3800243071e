//! What loading does, stated on plain values: the registry of classes and
//! the record of initializations before and after a load.

use super::class::find_method_in;
use super::class::ClassId;
use super::class::ClassView;
use super::class::MethodBodyView;
use super::class::MethodView;
use super::frame::invoked;
use super::frame::Step;
use super::frame::TracedView;
use crate::bytecode::Descriptor;
use crate::class_path::ClassPath;
use crate::class_path::FileRecordView;
use crate::class_path::LookupView;
use crate::classfile::code_in;
use crate::classfile::constant::utf8_in;
use crate::classfile::grammar::class_file_of;
use crate::classfile::AccessFlags;
use crate::classfile::ClassFileView;
use crate::classfile::ConstantView;
use crate::classfile::MemberView;
use crate::error::Error;
use crate::error::ErrorView;
use vstd::prelude::*;

verus! {

/// The longest chain of superclasses that is followed.
pub const MAX_DEPTH: usize = 1024;

/// The record of one class's initialization: the class, the trace of its
/// static initializer, which is empty where the class has none, and how the
/// initializer ended. The steps decoded before an error are on record
/// beside it.
#[derive(Debug, PartialEq, Eq)]
pub struct Initialization {
    pub class: ClassId,
    pub steps: Vec<Step>,
    pub outcome: Result<(), Error>,
}

/// An [`Initialization`] as plain values.
pub struct InitializationView {
    pub class: nat,
    pub steps: Seq<Step>,
    pub outcome: Result<(), ErrorView>,
}

impl View for Initialization {
    type V = InitializationView;

    open spec fn view(&self) -> InitializationView {
        InitializationView {
            class: self.class as nat,
            steps: self.steps@,
            outcome: match self.outcome {
                Ok(_) => Ok(()),
                Err(e) => Err(e@),
            },
        }
    }
}

/// The name of the resource that holds the class `class_name`: each dot
/// becomes a slash, and `.class` is appended.
pub open spec fn resource_name(class_name: Seq<char>) -> Seq<char> {
    Seq::new(
        class_name.len(),
        |i: int|
            if class_name[i] == '.' {
                '/'
            } else {
                class_name[i]
            },
    ) + ".class"@
}

/// The bytes of the classfile of `class_name`, as the classpath has them.
pub open spec fn resolved(class_path: ClassPath, files: Seq<FileRecordView>, class_name: Seq<char>)
    -> Result<Seq<u8>, ErrorView> {
    match class_path.find(resource_name(class_name), files) {
        LookupView::Found(bytes) => Ok(bytes),
        LookupView::Missing => Err(ErrorView::NotFound(resource_name(class_name))),
        LookupView::Unread { directory, name } => Err(ErrorView::Unread { directory, name }),
    }
}

/// The message for a method that is not native and has no code.
pub open spec fn no_body_message(name: Seq<char>) -> Seq<char> {
    "No method body found for "@ + name
}

/// The message for a class whose chain of superclasses is too long.
pub open spec fn too_deep_message(name: Seq<char>) -> Seq<char> {
    "Superclass chain too deep at "@ + name
}

/// The method that a member of a classfile defines. Its name and its code
/// are read first. A native method has no body to run; any other method
/// must have code.
pub open spec fn method_of(pool: Seq<ConstantView>, member: MemberView) -> Result<
    MethodView,
    ErrorView,
> {
    match utf8_in(pool, member.name_index) {
        Err(e) => Err(ErrorView::ClassFile(e)),
        Ok(name) => match code_in(pool, member.attributes) {
            Err(e) => Err(ErrorView::ClassFile(e)),
            Ok(code) => if member.access_flags.spec_contains(AccessFlags::NATIVE) {
                Ok(MethodView { name, body: MethodBodyView::Native })
            } else {
                match code {
                    Some(code) => Ok(MethodView { name, body: MethodBodyView::Code(code) }),
                    None => Err(ErrorView::ClassLoadError(no_body_message(name))),
                }
            },
        },
    }
}

/// The methods that the members from `from` on define, after those in `acc`.
pub open spec fn methods_from(
    pool: Seq<ConstantView>,
    members: Seq<MemberView>,
    from: int,
    acc: Seq<MethodView>,
) -> Result<Seq<MethodView>, ErrorView>
    decreases members.len() - from,
{
    if from < 0 || from >= members.len() {
        Ok(acc)
    } else {
        match method_of(pool, members[from]) {
            Err(e) => Err(e),
            Ok(method) => methods_from(pool, members, from + 1, acc.push(method)),
        }
    }
}

/// The registry of a runtime and the record of its initializations.
pub struct State {
    /// The loaded classes, each at the index that is its handle.
    pub classes: Seq<ClassView>,
    /// The initializations that were run, in their order.
    pub initializations: Seq<InitializationView>,
}

/// The outcome of a load, and the state that it leaves.
pub struct Loaded {
    pub outcome: Result<nat, ErrorView>,
    pub state: State,
}

impl State {
    /// What holds of every state that loading leads to. Each class has one
    /// initialization on record, at the place of its handle, so the
    /// initializations are in the order of the handles. A class is
    /// initialized exactly if its initializer ran to its end. The superclass
    /// of a class was registered before the class and is initialized.
    pub open spec fn well_formed(self) -> bool {
        &&& self.initializations.len() == self.classes.len()
        &&& forall|k: int|
            0 <= k < self.initializations.len() ==> (#[trigger] self.initializations[k]).class
                == k
        &&& forall|k: int|
            0 <= k < self.classes.len() ==> ((#[trigger] self.classes[k]).initialized
                <==> self.initializations[k].outcome is Ok)
        &&& forall|i: int|
            0 <= i < self.classes.len() && (#[trigger] self.classes[i]).super_class is Some
                ==> self.classes[i].super_class->Some_0 < i
                && self.classes[self.classes[i].super_class->Some_0 as int].initialized
    }

    /// What running the static initializer of the class `id` gives: the
    /// trace of the first method named `<clinit>`, or an empty trace where
    /// the class has no such method.
    pub open spec fn initializer_run(self, table: Seq<Option<Descriptor>>, id: int) -> TracedView {
        match find_method_in(self.classes[id].methods, "<clinit>"@, 0) {
            None => TracedView { steps: Seq::empty(), outcome: Ok(()) },
            Some(m) => invoked(table, self.classes[id].methods[m]),
        }
    }

    /// The state with the class `id` marked as initialized.
    pub open spec fn marked(self, id: int) -> State {
        State {
            classes: self.classes.update(id, ClassView { initialized: true, ..self.classes[id] }),
            initializations: self.initializations,
        }
    }

    /// The state after the class `id` has been initialized. A class that is
    /// initialized stays as it is. A class whose initialization is on record
    /// is not run again: it is initialized if the record says that the run
    /// came to its end, and else the error of that run comes back. For any
    /// other class the static initializer is run and the run goes on record,
    /// with its steps and with how it ended; the class is marked only if the
    /// run came to its end.
    pub open spec fn initialized(self, table: Seq<Option<Descriptor>>, id: int) -> Loaded {
        if self.classes[id].initialized {
            Loaded { outcome: Ok(id as nat), state: self }
        } else if id < self.initializations.len() {
            match self.initializations[id].outcome {
                Ok(_) => Loaded { outcome: Ok(id as nat), state: self.marked(id) },
                Err(e) => Loaded { outcome: Err(e), state: self },
            }
        } else {
            let run = self.initializer_run(table, id);
            let recorded = State {
                classes: self.classes,
                initializations: self.initializations.push(
                    InitializationView { class: id as nat, steps: run.steps, outcome: run.outcome },
                ),
            };
            match run.outcome {
                Ok(_) => Loaded { outcome: Ok(id as nat), state: recorded.marked(id) },
                Err(e) => Loaded { outcome: Err(e), state: recorded },
            }
        }
    }

    /// The state after a class has been defined from `class_file` under
    /// `name`, with `super_class` as its superclass: the class is registered
    /// behind all others, not yet initialized. A method that cannot be
    /// defined leaves the state as it was.
    pub open spec fn defined(
        self,
        class_file: ClassFileView,
        name: Seq<char>,
        super_class: Option<nat>,
    ) -> Result<State, ErrorView> {
        match methods_from(class_file.constant_pool, class_file.methods, 0, Seq::empty()) {
            Err(e) => Err(e),
            Ok(methods) => Ok(
                State {
                    classes: self.classes.push(
                        ClassView {
                            name,
                            super_class,
                            constant_pool: class_file.constant_pool,
                            methods,
                            initialized: false,
                        },
                    ),
                    initializations: self.initializations,
                },
            ),
        }
    }

    /// The state after the class `class_name` has been loaded, following at
    /// most `depth` superclasses. The classfile is resolved and parsed, and
    /// the names of the class and of its superclass are read from it. The
    /// superclass, if there is one, is loaded first. Then the class is
    /// defined and initialized. Whatever fails ends the load there, with
    /// the state as it then is.
    pub open spec fn loaded(
        self,
        class_path: ClassPath,
        files: Seq<FileRecordView>,
        table: Seq<Option<Descriptor>>,
        class_name: Seq<char>,
        depth: nat,
    ) -> Loaded
        decreases depth,
    {
        match resolved(class_path, files, class_name) {
            Err(e) => Loaded { outcome: Err(e), state: self },
            Ok(bytes) => match class_file_of(bytes) {
                Err(e) => Loaded { outcome: Err(ErrorView::ClassFile(e)), state: self },
                Ok(class_file) => match class_file.class_name() {
                    Err(e) => Loaded { outcome: Err(ErrorView::ClassFile(e)), state: self },
                    Ok(name) => match class_file.super_class_name() {
                        Err(e) => Loaded { outcome: Err(ErrorView::ClassFile(e)), state: self },
                        Ok(None) => self.finished(table, class_file, name, None),
                        Ok(Some(super_name)) => if depth == 0 {
                            Loaded {
                                outcome: Err(
                                    ErrorView::ClassLoadError(too_deep_message(super_name)),
                                ),
                                state: self,
                            }
                        } else {
                            let above = self.loaded(
                                class_path,
                                files,
                                table,
                                super_name,
                                (depth - 1) as nat,
                            );
                            match above.outcome {
                                Err(e) => above,
                                Ok(super_class) => above.state.finished(
                                    table,
                                    class_file,
                                    name,
                                    Some(super_class),
                                ),
                            }
                        },
                    },
                },
            },
        }
    }

    /// The last part of a load: the class is defined and then initialized.
    pub open spec fn finished(
        self,
        table: Seq<Option<Descriptor>>,
        class_file: ClassFileView,
        name: Seq<char>,
        super_class: Option<nat>,
    ) -> Loaded {
        match self.defined(class_file, name, super_class) {
            Err(e) => Loaded { outcome: Err(e), state: self },
            Ok(state) => state.initialized(table, self.classes.len() as int),
        }
    }
}

/// Initializing a class of a well-formed state changes nothing: its
/// initializer is not run again, whether it came to its end or failed.
pub proof fn lemma_initialized_again(state: State, table: Seq<Option<Descriptor>>, id: int)
    requires
        state.well_formed(),
        0 <= id < state.classes.len(),
    ensures
        state.initialized(table, id).state == state,
        state.initialized(table, id).outcome is Ok <==> state.classes[id].initialized,
{
    assert(state.classes[id].initialized <==> state.initializations[id].outcome is Ok);
}

/// Defining and initializing a class registers one class behind the others,
/// which stay as they are, and only adds to the record. In a well-formed
/// state whose classes include an initialized superclass, if one is given,
/// the state stays well formed, and where the load succeeds the handle is
/// that of the new class, which is then initialized.
pub proof fn lemma_finished(
    state: State,
    table: Seq<Option<Descriptor>>,
    class_file: ClassFileView,
    name: Seq<char>,
    super_class: Option<nat>,
)
    requires
        super_class matches Some(j) ==> j < state.classes.len()
            && state.classes[j as int].initialized,
    ensures
        ({
            let after = state.finished(table, class_file, name, super_class);
            &&& state.classes.is_prefix_of(after.state.classes)
            &&& state.initializations.is_prefix_of(after.state.initializations)
            &&& after.outcome matches Ok(id) ==> id + 1 == after.state.classes.len()
                && after.state.classes[id as int].initialized
            &&& state.well_formed() ==> after.state.well_formed()
        }),
{
    match state.defined(class_file, name, super_class) {
        Err(_) => {},
        Ok(defined) => {
            let id = state.classes.len() as int;
            let after = defined.initialized(table, id).state;
            assert forall|i: int| 0 <= i < state.classes.len() implies state.classes[i]
                == after.classes[i] by {
                assert(defined.classes[i] == state.classes[i]);
            }
            if state.well_formed() {
                assert forall|k: int| 0 <= k < after.classes.len() implies ((
                #[trigger] after.classes[k]).initialized
                    <==> after.initializations[k].outcome is Ok) by {
                    if k < id {
                        assert(state.classes[k].initialized
                            <==> state.initializations[k].outcome is Ok);
                    }
                }
                assert forall|k: int| 0 <= k < after.initializations.len() implies (
                #[trigger] after.initializations[k]).class == k by {
                    if k < id {
                        assert(state.initializations[k].class == k);
                    }
                }
                assert forall|i: int|
                    0 <= i < after.classes.len() && (#[trigger] after.classes[i]).super_class
                        is Some implies ({
                    let above = after.classes[i].super_class->Some_0 as int;
                    above < i && after.classes[above].initialized
                }) by {
                    if i < id {
                        assert(state.classes[i].super_class is Some);
                    }
                }
            }
        },
    }
}

/// Loading keeps the state well formed. The classes that were loaded before
/// keep their handles and stay as they are, and the record only grows. A
/// load that succeeds gives the handle of the class registered last, which
/// is then initialized.
pub proof fn lemma_loaded(
    state: State,
    class_path: ClassPath,
    files: Seq<FileRecordView>,
    table: Seq<Option<Descriptor>>,
    class_name: Seq<char>,
    depth: nat,
)
    ensures
        ({
            let after = state.loaded(class_path, files, table, class_name, depth);
            &&& state.classes.is_prefix_of(after.state.classes)
            &&& state.initializations.is_prefix_of(after.state.initializations)
            &&& after.outcome matches Ok(id) ==> id + 1 == after.state.classes.len()
                && after.state.classes[id as int].initialized
            &&& state.well_formed() ==> after.state.well_formed()
        }),
    decreases depth,
{
    if let Ok(bytes) = resolved(class_path, files, class_name) {
        if let Ok(class_file) = class_file_of(bytes) {
            if let Ok(name) = class_file.class_name() {
                match class_file.super_class_name() {
                    Err(_) => {},
                    Ok(None) => {
                        lemma_finished(state, table, class_file, name, None);
                    },
                    Ok(Some(super_name)) => {
                        if depth > 0 {
                            let above = state.loaded(
                                class_path,
                                files,
                                table,
                                super_name,
                                (depth - 1) as nat,
                            );
                            lemma_loaded(
                                state,
                                class_path,
                                files,
                                table,
                                super_name,
                                (depth - 1) as nat,
                            );
                            if let Ok(super_class) = above.outcome {
                                lemma_finished(
                                    above.state,
                                    table,
                                    class_file,
                                    name,
                                    Some(super_class),
                                );
                            }
                        }
                    },
                }
            }
        }
    }
}

/// The static initializer of a superclass is on record, as one that came to
/// its end, before that of the class itself.
pub proof fn lemma_superclass_initialized_first(state: State, k: int, super_class: nat)
    requires
        state.well_formed(),
        0 <= k < state.initializations.len(),
        state.classes[state.initializations[k].class as int].super_class == Some(super_class),
    ensures
        exists|earlier: int|
            0 <= earlier < k && (#[trigger] state.initializations[earlier]).class == super_class
                && state.initializations[earlier].outcome is Ok,
{
    assert(state.initializations[k].class == k);
    assert(state.classes[k].super_class is Some);
    let earlier = super_class as int;
    assert(state.classes[earlier].initialized <==> state.initializations[earlier].outcome is Ok);
    assert(state.initializations[earlier].class == earlier);
}

/// No class has two initializations on record.
pub proof fn lemma_initialized_once(state: State, k: int, l: int)
    requires
        state.well_formed(),
        0 <= k < state.initializations.len(),
        0 <= l < state.initializations.len(),
        state.initializations[k].class == state.initializations[l].class,
    ensures
        k == l,
{
    assert(state.initializations[k].class == k);
    assert(state.initializations[l].class == l);
}

/// What running `main` gives after a load with the given outcome left the
/// given state: the error of the load; else the trace of the first method
/// named `main` of the loaded class, or the error that it has none.
pub open spec fn main_run(
    state: State,
    table: Seq<Option<Descriptor>>,
    outcome: Result<nat, ErrorView>,
) -> TracedView {
    match outcome {
        Err(e) => TracedView { steps: Seq::empty(), outcome: Err(e) },
        Ok(id) => match find_method_in(state.classes[id as int].methods, "main"@, 0) {
            None => TracedView {
                steps: Seq::empty(),
                outcome: Err(ErrorView::NoSuchMethod("main"@)),
            },
            Some(m) => invoked(table, state.classes[id as int].methods[m]),
        },
    }
}

} // verus!

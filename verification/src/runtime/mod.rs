//! The runtime: a registry of loaded classes, the loader that fills it, and
//! the dispatch loop that decodes a method's code.
//!
//! Loading a class resolves its classfile on the classpath, loads its
//! superclass, defines the class and runs its static initializer. Running a
//! method decodes its code into a trace; no instruction is executed.

pub mod class;
pub mod frame;
pub mod state;

use crate::bytecode::table::standard;
use crate::bytecode::Descriptor;
use crate::bytecode::Table;
use crate::class_path::ClassPath;
use crate::class_path::FileRecordView;
use crate::class_path::Files;
use crate::class_path::Lookup;
use crate::classfile::AccessFlags;
use crate::classfile::ClassFile;
use crate::classfile::MethodRef;
use crate::error::Error;
use crate::error::ErrorView;
use crate::text::push_char;
use crate::views::lemma_views_push;
use crate::views::views;
use state::lemma_initialized_again;
use state::lemma_loaded;
use state::main_run;
use state::method_of;
use state::methods_from;
use state::resolved;
use state::resource_name;
use vstd::prelude::*;
use vstd::string::StrSliceExecFns;
use vstd::string::StringExecFns;

pub use class::Class;
pub use class::handle_of;
pub use class::ClassId;
pub use class::ClassMethod;
pub use class::ClassView;
pub use class::Method;
pub use class::MethodBody;
pub use class::MethodBodyView;
pub use class::MethodView;
pub use class::PrimitiveType;
pub use class::Type;
pub use frame::invoked;
pub use frame::trace;
pub use frame::traced;
pub use frame::Frame;
pub use frame::Step;
pub use frame::Traced;
pub use frame::TracedView;
pub use state::Initialization;
pub use state::InitializationView;
pub use state::Loaded;
pub use state::State;
pub use state::MAX_DEPTH;

verus! {

/// The runtime: a classpath, what is known of the files in its directories,
/// the table of instructions, the registry of loaded classes, and the record
/// of their initializations.
pub struct Runtime<'a> {
    class_path: ClassPath<'a>,
    files: Files,
    table: Table,
    classes: Vec<Class>,
    initializations: Vec<Initialization>,
}

impl<'a> Runtime<'a> {
    /// The classpath.
    pub closed spec fn class_path(&self) -> ClassPath<'a> {
        self.class_path
    }

    /// What is known of the files in directories.
    pub closed spec fn files(&self) -> Seq<FileRecordView> {
        self.files@
    }

    /// The table of instructions.
    pub closed spec fn table(&self) -> Seq<Option<Descriptor>> {
        self.table@
    }

    /// The registry and the record of initializations.
    pub closed spec fn state(&self) -> State {
        State { classes: views(self.classes@), initializations: views(self.initializations@) }
    }

    /// A runtime over `class_path` that knows the standard instructions, has
    /// loaded no class, and knows nothing of any file.
    pub fn new(class_path: ClassPath<'a>) -> (runtime: Runtime<'a>)
        ensures
            runtime.class_path() == class_path,
            runtime.files() == Seq::<FileRecordView>::empty(),
            runtime.table() == crate::bytecode::table::standard_entries(),
            runtime.state().classes == Seq::<ClassView>::empty(),
            runtime.state().initializations == Seq::<InitializationView>::empty(),
            runtime.state().well_formed(),
    {
        Runtime::with_table(class_path, standard())
    }

    /// A runtime over `class_path` that knows the instructions of `table`.
    pub fn with_table(class_path: ClassPath<'a>, table: Table) -> (runtime: Runtime<'a>)
        ensures
            runtime.class_path() == class_path,
            runtime.files() == Seq::<FileRecordView>::empty(),
            runtime.table() == table@,
            runtime.state().classes == Seq::<ClassView>::empty(),
            runtime.state().initializations == Seq::<InitializationView>::empty(),
            runtime.state().well_formed(),
    {
        let runtime = Runtime {
            class_path,
            files: Files::new(),
            table,
            classes: Vec::new(),
            initializations: Vec::new(),
        };
        assert(runtime.state().classes =~= Seq::<ClassView>::empty());
        assert(runtime.state().initializations =~= Seq::<InitializationView>::empty());
        runtime
    }

    /// Notes what was found out about the file `name` in `directory`.
    pub fn record_file(&mut self, directory: String, name: String, content: Option<Vec<u8>>)
        ensures
            final(self).files() == old(self).files().push(
                (crate::class_path::FileRecord { directory, name, content })@,
            ),
            final(self).class_path() == old(self).class_path(),
            final(self).table() == old(self).table(),
            final(self).state() == old(self).state(),
    {
        self.files.record(directory, name, content);
    }

    /// The number of loaded classes.
    pub fn class_count(&self) -> (n: usize)
        ensures
            n == self.state().classes.len(),
    {
        self.classes.len()
    }

    /// The class with the handle `id`.
    pub fn class(&self, id: ClassId) -> (class: Option<&Class>)
        ensures
            match class {
                Some(class) => id < self.state().classes.len() && class@
                    == self.state().classes[id as int],
                None => id >= self.state().classes.len(),
            },
    {
        if id < self.classes.len() {
            Some(&self.classes[id])
        } else {
            None
        }
    }

    /// The initializations that were completed, in their order.
    pub fn initializations(&self) -> (all: &[Initialization])
        ensures
            views(all@) == self.state().initializations,
    {
        self.initializations.as_slice()
    }

    /// Runs `method`: its code is decoded from its start into a trace. The
    /// steps decoded before an error come back beside it.
    pub fn invoke(&self, method: &ClassMethod) -> (t: Traced)
        ensures
            t@ == invoked(self.table(), method.method()),
    {
        method.body().invoke(method.name(), &self.table)
    }
}

/// The name of the resource that holds the class `class_name`.
pub fn resource_name_of(class_name: &str) -> (resource: String)
    ensures
        resource@ == resource_name(class_name@),
{
    let length = class_name.unicode_len();
    let mut resource = String::new();
    let mut i: usize = 0;
    while i < length
        invariant
            i <= length == class_name@.len(),
            resource@ == Seq::new(
                i as nat,
                |k: int|
                    if class_name@[k] == '.' {
                        '/'
                    } else {
                        class_name@[k]
                    },
            ),
        decreases length - i,
    {
        let c = class_name.get_char(i);
        push_char(
            &mut resource,
            if c == '.' {
                '/'
            } else {
                c
            },
        );
        i += 1;
    }
    resource.append(".class");
    resource
}

/// The method that a member of a classfile defines.
fn method_from(member: &MethodRef) -> (r: Result<Method, Error>)
    ensures
        match r {
            Ok(method) => method_of(member.class_file().constant_pool, member.method()) == Ok::<
                MethodView,
                ErrorView,
            >(method@),
            Err(e) => method_of(member.class_file().constant_pool, member.method()) == Err::<
                MethodView,
                ErrorView,
            >(e@),
        },
{
    let name = match member.name() {
        Ok(name) => String::from_str(name),
        Err(e) => {
            return Err(Error::ClassFile(e));
        },
    };
    let code = match member.attributes().code() {
        Ok(code) => code,
        Err(e) => {
            return Err(Error::ClassFile(e));
        },
    };
    if member.access_flags().contains(AccessFlags::NATIVE) {
        Ok(Method { name, body: MethodBody::Native })
    } else {
        match code {
            Some(code) => Ok(Method { name, body: MethodBody::Code(code) }),
            None => {
                let mut message = String::from_str("No method body found for ");
                message.append(name.as_str());
                Err(Error::ClassLoadError(message))
            },
        }
    }
}

/// The methods that the members of `class_file` define, in order.
fn methods_of(class_file: &ClassFile) -> (r: Result<Vec<Method>, Error>)
    ensures
        match r {
            Ok(methods) => methods_from(
                class_file@.constant_pool,
                class_file@.methods,
                0,
                Seq::empty(),
            ) == Ok::<Seq<MethodView>, ErrorView>(views(methods@)),
            Err(e) => methods_from(class_file@.constant_pool, class_file@.methods, 0, Seq::empty())
                == Err::<Seq<MethodView>, ErrorView>(e@),
        },
{
    let ghost whole = methods_from(
        class_file@.constant_pool,
        class_file@.methods,
        0,
        Seq::empty(),
    );
    let members = class_file.methods();
    let mut methods: Vec<Method> = Vec::new();
    assert(views(methods@) =~= Seq::<MethodView>::empty());
    let mut i: usize = 0;
    while i < members.len()
        invariant
            i <= members@.len() == class_file@.methods.len(),
            forall|k: int|
                0 <= k < members@.len() ==> (#[trigger] members@[k]).class_file() == class_file@
                    && members@[k].method() == class_file@.methods[k],
            whole == methods_from(class_file@.constant_pool, class_file@.methods, 0, Seq::empty()),
            whole == methods_from(
                class_file@.constant_pool,
                class_file@.methods,
                i as int,
                views(methods@),
            ),
        decreases members@.len() - i,
    {
        let method = method_from(&members[i])?;
        proof {
            lemma_views_push(methods@, method);
        }
        methods.push(method);
        i += 1;
    }
    Ok(methods)
}

impl<'a> Runtime<'a> {
    /// What loading the class `class_name` gives, and the state it leaves,
    /// where at most `depth` superclasses are followed.
    pub open spec fn load_outcome_within(&self, class_name: Seq<char>, depth: nat) -> Loaded {
        self.state().loaded(self.class_path(), self.files(), self.table(), class_name, depth)
    }

    /// What loading the class `class_name` gives, and the state it leaves.
    pub open spec fn load_outcome(&self, class_name: Seq<char>) -> Loaded {
        self.load_outcome_within(class_name, MAX_DEPTH as nat)
    }

    /// Loads the class `class_name`, given with dots: its classfile is
    /// resolved on the classpath and parsed, its superclass is loaded first,
    /// and the class is defined and initialized. Each call defines the class
    /// anew. What was loaded before keeps its handle and is not touched.
    pub fn load_class(&mut self, class_name: &str) -> (r: Result<ClassId, Error>)
        ensures
            final(self).class_path() == old(self).class_path(),
            final(self).files() == old(self).files(),
            final(self).table() == old(self).table(),
            final(self).state() == old(self).load_outcome(class_name@).state,
            is_outcome(r, old(self).load_outcome(class_name@).outcome),
            old(self).state().well_formed() ==> final(self).state().well_formed(),
            old(self).state().classes.is_prefix_of(final(self).state().classes),
            old(self).state().initializations.is_prefix_of(final(self).state().initializations),
            r matches Ok(id) ==> id + 1 == final(self).state().classes.len()
                && final(self).state().classes[id as int].initialized,
    {
        proof {
            lemma_loaded(
                self.state(),
                self.class_path(),
                self.files(),
                self.table(),
                class_name@,
                MAX_DEPTH as nat,
            );
        }
        self.load_at_depth(class_name, MAX_DEPTH)
    }

    /// Loads the class `class_name`, following at most `depth` superclasses.
    fn load_at_depth(&mut self, class_name: &str, depth: usize) -> (r: Result<ClassId, Error>)
        ensures
            final(self).class_path() == old(self).class_path(),
            final(self).files() == old(self).files(),
            final(self).table() == old(self).table(),
            final(self).state() == old(self).load_outcome_within(class_name@, depth as nat).state,
            is_outcome(r, old(self).load_outcome_within(class_name@, depth as nat).outcome),
        decreases depth,
    {
        let class_file = match self.resolve_class(class_name) {
            Err(e) => {
                return Err(e);
            },
            Ok(bytes) => match ClassFile::parse(bytes) {
                Ok(class_file) => class_file,
                Err(e) => {
                    return Err(Error::ClassFile(e));
                },
            },
        };
        let name = match class_file.class_name() {
            Ok(name) => String::from_str(name),
            Err(e) => {
                return Err(Error::ClassFile(e));
            },
        };
        let super_class: Option<ClassId> = match class_file.super_class_name() {
            Err(e) => {
                return Err(Error::ClassFile(e));
            },
            Ok(None) => None,
            Ok(Some(super_class_name)) => {
                if depth == 0 {
                    let mut message = String::from_str("Superclass chain too deep at ");
                    message.append(super_class_name);
                    return Err(Error::ClassLoadError(message));
                }
                match self.load_at_depth(super_class_name, depth - 1) {
                    Ok(id) => Some(id),
                    Err(e) => {
                        return Err(e);
                    },
                }
            },
        };
        let id = self.define_class(name, super_class, class_file)?;
        self.initialize_class(id)?;
        Ok(id)
    }

    /// Finds the bytes of the classfile of `class_name` on the classpath.
    pub fn resolve_class(&self, class_name: &str) -> (r: Result<&[u8], Error>)
        ensures
            match r {
                Ok(bytes) => resolved(self.class_path(), self.files(), class_name@) == Ok::<
                    Seq<u8>,
                    ErrorView,
                >(bytes@),
                Err(e) => resolved(self.class_path(), self.files(), class_name@) == Err::<
                    Seq<u8>,
                    ErrorView,
                >(e@),
            },
    {
        let resource_name = resource_name_of(class_name);
        match self.class_path.find_resource(resource_name.as_str(), &self.files) {
            Lookup::Found(bytes) => Ok(bytes),
            Lookup::Missing => Err(Error::NotFound(resource_name)),
            Lookup::Unread { directory, name } => Err(Error::Unread { directory, name }),
        }
    }

    /// Registers the class that `class_file` describes, under `name` and
    /// with `super_class` as its superclass.
    fn define_class(&mut self, name: String, super_class: Option<ClassId>, class_file: ClassFile)
        -> (r: Result<ClassId, Error>)
        ensures
            final(self).class_path() == old(self).class_path(),
            final(self).files() == old(self).files(),
            final(self).table() == old(self).table(),
            ({
                let defined = old(self).state().defined(class_file@, name@, handle_of(super_class));
                match r {
                    Ok(id) => defined == Ok::<State, ErrorView>(final(self).state())
                        && id == old(self).state().classes.len(),
                    Err(e) => defined == Err::<State, ErrorView>(e@)
                        && final(self).state() == old(self).state(),
                }
            }),
    {
        let methods = methods_of(&class_file)?;
        let class = Class::new(name, super_class, class_file.constant_pool, methods);
        proof {
            lemma_views_push(self.classes@, class);
        }
        self.classes.push(class);
        Ok(self.classes.len() - 1)
    }

    /// Initializes the class `id`. A class that is initialized, or whose
    /// initialization is on record, is not run again. For any other class
    /// the static initializer is run, if the class has one, and the run goes
    /// on record with its steps, also where it fails.
    pub fn initialize_class(&mut self, id: ClassId) -> (r: Result<(), Error>)
        requires
            id < old(self).state().classes.len(),
        ensures
            final(self).class_path() == old(self).class_path(),
            final(self).files() == old(self).files(),
            final(self).table() == old(self).table(),
            ({
                let after = old(self).state().initialized(old(self).table(), id as int);
                &&& final(self).state() == after.state
                &&& match r {
                    Ok(_) => after.outcome == Ok::<nat, ErrorView>(id as nat),
                    Err(e) => after.outcome == Err::<nat, ErrorView>(e@),
                }
            }),
            old(self).state().well_formed() ==> final(self).state() == old(self).state(),
    {
        proof {
            if self.state().well_formed() {
                lemma_initialized_again(self.state(), self.table(), id as int);
            }
        }
        if self.classes[id].is_initialized() {
            return Ok(());
        }
        let ghost before = self.state();
        if id < self.initializations.len() {
            assert(before.initializations[id as int] == self.initializations@[id as int]@);
            return match &self.initializations[id].outcome {
                Ok(_) => {
                    self.classes[id].mark_initialized();
                    assert(self.state().classes =~= before.marked(id as int).classes);
                    Ok(())
                },
                Err(e) => Err(e.duplicate()),
            };
        }
        let run = match self.classes[id].find_method("<clinit>", &[]) {
            None => Traced { steps: Vec::new(), outcome: Ok(()) },
            Some(clinit) => self.invoke(&clinit),
        };
        assert(run@ == before.initializer_run(self.table(), id as int));
        match run.outcome {
            Ok(_) => {
                let initialization = Initialization {
                    class: id,
                    steps: run.steps,
                    outcome: Ok(()),
                };
                proof {
                    lemma_views_push(self.initializations@, initialization);
                }
                self.initializations.push(initialization);
                self.classes[id].mark_initialized();
                assert(self.state().classes =~= before.marked(id as int).classes);
                Ok(())
            },
            Err(e) => {
                let initialization = Initialization {
                    class: id,
                    steps: run.steps,
                    outcome: Err(e.duplicate()),
                };
                proof {
                    lemma_views_push(self.initializations@, initialization);
                }
                self.initializations.push(initialization);
                Err(e)
            },
        }
    }

    /// Loads the class `main_class_name` and runs its method `main`. The
    /// steps decoded before an error come back beside it.
    pub fn run_with_main(&mut self, main_class_name: &str) -> (t: Traced)
        ensures
            final(self).class_path() == old(self).class_path(),
            final(self).files() == old(self).files(),
            final(self).table() == old(self).table(),
            final(self).state() == old(self).load_outcome(main_class_name@).state,
            old(self).state().well_formed() ==> final(self).state().well_formed(),
            t@ == main_run(
                final(self).state(),
                old(self).table(),
                old(self).load_outcome(main_class_name@).outcome,
            ),
    {
        let class_id = match self.load_class(main_class_name) {
            Ok(class_id) => class_id,
            Err(e) => {
                return Traced { steps: Vec::new(), outcome: Err(e) };
            },
        };
        match self.classes[class_id].find_method("main", &[]) {
            None => Traced {
                steps: Vec::new(),
                outcome: Err(Error::NoSuchMethod(String::from_str("main"))),
            },
            Some(main) => self.invoke(&main),
        }
    }
}

/// Whether `r` is the outcome `expected`, its texts taken as sequences.
pub open spec fn is_outcome(r: Result<ClassId, Error>, expected: Result<nat, ErrorView>) -> bool {
    match r {
        Ok(id) => expected == Ok::<nat, ErrorView>(id as nat),
        Err(e) => expected == Err::<nat, ErrorView>(e@),
    }
}

} // verus!

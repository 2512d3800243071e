use jay::bytecode::table::standard;
use jay::bytecode::Builder;
use jay::bytecode::Format;
use jay::bytes::Endianness;
use jay::class_path::ClassPath;
use jay::class_path::Files;
use jay::class_path::Lookup;
use jay::bytecode::BytecodeStream;
use jay::classfile::AccessFlags;
use jay::classfile::Attributes;
use jay::classfile::CodeAttribute;
use jay::jimage::Archive;
use jay::runtime::resource_name_of;
use jay::runtime::trace;
use jay::runtime::Frame;
use jay::runtime::MethodBody;
use jay::runtime::PrimitiveType;
use jay::runtime::Runtime;
use jay::runtime::Traced;
use jay::runtime::Type;
use jay::runtime::MAX_DEPTH;
use jay::Error;

struct Entry {
    module: String,
    parent: String,
    base: String,
    extension: String,
    content: Vec<u8>,
}

fn path_of(e: &Entry) -> String {
    let mut path = String::new();
    if !e.module.is_empty() {
        path.push('/');
        path.push_str(&e.module);
        path.push('/');
    }
    if !e.parent.is_empty() {
        path.push_str(&e.parent);
        path.push('/');
    }
    path.push_str(&e.base);
    if !e.extension.is_empty() {
        path.push('.');
        path.push_str(&e.extension);
    }
    path
}

fn reference_hash(data: &[u8], seed: i32) -> i32 {
    let mut state = seed as u32;
    for b in data {
        state = state.wrapping_mul(0x0100_0193) ^ (*b as u32);
    }
    (state & 0x7fff_ffff) as i32
}

fn put_u32(out: &mut Vec<u8>, v: u32, big: bool) {
    if big {
        out.extend_from_slice(&v.to_be_bytes());
    } else {
        out.extend_from_slice(&v.to_le_bytes());
    }
}

fn put_attribute(out: &mut Vec<u8>, kind: u8, value: u64) {
    if value == 0 {
        return;
    }
    let bytes = value.to_be_bytes();
    let skip = bytes.iter().take_while(|b| **b == 0).count();
    let width = 8 - skip;
    out.push((kind << 3) | (width as u8 - 1));
    out.extend_from_slice(&bytes[skip..]);
}

/// Lays out an archive of the given entries, with a perfect hash over them.
fn build(entries: &[Entry], big: bool) -> Vec<u8> {
    let n = entries.len();
    let mut strings: Vec<u8> = vec![0];
    let intern = |s: &str, strings: &mut Vec<u8>| -> u64 {
        if s.is_empty() {
            return 0;
        }
        let at = strings.len() as u64;
        strings.extend_from_slice(s.as_bytes());
        strings.push(0);
        at
    };
    let mut payload: Vec<u8> = Vec::new();
    let mut streams: Vec<Vec<u8>> = Vec::new();
    for e in entries {
        let mut stream = Vec::new();
        put_attribute(&mut stream, 1, intern(&e.module, &mut strings));
        put_attribute(&mut stream, 2, intern(&e.parent, &mut strings));
        put_attribute(&mut stream, 3, intern(&e.base, &mut strings));
        put_attribute(&mut stream, 4, intern(&e.extension, &mut strings));
        put_attribute(&mut stream, 5, payload.len() as u64);
        put_attribute(&mut stream, 7, e.content.len() as u64);
        stream.push(0);
        payload.extend_from_slice(&e.content);
        streams.push(stream);
    }
    // the perfect hash: slot_of_entry[i] is the slot of entry i
    let paths: Vec<String> = entries.iter().map(path_of).collect();
    let mut buckets: Vec<Vec<usize>> = vec![Vec::new(); n];
    for (i, p) in paths.iter().enumerate() {
        buckets[(reference_hash(p.as_bytes(), 0x0100_0193) as usize) % n].push(i);
    }
    let mut redirect: Vec<i32> = vec![0; n];
    let mut slot_entry: Vec<Option<usize>> = vec![None; n];
    let mut order: Vec<usize> = (0..n).collect();
    order.sort_by_key(|b| std::cmp::Reverse(buckets[*b].len()));
    for b in order {
        let members = &buckets[b];
        if members.len() > 1 {
            let mut seed = 1;
            loop {
                let slots: Vec<usize> = members
                    .iter()
                    .map(|i| (reference_hash(paths[*i].as_bytes(), seed) as usize) % n)
                    .collect();
                let mut distinct = slots.clone();
                distinct.sort();
                distinct.dedup();
                if distinct.len() == slots.len() && slots.iter().all(|s| slot_entry[*s].is_none()) {
                    for (i, s) in members.iter().zip(slots.iter()) {
                        slot_entry[*s] = Some(*i);
                    }
                    redirect[b] = seed;
                    break;
                }
                seed += 1;
            }
        } else if members.len() == 1 {
            let free = slot_entry.iter().position(|s| s.is_none()).unwrap();
            slot_entry[free] = Some(members[0]);
            redirect[b] = -1 - free as i32;
        }
    }
    let mut attribute_data: Vec<u8> = Vec::new();
    let mut offsets: Vec<u32> = vec![0; n];
    for slot in 0..n {
        offsets[slot] = attribute_data.len() as u32;
        attribute_data.extend_from_slice(&streams[slot_entry[slot].unwrap()]);
    }
    let mut out = Vec::new();
    put_u32(&mut out, 0xCAFE_DADA, big);
    put_u32(&mut out, 1 << 16, big);
    put_u32(&mut out, 0, big);
    put_u32(&mut out, n as u32, big);
    put_u32(&mut out, n as u32, big);
    put_u32(&mut out, attribute_data.len() as u32, big);
    put_u32(&mut out, strings.len() as u32, big);
    for v in &redirect {
        put_u32(&mut out, *v as u32, big);
    }
    for v in &offsets {
        put_u32(&mut out, *v, big);
    }
    out.extend_from_slice(&attribute_data);
    out.extend_from_slice(&strings);
    out.extend_from_slice(&payload);
    out
}


/// A method to put into a classfile: name, flags, and code if it has any.
struct MethodSpec {
    name: &'static str,
    flags: u16,
    code: Option<Vec<u8>>,
}

fn utf8(pool: &mut Vec<u8>, count: &mut u16, text: &str) -> u16 {
    pool.push(1);
    pool.extend_from_slice(&(text.len() as u16).to_be_bytes());
    pool.extend_from_slice(text.as_bytes());
    *count += 1;
    *count - 1
}

fn class_ref(pool: &mut Vec<u8>, count: &mut u16, name: &str) -> u16 {
    let name_index = utf8(pool, count, name);
    pool.push(7);
    pool.extend_from_slice(&name_index.to_be_bytes());
    *count += 1;
    *count - 1
}

/// Assembles a classfile of the given name, superclass and methods.
fn class_bytes(name: &str, super_name: Option<&str>, methods: &[MethodSpec]) -> Vec<u8> {
    let mut pool = Vec::new();
    let mut count: u16 = 1;
    let this_class = class_ref(&mut pool, &mut count, name);
    let super_class = match super_name {
        Some(s) => class_ref(&mut pool, &mut count, s),
        None => 0,
    };
    let code_name = utf8(&mut pool, &mut count, "Code");
    let descriptor = utf8(&mut pool, &mut count, "()V");
    let names: Vec<u16> = methods.iter().map(|m| utf8(&mut pool, &mut count, m.name)).collect();
    let mut out = vec![0xca, 0xfe, 0xba, 0xbe, 0, 0, 0, 61];
    out.extend_from_slice(&count.to_be_bytes());
    out.extend_from_slice(&pool);
    out.extend_from_slice(&0x0021u16.to_be_bytes());
    out.extend_from_slice(&this_class.to_be_bytes());
    out.extend_from_slice(&super_class.to_be_bytes());
    out.extend_from_slice(&[0, 0, 0, 0]);
    out.extend_from_slice(&(methods.len() as u16).to_be_bytes());
    for (m, name_index) in methods.iter().zip(names.iter()) {
        out.extend_from_slice(&m.flags.to_be_bytes());
        out.extend_from_slice(&name_index.to_be_bytes());
        out.extend_from_slice(&descriptor.to_be_bytes());
        match &m.code {
            None => out.extend_from_slice(&[0, 0]),
            Some(code) => {
                out.extend_from_slice(&[0, 1]);
                out.extend_from_slice(&code_name.to_be_bytes());
                out.extend_from_slice(&(12 + code.len() as u32).to_be_bytes());
                out.extend_from_slice(&[0, 2, 0, 1]);
                out.extend_from_slice(&(code.len() as u32).to_be_bytes());
                out.extend_from_slice(code);
                out.extend_from_slice(&[0, 0, 0, 0]);
            }
        }
    }
    out.extend_from_slice(&[0, 0]);
    out
}

fn entry(parent: &str, base: &str, content: Vec<u8>) -> Entry {
    Entry {
        module: String::from("java.base"),
        parent: String::from(parent),
        base: String::from(base),
        extension: String::from("class"),
        content,
    }
}

fn object_class() -> Vec<u8> {
    class_bytes(
        "java/lang/Object",
        None,
        &[
            MethodSpec { name: "<clinit>", flags: 0x0008, code: Some(vec![0x01]) },
            MethodSpec { name: "hashCode", flags: 0x0101, code: None },
        ],
    )
}

fn main_class() -> Vec<u8> {
    class_bytes(
        "com/example/Main",
        Some("java/lang/Object"),
        &[
            MethodSpec { name: "<clinit>", flags: 0x0008, code: Some(vec![0x12, 0x07]) },
            MethodSpec { name: "main", flags: 0x0009, code: Some(vec![0xB2, 0x00, 0x10, 0x19, 0x01]) },
            MethodSpec { name: "main", flags: 0x0009, code: Some(vec![0x01]) },
        ],
    )
}

fn record(runtime: &mut Runtime, directory: &str, name: &str, content: Option<Vec<u8>>) {
    runtime.record_file(String::from(directory), String::from(name), content);
}

#[test]
fn resource_names_use_slashes() {
    assert_eq!(resource_name_of("com.example.Main"), "com/example/Main.class");
    assert_eq!(resource_name_of("Main"), "Main.class");
    assert_eq!(resource_name_of(""), ".class");
    assert_eq!(resource_name_of("a..b/c"), "a//b/c.class");
    assert_eq!(resource_name_of("\u{e9}.\u{3b1}"), "\u{e9}/\u{3b1}.class");
}

#[test]
fn sequence_gives_the_first_match() {
    let bytes = build(&[entry("com/example", "Main", b"from archive".to_vec())], false);
    let archive = Archive::parse_as(&bytes, Endianness::Little).unwrap();
    let class_path = ClassPath::Composite(vec![
        ClassPath::JImage(archive),
        ClassPath::Directory(String::from("./classes")),
    ]);
    let mut files = Files::new();
    files.record(
        String::from("./classes"),
        String::from("com/example/Main.class"),
        Some(b"from directory".to_vec()),
    );
    files.record(
        String::from("./classes"),
        String::from("com/example/Other.class"),
        Some(b"other".to_vec()),
    );
    files.record(String::from("./classes"), String::from("com/example/Gone.class"), None);
    files.record(
        String::from("./classes"),
        String::from("com/example/Gone.class"),
        Some(b"later".to_vec()),
    );
    match class_path.find_resource("com/example/Main.class", &files) {
        Lookup::Found(found) => assert_eq!(found, b"from archive"),
        other => panic!("unexpected: {:?}", other),
    }
    match class_path.find_resource("com/example/Other.class", &files) {
        Lookup::Found(found) => assert_eq!(found, b"other"),
        other => panic!("unexpected: {:?}", other),
    }
    assert!(matches!(
        class_path.find_resource("com/example/Gone.class", &files),
        Lookup::Missing
    ));
    match class_path.find_resource("com/example/Unknown.class", &files) {
        Lookup::Unread { directory, name } => {
            assert_eq!(directory, "./classes");
            assert_eq!(name, "com/example/Unknown.class");
        }
        other => panic!("unexpected: {:?}", other),
    }
}

#[test]
fn order_of_the_parts_decides() {
    let bytes = build(&[entry("com/example", "Main", b"from archive".to_vec())], false);
    let archive = Archive::parse_as(&bytes, Endianness::Little).unwrap();
    let class_path = ClassPath::Composite(vec![
        ClassPath::Directory(String::from("classes")),
        ClassPath::Composite(vec![]),
        ClassPath::Composite(vec![ClassPath::JImage(archive)]),
    ]);
    let mut files = Files::new();
    assert!(matches!(
        class_path.find_resource("com/example/Main.class", &files),
        Lookup::Unread { .. }
    ));
    files.record(String::from("classes"), String::from("com/example/Main.class"), None);
    match class_path.find_resource("com/example/Main.class", &files) {
        Lookup::Found(found) => assert_eq!(found, b"from archive"),
        other => panic!("unexpected: {:?}", other),
    }
    files.record(String::from("classes"), String::from("x/Y.class"), Some(vec![1, 2]));
    match class_path.find_resource("x/Y.class", &files) {
        Lookup::Found(found) => assert_eq!(found, [1, 2]),
        other => panic!("unexpected: {:?}", other),
    }
    assert!(matches!(files.get("classes", "x/Y.class"), Some(Some(b)) if b == [1, 2]));
    assert!(matches!(files.get("classes", "com/example/Main.class"), Some(None)));
    assert!(files.get("other", "x/Y.class").is_none());
    assert!(matches!(ClassPath::Composite(vec![]).find_resource("x", &files), Lookup::Missing));
}

#[test]
fn loads_class_and_superclass() {
    let bytes = build(&[entry("java/lang", "Object", object_class())], false);
    let archive = Archive::parse_as(&bytes, Endianness::Little).unwrap();
    let mut runtime = Runtime::new(ClassPath::Composite(vec![
        ClassPath::JImage(archive),
        ClassPath::Directory(String::from("classes")),
    ]));
    match runtime.load_class("com.example.Main") {
        Err(Error::Unread { directory, name }) => {
            assert_eq!(directory, "classes");
            assert_eq!(name, "com/example/Main.class");
        }
        other => panic!("unexpected: {:?}", other),
    }
    assert_eq!(runtime.class_count(), 0);
    record(&mut runtime, "classes", "com/example/Main.class", Some(main_class()));
    let main = runtime.load_class("com.example.Main").unwrap();
    assert_eq!(runtime.class_count(), 2);
    assert_eq!(main, 1);
    let object = runtime.class(0).unwrap();
    assert_eq!(object.name(), "java/lang/Object");
    assert_eq!(object.super_class(), None);
    assert!(object.is_initialized());
    let loaded = runtime.class(main).unwrap();
    assert_eq!(loaded.name(), "com/example/Main");
    assert_eq!(loaded.super_class(), Some(0));
    assert!(loaded.is_initialized());
    assert!(loaded.constant_pool().len() > 1);
    assert!(runtime.class(2).is_none());
    // the superclass was initialized first, each class once
    let initializations = runtime.initializations();
    assert_eq!(initializations.len(), 2);
    assert_eq!(initializations[0].class, 0);
    assert_eq!(initializations[1].class, 1);
    let lines: Vec<String> =
        initializations[0].steps.iter().map(|s| s.bytecode.trace_line(s.pc)).collect();
    assert_eq!(lines, vec!["   0: aconst_null"]);
    let lines: Vec<String> =
        initializations[1].steps.iter().map(|s| s.bytecode.trace_line(s.pc)).collect();
    assert_eq!(lines, vec!["   0: ldc           #7"]);
}

#[test]
fn each_load_defines_anew() {
    let bytes = build(
        &[entry("java/lang", "Object", object_class()), entry("com/example", "Main", main_class())],
        false,
    );
    let archive = Archive::parse_as(&bytes, Endianness::Little).unwrap();
    let mut runtime = Runtime::new(ClassPath::JImage(archive));
    assert_eq!(runtime.load_class("com.example.Main").unwrap(), 1);
    assert_eq!(runtime.load_class("com.example.Main").unwrap(), 3);
    assert_eq!(runtime.load_class("java.lang.Object").unwrap(), 4);
    assert_eq!(runtime.class_count(), 5);
    assert_eq!(runtime.class(3).unwrap().super_class(), Some(2));
    let order: Vec<usize> = runtime.initializations().iter().map(|i| i.class).collect();
    assert_eq!(order, vec![0, 1, 2, 3, 4]);
}

#[test]
fn runs_main_as_a_trace() {
    let bytes = build(
        &[entry("java/lang", "Object", object_class()), entry("com/example", "Main", main_class())],
        false,
    );
    let archive = Archive::parse_as(&bytes, Endianness::Little).unwrap();
    let mut runtime = Runtime::new(ClassPath::JImage(archive));
    let run = runtime.run_with_main("com.example.Main");
    assert_eq!(run.outcome, Ok(()));
    let steps = run.steps;
    let lines: Vec<String> = steps.iter().map(|s| s.bytecode.trace_line(s.pc)).collect();
    assert_eq!(lines, vec!["   0: getstatic     #16", "   3: aload         #1"]);
    let run = runtime.run_with_main("java.lang.Object");
    assert_eq!(run.outcome, Err(Error::NoSuchMethod(String::from("main"))));
    assert!(run.steps.is_empty());
    let run = runtime.run_with_main("no.such.Class");
    assert_eq!(run.outcome, Err(Error::NotFound(String::from("no/such/Class.class"))));
    assert!(run.steps.is_empty());
    let class = runtime.class(1).unwrap();
    let main = class.find_method("main", &[]).unwrap();
    assert_eq!(main.name(), "main");
    assert!(matches!(main.body(), MethodBody::Code(code) if code.code.len() == 5));
    let run = runtime.invoke(&main);
    assert_eq!(run.outcome, Ok(()));
    assert_eq!(run.steps.len(), 2);
    assert!(class.find_method("absent", &[]).is_none());
    let object = runtime.class(0).unwrap();
    let native = object.find_method("hashCode", &[]).unwrap();
    assert!(matches!(native.body(), MethodBody::Native));
    let run = runtime.invoke(&native);
    assert_eq!(run.outcome, Err(Error::NativeMethod(String::from("hashCode"))));
    assert!(run.steps.is_empty());
}

#[test]
fn code_that_ends_within_an_instruction_ends_the_trace() {
    let class = class_bytes(
        "T",
        None,
        &[MethodSpec { name: "main", flags: 9, code: Some(vec![0x01, 0xB2, 0x00]) }],
    );
    let mut runtime = Runtime::new(ClassPath::Directory(String::from("d")));
    record(&mut runtime, "d", "T.class", Some(class));
    let run = runtime.run_with_main("T");
    assert_eq!(run.outcome, Ok(()));
    let steps = run.steps;
    assert_eq!(steps.len(), 1);
    assert_eq!(steps[0].pc, 0);
    assert_eq!(steps[0].bytecode.mnemonic, "aconst_null");
}

#[test]
fn missing_class_is_reported_by_resource() {
    let bytes = build(&[entry("java/lang", "Object", object_class())], false);
    let archive = Archive::parse_as(&bytes, Endianness::Little).unwrap();
    let mut runtime = Runtime::new(ClassPath::JImage(archive));
    match runtime.load_class("com.example.Main") {
        Err(Error::NotFound(resource)) => assert_eq!(resource, "com/example/Main.class"),
        other => panic!("unexpected: {:?}", other),
    }
    assert_eq!(runtime.class_count(), 0);
    assert!(matches!(runtime.resolve_class("java.lang.Object"), Ok(b) if b == object_class()));
}

#[test]
fn missing_superclass_fails_the_load() {
    let mut runtime = Runtime::new(ClassPath::Directory(String::from("d")));
    record(&mut runtime, "d", "com/example/Main.class", Some(main_class()));
    record(&mut runtime, "d", "java/lang/Object.class", None);
    match runtime.load_class("com.example.Main") {
        Err(Error::NotFound(resource)) => assert_eq!(resource, "java/lang/Object.class"),
        other => panic!("unexpected: {:?}", other),
    }
    assert_eq!(runtime.class_count(), 0);
}

#[test]
fn method_without_body_fails_the_load() {
    let class = class_bytes(
        "A",
        Some("java/lang/Object"),
        &[
            MethodSpec { name: "fine", flags: 1, code: Some(vec![0x01]) },
            MethodSpec { name: "hollow", flags: 0x0401, code: None },
        ],
    );
    let mut runtime = Runtime::new(ClassPath::Directory(String::from("d")));
    record(&mut runtime, "d", "A.class", Some(class));
    record(&mut runtime, "d", "java/lang/Object.class", Some(object_class()));
    match runtime.load_class("A") {
        Err(Error::ClassLoadError(message)) => {
            assert_eq!(message, "No method body found for hollow")
        }
        other => panic!("unexpected: {:?}", other),
    }
    // the superclass was loaded before the class was found wanting
    assert_eq!(runtime.class_count(), 1);
    assert!(runtime.class(0).unwrap().is_initialized());
    assert_eq!(runtime.initializations().len(), 1);
}

#[test]
fn initializer_that_does_not_decode_fails_the_load() {
    let class = class_bytes(
        "B",
        None,
        &[MethodSpec { name: "<clinit>", flags: 8, code: Some(vec![0x01, 0xB1]) }],
    );
    let mut runtime = Runtime::new(ClassPath::Directory(String::from("d")));
    record(&mut runtime, "d", "B.class", Some(class.clone()));
    assert_eq!(
        runtime.load_class("B"),
        Err(Error::Bytecode(jay::bytecode::Error::UnknownBytecode(0xB1)))
    );
    assert_eq!(runtime.class_count(), 1);
    assert!(!runtime.class(0).unwrap().is_initialized());
    // the step before the opcode that does not decode is on record
    let failed = &runtime.initializations()[0];
    assert_eq!(failed.class, 0);
    assert_eq!(
        failed.outcome,
        Err(Error::Bytecode(jay::bytecode::Error::UnknownBytecode(0xB1)))
    );
    let lines: Vec<String> = failed.steps.iter().map(|s| s.bytecode.trace_line(s.pc)).collect();
    assert_eq!(lines, vec!["   0: aconst_null"]);
    // the initializer is not run a second time
    assert_eq!(
        runtime.initialize_class(0),
        Err(Error::Bytecode(jay::bytecode::Error::UnknownBytecode(0xB1)))
    );
    assert_eq!(runtime.initializations().len(), 1);
    assert!(!runtime.class(0).unwrap().is_initialized());
    // with a table that declares the opcode the same class loads
    let table = Builder { table: standard() }.build(0xB1, "return", Format::NoIndex).table;
    let mut runtime = Runtime::with_table(ClassPath::Directory(String::from("d")), table);
    record(&mut runtime, "d", "B.class", Some(class));
    assert_eq!(runtime.load_class("B"), Ok(0));
    let lines: Vec<String> = runtime.initializations()[0]
        .steps
        .iter()
        .map(|s| s.bytecode.trace_line(s.pc))
        .collect();
    assert_eq!(lines, vec!["   0: aconst_null", "   1: return"]);
}

#[test]
fn native_initializer_cannot_be_run() {
    let class =
        class_bytes("N", None, &[MethodSpec { name: "<clinit>", flags: 0x0108, code: None }]);
    let mut runtime = Runtime::new(ClassPath::Directory(String::from("d")));
    record(&mut runtime, "d", "N.class", Some(class));
    match runtime.load_class("N") {
        Err(Error::NativeMethod(name)) => assert_eq!(name, "<clinit>"),
        other => panic!("unexpected: {:?}", other),
    }
    assert!(!runtime.class(0).unwrap().is_initialized());
}

#[test]
fn class_without_initializer_is_initialized_with_an_empty_trace() {
    let class = class_bytes("P", None, &[]);
    let mut runtime = Runtime::new(ClassPath::Directory(String::from("d")));
    record(&mut runtime, "d", "P.class", Some(class));
    assert_eq!(runtime.load_class("P"), Ok(0));
    assert!(runtime.class(0).unwrap().is_initialized());
    assert!(runtime.initializations()[0].steps.is_empty());
}

#[test]
fn classfile_errors_are_passed_on() {
    let mut runtime = Runtime::new(ClassPath::Directory(String::from("d")));
    record(&mut runtime, "d", "Bad.class", Some(vec![0xca, 0xfe, 0xba, 0xbf]));
    match runtime.load_class("Bad") {
        Err(Error::ClassFile(jay::classfile::Error::ReadError(message, 4))) => {
            assert_eq!(message, "Invalid magic identifier: 0xCAFEBABF")
        }
        other => panic!("unexpected: {:?}", other),
    }
    record(&mut runtime, "d", "Short.class", Some(vec![0xca, 0xfe]));
    assert_eq!(
        runtime.load_class("Short"),
        Err(Error::ClassFile(jay::classfile::Error::IO(jay::io::IoError::UnexpectedEof)))
    );
}

#[test]
fn endless_chain_of_superclasses_is_cut() {
    let class = class_bytes("Loop", Some("Loop"), &[]);
    let mut runtime = Runtime::new(ClassPath::Directory(String::from("d")));
    record(&mut runtime, "d", "Loop.class", Some(class));
    match runtime.load_class("Loop") {
        Err(Error::ClassLoadError(message)) => {
            assert_eq!(message, "Superclass chain too deep at Loop")
        }
        other => panic!("unexpected: {:?}", other),
    }
    assert_eq!(runtime.class_count(), 0);
    assert_eq!(MAX_DEPTH, 1024);
}

#[test]
fn native_flag_decides_over_code() {
    let class = class_bytes(
        "Q",
        None,
        &[MethodSpec { name: "both", flags: AccessFlags::NATIVE, code: Some(vec![0x01]) }],
    );
    let mut runtime = Runtime::new(ClassPath::Directory(String::from("d")));
    record(&mut runtime, "d", "Q.class", Some(class));
    let id = runtime.load_class("Q").unwrap();
    let class = runtime.class(id).unwrap();
    assert!(matches!(class.find_method("both", &[]).unwrap().body(), MethodBody::Native));
}

#[test]
fn parameter_types_do_not_narrow_the_search() {
    let mut runtime = Runtime::new(ClassPath::Directory(String::from("d")));
    record(&mut runtime, "d", "com/example/Main.class", Some(main_class()));
    record(&mut runtime, "d", "java/lang/Object.class", Some(object_class()));
    let id = runtime.load_class("com.example.Main").unwrap();
    let class = runtime.class(id).unwrap();
    let plain = class.find_method("main", &[]).unwrap();
    let typed = class.find_method("main", &[Type::Primitive(PrimitiveType::Void)]).unwrap();
    assert!(matches!(plain.body(), MethodBody::Code(code) if code.code.len() == 5));
    assert!(matches!(typed.body(), MethodBody::Code(code) if code.code.len() == 5));
}

#[test]
fn body_that_is_absent_gives_an_empty_trace() {
    let run = MethodBody::Absent.invoke("m", &standard());
    assert_eq!(run, Traced { steps: vec![], outcome: Ok(()) });
    let run = MethodBody::Native.invoke("m", &standard());
    assert_eq!(
        run,
        Traced { steps: vec![], outcome: Err(Error::NativeMethod(String::from("m"))) }
    );
}

#[test]
fn errors_of_the_parts_are_embedded() {
    assert_eq!(
        Error::from(jay::io::IoError::UnexpectedEof),
        Error::IOError(jay::io::IoError::UnexpectedEof)
    );
    assert_eq!(
        Error::from(jay::classfile::Error::ConstantNotFound(3)),
        Error::ClassFile(jay::classfile::Error::ConstantNotFound(3))
    );
    assert_eq!(
        Error::from(jay::bytecode::Error::UnknownBytecode(3)),
        Error::Bytecode(jay::bytecode::Error::UnknownBytecode(3))
    );
    assert_eq!(
        Error::from(jay::jimage::Error::IO(jay::io::IoError::UnexpectedEof)),
        Error::JImageError(jay::jimage::Error::IO(jay::io::IoError::UnexpectedEof))
    );
}

#[test]
fn frame_walks_the_code() {
    let code = CodeAttribute {
        max_stack: 0,
        max_locals: 0,
        code: vec![0x12, 0x07, 0x01, 0xB2, 0x01, 0x00, 0xff],
        exception_table: vec![],
        attributes: Attributes::new(vec![]),
    };
    let table = standard();
    let mut frame = Frame::new(&code);
    assert_eq!(frame.pc(), 0);
    assert_eq!(frame.step(&table).unwrap().unwrap().index, Some(7));
    assert_eq!(frame.pc(), 2);
    assert_eq!(frame.step(&table).unwrap().unwrap().mnemonic, "aconst_null");
    assert_eq!(frame.pc(), 3);
    assert_eq!(frame.step(&table).unwrap().unwrap().index, Some(256));
    assert_eq!(frame.pc(), 6);
    assert_eq!(frame.step(&table), Err(jay::bytecode::Error::UnknownBytecode(0xff)));
    assert_eq!(frame.pc(), 6);
    let run = trace(&code, &table);
    assert_eq!(run.outcome, Err(Error::Bytecode(jay::bytecode::Error::UnknownBytecode(0xff))));
    let offsets: Vec<usize> = run.steps.iter().map(|s| s.pc).collect();
    assert_eq!(offsets, vec![0, 2, 3]);
    // as a byte source
    let mut frame = Frame::new(&code);
    assert_eq!(frame.read_u8(), Ok(0x12));
    assert_eq!(frame.pc(), 1);
    assert_eq!(frame.next(&table).map(|_| ()), Err(jay::bytecode::Error::UnknownBytecode(0x07)));
    assert_eq!(frame.next(&table).unwrap().unwrap().mnemonic, "aconst_null");
    let mut frame = Frame::new(&code);
    for _ in 0..7 {
        assert!(frame.read_u8().is_ok());
    }
    assert_eq!(frame.read_u8(), Err(jay::io::IoError::UnexpectedEof));
    assert_eq!(frame.pc(), 7);
    assert!(frame.step(&table).unwrap().is_none());
}

#[test]
fn steps_before_a_fatal_opcode_are_kept() {
    let code = CodeAttribute {
        max_stack: 0,
        max_locals: 0,
        code: vec![0x01, 0xFF],
        exception_table: vec![],
        attributes: Attributes::new(vec![]),
    };
    let run = MethodBody::Code(code).invoke("m", &standard());
    assert_eq!(run.outcome, Err(Error::Bytecode(jay::bytecode::Error::UnknownBytecode(0xFF))));
    assert_eq!(run.steps.len(), 1);
    assert_eq!(run.steps[0].pc, 0);
    assert_eq!(run.steps[0].bytecode.mnemonic, "aconst_null");

    let class = class_bytes(
        "M",
        None,
        &[MethodSpec { name: "main", flags: 9, code: Some(vec![0x12, 0x07, 0x01, 0xFF, 0x01]) }],
    );
    let mut runtime = Runtime::new(ClassPath::Directory(String::from("d")));
    record(&mut runtime, "d", "M.class", Some(class));
    let run = runtime.run_with_main("M");
    assert_eq!(run.outcome, Err(Error::Bytecode(jay::bytecode::Error::UnknownBytecode(0xFF))));
    let lines: Vec<String> = run.steps.iter().map(|s| s.bytecode.trace_line(s.pc)).collect();
    assert_eq!(lines, vec!["   0: ldc           #7", "   2: aconst_null"]);
}

#[test]
fn initializer_runs_once_for_each_handle() {
    let mut runtime = Runtime::new(ClassPath::Directory(String::from("d")));
    record(&mut runtime, "d", "com/example/Main.class", Some(main_class()));
    record(&mut runtime, "d", "java/lang/Object.class", Some(object_class()));
    let id = runtime.load_class("com.example.Main").unwrap();
    assert_eq!(runtime.initializations().len(), 2);
    assert_eq!(runtime.initialize_class(id), Ok(()));
    assert_eq!(runtime.initialize_class(0), Ok(()));
    assert_eq!(runtime.initializations().len(), 2);
    assert!(runtime.class(id).unwrap().is_initialized());
    assert_eq!(runtime.initializations()[0].outcome, Ok(()));
    assert_eq!(runtime.initializations()[1].outcome, Ok(()));
    assert_eq!(Error::NotFound(String::from("x")).duplicate(), Error::NotFound(String::from("x")));
}

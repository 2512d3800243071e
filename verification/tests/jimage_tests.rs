use jay::bytes::Endianness;
use jay::io::IoError;
use jay::jimage::hash;
use jay::jimage::hash_bytes;
use jay::jimage::parse_attributes;
use jay::jimage::Archive;
use jay::jimage::AttributeKind;
use jay::jimage::Error;
use jay::jimage::Header;
use jay::jimage::HASH_MULTIPLIER;

struct Entry {
    module: &'static str,
    parent: &'static str,
    base: &'static str,
    extension: &'static str,
    content: &'static [u8],
}

fn path_of(e: &Entry) -> String {
    let mut path = String::new();
    if !e.module.is_empty() {
        path.push('/');
        path.push_str(e.module);
        path.push('/');
    }
    if !e.parent.is_empty() {
        path.push_str(e.parent);
        path.push('/');
    }
    path.push_str(e.base);
    if !e.extension.is_empty() {
        path.push('.');
        path.push_str(e.extension);
    }
    path
}

fn reference_hash(data: &[u8], seed: i32) -> i32 {
    let mut state = seed as u32;
    for b in data {
        state = state.wrapping_mul(0x0100_0193) ^ (*b as u32);
    }
    (state & 0x7fff_ffff) as i32
}

fn put_u32(out: &mut Vec<u8>, v: u32, big: bool) {
    if big {
        out.extend_from_slice(&v.to_be_bytes());
    } else {
        out.extend_from_slice(&v.to_le_bytes());
    }
}

fn put_attribute(out: &mut Vec<u8>, kind: u8, value: u64) {
    if value == 0 {
        return;
    }
    let bytes = value.to_be_bytes();
    let skip = bytes.iter().take_while(|b| **b == 0).count();
    let width = 8 - skip;
    out.push((kind << 3) | (width as u8 - 1));
    out.extend_from_slice(&bytes[skip..]);
}

/// Lays out an archive of the given entries, with a perfect hash over them.
fn build(entries: &[Entry], big: bool) -> Vec<u8> {
    let n = entries.len();
    let mut strings: Vec<u8> = vec![0];
    let intern = |s: &str, strings: &mut Vec<u8>| -> u64 {
        if s.is_empty() {
            return 0;
        }
        let at = strings.len() as u64;
        strings.extend_from_slice(s.as_bytes());
        strings.push(0);
        at
    };
    let mut payload: Vec<u8> = Vec::new();
    let mut streams: Vec<Vec<u8>> = Vec::new();
    for e in entries {
        let mut stream = Vec::new();
        put_attribute(&mut stream, 1, intern(e.module, &mut strings));
        put_attribute(&mut stream, 2, intern(e.parent, &mut strings));
        put_attribute(&mut stream, 3, intern(e.base, &mut strings));
        put_attribute(&mut stream, 4, intern(e.extension, &mut strings));
        put_attribute(&mut stream, 5, payload.len() as u64);
        put_attribute(&mut stream, 7, e.content.len() as u64);
        stream.push(0);
        payload.extend_from_slice(e.content);
        streams.push(stream);
    }
    // the perfect hash: slot_of_entry[i] is the slot of entry i
    let paths: Vec<String> = entries.iter().map(path_of).collect();
    let mut buckets: Vec<Vec<usize>> = vec![Vec::new(); n];
    for (i, p) in paths.iter().enumerate() {
        buckets[(reference_hash(p.as_bytes(), 0x0100_0193) as usize) % n].push(i);
    }
    let mut redirect: Vec<i32> = vec![0; n];
    let mut slot_entry: Vec<Option<usize>> = vec![None; n];
    let mut order: Vec<usize> = (0..n).collect();
    order.sort_by_key(|b| std::cmp::Reverse(buckets[*b].len()));
    for b in order {
        let members = &buckets[b];
        if members.len() > 1 {
            let mut seed = 1;
            loop {
                let slots: Vec<usize> = members
                    .iter()
                    .map(|i| (reference_hash(paths[*i].as_bytes(), seed) as usize) % n)
                    .collect();
                let mut distinct = slots.clone();
                distinct.sort();
                distinct.dedup();
                if distinct.len() == slots.len() && slots.iter().all(|s| slot_entry[*s].is_none()) {
                    for (i, s) in members.iter().zip(slots.iter()) {
                        slot_entry[*s] = Some(*i);
                    }
                    redirect[b] = seed;
                    break;
                }
                seed += 1;
            }
        } else if members.len() == 1 {
            let free = slot_entry.iter().position(|s| s.is_none()).unwrap();
            slot_entry[free] = Some(members[0]);
            redirect[b] = -1 - free as i32;
        }
    }
    let mut attribute_data: Vec<u8> = Vec::new();
    let mut offsets: Vec<u32> = vec![0; n];
    for slot in 0..n {
        offsets[slot] = attribute_data.len() as u32;
        attribute_data.extend_from_slice(&streams[slot_entry[slot].unwrap()]);
    }
    let mut out = Vec::new();
    put_u32(&mut out, 0xCAFE_DADA, big);
    put_u32(&mut out, 1 << 16, big);
    put_u32(&mut out, 0, big);
    put_u32(&mut out, n as u32, big);
    put_u32(&mut out, n as u32, big);
    put_u32(&mut out, attribute_data.len() as u32, big);
    put_u32(&mut out, strings.len() as u32, big);
    for v in &redirect {
        put_u32(&mut out, *v as u32, big);
    }
    for v in &offsets {
        put_u32(&mut out, *v, big);
    }
    out.extend_from_slice(&attribute_data);
    out.extend_from_slice(&strings);
    out.extend_from_slice(&payload);
    out
}

fn entries() -> Vec<Entry> {
    vec![
        Entry { module: "java.base", parent: "java/lang", base: "Object", extension: "class", content: b"object bytes" },
        Entry { module: "java.base", parent: "java/lang", base: "String", extension: "class", content: b"string bytes!" },
        Entry { module: "java.base", parent: "java/util", base: "List", extension: "class", content: b"list" },
        Entry { module: "java.base", parent: "", base: "module-info", extension: "class", content: b"info" },
        Entry { module: "modules", parent: "", base: "java.base", extension: "", content: b"m" },
        Entry { module: "packages", parent: "", base: "java.lang", extension: "", content: b"pk" },
        Entry { module: "packages", parent: "", base: "java.util", extension: "", content: b"" },
        Entry { module: "java.base", parent: "com/example", base: "Main", extension: "class", content: b"main class" },
        Entry { module: "java.base", parent: "META-INF", base: "notes", extension: "", content: b"plain" },
        Entry { module: "", parent: "top", base: "level", extension: "txt", content: b"tl" },
        Entry { module: "java.base", parent: "b\u{e9}ta", base: "\u{3b1}", extension: "x", content: b"utf" },
    ]
}

#[test]
fn hash_folds_bytes_into_seed() {
    assert_eq!(hash("", HASH_MULTIPLIER), 16777619);
    assert_eq!(hash("a", HASH_MULTIPLIER), 637696520);
    assert_eq!(hash("/java.base/java/lang/Object.class", HASH_MULTIPLIER), 2066871583);
    assert_eq!(hash("/java.base/java/lang/Object.class", 7), 2079521371);
    assert_eq!(hash("abc", -5), 1103831909);
    assert_eq!(hash("\u{e9}", 1), 1661079641);
    assert_eq!(hash_bytes(&[0xff, 0x00], 0), 0x7fff_ffff & (0xffu32.wrapping_mul(0x0100_0193)) as i32);
    for s in ["", "x", "some/longer/path.class"] {
        for seed in [1, 2, -1, i32::MAX, i32::MIN] {
            assert_eq!(hash(s, seed), reference_hash(s.as_bytes(), seed));
            assert_eq!(hash_bytes(s.as_bytes(), seed), hash(s, seed));
            assert!(hash(s, seed) >= 0);
        }
    }
}

#[test]
fn header_is_read_in_the_given_byte_order() {
    for big in [false, true] {
        let bytes = build(&entries(), big);
        let order = if big { Endianness::Big } else { Endianness::Little };
        let archive = Archive::parse_as(&bytes, order).unwrap();
        let header = archive.header();
        assert_eq!(header.version, (1, 0));
        assert_eq!(header.flags, 0);
        assert_eq!(header.resource_count, 11);
        assert_eq!(header.table_length, 11);
        assert_eq!(header.redirect_table_size(), 44);
        assert_eq!(header.attribute_offsets_size(), 44);
        assert_eq!(
            header.index_size(),
            28 + 88 + header.attributes_size as u64 + header.strings_size as u64
        );
        assert!(archive.by_name("/java.base/java/lang/Object.class").is_some());
    }
}

#[test]
fn native_order_is_the_order_of_this_machine() {
    let big = u16::from_ne_bytes([1, 0]) == 256;
    let bytes = build(&entries(), big);
    let archive = Archive::parse(&bytes).unwrap();
    assert_eq!(archive.header().table_length, 11);
    assert_eq!(archive.header().version, (1, 0));
    assert!(archive.by_name("/modules/java.base").is_some());
    assert_eq!(
        jay::bytes::native_endianness(),
        if big { Endianness::Big } else { Endianness::Little }
    );
}

#[test]
fn header_is_described_line_by_line() {
    let header = Header {
        version: (1, 0),
        flags: 0,
        resource_count: 29441,
        table_length: 29441,
        attributes_size: 607853,
        strings_size: 645627,
    };
    assert_eq!(
        header.to_string(),
        " Major Version:  1\n Minor Version:  0\n Flags:          0\n Resource Count: 29441\n Table Length:   29441\n Offsets Size:   117764\n Redirects Size: 117764\n Locations Size: 607853\n Strings Size:   645627\n Index Size:     1489036\n"
    );
    let largest = Header {
        version: (u16::MAX, u16::MAX),
        flags: u32::MAX,
        resource_count: u32::MAX,
        table_length: u32::MAX,
        attributes_size: u32::MAX,
        strings_size: u32::MAX,
    };
    assert_eq!(largest.index_size(), 28 + 8 * 4294967295u64 + 2 * 4294967295u64);
}

#[test]
fn finds_class_resource_by_name() {
    let bytes = build(&entries(), false);
    let archive = Archive::parse_as(&bytes, Endianness::Little).unwrap();
    let resource = archive.by_name("/java.base/java/lang/Object.class").unwrap();
    assert_eq!(
        format!(
            "{}/{}/{}.{}",
            resource.module(),
            resource.package(),
            resource.base(),
            resource.extension()
        ),
        "java.base/java/lang/Object.class"
    );
    assert_eq!(resource.bytes().unwrap(), b"object bytes");
    assert_eq!(resource.string_at(AttributeKind::Base), b"Object");
    assert_eq!(resource.attribute(AttributeKind::Uncompressed), 12);
    assert_eq!(resource.attribute(AttributeKind::Compressed), 0);
    assert_eq!(resource.offset(), resource.attribute(AttributeKind::Offset));
    assert!(Archive::verify(&resource, "/java.base/java/lang/Object.class"));
    assert!(!Archive::verify(&resource, "/java.base/java/lang/Object.clas"));
    assert!(!Archive::verify(&resource, "/java.base/java/lang/Object.classs"));
    assert!(!Archive::verify(&resource, "java.base/java/lang/Object.class"));
    assert!(!Archive::verify(&resource, ""));
}

#[test]
fn finds_module_and_package_resources() {
    let bytes = build(&entries(), false);
    let archive = Archive::parse_as(&bytes, Endianness::Little).unwrap();
    let module = archive.by_name("/modules/java.base").unwrap();
    assert_eq!(module.base(), "java.base");
    assert_eq!(module.extension(), "");
    assert_eq!(module.package(), "");
    let package = archive.by_name("/packages/java.lang").unwrap();
    assert_eq!(package.module(), "packages");
    assert_eq!(package.base(), "java.lang");
    assert_eq!(package.bytes().unwrap(), b"pk");
    let empty = archive.by_name("/packages/java.util").unwrap();
    assert_eq!(empty.bytes().unwrap(), b"");
    let top = archive.by_name("top/level.txt").unwrap();
    assert_eq!(top.module(), "");
    assert_eq!(top.bytes().unwrap(), b"tl");
    let accented = archive.by_name("/java.base/b\u{e9}ta/\u{3b1}.x").unwrap();
    assert_eq!(accented.package(), "b\u{e9}ta");
    assert_eq!(accented.base(), "\u{3b1}");
}

#[test]
fn every_resource_is_found_again_under_its_own_path() {
    for big in [false, true] {
        let bytes = build(&entries(), big);
        let order = if big { Endianness::Big } else { Endianness::Little };
        let archive = Archive::parse_as(&bytes, order).unwrap();
        assert!(archive.index().is_well_formed());
        let mut walk = archive.resources();
        let mut seen = Vec::new();
        while let Some(item) = walk.next() {
            let resource = item.unwrap();
            let mut path = String::new();
            if !resource.module().is_empty() {
                path = format!("/{}/", resource.module());
            }
            if !resource.package().is_empty() {
                path = format!("{}{}/", path, resource.package());
            }
            path.push_str(&resource.base());
            if !resource.extension().is_empty() {
                path = format!("{}.{}", path, resource.extension());
            }
            let again = archive.by_name(&path).unwrap();
            for kind in [
                AttributeKind::Module,
                AttributeKind::Parent,
                AttributeKind::Base,
                AttributeKind::Extension,
                AttributeKind::Offset,
                AttributeKind::Compressed,
                AttributeKind::Uncompressed,
            ] {
                assert_eq!(again.attribute(kind), resource.attribute(kind));
            }
            assert_eq!(again.bytes(), resource.bytes());
            seen.push(path);
        }
        assert!(walk.next().is_none());
        seen.sort();
        let mut expected: Vec<String> = entries().iter().map(path_of).collect();
        expected.sort();
        assert_eq!(seen, expected);
    }
}

#[test]
fn path_that_collides_with_a_resource_is_not_found() {
    let bytes = build(&entries(), false);
    let archive = Archive::parse_as(&bytes, Endianness::Little).unwrap();
    let mut collisions = 0;
    for i in 0..200 {
        let path = format!("/java.base/java/lang/Missing{}.class", i);
        if let Some(slot) = archive.index().slot_for(&path) {
            // the path leads to the slot of a resource that is filed under another path
            assert!(archive.index().attributes_in(slot).is_ok());
            collisions += 1;
        }
        assert!(archive.by_name(&path).is_none());
    }
    assert!(collisions >= 20);
    assert!(archive.by_name("/java.base/java/lang/Object").is_none());
    assert!(archive.by_name("/java.base/java/lang/Object.class/").is_none());
    assert!(archive.by_name("").is_none());
}

#[test]
fn archive_without_slots_finds_nothing() {
    let bytes = build(&[], false);
    let archive = Archive::parse_as(&bytes, Endianness::Little).unwrap();
    assert_eq!(archive.header().table_length, 0);
    assert!(archive.by_name("/java.base/java/lang/Object.class").is_none());
    assert!(archive.resources().next().is_none());
}

#[test]
fn archive_that_ends_too_soon_is_refused() {
    let bytes = build(&entries(), false);
    let archive = Archive::parse_as(&bytes, Endianness::Little).unwrap();
    let index_size = archive.header().index_size() as usize;
    for cut in [0, 4, 27, 28, 100, index_size - 1] {
        assert!(matches!(
            Archive::parse_as(&bytes[..cut], Endianness::Little),
            Err(Error::IO(IoError::UnexpectedEof))
        ));
    }
    // the index alone is enough to parse; content that is cut off is not handed out
    let short = Archive::parse_as(&bytes[..index_size + 3], Endianness::Little).unwrap();
    let resource = short.by_name("/java.base/java/lang/Object.class").unwrap();
    assert!(resource.bytes().is_none());
}

#[test]
fn attribute_streams_are_decoded() {
    // Module at 7, Base at 0x0102, Uncompressed 1, end
    let data = [0u8, (1 << 3) | 0, 7, (3 << 3) | 1, 1, 2, (7 << 3) | 0, 1, 0, 0xff];
    let attributes = parse_attributes(&data, 1).unwrap();
    assert_eq!(attributes, [0, 7, 0, 0x0102, 0, 0, 0, 1]);
    assert_eq!(parse_attributes(&data, 0).unwrap(), [0; 8]);
    // eight bytes, most significant first
    let wide = [(5 << 3) | 7, 1, 2, 3, 4, 5, 6, 7, 8, 0];
    assert_eq!(parse_attributes(&wide, 0).unwrap()[5], 0x0102030405060708);
    // a later value for the same kind replaces the earlier one
    let twice = [(6 << 3) | 0, 1, (6 << 3) | 0, 2, 0];
    assert_eq!(parse_attributes(&twice, 0).unwrap()[6], 2);
}

#[test]
fn attribute_streams_that_do_not_decode_are_reported() {
    assert_eq!(
        parse_attributes(&[(1 << 3) | 0, 1, 9 << 3, 0], 0),
        Err(Error::Read(String::from("Invalid attribute kind: 9"), 2))
    );
    assert_eq!(
        parse_attributes(&[0xaa, 0xaa, (31 << 3) | 7], 2),
        Err(Error::Read(String::from("Invalid attribute kind: 31"), 0))
    );
    assert_eq!(
        parse_attributes(&[3], 0),
        Err(Error::Read(String::from("Invalid attribute kind: 0"), 0))
    );
    assert_eq!(parse_attributes(&[], 0), Err(Error::IO(IoError::UnexpectedEof)));
    assert_eq!(parse_attributes(&[0], 5), Err(Error::IO(IoError::UnexpectedEof)));
    assert_eq!(parse_attributes(&[(1 << 3) | 1, 1], 0), Err(Error::IO(IoError::UnexpectedEof)));
    assert_eq!(parse_attributes(&[(1 << 3) | 0, 1], 0), Err(Error::IO(IoError::UnexpectedEof)));
}

#[test]
fn kinds_are_numbered_from_one() {
    assert_eq!(AttributeKind::try_from(0), Err(0));
    assert_eq!(AttributeKind::try_from(1), Ok(AttributeKind::Module));
    assert_eq!(AttributeKind::try_from(2), Ok(AttributeKind::Parent));
    assert_eq!(AttributeKind::try_from(3), Ok(AttributeKind::Base));
    assert_eq!(AttributeKind::try_from(4), Ok(AttributeKind::Extension));
    assert_eq!(AttributeKind::try_from(5), Ok(AttributeKind::Offset));
    assert_eq!(AttributeKind::try_from(6), Ok(AttributeKind::Compressed));
    assert_eq!(AttributeKind::try_from(7), Ok(AttributeKind::Uncompressed));
    assert_eq!(AttributeKind::try_from(8), Err(8));
    assert_eq!(AttributeKind::Uncompressed.slot(), 7);
}

#[test]
fn walk_reports_slots_that_do_not_decode() {
    let mut bytes = build(&entries(), false);
    // point the offset of slot 0 past the attribute data
    let at = 28 + 4 * 11;
    bytes[at..at + 4].copy_from_slice(&u32::MAX.to_le_bytes());
    let archive = Archive::parse_as(&bytes, Endianness::Little).unwrap();
    let mut walk = archive.resources();
    assert!(matches!(walk.next(), Some(Err(Error::IO(IoError::UnexpectedEof)))));
    assert!(matches!(walk.next(), Some(Ok(_))));
    assert!(!archive.index().is_well_formed());
}

#[test]
fn index_whose_hash_misleads_is_not_well_formed() {
    let mut bytes = build(&entries(), false);
    // swap the offsets of the first two slots: each stream decodes, but the
    // paths no longer lead to their slots
    let at = 28 + 4 * 11;
    let first: Vec<u8> = bytes[at..at + 4].to_vec();
    let second: Vec<u8> = bytes[at + 4..at + 8].to_vec();
    bytes[at..at + 4].copy_from_slice(&second);
    bytes[at + 4..at + 8].copy_from_slice(&first);
    let archive = Archive::parse_as(&bytes, Endianness::Little).unwrap();
    assert!(!archive.index().is_well_formed());
    let mut walk = archive.resources();
    let mut found = 0;
    let mut lost = 0;
    while let Some(item) = walk.next() {
        let resource = item.unwrap();
        let path = String::from_utf8(archive.index().path_of(&[
            0,
            resource.attribute(AttributeKind::Module),
            resource.attribute(AttributeKind::Parent),
            resource.attribute(AttributeKind::Base),
            resource.attribute(AttributeKind::Extension),
            0,
            0,
            0,
        ]))
        .unwrap();
        if archive.by_name(&path).is_some() {
            found += 1;
        } else {
            lost += 1;
        }
    }
    assert_eq!(found, 9);
    assert_eq!(lost, 2);
    assert!(Archive::parse_as(&build(&[], false), Endianness::Little)
        .unwrap()
        .index()
        .is_well_formed());
}

#[test]
fn index_lies_behind_the_header() {
    let bytes = build(&entries(), false);
    let archive = Archive::parse_as(&bytes, Endianness::Little).unwrap();
    let index = archive.index();
    assert_eq!(index.redirect_table().len(), 11);
    assert_eq!(index.attribute_offsets().len(), 11);
    assert_eq!(index.attribute_data().len(), archive.header().attributes_size as usize);
    assert_eq!(index.strings_data().len(), archive.header().strings_size as usize);
    assert_eq!(index.strings_data()[0], 0);
    assert_eq!(index.string_at(1), b"java.base");
    assert_eq!(index.string_at(0), b"");
    assert_eq!(index.string_at(u64::MAX), b"");
    let slot = index.slot_for("/java.base/java/lang/Object.class").unwrap();
    let attributes = index.attributes_in(slot).unwrap();
    assert!(index.verify(&attributes, "/java.base/java/lang/Object.class"));
    assert_eq!(index.find("/java.base/java/lang/Object.class"), Some(attributes));
    assert_eq!(index.find("/java.base/java/lang/Objec.class"), None);
    let first = i32::from_le_bytes([bytes[28], bytes[29], bytes[30], bytes[31]]);
    assert_eq!(index.redirect_table()[0], first);
}

#[test]
fn probe_tells_the_byte_order() {
    assert_eq!(Endianness::of_probe(1), Endianness::Little);
    assert_eq!(Endianness::of_probe(256), Endianness::Big);
    assert_eq!(Endianness::of_probe(u16::from_le_bytes([1, 0])), Endianness::Little);
    assert_eq!(Endianness::of_probe(u16::from_be_bytes([1, 0])), Endianness::Big);
    assert_eq!(
        jay::bytes::native_endianness(),
        Endianness::of_probe(u16::from_ne_bytes([1, 0]))
    );
}

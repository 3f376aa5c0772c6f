use ovba::{parse_project_information, Error, ModuleType, Reference, SysKind};

#[test]
fn proj_info_opt_records() {
    // The four inputs cover the optional compatibility version record and the
    // optional constants record; these two have no compatibility version.
    const INPUT_NONE_NONE: &[u8] = b"\x01\x00\x04\x00\x00\x00\x02\x00\x00\x00\
        \x02\x00\x04\x00\x00\x00\x09\x04\x00\x00\
        \x14\x00\x04\x00\x00\x00\x09\x04\x00\x00\
        \x03\x00\x02\x00\x00\x00\xE4\x04\
        \x04\x00\x01\x00\x00\x00\x41\
        \x05\x00\x01\x00\x00\x00\x41\x40\x00\x02\x00\x00\x00\x41\x00\
        \x06\x00\x00\x00\x00\x00\x3D\x00\x00\x00\x00\x00\
        \x07\x00\x04\x00\x00\x00\x00\x00\x00\x00\
        \x08\x00\x04\x00\x00\x00\x00\x00\x00\x00\
        \x09\x00\x04\x00\x00\x00\x00\x00\x00\x00\x00\x00\
        \x0F\x00\x02\x00\x00\x00\x00\x00\
        \x13\x00\x02\x00\x00\x00\xFF\xFF\
        \x10\x00\
        \x00\x00\x00\x00";
    let res = parse_project_information(INPUT_NONE_NONE);
    assert!(res.is_ok());

    const INPUT_NONE_SOME: &[u8] = b"\x01\x00\x04\x00\x00\x00\x02\x00\x00\x00\
        \x02\x00\x04\x00\x00\x00\x09\x04\x00\x00\
        \x14\x00\x04\x00\x00\x00\x09\x04\x00\x00\
        \x03\x00\x02\x00\x00\x00\xE4\x04\
        \x04\x00\x01\x00\x00\x00\x41\
        \x05\x00\x01\x00\x00\x00\x41\x40\x00\x02\x00\x00\x00\x41\x00\
        \x06\x00\x00\x00\x00\x00\x3D\x00\x00\x00\x00\x00\
        \x07\x00\x04\x00\x00\x00\x00\x00\x00\x00\
        \x08\x00\x04\x00\x00\x00\x00\x00\x00\x00\
        \x09\x00\x04\x00\x00\x00\x00\x00\x00\x00\x00\x00\
        \x0C\x00\x00\x00\x00\x00\x3C\x00\x00\x00\x00\x00\
        \x0F\x00\x02\x00\x00\x00\x00\x00\
        \x13\x00\x02\x00\x00\x00\xFF\xFF\
        \x10\x00\
        \x00\x00\x00\x00";
    let res = parse_project_information(INPUT_NONE_SOME);
    assert!(res.is_ok());
}

const INPUT_SOME_NONE: &[u8] = b"\x01\x00\x04\x00\x00\x00\x02\x00\x00\x00\
    \x4A\x00\x04\x00\x00\x00\x02\x00\x00\x00\
    \x02\x00\x04\x00\x00\x00\x09\x04\x00\x00\
    \x14\x00\x04\x00\x00\x00\x09\x04\x00\x00\
    \x03\x00\x02\x00\x00\x00\xE4\x04\
    \x04\x00\x01\x00\x00\x00\x41\
    \x05\x00\x01\x00\x00\x00\x41\x40\x00\x02\x00\x00\x00\x41\x00\
    \x06\x00\x00\x00\x00\x00\x3D\x00\x00\x00\x00\x00\
    \x07\x00\x04\x00\x00\x00\x00\x00\x00\x00\
    \x08\x00\x04\x00\x00\x00\x00\x00\x00\x00\
    \x09\x00\x04\x00\x00\x00\x00\x00\x00\x00\x00\x00\
    \x0F\x00\x02\x00\x00\x00\x00\x00\
    \x13\x00\x02\x00\x00\x00\xFF\xFF\
    \x10\x00\
    \x00\x00\x00\x00";

const INPUT_SOME_SOME: &[u8] = b"\x01\x00\x04\x00\x00\x00\x02\x00\x00\x00\
    \x4A\x00\x04\x00\x00\x00\x02\x00\x00\x00\
    \x02\x00\x04\x00\x00\x00\x09\x04\x00\x00\
    \x14\x00\x04\x00\x00\x00\x09\x04\x00\x00\
    \x03\x00\x02\x00\x00\x00\xE4\x04\
    \x04\x00\x01\x00\x00\x00\x41\
    \x05\x00\x01\x00\x00\x00\x41\x40\x00\x02\x00\x00\x00\x41\x00\
    \x06\x00\x00\x00\x00\x00\x3D\x00\x00\x00\x00\x00\
    \x07\x00\x04\x00\x00\x00\x00\x00\x00\x00\
    \x08\x00\x04\x00\x00\x00\x00\x00\x00\x00\
    \x09\x00\x04\x00\x00\x00\x00\x00\x00\x00\x00\x00\
    \x0C\x00\x01\x00\x00\x00\x43\x3C\x00\x02\x00\x00\x00\x43\x00\
    \x0F\x00\x02\x00\x00\x00\x00\x00\
    \x13\x00\x02\x00\x00\x00\xFF\xFF\
    \x10\x00\
    \x00\x00\x00\x00";

#[test]
fn compat_version_without_constants() {
    let info = parse_project_information(INPUT_SOME_NONE).unwrap();
    assert_eq!(info.information.compat_version, Some(2));
    assert_eq!(info.information.constants, "");
    assert_eq!(info.information.sys_kind, SysKind::MacOs);
    assert_eq!(info.information.code_page, 1252);
    assert_eq!(info.information.lcid, 0x0409);
}

#[test]
fn compat_version_with_constants() {
    let info = parse_project_information(INPUT_SOME_SOME).unwrap();
    assert_eq!(info.information.compat_version, Some(2));
    assert_eq!(info.information.constants, "C");
    assert_eq!(info.information.name, "A");
    assert_eq!(info.information.doc_string, "A");
    assert!(info.references.is_empty());
    assert!(info.modules.is_empty());
}

// Builders for *dir* stream fixtures.

fn u16le(v: u16) -> Vec<u8> {
    v.to_le_bytes().to_vec()
}

fn u32le(v: u32) -> Vec<u8> {
    v.to_le_bytes().to_vec()
}

fn sized(data: &[u8]) -> Vec<u8> {
    let mut r = u32le(data.len() as u32);
    r.extend_from_slice(data);
    r
}

fn rec(id: u16, data: &[u8]) -> Vec<u8> {
    let mut r = u16le(id);
    r.extend(sized(data));
    r
}

fn utf16(s: &str) -> Vec<u8> {
    s.encode_utf16().flat_map(|u| u.to_le_bytes()).collect()
}

fn head_and_info(code_page: u16) -> Vec<u8> {
    let mut r = Vec::new();
    r.extend(u16le(0x01));
    r.extend(u32le(4));
    r.extend(u32le(1));
    r.extend(u16le(0x02));
    r.extend(u32le(4));
    r.extend(u32le(0x0409));
    r.extend(u16le(0x14));
    r.extend(u32le(4));
    r.extend(u32le(0x0409));
    r.extend(u16le(0x03));
    r.extend(u32le(2));
    r.extend(u16le(code_page));
    r.extend(rec(0x04, b"VBAProject"));
    r.extend(rec(0x05, b""));
    r.extend(rec(0x40, b""));
    r.extend(rec(0x06, b""));
    r.extend(rec(0x3D, b""));
    r.extend(u16le(0x07));
    r.extend(u32le(4));
    r.extend(u32le(0));
    r.extend(u16le(0x08));
    r.extend(u32le(4));
    r.extend(u32le(0));
    r.extend(u16le(0x09));
    r.extend(u32le(4));
    r.extend(u32le(0x5A3B_1C2D));
    r.extend(u16le(7));
    r.extend(rec(0x0C, b""));
    r.extend(rec(0x3C, b""));
    r
}

fn reference_name(name: &str) -> Vec<u8> {
    let mut r = rec(0x16, name.as_bytes());
    r.extend(rec(0x3E, &utf16(name)));
    r
}

fn registered(libid: &str) -> Vec<u8> {
    let body = sized(libid.as_bytes());
    let mut r = u16le(0x0D);
    r.extend(u32le(body.len() as u32 + 6));
    r.extend(body);
    r.extend(vec![0u8; 6]);
    r
}

fn original(libid: &str) -> Vec<u8> {
    rec(0x33, libid.as_bytes())
}

fn project(absolute: &str, relative: &str) -> Vec<u8> {
    let mut body = sized(absolute.as_bytes());
    body.extend(sized(relative.as_bytes()));
    body.extend(u32le(3));
    body.extend(u16le(5));
    let mut r = u16le(0x0E);
    r.extend(u32le(body.len() as u32));
    r.extend(body);
    r
}

fn control(twiddled: &str, extended: &str) -> Vec<u8> {
    let mut r = u16le(0x2F);
    r.extend(u32le(0));
    r.extend(sized(twiddled.as_bytes()));
    r.extend(vec![0u8; 6]);
    r.extend(reference_name("ext"));
    r.extend(u16le(0x30));
    r.extend(u32le(0));
    r.extend(sized(extended.as_bytes()));
    r.extend(vec![0u8; 6]);
    r.extend((1u8..=16).collect::<Vec<u8>>());
    r.extend(u32le(0xBEEF));
    r
}

fn module(name: &str, read_only: bool, private: bool) -> Vec<u8> {
    let mut r = rec(0x19, name.as_bytes());
    r.extend(rec(0x47, &utf16(name)));
    r.extend(rec(0x1A, name.as_bytes()));
    r.extend(rec(0x32, &utf16(name)));
    r.extend(rec(0x1C, b"doc"));
    r.extend(rec(0x48, &utf16("doc")));
    r.extend(u16le(0x31));
    r.extend(u32le(4));
    r.extend(u32le(17));
    r.extend(u16le(0x1E));
    r.extend(u32le(4));
    r.extend(u32le(9));
    r.extend(u16le(0x2C));
    r.extend(u32le(2));
    r.extend(u16le(0xFFFF));
    r.extend(u16le(0x22));
    r.extend(u32le(0));
    if read_only {
        r.extend([0x25, 0, 0, 0, 0, 0]);
    }
    if private {
        r.extend([0x28, 0, 0, 0, 0, 0]);
    }
    r.extend(u16le(0x2B));
    r.extend(u32le(0));
    r
}

fn dir_stream(references: &[Vec<u8>], count: u16, modules: &[Vec<u8>]) -> Vec<u8> {
    let mut r = head_and_info(1252);
    for reference in references {
        r.extend_from_slice(reference);
    }
    r.extend(u16le(0x0F));
    r.extend(u32le(2));
    r.extend(u16le(count));
    r.extend(u16le(0x13));
    r.extend(u32le(2));
    r.extend(u16le(0xFFFF));
    for m in modules {
        r.extend_from_slice(m);
    }
    r.extend(u16le(0x10));
    r.extend(u32le(0));
    r
}

#[test]
fn information_fields() {
    let info = parse_project_information(&dir_stream(&[], 0, &[])).unwrap();
    assert_eq!(info.information.sys_kind, SysKind::Win32);
    assert_eq!(info.information.compat_version, None);
    assert_eq!(info.information.name, "VBAProject");
    assert_eq!(info.information.version_major, 0x5A3B_1C2D);
    assert_eq!(info.information.version_minor, 7);
}

#[test]
fn reference_variants() {
    let mut named = reference_name("stdole");
    named.extend(registered("*\\G{00020430}#2.0#0#stdole2.tlb#OLE Automation"));
    let refs = vec![
        named,
        original("orig"),
        project("abs", "rel"),
        control("twiddled", "extended"),
    ];
    let info = parse_project_information(&dir_stream(&refs, 0, &[])).unwrap();
    assert_eq!(info.references.len(), 4);
    match &info.references[0] {
        Reference::Registered(r) => {
            assert_eq!(r.name.as_deref(), Some("stdole"));
            assert_eq!(r.libid, "*\\G{00020430}#2.0#0#stdole2.tlb#OLE Automation");
        }
        other => panic!("expected a registered reference, got {:?}", other),
    }
    match &info.references[1] {
        Reference::Original(r) => {
            assert_eq!(r.name, None);
            assert_eq!(r.libid_original, "orig");
        }
        other => panic!("expected an original reference, got {:?}", other),
    }
    match &info.references[2] {
        Reference::Project(r) => {
            assert_eq!(r.libid_absolute, "abs");
            assert_eq!(r.libid_relative, "rel");
            assert_eq!(r.major_version, 3);
            assert_eq!(r.minor_version, 5);
        }
        other => panic!("expected a project reference, got {:?}", other),
    }
    match &info.references[3] {
        Reference::Control(r) => {
            assert_eq!(r.libid_original, None);
            assert_eq!(r.libid_twiddled, "twiddled");
            assert_eq!(r.name_extended.as_deref(), Some("ext"));
            assert_eq!(r.libid_extended, "extended");
            assert_eq!(r.guid, (1u8..=16).collect::<Vec<u8>>());
            assert_eq!(r.cookie, 0xBEEF);
        }
        other => panic!("expected a control reference, got {:?}", other),
    }
}

#[test]
fn unknown_reference_tag_fails() {
    let refs = vec![rec(0x55, b"x")];
    assert!(matches!(
        parse_project_information(&dir_stream(&refs, 0, &[])),
        Err(Error::Parser)
    ));
}

#[test]
fn reference_name_without_sibling_fails() {
    let mut named = rec(0x16, b"stdole");
    named.extend(original("orig"));
    assert!(matches!(
        parse_project_information(&dir_stream(&[named], 0, &[])),
        Err(Error::Parser)
    ));
}

#[test]
fn module_flag_combinations() {
    let mods = vec![
        module("A", false, false),
        module("B", true, false),
        module("C", false, true),
        module("D", true, true),
    ];
    let info = parse_project_information(&dir_stream(&[], 4, &mods)).unwrap();
    let flags: Vec<(bool, bool)> = info.modules.iter().map(|m| (m.read_only, m.private)).collect();
    assert_eq!(flags, vec![(false, false), (true, false), (false, true), (true, true)]);
    let m = &info.modules[3];
    assert_eq!(m.name, "D");
    assert_eq!(m.stream_name, "D");
    assert_eq!(m.doc_string, "doc");
    assert_eq!(m.text_offset, 17);
    assert_eq!(m.help_context, 9);
    assert_eq!(m.module_type, ModuleType::DocClsDesigner);
}

#[test]
fn module_count_beyond_input_fails() {
    let mods = vec![module("A", false, false)];
    assert!(matches!(
        parse_project_information(&dir_stream(&[], 2, &mods)),
        Err(Error::Parser)
    ));
}

#[test]
fn unknown_module_type_fails() {
    let mut m = module("A", false, false);
    let pos = m.len() - 12;
    m[pos] = 0x23;
    assert!(matches!(
        parse_project_information(&dir_stream(&[], 1, &[m])),
        Err(Error::Parser)
    ));
}

#[test]
fn leftover_byte_fails() {
    let mut data = dir_stream(&[], 0, &[]);
    data.push(0);
    assert!(matches!(parse_project_information(&data), Err(Error::Parser)));
}

#[test]
fn unknown_sys_kind_fails() {
    let mut data = dir_stream(&[], 0, &[]);
    data[6] = 4;
    assert!(matches!(parse_project_information(&data), Err(Error::Parser)));
}

#[test]
fn unknown_code_page_fails() {
    let mut data = head_and_info(1);
    data.extend(u16le(0x0F));
    assert!(matches!(parse_project_information(&data), Err(Error::Encoding(1))));
}

#[test]
fn code_page_decodes_text() {
    // 0xE9 is 'é' in windows-1252.
    let mut data = head_and_info(1252);
    let name_at = 10 * 3 + 8 + 6;
    assert_eq!(&data[name_at..name_at + 10], b"VBAProject");
    data[name_at] = 0xE9;
    data.extend(dir_stream(&[], 0, &[])[head_and_info(1252).len()..].to_vec());
    let info = parse_project_information(&data).unwrap();
    assert_eq!(info.information.name, "\u{e9}BAProject");
}

#[test]
fn parse_reference_unknown_tag() {
    let data = [0x0C, 0x00, 0x00, 0x00, 0x00, 0x00];
    assert!(ovba::parse_reference(&data, 0, 1252).is_none());
    let mut named = reference_name("x");
    named.extend(rec(0x55, b""));
    assert!(ovba::parse_reference(&named, 0, 1252).is_none());
}

#[test]
fn parse_reference_each_variant() {
    let mut named = reference_name("n");
    named.extend(registered("lib"));
    match ovba::parse_reference(&named, 0, 1252) {
        Some((Some(Reference::Registered(r)), end)) => {
            assert_eq!(r.name.as_deref(), Some("n"));
            assert_eq!(end, named.len());
        }
        other => panic!("unexpected {:?}", other),
    }
    assert!(matches!(
        ovba::parse_reference(&original("o"), 0, 1252),
        Some((Some(Reference::Original(_)), _))
    ));
    assert!(matches!(
        ovba::parse_reference(&project("a", "r"), 0, 1252),
        Some((Some(Reference::Project(_)), _))
    ));
    assert!(matches!(
        ovba::parse_reference(&control("t", "e"), 0, 1252),
        Some((Some(Reference::Control(_)), _))
    ));
    assert!(matches!(ovba::parse_reference(&u16le(0x0F), 0, 1252), Some((None, 0))));
}

#[test]
fn parse_module_flags() {
    for (ro, pr) in [(false, false), (true, false), (false, true), (true, true)] {
        let data = module("M", ro, pr);
        let (m, end) = ovba::parse_module(&data, 0, 1252).unwrap();
        assert_eq!((m.read_only, m.private), (ro, pr));
        assert_eq!(end, data.len());
    }
    // The private marker before the read-only one is not a module tail.
    let mut data = module("M", false, true);
    let at = data.len() - 6;
    data.splice(at..at, [0x25, 0, 0, 0, 0, 0]);
    assert!(ovba::parse_module(&data, 0, 1252).is_none());
}

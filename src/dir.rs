//! The *dir* stream grammar: project information, the reference list and the
//! module list.
//!
//! Each spec function reads one record (or a sequence of them) at a position
//! and returns its view and the position after it, or `None` where the bytes
//! do not match. Parsing aborts on the first mismatch: nothing is skipped and
//! nothing is resynchronised.
use crate::decompress::{copy_bytes, decompress, decompressed, le16};
use crate::error::Error;
use crate::record::{
    bytes_record, expect_tag, expect_zeros, has_tag, le32, read_bytes_record, read_sized, read_u16,
    read_u16_record, read_u32, read_u32_record, sized_at, u16_at, u16_record, u32_at, u32_record,
    zeros_at,
};
use crate::text::{code_page_known, code_page_supported, cp_text, cp_to_string};
use crate::types::{
    module_views, opt_text, reference_views, Information, InformationView, Module, ModuleType, ModuleView, ProjectInformation,
    ProjectInformationView, Reference, ReferenceControl, ReferenceControlView, ReferenceOriginal,
    ReferenceOriginalView, ReferenceProject, ReferenceProjectView, ReferenceRegistered,
    ReferenceRegisteredView, ReferenceView, SysKind,
};
use vstd::prelude::*;

verus! {

/// Tag and code-page string, decoded with `cp`.
pub open spec fn text_record(s: Seq<u8>, p: int, id: u16, cp: u16) -> Option<(Seq<char>, int)> {
    match bytes_record(s, p, id) {
        None => None,
        Some((b, q)) => Some((cp_text(b, cp), q)),
    }
}

/// Tag, a 32-bit combined size (not checked), then a code-page string.
pub open spec fn sized_text_record(s: Seq<u8>, p: int, id: u16, cp: u16) -> Option<
    (Seq<char>, int),
> {
    if has_tag(s, p, id) && u32_at(s, p + 2) is Some {
        match sized_at(s, p + 6) {
            None => None,
            Some((b, q)) => Some((cp_text(b, cp), q)),
        }
    } else {
        None
    }
}

/// A record that may be absent: where tag `id` stands it must be whole.
pub open spec fn optional_bytes_record(s: Seq<u8>, p: int, id: u16) -> Option<int> {
    if has_tag(s, p, id) {
        match bytes_record(s, p, id) {
            None => None,
            Some((_, q)) => Some(q),
        }
    } else {
        Some(p)
    }
}

/// The six bytes `b 00 00 00 00 00` at position `p`.
pub open spec fn marker_at(s: Seq<u8>, p: int, b: u8) -> bool {
    0 <= p && p + 6 <= s.len() && s[p] == b && zeros_at(s, p + 1, 5)
}

/// The optional name before a reference: tag `0x16` and a code-page string,
/// then the mandatory UTF-16 sibling `0x3E`, which is discarded.
pub open spec fn reference_name(s: Seq<u8>, p: int, cp: u16) -> Option<
    (Option<Seq<char>>, int),
> {
    if has_tag(s, p, 0x16) {
        match text_record(s, p, 0x16, cp) {
            None => None,
            Some((n, q)) => match bytes_record(s, q, 0x3E) {
                None => None,
                Some((_, e)) => Some((Some(n), e)),
            },
        }
    } else {
        Some((None, p))
    }
}

/// An optional embedded original record (`0x33`) at the start of a control reference.
pub open spec fn optional_original(s: Seq<u8>, p: int, cp: u16) -> Option<
    (Option<Seq<char>>, int),
> {
    if has_tag(s, p, 0x33) {
        match text_record(s, p, 0x33, cp) {
            None => None,
            Some((o, q)) => Some((Some(o), q)),
        }
    } else {
        Some((None, p))
    }
}

pub open spec fn reference_control(s: Seq<u8>, p: int, cp: u16, name: Option<Seq<char>>) -> Option<
    (ReferenceControlView, int),
> {
    match optional_original(s, p, cp) {
        None => None,
        Some((libid_original, p1)) => match sized_text_record(s, p1, 0x2F, cp) {
            None => None,
            Some((libid_twiddled, p2)) => if !zeros_at(s, p2, 6) {
                None
            } else {
                match reference_name(s, p2 + 6, cp) {
                    None => None,
                    Some((name_extended, p3)) => match sized_text_record(s, p3, 0x30, cp) {
                        None => None,
                        Some((libid_extended, p4)) => if !zeros_at(s, p4, 6) || p4 + 26 > s.len() {
                            None
                        } else {
                            Some(
                                (
                                    ReferenceControlView {
                                        name,
                                        libid_original,
                                        libid_twiddled,
                                        name_extended,
                                        libid_extended,
                                        guid: s.subrange(p4 + 6, p4 + 22),
                                        cookie: le32(s, p4 + 22),
                                    },
                                    p4 + 26,
                                ),
                            )
                        },
                    },
                }
            },
        },
    }
}

pub open spec fn reference_registered(s: Seq<u8>, p: int, cp: u16, name: Option<Seq<char>>) -> Option<
    (ReferenceRegisteredView, int),
> {
    match sized_text_record(s, p, 0x0D, cp) {
        None => None,
        Some((libid, q)) => if zeros_at(s, q, 6) {
            Some((ReferenceRegisteredView { name, libid }, q + 6))
        } else {
            None
        },
    }
}

pub open spec fn reference_project(s: Seq<u8>, p: int, cp: u16, name: Option<Seq<char>>) -> Option<
    (ReferenceProjectView, int),
> {
    match sized_text_record(s, p, 0x0E, cp) {
        None => None,
        Some((libid_absolute, p1)) => match sized_at(s, p1) {
            None => None,
            Some((rel, p2)) => if p2 + 6 <= s.len() {
                Some(
                    (
                        ReferenceProjectView {
                            name,
                            libid_absolute,
                            libid_relative: cp_text(rel, cp),
                            major_version: le32(s, p2),
                            minor_version: le16(s, p2 + 4),
                        },
                        p2 + 6,
                    ),
                )
            } else {
                None
            },
        },
    }
}

/// One reference, or `Some((None, q))` at the tag `0x000F` that ends the list
/// (the tag itself is not consumed). Any other tag fails.
pub open spec fn reference_at(s: Seq<u8>, p: int, cp: u16) -> Option<(Option<ReferenceView>, int)> {
    match reference_name(s, p, cp) {
        None => None,
        Some((name, q)) => match u16_at(s, q) {
            None => None,
            Some(id) => if id == 0x2F {
                match reference_control(s, q, cp, name) {
                    None => None,
                    Some((c, e)) => Some((Some(ReferenceView::Control(c)), e)),
                }
            } else if id == 0x33 {
                match text_record(s, q, 0x33, cp) {
                    None => None,
                    Some((o, e)) => Some(
                        (
                            Some(
                                ReferenceView::Original(
                                    ReferenceOriginalView { name, libid_original: o },
                                ),
                            ),
                            e,
                        ),
                    ),
                }
            } else if id == 0x0D {
                match reference_registered(s, q, cp, name) {
                    None => None,
                    Some((r, e)) => Some((Some(ReferenceView::Registered(r)), e)),
                }
            } else if id == 0x0E {
                match reference_project(s, q, cp, name) {
                    None => None,
                    Some((r, e)) => Some((Some(ReferenceView::Project(r)), e)),
                }
            } else if id == 0x0F {
                Some((None, q))
            } else {
                None
            },
        },
    }
}

/// The references from `p` up to the terminating tag.
pub open spec fn references_from(s: Seq<u8>, p: int, cp: u16) -> Option<(Seq<ReferenceView>, int)>
    decreases s.len() - p,
{
    match reference_at(s, p, cp) {
        None => None,
        Some((None, q)) => Some((Seq::empty(), q)),
        Some((Some(r), q)) => if q <= p || q > s.len() {
            None
        } else {
            match references_from(s, q, cp) {
                None => None,
                Some((rest, e)) => Some((seq![r] + rest, e)),
            }
        },
    }
}

/// The module type id (`0x21` or `0x22`) and four reserved zero bytes.
pub open spec fn module_type_at(s: Seq<u8>, p: int) -> Option<(ModuleType, int)> {
    match u16_at(s, p) {
        None => None,
        Some(id) => if !zeros_at(s, p + 2, 4) {
            None
        } else if id == 0x21 {
            Some((ModuleType::Procedural, p + 6))
        } else if id == 0x22 {
            Some((ModuleType::DocClsDesigner, p + 6))
        } else {
            None
        },
    }
}

/// The length an optional six-byte marker takes.
pub open spec fn marker_len(present: bool) -> int {
    if present {
        6
    } else {
        0
    }
}

/// The flags and terminator that close a module record, from position `p`.
pub open spec fn module_tail(s: Seq<u8>, p: int) -> Option<(bool, bool, int)> {
    let read_only = marker_at(s, p, 0x25);
    let p1 = p + marker_len(read_only);
    let private = marker_at(s, p1, 0x28);
    let p2 = p1 + marker_len(private);
    if has_tag(s, p2, 0x2B) && zeros_at(s, p2 + 2, 4) {
        Some((read_only, private, p2 + 6))
    } else {
        None
    }
}

#[verifier::opaque]
pub open spec fn module_at(s: Seq<u8>, p: int, cp: u16) -> Option<(ModuleView, int)> {
    match text_record(s, p, 0x19, cp) {
        None => None,
        Some((name, p1)) => match optional_bytes_record(s, p1, 0x47) {
            None => None,
            Some(p2) => match text_record(s, p2, 0x1A, cp) {
                None => None,
                Some((stream_name, p3)) => match bytes_record(s, p3, 0x32) {
                    None => None,
                    Some((_, p4)) => match text_record(s, p4, 0x1C, cp) {
                        None => None,
                        Some((doc_string, p5)) => match bytes_record(s, p5, 0x48) {
                            None => None,
                            Some((_, p6)) => match u32_record(s, p6, 0x31) {
                                None => None,
                                Some((text_offset, p7)) => match u32_record(s, p7, 0x1E) {
                                    None => None,
                                    Some((help_context, p8)) => match u16_record(s, p8, 0x2C) {
                                        None => None,
                                        Some((_, p9)) => match module_type_at(s, p9) {
                                            None => None,
                                            Some((module_type, p10)) => match module_tail(s, p10) {
                                                None => None,
                                                Some((read_only, private, e)) => Some(
                                                    (
                                                        ModuleView {
                                                            name,
                                                            stream_name,
                                                            doc_string,
                                                            text_offset: text_offset as usize,
                                                            help_context,
                                                            module_type,
                                                            read_only,
                                                            private,
                                                        },
                                                        e,
                                                    ),
                                                ),
                                            },
                                        },
                                    },
                                },
                            },
                        },
                    },
                },
            },
        },
    }
}

/// `count` module records from `p`.
pub open spec fn modules_from(s: Seq<u8>, p: int, cp: u16, count: nat) -> Option<
    (Seq<ModuleView>, int),
>
    decreases count,
{
    if count == 0 {
        Some((Seq::empty(), p))
    } else {
        match module_at(s, p, cp) {
            None => None,
            Some((m, q)) => match modules_from(s, q, cp, (count - 1) as nat) {
                None => None,
                Some((rest, e)) => Some((seq![m] + rest, e)),
            },
        }
    }
}

/// The module list header: tag `0x0F` with the module count, then the cookie
/// record `0x13`, whose value is ignored.
pub open spec fn modules_header(s: Seq<u8>, p: int) -> Option<(u16, int)> {
    match u16_record(s, p, 0x0F) {
        None => None,
        Some((count, q)) => match u16_record(s, q, 0x13) {
            None => None,
            Some((_, e)) => Some((count, e)),
        },
    }
}

/// The leading fixed-width fields of the *dir* stream, up to the code page.
#[derive(Clone, Copy)]
pub struct DirHead {
    pub sys_kind: SysKind,
    pub compat_version: Option<u32>,
    pub lcid: u32,
    pub lcid_invoke: u32,
    pub code_page: u16,
}

pub open spec fn sys_kind_of(v: u32) -> Option<SysKind> {
    if v == 0 {
        Some(SysKind::Win16)
    } else if v == 1 {
        Some(SysKind::Win32)
    } else if v == 2 {
        Some(SysKind::MacOs)
    } else if v == 3 {
        Some(SysKind::Win64)
    } else {
        None
    }
}

/// The optional compatibility version record `0x4A`.
pub open spec fn optional_compat(s: Seq<u8>, p: int) -> Option<(Option<u32>, int)> {
    if has_tag(s, p, 0x4A) {
        match u32_record(s, p, 0x4A) {
            None => None,
            Some((v, q)) => Some((Some(v), q)),
        }
    } else {
        Some((None, p))
    }
}

pub open spec fn dir_head(s: Seq<u8>) -> Option<(DirHead, int)> {
    match u32_record(s, 0, 0x01) {
        None => None,
        Some((kind, p1)) => match sys_kind_of(kind) {
            None => None,
            Some(sys_kind) => match optional_compat(s, p1) {
                None => None,
                Some((compat_version, p2)) => match u32_record(s, p2, 0x02) {
                    None => None,
                    Some((lcid, p3)) => match u32_record(s, p3, 0x14) {
                        None => None,
                        Some((lcid_invoke, p4)) => match u16_record(s, p4, 0x03) {
                            None => None,
                            Some((code_page, p5)) => Some(
                                (
                                    DirHead {
                                        sys_kind,
                                        compat_version,
                                        lcid,
                                        lcid_invoke,
                                        code_page,
                                    },
                                    p5,
                                ),
                            ),
                        },
                    },
                },
            },
        },
    }
}

/// The optional constants record `0x0C` with its UTF-16 sibling `0x3C`.
pub open spec fn optional_constants(s: Seq<u8>, p: int, cp: u16) -> Option<(Seq<char>, int)> {
    if has_tag(s, p, 0x0C) {
        match text_record(s, p, 0x0C, cp) {
            None => None,
            Some((c, q)) => match bytes_record(s, q, 0x3C) {
                None => None,
                Some((_, e)) => Some((c, e)),
            },
        }
    } else {
        Some((Seq::empty(), p))
    }
}

/// The version record `0x09`: the fixed size 4, a 32-bit major and a 16-bit
/// minor version.
pub open spec fn version_record(s: Seq<u8>, p: int) -> Option<(u32, u16, int)> {
    if has_tag(s, p, 0x09) && u32_at(s, p + 2) == Some(4u32) && p + 12 <= s.len() {
        Some((le32(s, p + 6), le16(s, p + 10), p + 12))
    } else {
        None
    }
}

/// The string and numeric fields that follow the head.
pub open spec fn information_body(s: Seq<u8>, p: int, h: DirHead) -> Option<(InformationView, int)> {
    let cp = h.code_page;
    match text_record(s, p, 0x04, cp) {
        None => None,
        Some((name, p1)) => match text_record(s, p1, 0x05, cp) {
            None => None,
            Some((doc_string, p2)) => match bytes_record(s, p2, 0x40) {
                None => None,
                Some((doc_unicode, p3)) => if doc_unicode.len() % 2 != 0 {
                    None
                } else {
                    match text_record(s, p3, 0x06, cp) {
                        None => None,
                        Some((help_file_1, p4)) => match bytes_record(s, p4, 0x3D) {
                            None => None,
                            Some((_, p5)) => match u32_record(s, p5, 0x07) {
                                None => None,
                                Some((help_context, p6)) => match u32_record(s, p6, 0x08) {
                                    None => None,
                                    Some((lib_flags, p7)) => match version_record(s, p7) {
                                        None => None,
                                        Some((version_major, version_minor, p8)) => match optional_constants(s, p8, cp) {
                                            None => None,
                                            Some((constants, e)) => Some(
                                                (
                                                    InformationView {
                                                        sys_kind: h.sys_kind,
                                                        compat_version: h.compat_version,
                                                        lcid: h.lcid,
                                                        lcid_invoke: h.lcid_invoke,
                                                        code_page: cp,
                                                        name,
                                                        doc_string,
                                                        help_file_1,
                                                        help_context,
                                                        lib_flags,
                                                        version_major,
                                                        version_minor,
                                                        constants,
                                                    },
                                                    e,
                                                ),
                                            ),
                                        },
                                    },
                                },
                            },
                        },
                    }
                },
            },
        },
    }
}

/// What a whole *dir* stream holds, where it is well formed: the head, the
/// information fields, the references, the modules, then the terminator
/// `0x10` with four reserved zero bytes, and nothing after it.
#[verifier::opaque]
pub open spec fn dir_view(s: Seq<u8>) -> Option<ProjectInformationView> {
    match dir_head(s) {
        None => None,
        Some((h, p)) => match information_body(s, p, h) {
            None => None,
            Some((information, p1)) => match references_from(s, p1, h.code_page) {
                None => None,
                Some((references, p2)) => match modules_header(s, p2) {
                    None => None,
                    Some((count, p3)) => match modules_from(s, p3, h.code_page, count as nat) {
                        None => None,
                        Some((modules, p4)) => if has_tag(s, p4, 0x10) && zeros_at(s, p4 + 2, 4)
                            && p4 + 6 == s.len() {
                            Some(ProjectInformationView { information, references, modules })
                        } else {
                            None
                        },
                    },
                },
            },
        },
    }
}

/// The code page that a *dir* stream declares, where its head is well formed.
pub open spec fn dir_code_page(s: Seq<u8>) -> Option<u16> {
    match dir_head(s) {
        None => None,
        Some((h, _)) => Some(h.code_page),
    }
}

/// Reference dispatch: after the optional name, tag `0x2F` yields a control
/// reference, `0x33` an original one, `0x0D` a registered one and `0x0E` a
/// project one; `0x0F` ends the list; any other tag fails, and is never skipped.
pub proof fn reference_dispatch(s: Seq<u8>, p: int, cp: u16)
    ensures
        match reference_name(s, p, cp) {
            None => reference_at(s, p, cp) is None,
            Some((_, q)) => match u16_at(s, q) {
                None => reference_at(s, p, cp) is None,
                Some(id) => {
                    &&& (id != 0x2F && id != 0x33 && id != 0x0D && id != 0x0E && id != 0x0F
                        ==> reference_at(s, p, cp) is None)
                    &&& (id == 0x0F ==> reference_at(s, p, cp) == Some((None::<ReferenceView>, q)))
                    &&& (reference_at(s, p, cp) matches Some((Some(r), _)) ==> {
                        &&& (id == 0x2F <==> r is Control)
                        &&& (id == 0x33 <==> r is Original)
                        &&& (id == 0x0D <==> r is Registered)
                        &&& (id == 0x0E <==> r is Project)
                    })
                },
            },
        },
{
}

/// A parsed module is read-only exactly where the six-byte marker
/// `25 00 00 00 00 00` follows its type record, and private exactly where the
/// marker `28 00 00 00 00 00` comes next; the terminator `0x2B` closes it.
pub proof fn module_flags(s: Seq<u8>, p: int, cp: u16)
    ensures
        module_at(s, p, cp) matches Some((m, e)) ==> {
            let t = e - 6 - marker_len(m.private) - marker_len(m.read_only);
            &&& m.read_only == marker_at(s, t, 0x25)
            &&& m.private == marker_at(s, t + marker_len(m.read_only), 0x28)
            &&& has_tag(s, e - 6, 0x2B)
        },
{
    reveal(module_at);
}

// ---------------------------------------------------------------------------
// Executable parsers
// ---------------------------------------------------------------------------

fn parse_text_record(s: &[u8], p: usize, id: u16, cp: u16) -> (r: Option<(String, usize)>)
    requires
        p <= s.len(),
        code_page_known(cp),
    ensures
        match text_record(s@, p as int, id, cp) {
            None => r is None,
            Some((t, q)) => r matches Some((v, e)) && v@ == t && e == q && e <= s@.len(),
        },
{
    match read_bytes_record(s, p, id) {
        None => None,
        Some((b, q)) => Some((cp_to_string(b, cp), q)),
    }
}

fn parse_sized_text_record(s: &[u8], p: usize, id: u16, cp: u16) -> (r: Option<(String, usize)>)
    requires
        p <= s.len(),
        code_page_known(cp),
    ensures
        match sized_text_record(s@, p as int, id, cp) {
            None => r is None,
            Some((t, q)) => r matches Some((v, e)) && v@ == t && e == q && e <= s@.len(),
        },
{
    if !expect_tag(s, p, id) {
        return None;
    }
    if read_u32(s, p + 2).is_none() {
        return None;
    }
    match read_sized(s, p + 6) {
        None => None,
        Some((b, q)) => Some((cp_to_string(b, cp), q)),
    }
}

fn skip_optional_record(s: &[u8], p: usize, id: u16) -> (r: Option<usize>)
    requires
        p <= s.len(),
    ensures
        r == (match optional_bytes_record(s@, p as int, id) {
            None => None,
            Some(q) => Some(q as usize),
        }),
        r matches Some(q) ==> p <= q <= s@.len(),
{
    if expect_tag(s, p, id) {
        match read_bytes_record(s, p, id) {
            None => None,
            Some((_, q)) => Some(q),
        }
    } else {
        Some(p)
    }
}

fn skip_bytes_record(s: &[u8], p: usize, id: u16) -> (r: Option<usize>)
    requires
        p <= s.len(),
    ensures
        r == (match bytes_record(s@, p as int, id) {
            None => None,
            Some((_, q)) => Some(q as usize),
        }),
        r matches Some(q) ==> p < q <= s@.len(),
{
    match read_bytes_record(s, p, id) {
        None => None,
        Some((_, q)) => Some(q),
    }
}

fn expect_marker(s: &[u8], p: usize, b: u8) -> (r: bool)
    requires
        p <= s.len(),
    ensures
        r == marker_at(s@, p as int, b),
{
    s.len() - p >= 6 && s[p] == b && expect_zeros(s, p + 1, 5)
}

fn parse_reference_name(s: &[u8], p: usize, cp: u16) -> (r: Option<(Option<String>, usize)>)
    requires
        p <= s.len(),
        code_page_known(cp),
    ensures
        match reference_name(s@, p as int, cp) {
            None => r is None,
            Some((n, q)) => r matches Some((v, e)) && opt_text(v) == n && e == q && p <= e
                <= s@.len(),
        },
{
    if !expect_tag(s, p, 0x16) {
        return Some((None, p));
    }
    let (name, q) = match parse_text_record(s, p, 0x16, cp) {
        None => return None,
        Some(x) => x,
    };
    match skip_bytes_record(s, q, 0x3E) {
        None => None,
        Some(e) => Some((Some(name), e)),
    }
}

fn parse_reference_control(s: &[u8], p: usize, cp: u16, name: Option<String>) -> (r: Option<
    (ReferenceControl, usize),
>)
    requires
        p <= s.len(),
        code_page_known(cp),
    ensures
        match reference_control(s@, p as int, cp, opt_text(name)) {
            None => r is None,
            Some((c, q)) => r matches Some((v, e)) && v@ == c && e == q && p < e <= s@.len(),
        },
{
    let (libid_original, p1) = if expect_tag(s, p, 0x33) {
        match parse_text_record(s, p, 0x33, cp) {
            None => return None,
            Some((o, q)) => (Some(o), q),
        }
    } else {
        (None, p)
    };
    let (libid_twiddled, p2) = match parse_sized_text_record(s, p1, 0x2F, cp) {
        None => return None,
        Some(x) => x,
    };
    if !expect_zeros(s, p2, 6) {
        return None;
    }
    let (name_extended, p3) = match parse_reference_name(s, p2 + 6, cp) {
        None => return None,
        Some(x) => x,
    };
    let (libid_extended, p4) = match parse_sized_text_record(s, p3, 0x30, cp) {
        None => return None,
        Some(x) => x,
    };
    if !expect_zeros(s, p4, 6) || s.len() - p4 < 26 {
        return None;
    }
    let guid = copy_bytes(&s[p4 + 6..p4 + 22]);
    let cookie = match read_u32(s, p4 + 22) {
        None => return None,
        Some(c) => c,
    };
    Some(
        (
            ReferenceControl {
                name,
                libid_original,
                libid_twiddled,
                name_extended,
                libid_extended,
                guid,
                cookie,
            },
            p4 + 26,
        ),
    )
}

fn parse_reference_registered(s: &[u8], p: usize, cp: u16, name: Option<String>) -> (r: Option<
    (ReferenceRegistered, usize),
>)
    requires
        p <= s.len(),
        code_page_known(cp),
    ensures
        match reference_registered(s@, p as int, cp, opt_text(name)) {
            None => r is None,
            Some((c, q)) => r matches Some((v, e)) && v@ == c && e == q && p < e <= s@.len(),
        },
{
    let (libid, q) = match parse_sized_text_record(s, p, 0x0D, cp) {
        None => return None,
        Some(x) => x,
    };
    if !expect_zeros(s, q, 6) {
        return None;
    }
    Some((ReferenceRegistered { name, libid }, q + 6))
}

fn parse_reference_project(s: &[u8], p: usize, cp: u16, name: Option<String>) -> (r: Option<
    (ReferenceProject, usize),
>)
    requires
        p <= s.len(),
        code_page_known(cp),
    ensures
        match reference_project(s@, p as int, cp, opt_text(name)) {
            None => r is None,
            Some((c, q)) => r matches Some((v, e)) && v@ == c && e == q && p < e <= s@.len(),
        },
{
    let (libid_absolute, p1) = match parse_sized_text_record(s, p, 0x0E, cp) {
        None => return None,
        Some(x) => x,
    };
    let (rel, p2) = match read_sized(s, p1) {
        None => return None,
        Some(x) => x,
    };
    if s.len() - p2 < 6 {
        return None;
    }
    let major_version = match read_u32(s, p2) {
        None => return None,
        Some(v) => v,
    };
    let minor_version = match read_u16(s, p2 + 4) {
        None => return None,
        Some(v) => v,
    };
    Some(
        (
            ReferenceProject {
                name,
                libid_absolute,
                libid_relative: cp_to_string(rel, cp),
                major_version,
                minor_version,
            },
            p2 + 6,
        ),
    )
}

/// Parses one reference at `p`, or recognises the tag that ends the list;
/// returns it with the position after it.
pub fn parse_reference(s: &[u8], p: usize, cp: u16) -> (r: Option<(Option<Reference>, usize)>)
    requires
        p <= s.len(),
        code_page_known(cp),
    ensures
        match reference_at(s@, p as int, cp) {
            None => r is None,
            Some((None, q)) => r matches Some((None, e)) && e == q && e <= s@.len(),
            Some((Some(x), q)) => r matches Some((Some(v), e)) && v@ == x && e == q && p < e
                <= s@.len(),
        },
{
    let (name, q) = match parse_reference_name(s, p, cp) {
        None => return None,
        Some(x) => x,
    };
    let id = match read_u16(s, q) {
        None => return None,
        Some(id) => id,
    };
    if id == 0x2F {
        match parse_reference_control(s, q, cp, name) {
            None => None,
            Some((c, e)) => Some((Some(Reference::Control(c)), e)),
        }
    } else if id == 0x33 {
        match parse_text_record(s, q, 0x33, cp) {
            None => None,
            Some((libid_original, e)) => Some(
                (Some(Reference::Original(ReferenceOriginal { name, libid_original })), e),
            ),
        }
    } else if id == 0x0D {
        match parse_reference_registered(s, q, cp, name) {
            None => None,
            Some((c, e)) => Some((Some(Reference::Registered(c)), e)),
        }
    } else if id == 0x0E {
        match parse_reference_project(s, q, cp, name) {
            None => None,
            Some((c, e)) => Some((Some(Reference::Project(c)), e)),
        }
    } else if id == 0x0F {
        Some((None, q))
    } else {
        None
    }
}


fn parse_references(s: &[u8], p: usize, cp: u16) -> (r: Option<(Vec<Reference>, usize)>)
    requires
        p <= s.len(),
        code_page_known(cp),
    ensures
        match references_from(s@, p as int, cp) {
            None => r is None,
            Some((refs, q)) => r matches Some((v, e)) && reference_views(v@) == refs && e == q
                && e <= s@.len(),
        },
{
    let mut result: Vec<Reference> = Vec::new();
    let mut i = p;
    loop
        invariant
            p <= i <= s.len(),
            code_page_known(cp),
            match references_from(s@, i as int, cp) {
                None => references_from(s@, p as int, cp) is None,
                Some((rest, e)) => references_from(s@, p as int, cp) == Some(
                    (reference_views(result@) + rest, e),
                ),
            },
        decreases s@.len() - i,
    {
        match parse_reference(s, i, cp) {
            None => return None,
            Some((None, q)) => {
                assert(reference_views(result@) + Seq::<ReferenceView>::empty() =~= reference_views(
                    result@,
                ));
                return Some((result, q));
            },
            Some((Some(reference), q)) => {
                let ghost before = reference_views(result@);
                let ghost x = reference@;
                result.push(reference);
                proof {
                    assert(reference_views(result@) =~= before.push(x));
                    match references_from(s@, q as int, cp) {
                        None => {},
                        Some((rest, e)) => {
                            assert(before + (seq![x] + rest) =~= before.push(x) + rest);
                        },
                    }
                }
                i = q;
            },
        }
    }
}

fn parse_module_type(s: &[u8], p: usize) -> (r: Option<(ModuleType, usize)>)
    requires
        p <= s.len(),
    ensures
        match module_type_at(s@, p as int) {
            None => r is None,
            Some((t, q)) => r == Some((t, q as usize)) && q <= s@.len(),
        },
{
    let id = match read_u16(s, p) {
        None => return None,
        Some(id) => id,
    };
    if !expect_zeros(s, p + 2, 4) {
        return None;
    }
    if id == 0x21 {
        Some((ModuleType::Procedural, p + 6))
    } else if id == 0x22 {
        Some((ModuleType::DocClsDesigner, p + 6))
    } else {
        None
    }
}

fn parse_module_tail(s: &[u8], p: usize) -> (r: Option<(bool, bool, usize)>)
    requires
        p <= s.len(),
    ensures
        match module_tail(s@, p as int) {
            None => r is None,
            Some((ro, pr, q)) => r == Some((ro, pr, q as usize)) && q <= s@.len(),
        },
{
    let read_only = expect_marker(s, p, 0x25);
    let p1 = if read_only {
        p + 6
    } else {
        p
    };
    let private = expect_marker(s, p1, 0x28);
    let p2 = if private {
        p1 + 6
    } else {
        p1
    };
    if expect_tag(s, p2, 0x2B) && expect_zeros(s, p2 + 2, 4) {
        Some((read_only, private, p2 + 6))
    } else {
        None
    }
}

/// Parses one module record at `p`; returns it with the position after it.
pub fn parse_module(s: &[u8], p: usize, cp: u16) -> (r: Option<(Module, usize)>)
    requires
        p <= s.len(),
        code_page_known(cp),
    ensures
        match module_at(s@, p as int, cp) {
            None => r is None,
            Some((m, q)) => r matches Some((v, e)) && v@ == m && e == q && e <= s@.len(),
        },
{
    reveal(module_at);
    let (name, p1) = match parse_text_record(s, p, 0x19, cp) {
        None => return None,
        Some(x) => x,
    };
    let p2 = match skip_optional_record(s, p1, 0x47) {
        None => return None,
        Some(q) => q,
    };
    let (stream_name, p3) = match parse_text_record(s, p2, 0x1A, cp) {
        None => return None,
        Some(x) => x,
    };
    let p4 = match skip_bytes_record(s, p3, 0x32) {
        None => return None,
        Some(q) => q,
    };
    let (doc_string, p5) = match parse_text_record(s, p4, 0x1C, cp) {
        None => return None,
        Some(x) => x,
    };
    let p6 = match skip_bytes_record(s, p5, 0x48) {
        None => return None,
        Some(q) => q,
    };
    let (text_offset, p7) = match read_u32_record(s, p6, 0x31) {
        None => return None,
        Some(x) => x,
    };
    let (help_context, p8) = match read_u32_record(s, p7, 0x1E) {
        None => return None,
        Some(x) => x,
    };
    let p9 = match read_u16_record(s, p8, 0x2C) {
        None => return None,
        Some((_, q)) => q,
    };
    let (module_type, p10) = match parse_module_type(s, p9) {
        None => return None,
        Some(x) => x,
    };
    let (read_only, private, e) = match parse_module_tail(s, p10) {
        None => return None,
        Some(x) => x,
    };
    Some(
        (
            Module {
                name,
                stream_name,
                doc_string,
                text_offset: text_offset as usize,
                help_context,
                module_type,
                read_only,
                private,
            },
            e,
        ),
    )
}

fn parse_modules(s: &[u8], p: usize, cp: u16) -> (r: Option<(Vec<Module>, usize)>)
    requires
        p <= s.len(),
        code_page_known(cp),
    ensures
        match modules_header(s@, p as int) {
            None => r is None,
            Some((count, p1)) => match modules_from(s@, p1, cp, count as nat) {
                None => r is None,
                Some((mods, q)) => r matches Some((v, e)) && module_views(v@) == mods && e == q
                    && e <= s@.len(),
            },
        },
{
    let (count, p1) = match read_u16_record(s, p, 0x0F) {
        None => return None,
        Some(x) => x,
    };
    let p2 = match read_u16_record(s, p1, 0x13) {
        None => return None,
        Some((_, q)) => q,
    };
    let mut modules: Vec<Module> = Vec::new();
    let mut i = p2;
    let mut k: u16 = 0;
    while k < count
        invariant
            k <= count,
            i <= s.len(),
            code_page_known(cp),
            modules_header(s@, p as int) == Some((count, p2 as int)),
            match modules_from(s@, i as int, cp, (count - k) as nat) {
                None => modules_from(s@, p2 as int, cp, count as nat) is None,
                Some((rest, e)) => modules_from(s@, p2 as int, cp, count as nat) == Some(
                    (module_views(modules@) + rest, e),
                ),
            },
        decreases count - k,
    {
        let (module, q) = match parse_module(s, i, cp) {
            None => return None,
            Some(x) => x,
        };
        let ghost before = module_views(modules@);
        let ghost x = module@;
        modules.push(module);
        proof {
            assert(module_views(modules@) =~= before.push(x));
            match modules_from(s@, q as int, cp, (count - k - 1) as nat) {
                None => {},
                Some((rest, e)) => {
                    assert(before + (seq![x] + rest) =~= before.push(x) + rest);
                },
            }
        }
        i = q;
        k = k + 1;
    }
    assert(module_views(modules@) + Seq::<ModuleView>::empty() =~= module_views(modules@));
    Some((modules, i))
}

fn parse_head(s: &[u8]) -> (r: Option<(DirHead, usize)>)
    ensures
        match dir_head(s@) {
            None => r is None,
            Some((h, q)) => r == Some((h, q as usize)) && q <= s@.len(),
        },
{
    let (kind, p1) = match read_u32_record(s, 0, 0x01) {
        None => return None,
        Some(x) => x,
    };
    let sys_kind = if kind == 0 {
        SysKind::Win16
    } else if kind == 1 {
        SysKind::Win32
    } else if kind == 2 {
        SysKind::MacOs
    } else if kind == 3 {
        SysKind::Win64
    } else {
        return None;
    };
    let (compat_version, p2) = if expect_tag(s, p1, 0x4A) {
        match read_u32_record(s, p1, 0x4A) {
            None => return None,
            Some((v, q)) => (Some(v), q),
        }
    } else {
        (None, p1)
    };
    let (lcid, p3) = match read_u32_record(s, p2, 0x02) {
        None => return None,
        Some(x) => x,
    };
    let (lcid_invoke, p4) = match read_u32_record(s, p3, 0x14) {
        None => return None,
        Some(x) => x,
    };
    let (code_page, p5) = match read_u16_record(s, p4, 0x03) {
        None => return None,
        Some(x) => x,
    };
    Some((DirHead { sys_kind, compat_version, lcid, lcid_invoke, code_page }, p5))
}

fn read_version(s: &[u8], p: usize) -> (r: Option<(u32, u16, usize)>)
    requires
        p <= s.len(),
    ensures
        match version_record(s@, p as int) {
            None => r is None,
            Some((major, minor, q)) => r == Some((major, minor, q as usize)) && q <= s@.len(),
        },
{
    if !expect_tag(s, p, 0x09) {
        return None;
    }
    match read_u32(s, p + 2) {
        Some(4) => {},
        _ => return None,
    }
    if s.len() - p < 12 {
        return None;
    }
    let major = match read_u32(s, p + 6) {
        None => return None,
        Some(v) => v,
    };
    let minor = match read_u16(s, p + 10) {
        None => return None,
        Some(v) => v,
    };
    Some((major, minor, p + 12))
}

fn parse_information_body(s: &[u8], p: usize, h: DirHead) -> (r: Option<(Information, usize)>)
    requires
        p <= s.len(),
        code_page_known(h.code_page),
    ensures
        match information_body(s@, p as int, h) {
            None => r is None,
            Some((info, q)) => r matches Some((v, e)) && v@ == info && e == q && e <= s@.len(),
        },
{
    let cp = h.code_page;
    let (name, p1) = match parse_text_record(s, p, 0x04, cp) {
        None => return None,
        Some(x) => x,
    };
    let (doc_string, p2) = match parse_text_record(s, p1, 0x05, cp) {
        None => return None,
        Some(x) => x,
    };
    // The UTF-16 sibling is a sequence of 16-bit code units.
    let (doc_unicode, p3) = match read_bytes_record(s, p2, 0x40) {
        None => return None,
        Some(x) => x,
    };
    if doc_unicode.len() % 2 != 0 {
        return None;
    }
    let (help_file_1, p4) = match parse_text_record(s, p3, 0x06, cp) {
        None => return None,
        Some(x) => x,
    };
    let p5 = match skip_bytes_record(s, p4, 0x3D) {
        None => return None,
        Some(q) => q,
    };
    let (help_context, p6) = match read_u32_record(s, p5, 0x07) {
        None => return None,
        Some(x) => x,
    };
    let (lib_flags, p7) = match read_u32_record(s, p6, 0x08) {
        None => return None,
        Some(x) => x,
    };
    let (version_major, version_minor, p8) = match read_version(s, p7) {
        None => return None,
        Some(x) => x,
    };
    let (constants, e) = if expect_tag(s, p8, 0x0C) {
        let (c, q) = match parse_text_record(s, p8, 0x0C, cp) {
            None => return None,
            Some(x) => x,
        };
        match skip_bytes_record(s, q, 0x3C) {
            None => return None,
            Some(e) => (c, e),
        }
    } else {
        (String::new(), p8)
    };
    Some(
        (
            Information {
                sys_kind: h.sys_kind,
                compat_version: h.compat_version,
                lcid: h.lcid,
                lcid_invoke: h.lcid_invoke,
                code_page: cp,
                name,
                doc_string,
                help_file_1,
                help_context,
                lib_flags,
                version_major,
                version_minor,
                constants,
            },
            e,
        ),
    )
}

/// The outcome of parsing the decompressed *dir* stream `d`: `Error::Parser`
/// where its head is malformed, `Error::Encoding` where the declared code page
/// is unknown, else the stream's view or `Error::Parser` where the rest is
/// malformed or not consumed entirely.
pub open spec fn parsed_as(d: Seq<u8>, r: Result<ProjectInformation, Error>) -> bool {
    &&& match dir_code_page(d) {
        None => r matches Err(Error::Parser),
        Some(cp) => if !code_page_known(cp) {
            r matches Err(Error::Encoding(c)) && c == cp
        } else {
            match dir_view(d) {
                None => r matches Err(Error::Parser),
                Some(v) => r matches Ok(info) && info@ == v,
            }
        },
    }
    &&& (r matches Ok(info) ==> code_page_known(info.information.code_page))
}

/// Parses a decompressed *dir* stream.
///
/// Fails with `Error::Encoding` where the declared code page has no known
/// encoding, and with `Error::Parser` wherever the bytes do not follow the
/// grammar or are not consumed entirely.
pub fn parse_project_information(i: &[u8]) -> (r: Result<ProjectInformation, Error>)
    ensures
        parsed_as(i@, r),
{
    reveal(dir_view);
    let (head, p) = match parse_head(i) {
        None => return Err(Error::Parser),
        Some(x) => x,
    };
    let cp = head.code_page;
    if !code_page_supported(cp) {
        return Err(Error::Encoding(cp));
    }
    let (information, p1) = match parse_information_body(i, p, head) {
        None => return Err(Error::Parser),
        Some(x) => x,
    };
    let (references, p2) = match parse_references(i, p1, cp) {
        None => return Err(Error::Parser),
        Some(x) => x,
    };
    let (modules, p3) = match parse_modules(i, p2, cp) {
        None => return Err(Error::Parser),
        Some(x) => x,
    };
    if !(expect_tag(i, p3, 0x10) && i.len() - p3 == 6 && expect_zeros(i, p3 + 2, 4)) {
        return Err(Error::Parser);
    }
    Ok(ProjectInformation { information, references, modules })
}

/// Decompresses a *dir* stream as it is stored and parses it.
pub fn parse_dir_stream(stored: &[u8]) -> (r: Result<ProjectInformation, Error>)
    ensures
        match decompressed(stored@) {
            None => r matches Err(Error::Decompressor),
            Some(d) => parsed_as(d, r),
        },
{
    match decompress(stored) {
        Ok(d) => parse_project_information(d.as_slice()),
        Err(e) => Err(e),
    }
}

} // verus!

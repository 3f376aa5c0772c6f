//! The records of a VBA project's *dir* stream, and their views.
use vstd::prelude::*;

verus! {

/// Specifies the platform for which the VBA project is created.
#[derive(Debug, Clone, Copy, PartialEq, Eq, Structural)]
pub enum SysKind {
    /// For 16-bit Windows Platforms.
    Win16,
    /// For 32-bit Windows Platforms.
    Win32,
    /// For Macintosh Platforms.
    MacOs,
    /// For 64-bit Windows Platforms.
    Win64,
}

/// Specifies the containing module's type.
#[derive(Debug, Clone, Copy, PartialEq, Eq, Structural)]
pub enum ModuleType {
    /// A procedural module: a collection of subroutines and functions.
    Procedural,
    /// A document module, class module, or designer module; the format encodes
    /// all three with a single type id.
    DocClsDesigner,
}

pub open spec fn opt_text(o: Option<String>) -> Option<Seq<char>> {
    match o {
        Some(s) => Some(s@),
        None => None,
    }
}

/// Specifies a reference to a twiddled type library and its extended type library.
#[derive(Debug)]
pub struct ReferenceControl {
    /// Optional name of the reference.
    pub name: Option<String>,
    pub libid_original: Option<String>,
    pub libid_twiddled: String,
    pub name_extended: Option<String>,
    pub libid_extended: String,
    /// The 16-byte identifier of the extended type library.
    pub guid: Vec<u8>,
    /// Unique for each `ReferenceControl` with the same `libid_original`.
    pub cookie: u32,
}

pub struct ReferenceControlView {
    pub name: Option<Seq<char>>,
    pub libid_original: Option<Seq<char>>,
    pub libid_twiddled: Seq<char>,
    pub name_extended: Option<Seq<char>>,
    pub libid_extended: Seq<char>,
    pub guid: Seq<u8>,
    pub cookie: u32,
}

impl View for ReferenceControl {
    type V = ReferenceControlView;

    open spec fn view(&self) -> ReferenceControlView {
        ReferenceControlView {
            name: opt_text(self.name),
            libid_original: opt_text(self.libid_original),
            libid_twiddled: self.libid_twiddled@,
            name_extended: opt_text(self.name_extended),
            libid_extended: self.libid_extended@,
            guid: self.guid@,
            cookie: self.cookie,
        }
    }
}

/// Specifies the identifier of the Automation type library a twiddled type
/// library was generated from.
#[derive(Debug)]
pub struct ReferenceOriginal {
    /// Optional name of the reference.
    pub name: Option<String>,
    pub libid_original: String,
}

pub struct ReferenceOriginalView {
    pub name: Option<Seq<char>>,
    pub libid_original: Seq<char>,
}

impl View for ReferenceOriginal {
    type V = ReferenceOriginalView;

    open spec fn view(&self) -> ReferenceOriginalView {
        ReferenceOriginalView { name: opt_text(self.name), libid_original: self.libid_original@ }
    }
}

/// Specifies a reference to an Automation type library.
#[derive(Debug)]
pub struct ReferenceRegistered {
    /// Optional name of the reference.
    pub name: Option<String>,
    pub libid: String,
}

pub struct ReferenceRegisteredView {
    pub name: Option<Seq<char>>,
    pub libid: Seq<char>,
}

impl View for ReferenceRegistered {
    type V = ReferenceRegisteredView;

    open spec fn view(&self) -> ReferenceRegisteredView {
        ReferenceRegisteredView { name: opt_text(self.name), libid: self.libid@ }
    }
}

/// Specifies a reference to an external VBA project.
#[derive(Debug)]
pub struct ReferenceProject {
    /// Optional name of the reference.
    pub name: Option<String>,
    pub libid_absolute: String,
    pub libid_relative: String,
    pub major_version: u32,
    pub minor_version: u16,
}

pub struct ReferenceProjectView {
    pub name: Option<Seq<char>>,
    pub libid_absolute: Seq<char>,
    pub libid_relative: Seq<char>,
    pub major_version: u32,
    pub minor_version: u16,
}

impl View for ReferenceProject {
    type V = ReferenceProjectView;

    open spec fn view(&self) -> ReferenceProjectView {
        ReferenceProjectView {
            name: opt_text(self.name),
            libid_absolute: self.libid_absolute@,
            libid_relative: self.libid_relative@,
            major_version: self.major_version,
            minor_version: self.minor_version,
        }
    }
}

/// Specifies a reference to an Automation type library or VBA project.
#[derive(Debug)]
pub enum Reference {
    /// The `Reference` is a [`ReferenceControl`].
    Control(ReferenceControl),
    /// The `Reference` is a [`ReferenceOriginal`].
    Original(ReferenceOriginal),
    /// The `Reference` is a [`ReferenceRegistered`].
    Registered(ReferenceRegistered),
    /// The `Reference` is a [`ReferenceProject`].
    Project(ReferenceProject),
}

pub enum ReferenceView {
    Control(ReferenceControlView),
    Original(ReferenceOriginalView),
    Registered(ReferenceRegisteredView),
    Project(ReferenceProjectView),
}

impl View for Reference {
    type V = ReferenceView;

    open spec fn view(&self) -> ReferenceView {
        match self {
            Reference::Control(c) => ReferenceView::Control(c@),
            Reference::Original(o) => ReferenceView::Original(o@),
            Reference::Registered(r) => ReferenceView::Registered(r@),
            Reference::Project(p) => ReferenceView::Project(p@),
        }
    }
}

/// Specifies version-independent information for the VBA project.
#[derive(Debug)]
pub struct Information {
    /// Specifies the platform for which the VBA project is created.
    pub sys_kind: SysKind,
    /// The compatibility version, where the optional record is present.
    pub compat_version: Option<u32>,
    pub lcid: u32,
    pub lcid_invoke: u32,
    /// Specifies the code page for the VBA project.
    pub code_page: u16,
    pub name: String,
    pub doc_string: String,
    pub help_file_1: String,
    pub help_context: u32,
    pub lib_flags: u32,
    pub version_major: u32,
    pub version_minor: u16,
    /// The constants string; empty where the optional record is absent.
    pub constants: String,
}

pub struct InformationView {
    pub sys_kind: SysKind,
    pub compat_version: Option<u32>,
    pub lcid: u32,
    pub lcid_invoke: u32,
    pub code_page: u16,
    pub name: Seq<char>,
    pub doc_string: Seq<char>,
    pub help_file_1: Seq<char>,
    pub help_context: u32,
    pub lib_flags: u32,
    pub version_major: u32,
    pub version_minor: u16,
    pub constants: Seq<char>,
}

impl View for Information {
    type V = InformationView;

    open spec fn view(&self) -> InformationView {
        InformationView {
            sys_kind: self.sys_kind,
            compat_version: self.compat_version,
            lcid: self.lcid,
            lcid_invoke: self.lcid_invoke,
            code_page: self.code_page,
            name: self.name@,
            doc_string: self.doc_string@,
            help_file_1: self.help_file_1@,
            help_context: self.help_context,
            lib_flags: self.lib_flags,
            version_major: self.version_major,
            version_minor: self.version_minor,
            constants: self.constants@,
        }
    }
}

/// Specifies data for a module.
#[derive(Debug)]
pub struct Module {
    /// Specifies a VBA identifier as the name of the containing `Module`.
    pub name: String,
    /// Specifies the stream name in the VBA storage corresponding to the module.
    pub stream_name: String,
    /// Specifies the description for the containing `Module`.
    pub doc_string: String,
    /// Specifies the location of the source code within the module's stream.
    pub text_offset: usize,
    /// Specifies the Help topic identifier for the containing `Module`.
    pub help_context: u32,
    /// Specifies whether the module is procedural, or a document, class or designer module.
    pub module_type: ModuleType,
    /// Specifies that the containing `Module` is read-only.
    pub read_only: bool,
    /// Specifies that the containing `Module` is only usable from within the project.
    pub private: bool,
}

pub struct ModuleView {
    pub name: Seq<char>,
    pub stream_name: Seq<char>,
    pub doc_string: Seq<char>,
    pub text_offset: usize,
    pub help_context: u32,
    pub module_type: ModuleType,
    pub read_only: bool,
    pub private: bool,
}

impl View for Module {
    type V = ModuleView;

    open spec fn view(&self) -> ModuleView {
        ModuleView {
            name: self.name@,
            stream_name: self.stream_name@,
            doc_string: self.doc_string@,
            text_offset: self.text_offset,
            help_context: self.help_context,
            module_type: self.module_type,
            read_only: self.read_only,
            private: self.private,
        }
    }
}

pub open spec fn reference_views(v: Seq<Reference>) -> Seq<ReferenceView> {
    v.map_values(|r: Reference| r@)
}

pub open spec fn module_views(v: Seq<Module>) -> Seq<ModuleView> {
    v.map_values(|m: Module| m@)
}

/// Specifies information for the VBA project, including project information,
/// project references, and modules.
#[derive(Debug)]
pub struct ProjectInformation {
    /// Specifies version-independent information for the VBA project.
    pub information: Information,
    /// Specifies the external references of the VBA project.
    pub references: Vec<Reference>,
    /// Specifies the modules in the project.
    pub modules: Vec<Module>,
}

pub struct ProjectInformationView {
    pub information: InformationView,
    pub references: Seq<ReferenceView>,
    pub modules: Seq<ModuleView>,
}

impl View for ProjectInformation {
    type V = ProjectInformationView;

    open spec fn view(&self) -> ProjectInformationView {
        ProjectInformationView {
            information: self.information@,
            references: reference_views(self.references@),
            modules: module_views(self.modules@),
        }
    }
}

} // verus!

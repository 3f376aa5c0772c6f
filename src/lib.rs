//! Reader for Office VBA projects: the `CompressedContainer` decompressor, the
//! *dir* stream grammar and a façade over the compound file that holds them.

mod error;
pub use crate::error::Error;

pub mod decompress;
pub use crate::decompress::decompress;

pub mod record;
mod text;
pub use crate::text::{code_page_known, cp_text};

pub mod types;
pub use crate::types::{
    Information, Module, ModuleType, ProjectInformation, Reference, ReferenceControl,
    ReferenceOriginal, ReferenceProject, ReferenceRegistered, SysKind,
};

pub mod dir;
pub use crate::dir::{parse_dir_stream, parse_module, parse_project_information, parse_reference};

pub mod project;
pub use crate::project::{decode_source, decompress_from, open_project, Container, Project};

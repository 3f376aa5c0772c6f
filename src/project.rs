//! The project façade: a compound file container, the parsed *dir* stream and
//! access to the module streams.
use crate::decompress::{decompress, decompressed};
use crate::dir::{dir_code_page, dir_view, parse_dir_stream};
use crate::error::Error;
use crate::text::{code_page_known, code_page_supported, cp_text, cp_to_string};
use crate::types::{module_views, reference_views, Information, Module, ProjectInformationView, Reference};
use std::io::Read;
use vstd::prelude::*;

verus! {

/// Declares `std::io::Cursor`, the in-memory reader under the compound file.
#[verifier::external_type_specification]
#[verifier::external_body]
#[verifier::reject_recursive_types(T)]
pub struct ExCursor<T>(std::io::Cursor<T>);

/// Declares `cfb::CompoundFile`, the structured-storage container that holds a
/// project's streams; it is carried through opaque.
#[verifier::external_type_specification]
#[verifier::external_body]
#[verifier::reject_recursive_types(F)]
pub struct ExCompoundFile<F>(cfb::CompoundFile<F>);

/// The streams of a compound file: each path under which a stream opens, to
/// the bytes it holds.
pub uninterp spec fn container_streams(c: cfb::CompoundFile<std::io::Cursor<Vec<u8>>>) -> Map<
    Seq<char>,
    Seq<u8>,
>;

/// The entries (storages and streams) of a compound file as a walk from the
/// root visits them: each as its name and its path.
pub uninterp spec fn container_entries(c: cfb::CompoundFile<std::io::Cursor<Vec<u8>>>) -> Seq<
    (Seq<char>, Seq<char>),
>;

/// The streams that the compound file held in `raw` has, by path, or `None`
/// where `raw` is no compound file that `cfb` opens.
pub uninterp spec fn container_streams_of(raw: Seq<u8>) -> Option<Map<Seq<char>, Seq<u8>>>;

/// Relies on `cfb::CompoundFile::open` over an in-memory cursor: it parses the
/// header and directory from the bytes alone, and fails with an I/O error or
/// yields a file whose streams are those the bytes hold.
#[verifier::external_body]
fn open_container(raw: Vec<u8>) -> (r: Result<
    cfb::CompoundFile<std::io::Cursor<Vec<u8>>>,
    std::io::Error,
>)
    ensures
        r is Ok <==> container_streams_of(raw@) is Some,
        r matches Ok(c) ==> container_streams_of(raw@) == Some(container_streams(c)),
{
    cfb::CompoundFile::open(std::io::Cursor::new(raw))
}

/// Relies on `cfb::CompoundFile::open_stream` and reading the stream to its
/// end: a path under which a stream opens and reads is read successfully, and
/// the bytes are those of the stream; the container's entries and contents
/// stay as they were.
#[verifier::external_body]
fn read_container_stream(c: &mut cfb::CompoundFile<std::io::Cursor<Vec<u8>>>, path: &str) -> (r:
    Result<Vec<u8>, std::io::Error>)
    ensures
        container_streams(*final(c)) == container_streams(*old(c)),
        container_entries(*final(c)) == container_entries(*old(c)),
        r matches Ok(b) ==> container_streams(*old(c)).contains_key(path@) && b@
            == container_streams(*old(c))[path@],
        container_streams(*old(c)).contains_key(path@) ==> r is Ok,
{
    let mut buffer = Vec::new();
    c.open_stream(path)?.read_to_end(&mut buffer)?;
    Ok(buffer)
}

/// Relies on `cfb::CompoundFile::walk_storage` from the root: the root always
/// exists (an empty name chain), so the walk succeeds; each entry's name and
/// path, in the order of the walk.
#[verifier::external_body]
fn walk_container(c: &cfb::CompoundFile<std::io::Cursor<Vec<u8>>>) -> (r: Result<
    Vec<(String, String)>,
    std::io::Error,
>)
    ensures
        r is Ok,
        entry_views(r->Ok_0@) == container_entries(*c),
{
    Ok(
        c.walk_storage("/")?.map(
            |e| (e.name().to_owned(), e.path().to_str().unwrap_or_default().to_owned()),
        ).collect(),
    )
}

pub open spec fn entry_views(v: Seq<(String, String)>) -> Seq<(Seq<char>, Seq<char>)> {
    v.map_values(|e: (String, String)| (e.0@, e.1@))
}

pub open spec fn dir_stream_path() -> Seq<char> {
    seq!['/', 'V', 'B', 'A', '/', 'd', 'i', 'r']
}

/// The path of a module's stream, inside the `VBA` storage.
pub open spec fn vba_stream_path(stream_name: Seq<char>) -> Seq<char> {
    seq!['/', 'V', 'B', 'A', '/'] + stream_name
}

/// What `data` decompresses to from `offset`, where it is that long and holds
/// a well-formed container there.
pub open spec fn decompressed_from(data: Seq<u8>, offset: int) -> Option<Seq<u8>> {
    if 0 <= offset <= data.len() {
        decompressed(data.subrange(offset, data.len() as int))
    } else {
        None
    }
}

/// The bytes that the stream at `path` decompresses to from `offset`.
pub open spec fn stream_source(streams: Map<Seq<char>, Seq<u8>>, path: Seq<char>, offset: int) -> Option<
    Seq<u8>,
> {
    if streams.contains_key(path) {
        decompressed_from(streams[path], offset)
    } else {
        None
    }
}

/// Decompresses the container that starts at `offset` of `data` (a module
/// stream holds a header before its container).
pub fn decompress_from(data: &[u8], offset: usize) -> (r: Result<Vec<u8>, Error>)
    ensures
        match decompressed_from(data@, offset as int) {
            None => r matches Err(Error::Decompressor),
            Some(v) => r matches Ok(b) && b@ == v,
        },
{
    if offset > data.len() {
        return Err(Error::Decompressor);
    }
    decompress(&data[offset..data.len()])
}

/// The outcome of decoding `raw` with `code_page`: the text where the code
/// page is known and the source at most `u32::MAX` bytes long, else
/// `Error::Encoding`.
pub open spec fn decoded_as(raw: Seq<u8>, code_page: u16, r: Result<String, Error>) -> bool {
    if code_page_known(code_page) && raw.len() <= u32::MAX {
        r matches Ok(t) && t@ == cp_text(raw, code_page)
    } else {
        r matches Err(Error::Encoding(c)) && c == code_page
    }
}

/// The outcome of reading the stream at `path` and decompressing it from
/// `offset`: a container error where no stream opens there, else the bytes or
/// `Error::Decompressor`.
pub open spec fn stream_read_as(
    streams: Map<Seq<char>, Seq<u8>>,
    path: Seq<char>,
    offset: int,
    r: Result<Vec<u8>, Error>,
) -> bool {
    if !streams.contains_key(path) {
        r matches Err(Error::Cfb(_))
    } else {
        match decompressed_from(streams[path], offset) {
            None => r matches Err(Error::Decompressor),
            Some(v) => r matches Ok(b) && b@ == v,
        }
    }
}

/// Decodes a module's raw source with the project's code page. Decoding covers
/// sources of up to `u32::MAX` bytes.
pub fn decode_source(raw: &[u8], code_page: u16) -> (r: Result<String, Error>)
    ensures
        decoded_as(raw@, code_page, r),
{
    if !code_page_supported(code_page) || raw.len() > u32::MAX as usize {
        return Err(Error::Encoding(code_page));
    }
    Ok(cp_to_string(raw, code_page))
}

/// The index of the first module named `name`, searching from `from`.
pub open spec fn find_module(mods: Seq<Module>, name: Seq<char>, from: int) -> Option<int>
    decreases mods.len() - from,
{
    if from < 0 || from >= mods.len() {
        None
    } else if mods[from].name@ == name {
        Some(from)
    } else {
        find_module(mods, name, from + 1)
    }
}

/// The compound file that holds a project's streams, read through an exclusive
/// handle.
pub struct Container {
    file: cfb::CompoundFile<std::io::Cursor<Vec<u8>>>,
}

impl Container {
    /// The container's streams, by path.
    pub closed spec fn streams(&self) -> Map<Seq<char>, Seq<u8>> {
        container_streams(self.file)
    }

    /// The container's entries, in walk order.
    pub closed spec fn entries(&self) -> Seq<(Seq<char>, Seq<char>)> {
        container_entries(self.file)
    }
}

/// Represents a VBA project: its parsed metadata and the container that holds
/// its streams.
pub struct Project {
    /// Specifies version-independent information for the VBA project.
    pub information: Information,
    /// Specifies the external references of the VBA project.
    pub references: Vec<Reference>,
    /// Specifies the modules in the project.
    pub modules: Vec<Module>,
    /// The container of the project's streams.
    pub container: Container,
}

impl Project {
    /// The streams of the project's container, by path.
    pub open spec fn streams(&self) -> Map<Seq<char>, Seq<u8>> {
        self.container.streams()
    }

    /// The entries of the project's container, as `list` returns them.
    pub open spec fn entries(&self) -> Seq<(Seq<char>, Seq<char>)> {
        self.container.entries()
    }

    /// The parsed metadata, as a view.
    pub open spec fn metadata(&self) -> ProjectInformationView {
        ProjectInformationView {
            information: self.information@,
            references: reference_views(self.references@),
            modules: module_views(self.modules@),
        }
    }

    /// The raw source of the first module named `name`, where there is one and
    /// its stream decompresses from the module's text offset.
    pub open spec fn module_source_bytes(&self, name: Seq<char>) -> Option<Seq<u8>> {
        match find_module(self.modules@, name, 0) {
            None => None,
            Some(k) => stream_source(
                self.streams(),
                vba_stream_path(self.modules@[k].stream_name@),
                self.modules@[k].text_offset as int,
            ),
        }
    }

    /// Everything but the container's read position is as it was.
    pub open spec fn same_contents(&self, other: &Project) -> bool {
        &&& self.information == other.information
        &&& self.references == other.references
        &&& self.modules == other.modules
        &&& self.streams() == other.streams()
        &&& self.entries() == other.entries()
    }

    /// Returns a stream's contents.
    pub fn read_stream(&mut self, stream_path: &str) -> (r: Result<Vec<u8>, Error>)
        ensures
            read_stream_post(*old(self), stream_path@, r, *final(self)),
    {
        match read_container_stream(&mut self.container.file, stream_path) {
            Ok(b) => Ok(b),
            Err(e) => Err(Error::Cfb(e)),
        }
    }

    /// Returns a stream's decompressed data, starting at `offset` into the stream.
    pub fn decompress_stream_from(&mut self, stream_path: &str, offset: usize) -> (r: Result<
        Vec<u8>,
        Error,
    >)
        ensures
            decompress_stream_from_post(*old(self), stream_path@, offset as int, r, *final(self)),
    {
        let data = match self.read_stream(stream_path) {
            Ok(d) => d,
            Err(e) => return Err(e),
        };
        decompress_from(data.as_slice(), offset)
    }

    /// Returns the entries (storages and streams) of the container, each as its
    /// name and its path.
    pub fn list(&self) -> (r: Result<Vec<(String, String)>, Error>)
        ensures
            list_post(*self, r),
    {
        match walk_container(&self.container.file) {
            Ok(v) => Ok(v),
            Err(e) => Err(Error::Cfb(e)),
        }
    }

    /// Returns the raw source code of the module named `name`, decompressed
    /// from its stream but not decoded.
    pub fn module_source_raw(&mut self, name: &str) -> (r: Result<Vec<u8>, Error>)
        ensures
            module_source_raw_post(*old(self), name@, r, *final(self)),
    {
        let wanted = name.to_string();
        let mut k: usize = 0;
        while k < self.modules.len()
            invariant
                k <= self.modules@.len(),
                wanted@ == name@,
                find_module(self.modules@, name@, 0) == find_module(self.modules@, name@, k as int),
            ensures
                k <= self.modules@.len(),
                k < self.modules@.len() ==> self.modules@[k as int].name@ == name@,
                find_module(self.modules@, name@, 0) == find_module(self.modules@, name@, k as int),
            decreases self.modules@.len() - k,
        {
            if self.modules[k].name == wanted {
                break;
            }
            k = k + 1;
        }
        if k == self.modules.len() {
            return Err(Error::ModuleNotFound(wanted));
        }
        proof {
            reveal_strlit("/VBA/");
        }
        broadcast use vstd::string::to_string_from_display_ensures_for_str;

        let prefix = "/VBA/".to_string();
        assert(prefix@ =~= seq!['/', 'V', 'B', 'A', '/']);
        let path = prefix.concat(self.modules[k].stream_name.as_str());
        assert(path@ =~= vba_stream_path(self.modules@[k as int].stream_name@));
        let offset = self.modules[k].text_offset;
        self.decompress_stream_from(path.as_str(), offset)
    }

    /// Returns a module's source code, decoded with the project's code page.
    pub fn module_source(&mut self, name: &str) -> (r: Result<String, Error>)
        ensures
            module_source_post(*old(self), name@, r, *final(self)),
    {
        let raw = match self.module_source_raw(name) {
            Ok(raw) => raw,
            Err(e) => return Err(e),
        };
        decode_source(raw.as_slice(), self.information.code_page)
    }
}

/// What `Project::read_stream` guarantees: the project's contents stay; a
/// path that the container holds is read, and its bytes are returned; any
/// other path gives a container error.
pub open spec fn read_stream_post(
    before: Project,
    path: Seq<char>,
    r: Result<Vec<u8>, Error>,
    after: Project,
) -> bool {
    &&& after.same_contents(&before)
    &&& if before.streams().contains_key(path) {
        r matches Ok(b) && b@ == before.streams()[path]
    } else {
        r matches Err(Error::Cfb(_))
    }
}

/// What `Project::decompress_stream_from` guarantees.
pub open spec fn decompress_stream_from_post(
    before: Project,
    path: Seq<char>,
    offset: int,
    r: Result<Vec<u8>, Error>,
    after: Project,
) -> bool {
    &&& after.same_contents(&before)
    &&& stream_read_as(before.streams(), path, offset, r)
}

/// What `Project::module_source_raw` guarantees: an unregistered name fails
/// with that name; for the first module of that name, the outcome of reading
/// its stream and decompressing it from the module's text offset.
pub open spec fn module_source_raw_post(
    before: Project,
    name: Seq<char>,
    r: Result<Vec<u8>, Error>,
    after: Project,
) -> bool {
    &&& after.same_contents(&before)
    &&& match find_module(before.modules@, name, 0) {
        None => r matches Err(Error::ModuleNotFound(n)) && n@ == name,
        Some(k) => stream_read_as(
            before.streams(),
            vba_stream_path(before.modules@[k].stream_name@),
            before.modules@[k].text_offset as int,
            r,
        ),
    }
}

/// What `Project::module_source` guarantees: the error of the raw read where
/// it fails, else the raw source decoded with the project's code page.
pub open spec fn module_source_post(
    before: Project,
    name: Seq<char>,
    r: Result<String, Error>,
    after: Project,
) -> bool {
    &&& after.same_contents(&before)
    &&& match find_module(before.modules@, name, 0) {
        None => r matches Err(Error::ModuleNotFound(n)) && n@ == name,
        Some(k) => {
            let path = vba_stream_path(before.modules@[k].stream_name@);
            if !before.streams().contains_key(path) {
                r matches Err(Error::Cfb(_))
            } else {
                match decompressed_from(
                    before.streams()[path],
                    before.modules@[k].text_offset as int,
                ) {
                    None => r matches Err(Error::Decompressor),
                    Some(raw) => decoded_as(raw, before.information.code_page, r),
                }
            }
        },
    }
}

/// What `Project::list` guarantees: the listing succeeds and is the
/// container's entries in walk order.
pub open spec fn list_post(p: Project, r: Result<Vec<(String, String)>, Error>) -> bool {
    r matches Ok(v) && entry_views(v@) == p.entries()
}

/// The outcome of opening a project whose container has the streams `m` and
/// whose stored *dir* stream is `stored`.
pub open spec fn opened_as(m: Map<Seq<char>, Seq<u8>>, stored: Seq<u8>, r: Result<Project, Error>) -> bool {
    match decompressed(stored) {
        None => r matches Err(Error::Decompressor),
        Some(d) => match dir_code_page(d) {
            None => r matches Err(Error::Parser),
            Some(cp) => if !code_page_known(cp) {
                r matches Err(Error::Encoding(c)) && c == cp
            } else {
                match dir_view(d) {
                    None => r matches Err(Error::Parser),
                    Some(v) => r matches Ok(p) && p.metadata() == v && p.streams() == m,
                }
            },
        },
    }
}

/// Opens a VBA project: opens the compound file, decompresses its *dir* stream
/// and parses it.
pub fn open_project(raw: Vec<u8>) -> (r: Result<Project, Error>)
    ensures
        match container_streams_of(raw@) {
            None => r matches Err(Error::Cfb(_)),
            Some(m) => if !m.contains_key(dir_stream_path()) {
                r matches Err(Error::Cfb(_))
            } else {
                opened_as(m, m[dir_stream_path()], r)
            },
        },
{
    let ghost bytes = raw@;
    let mut file = match open_container(raw) {
        Ok(c) => c,
        Err(e) => return Err(Error::Cfb(e)),
    };
    proof {
        reveal_strlit("/VBA/dir");
    }
    assert("/VBA/dir"@ =~= dir_stream_path());
    let buffer = match read_container_stream(&mut file, "/VBA/dir") {
        Ok(b) => b,
        Err(e) => return Err(Error::Cfb(e)),
    };
    let ghost m = container_streams(file);
    let info = match parse_dir_stream(buffer.as_slice()) {
        Ok(info) => info,
        Err(e) => return Err(e),
    };
    Ok(
        Project {
            information: info.information,
            references: info.references,
            modules: info.modules,
            container: Container { file },
        },
    )
}

/// Two results of one kind: the same bytes, or errors of the same kind (the
/// same name for a missing module).
pub open spec fn same_outcome(a: Result<Vec<u8>, Error>, b: Result<Vec<u8>, Error>) -> bool {
    ||| (a is Ok && b is Ok && a->Ok_0@ == b->Ok_0@)
    ||| (a matches Err(Error::Cfb(_)) && b matches Err(Error::Cfb(_)))
    ||| (a matches Err(Error::Decompressor) && b matches Err(Error::Decompressor))
    ||| (a matches Err(Error::ModuleNotFound(m)) && b matches Err(Error::ModuleNotFound(n))
        && m@ == n@)
}

/// Reading one path twice gives the same outcome: the first read leaves the
/// streams as they were, and the outcome depends on them alone.
pub proof fn read_stream_idempotent(
    p0: Project,
    p1: Project,
    p2: Project,
    path: Seq<char>,
    first: Result<Vec<u8>, Error>,
    second: Result<Vec<u8>, Error>,
)
    requires
        read_stream_post(p0, path, first, p1),
        read_stream_post(p1, path, second, p2),
    ensures
        p2.same_contents(&p0),
        same_outcome(first, second),
{
}

/// The raw source of a registered module is what decompressing its stream
/// from its text offset gives.
pub proof fn module_source_raw_reads_stream(
    p0: Project,
    p1: Project,
    p2: Project,
    name: Seq<char>,
    raw: Result<Vec<u8>, Error>,
    direct: Result<Vec<u8>, Error>,
)
    requires
        find_module(p0.modules@, name, 0) is Some,
        module_source_raw_post(p0, name, raw, p1),
        decompress_stream_from_post(
            p0,
            vba_stream_path(p0.modules@[find_module(p0.modules@, name, 0)->Some_0].stream_name@),
            p0.modules@[find_module(p0.modules@, name, 0)->Some_0].text_offset as int,
            direct,
            p2,
        ),
    ensures
        same_outcome(raw, direct),
{
}

/// The decoded source of a module is its raw source decoded with the project's
/// code page; where the raw read fails, the decoded read fails the same way.
pub proof fn module_source_decodes_raw(
    p0: Project,
    p1: Project,
    p2: Project,
    name: Seq<char>,
    raw: Result<Vec<u8>, Error>,
    text: Result<String, Error>,
)
    requires
        module_source_raw_post(p0, name, raw, p1),
        module_source_post(p1, name, text, p2),
    ensures
        raw matches Ok(b) ==> decoded_as(b@, p0.information.code_page, text),
        raw matches Err(Error::ModuleNotFound(n)) ==> (text matches Err(Error::ModuleNotFound(m))
            && m@ == n@),
        raw matches Err(Error::Cfb(_)) ==> text matches Err(Error::Cfb(_)),
        raw matches Err(Error::Decompressor) ==> text matches Err(Error::Decompressor),
{
}

/// Listing twice returns the same entries, also with reads in between.
pub proof fn list_idempotent(
    p0: Project,
    p1: Project,
    first: Result<Vec<(String, String)>, Error>,
    second: Result<Vec<(String, String)>, Error>,
)
    requires
        list_post(p0, first),
        p1.same_contents(&p0),
        list_post(p1, second),
    ensures
        first is Ok && second is Ok,
        entry_views(first->Ok_0@) == entry_views(second->Ok_0@),
{
}

} // verus!

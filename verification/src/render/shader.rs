//! Shader sources and modules: loading, compiling, and the fallback that
//! keeps a pipeline alive when a source does not compile.

use vstd::prelude::*;
use super::GpuContext;
use vstd::pervasive::unreached;
use crate::util::{path_name_to_string, spec_names_file};

verus! {

/// The form a shader is written in.
#[derive(Debug, Clone, Copy, PartialEq, Eq, Structural)]
pub enum ShaderBackend {
    /// Text that the device compiles and may refuse.
    Wgsl,
    /// A binary compiled beforehand.
    Spirv,
}

/// Where a shader comes from.
#[derive(Debug)]
pub struct ShaderMetadata {
    pub name: String,
    pub path: String,
    pub backend: ShaderBackend,
}

/// What was read from a shader file.
#[derive(Debug)]
pub enum ShaderData {
    Text(String),
    Binary(Vec<u8>),
}

/// The content of a shader file, in spec terms.
pub enum ShaderDataView {
    Text(Seq<char>),
    Binary(Seq<u8>),
}

impl View for ShaderData {
    type V = ShaderDataView;

    open spec fn view(&self) -> ShaderDataView {
        match self {
            ShaderData::Text(text) => ShaderDataView::Text(text@),
            ShaderData::Binary(bytes) => ShaderDataView::Binary(bytes@),
        }
    }
}

/// Whether data of this form belongs to a shader of `backend`.
pub open spec fn spec_fits(data: ShaderDataView, backend: ShaderBackend) -> bool {
    match (data, backend) {
        (ShaderDataView::Text(_), ShaderBackend::Wgsl) => true,
        (ShaderDataView::Binary(_), ShaderBackend::Spirv) => true,
        _ => false,
    }
}

/// What a source holds after a read gave `data`: the data where it has the
/// form of the backend, nothing otherwise.
pub open spec fn spec_loaded(data: Option<ShaderData>, backend: ShaderBackend) -> Option<
    ShaderDataView,
> {
    match data {
        Some(d) if spec_fits(d@, backend) => Some(d@),
        _ => None,
    }
}

/// The first word of every binary shader.
pub const SPIRV_MAGIC: u32 = 0x0723_0203;

/// Word `i` of `bytes`, lowest byte first.
pub open spec fn spec_word_le(bytes: Seq<u8>, i: int) -> u32 {
    (bytes[4 * i] as int + bytes[4 * i + 1] as int * 0x100 + bytes[4 * i + 2] as int * 0x1_0000
        + bytes[4 * i + 3] as int * 0x100_0000) as u32
}

/// Word `i` of `bytes`, highest byte first.
pub open spec fn spec_word_be(bytes: Seq<u8>, i: int) -> u32 {
    (bytes[4 * i + 3] as int + bytes[4 * i + 2] as int * 0x100 + bytes[4 * i + 1] as int * 0x1_0000
        + bytes[4 * i] as int * 0x100_0000) as u32
}

/// Whether `bytes` are whole words that begin with the magic word, in either
/// byte order.
pub open spec fn spec_spirv_framed(bytes: Seq<u8>) -> bool {
    &&& bytes.len() > 0
    &&& bytes.len() % 4 == 0
    &&& (spec_word_le(bytes, 0) == SPIRV_MAGIC || spec_word_be(bytes, 0) == SPIRV_MAGIC)
}

/// The words of a binary shader, read in the byte order in which its first
/// word is the magic word.
pub open spec fn spec_spirv_words(bytes: Seq<u8>) -> Seq<u32> {
    Seq::new(
        (bytes.len() / 4) as nat,
        |i: int|
            if spec_word_le(bytes, 0) == SPIRV_MAGIC {
                spec_word_le(bytes, i)
            } else {
                spec_word_be(bytes, i)
            },
    )
}

/// `wgpu::util::make_spirv_raw`. Trusted: on whole words that begin with the
/// magic word it returns the words in the byte order of the file, whatever
/// the byte order of the machine. It panics on anything else, which
/// `requires` leaves out.
#[verifier::external_body]
fn wgpu_make_spirv_raw(bytes: &[u8]) -> (words: Vec<u32>)
    requires
        spec_spirv_framed(bytes@),
    ensures
        words@ == spec_spirv_words(bytes@),
{
    wgpu::util::make_spirv_raw(bytes).into_owned()
}

/// Whether `bytes` are whole words that begin with the magic word.
pub fn spirv_framed(bytes: &[u8]) -> (framed: bool)
    ensures
        framed == spec_spirv_framed(bytes@),
{
    if bytes.len() == 0 || bytes.len() % 4 != 0 {
        return false;
    }
    let b0: u32 = bytes[0] as u32;
    let b1: u32 = bytes[1] as u32;
    let b2: u32 = bytes[2] as u32;
    let b3: u32 = bytes[3] as u32;
    let le: u32 = b0 + b1 * 0x100 + b2 * 0x1_0000 + b3 * 0x100_0000;
    let be: u32 = b3 + b2 * 0x100 + b1 * 0x1_0000 + b0 * 0x100_0000;
    le == SPIRV_MAGIC || be == SPIRV_MAGIC
}

/// Why no module can be made from a source.
#[derive(Debug, Clone, Copy, PartialEq, Eq, Structural)]
pub enum ShaderError {
    /// The file of a binary shader could not be read.
    UnreadableBinary,
    /// The file of a binary shader does not hold whole words behind the magic word.
    MalformedBinary,
}

/// What a device makes a shader module from.
#[derive(Debug)]
pub enum ShaderModuleDescriptor {
    /// Text, compiled inside a validation scope.
    Wgsl { label: String, source: String },
    /// Words of a binary, taken as they are.
    SpirV { label: String, words: Vec<u32> },
    /// The fixed module that always compiles and does nothing.
    Fallback { label: String },
}

/// A module descriptor, in spec terms.
pub enum ShaderModuleDescriptorView {
    Wgsl { label: Seq<char>, source: Seq<char> },
    SpirV { label: Seq<char>, words: Seq<u32> },
    Fallback { label: Seq<char> },
}

impl View for ShaderModuleDescriptor {
    type V = ShaderModuleDescriptorView;

    open spec fn view(&self) -> ShaderModuleDescriptorView {
        match self {
            ShaderModuleDescriptor::Wgsl { label, source } => ShaderModuleDescriptorView::Wgsl {
                label: label@,
                source: source@,
            },
            ShaderModuleDescriptor::SpirV { label, words } => ShaderModuleDescriptorView::SpirV {
                label: label@,
                words: words@,
            },
            ShaderModuleDescriptor::Fallback { label } => ShaderModuleDescriptorView::Fallback {
                label: label@,
            },
        }
    }
}

/// Why what a read gave cannot be the source of a shader of `backend`. A
/// textual shader takes any read: it falls back where the read gave no
/// text. A binary shader has no fallback: a read that gave no bytes, or
/// bytes that are not whole words behind the magic word, is an error.
pub open spec fn spec_load_error(backend: ShaderBackend, data: Option<ShaderData>) -> Option<
    ShaderError,
> {
    match backend {
        ShaderBackend::Wgsl => None,
        ShaderBackend::Spirv => match spec_loaded(data, backend) {
            Some(ShaderDataView::Binary(bytes)) => if spec_spirv_framed(bytes) {
                None
            } else {
                Some(ShaderError::MalformedBinary)
            },
            _ => Some(ShaderError::UnreadableBinary),
        },
    }
}

/// Whether a source of `backend` may hold `data`: data of the form of the
/// backend, and for a binary shader always whole words behind the magic word.
pub open spec fn spec_holds(backend: ShaderBackend, data: Option<ShaderDataView>) -> bool {
    match (backend, data) {
        (ShaderBackend::Wgsl, Some(ShaderDataView::Text(_))) => true,
        (ShaderBackend::Wgsl, None) => true,
        (ShaderBackend::Spirv, Some(ShaderDataView::Binary(bytes))) => spec_spirv_framed(bytes),
        _ => false,
    }
}

/// The module that a source named `name` of `backend` holding `data` is
/// made from: the text, the words, or for a textual source that holds
/// nothing the fallback.
pub open spec fn spec_descriptor(
    name: Seq<char>,
    backend: ShaderBackend,
    data: Option<ShaderDataView>,
) -> ShaderModuleDescriptorView {
    match (backend, data) {
        (ShaderBackend::Wgsl, Some(ShaderDataView::Text(text))) => ShaderModuleDescriptorView::Wgsl {
            label: name,
            source: text,
        },
        (ShaderBackend::Spirv, Some(ShaderDataView::Binary(bytes))) =>
            ShaderModuleDescriptorView::SpirV { label: name, words: spec_spirv_words(bytes) },
        _ => ShaderModuleDescriptorView::Fallback { label: name },
    }
}

/// Why what a read gave cannot be the source of a shader of `backend`.
pub fn load_error(backend: ShaderBackend, data: &Option<ShaderData>) -> (error: Option<ShaderError>)
    ensures
        error == spec_load_error(backend, *data),
{
    match backend {
        ShaderBackend::Wgsl => None,
        ShaderBackend::Spirv => match data {
            Some(ShaderData::Binary(bytes)) => if spirv_framed(bytes.as_slice()) {
                None
            } else {
                Some(ShaderError::MalformedBinary)
            },
            _ => Some(ShaderError::UnreadableBinary),
        },
    }
}

/// A shader file and what was last read from it. A textual source that
/// holds nothing is a fallback: its module is the fixed one. A binary
/// source always holds its words; there is no fallback for it.
#[derive(Debug)]
pub struct ShaderSource {
    metadata: ShaderMetadata,
    source: Option<ShaderData>,
}

impl ShaderSource {
    pub closed spec fn spec_name(&self) -> Seq<char> {
        self.metadata.name@
    }

    pub closed spec fn spec_path(&self) -> Seq<char> {
        self.metadata.path@
    }

    pub closed spec fn spec_backend(&self) -> ShaderBackend {
        self.metadata.backend
    }

    /// What the source holds.
    pub closed spec fn spec_data(&self) -> Option<ShaderDataView> {
        match self.source {
            Some(data) => Some(data@),
            None => None,
        }
    }

    /// What the source holds has the form of its backend, and a binary
    /// source holds whole words behind the magic word.
    pub open spec fn wf(&self) -> bool {
        spec_holds(self.spec_backend(), self.spec_data())
    }

    /// Whether the module of this source is the fixed fallback: it is a
    /// textual source and holds nothing.
    pub open spec fn spec_is_fallback(&self) -> bool {
        self.spec_backend() == ShaderBackend::Wgsl && self.spec_data() is None
    }

    /// The source of the file at `path`, from which `data` was read (`None`
    /// where it could not be read).
    fn load(path: &str, backend: ShaderBackend, data: Option<ShaderData>) -> (loaded: Result<
        Self,
        ShaderError,
    >)
        requires
            spec_names_file(path@),
        ensures
            match loaded {
                Ok(source) => {
                    &&& spec_load_error(backend, data) is None
                    &&& source.wf()
                    &&& source.spec_name() == crate::util::spec_file_name(path@)
                    &&& source.spec_path() == path@
                    &&& source.spec_backend() == backend
                    &&& source.spec_data() == spec_loaded(data, backend)
                },
                Err(e) => spec_load_error(backend, data) == Some(e),
            },
    {
        match load_error(backend, &data) {
            Some(e) => Err(e),
            None => {
                let metadata = ShaderMetadata {
                    name: path_name_to_string(path),
                    path: path.to_owned(),
                    backend,
                };
                let source = Self::fitting(data, backend);
                Ok(ShaderSource { metadata, source })
            },
        }
    }

    /// `data` where it has the form of `backend`.
    fn fitting(data: Option<ShaderData>, backend: ShaderBackend) -> (kept: Option<ShaderData>)
        ensures
            match kept {
                Some(d) => spec_loaded(data, backend) == Some(d@),
                None => spec_loaded(data, backend) is None,
            },
    {
        match data {
            Some(ShaderData::Text(text)) => match backend {
                ShaderBackend::Wgsl => Some(ShaderData::Text(text)),
                ShaderBackend::Spirv => None,
            },
            Some(ShaderData::Binary(bytes)) => match backend {
                ShaderBackend::Wgsl => None,
                ShaderBackend::Spirv => Some(ShaderData::Binary(bytes)),
            },
            None => None,
        }
    }

    /// A textual shader at `path` with the text read from it. Where the
    /// file could not be read (`None`), the shader is a fallback.
    pub fn load_wgsl(path: &str, text: Option<String>) -> (source: Self)
        requires
            spec_names_file(path@),
        ensures
            source.wf(),
            source.spec_name() == crate::util::spec_file_name(path@),
            source.spec_path() == path@,
            source.spec_backend() == ShaderBackend::Wgsl,
            source.spec_data() == (match text {
                Some(t) => Some(ShaderDataView::Text(t@)),
                None => None,
            }),
            source.spec_is_fallback() == (text is None),
    {
        let data = match text {
            Some(t) => Some(ShaderData::Text(t)),
            None => None,
        };
        match Self::load(path, ShaderBackend::Wgsl, data) {
            Ok(source) => source,
            Err(_) => unreached(),
        }
    }

    /// A binary shader at `path` with the bytes read from it. A file that
    /// could not be read (`None`), or that does not hold whole words behind
    /// the magic word, is a load error: no source is made of it.
    pub fn load_spirv(path: &str, bytes: Option<Vec<u8>>) -> (loaded: Result<Self, ShaderError>)
        requires
            spec_names_file(path@),
        ensures
            match loaded {
                Ok(source) => {
                    &&& bytes matches Some(b) && spec_spirv_framed(b@)
                        && source.spec_data() == Some(ShaderDataView::Binary(b@))
                    &&& source.wf()
                    &&& !source.spec_is_fallback()
                    &&& source.spec_name() == crate::util::spec_file_name(path@)
                    &&& source.spec_path() == path@
                    &&& source.spec_backend() == ShaderBackend::Spirv
                },
                Err(e) => e == (match bytes {
                    None => ShaderError::UnreadableBinary,
                    Some(_) => ShaderError::MalformedBinary,
                }) && !(bytes matches Some(b) && spec_spirv_framed(b@)),
            },
    {
        let data = match bytes {
            Some(b) => Some(ShaderData::Binary(b)),
            None => None,
        };
        Self::load(path, ShaderBackend::Spirv, data)
    }

    /// Takes what a new read of the file gave. A read that a binary shader
    /// cannot take is an error and leaves the source as it was.
    pub fn reload(&mut self, data: Option<ShaderData>) -> (result: Result<(), ShaderError>)
        requires
            old(self).wf(),
        ensures
            final(self).wf(),
            match result {
                Ok(()) => {
                    &&& spec_load_error(old(self).spec_backend(), data) is None
                    &&& final(self).spec_name() == old(self).spec_name()
                    &&& final(self).spec_path() == old(self).spec_path()
                    &&& final(self).spec_backend() == old(self).spec_backend()
                    &&& final(self).spec_data() == spec_loaded(data, old(self).spec_backend())
                },
                Err(e) => {
                    &&& spec_load_error(old(self).spec_backend(), data) == Some(e)
                    &&& *final(self) == *old(self)
                },
            },
    {
        match load_error(self.metadata.backend, &data) {
            Some(e) => Err(e),
            None => {
                self.source = Self::fitting(data, self.metadata.backend);
                Ok(())
            },
        }
    }

    /// Whether the module of this source is the fixed fallback.
    #[verifier::when_used_as_spec(spec_is_fallback)]
    pub fn is_fallback(&self) -> (fallback: bool)
        ensures
            fallback == self.spec_is_fallback(),
    {
        match self.metadata.backend {
            ShaderBackend::Wgsl => self.source.is_none(),
            ShaderBackend::Spirv => false,
        }
    }

    /// Gives up what a textual source holds. A binary source has no
    /// fallback to make.
    pub fn make_fallback(&mut self)
        requires
            old(self).spec_backend() == ShaderBackend::Wgsl,
        ensures
            final(self).wf(),
            final(self).spec_is_fallback(),
            final(self).spec_name() == old(self).spec_name(),
            final(self).spec_path() == old(self).spec_path(),
            final(self).spec_backend() == old(self).spec_backend(),
    {
        self.source = None;
    }

    /// The form the shader is written in.
    #[verifier::when_used_as_spec(spec_backend)]
    pub fn backend(&self) -> (backend: ShaderBackend)
        ensures
            backend == self.spec_backend(),
    {
        self.metadata.backend
    }

    /// Name of the shader: the name of its file.
    pub fn name(&self) -> (name: &String)
        ensures
            name@ == self.spec_name(),
    {
        &self.metadata.name
    }

    /// Path of the file.
    pub fn path(&self) -> (path: &String)
        ensures
            path@ == self.spec_path(),
    {
        &self.metadata.path
    }

    /// The text of a textual shader.
    pub fn source_str(&self) -> (text: Option<&str>)
        requires
            self.wf(),
            self.spec_backend() == ShaderBackend::Wgsl,
        ensures
            match text {
                Some(t) => self.spec_data() == Some(ShaderDataView::Text(t@)),
                None => self.spec_data() is None,
            },
    {
        match &self.source {
            Some(ShaderData::Text(text)) => Some(text.as_str()),
            _ => None,
        }
    }

    /// The words of a binary shader.
    pub fn source_words(&self) -> (words: Vec<u32>)
        requires
            self.wf(),
            self.spec_backend() == ShaderBackend::Spirv,
        ensures
            self.spec_data() matches Some(ShaderDataView::Binary(bytes)) && words@
                == spec_spirv_words(bytes),
    {
        match &self.source {
            Some(ShaderData::Binary(bytes)) => wgpu_make_spirv_raw(bytes.as_slice()),
            _ => unreached(),
        }
    }

    /// What a device makes the module of this source from: the text or the
    /// words that it holds, or the fallback where a textual source holds
    /// nothing.
    pub fn descriptor(&self) -> (desc: ShaderModuleDescriptor)
        requires
            self.wf(),
        ensures
            desc@ == spec_descriptor(self.spec_name(), self.spec_backend(), self.spec_data()),
    {
        match self.metadata.backend {
            ShaderBackend::Wgsl => match self.source_str() {
                Some(text) => ShaderModuleDescriptor::Wgsl {
                    label: self.metadata.name.clone(),
                    source: text.to_owned(),
                },
                None => self.fallback_descriptor(),
            },
            ShaderBackend::Spirv => ShaderModuleDescriptor::SpirV {
                label: self.metadata.name.clone(),
                words: self.source_words(),
            },
        }
    }

    /// The fixed module under the name of this shader.
    pub fn fallback_descriptor(&self) -> (desc: ShaderModuleDescriptor)
        ensures
            desc@ == (ShaderModuleDescriptorView::Fallback { label: self.spec_name() }),
    {
        ShaderModuleDescriptor::Fallback { label: self.metadata.name.clone() }
    }
}


/// Where a shader stands between its file and a module on the device.
#[derive(Debug, Clone, Copy, PartialEq, Eq, Structural)]
pub enum ShaderState {
    /// Read, with no module yet.
    Loaded,
    /// A module is being compiled; the device has not answered yet.
    Compiling,
    /// The module was made from what the source holds.
    Compiled,
    /// The module is the fixed fallback.
    Fallback,
}

/// The state a compile ends in, given whether the device reported an error
/// and whether the source held nothing to begin with.
pub open spec fn spec_settled(failed: bool, held_nothing: bool) -> ShaderState {
    if failed || held_nothing {
        ShaderState::Fallback
    } else {
        ShaderState::Compiled
    }
}

/// A shader source together with its module on the device.
#[derive(Debug)]
pub struct Shader {
    source: ShaderSource,
    module: u64,
    state: ShaderState,
    error: Option<String>,
}

impl Shader {
    pub closed spec fn spec_source(&self) -> ShaderSource {
        self.source
    }

    /// Identity of the module; it names a device module in every state but `Loaded`.
    pub closed spec fn spec_module(&self) -> u64 {
        self.module
    }

    pub closed spec fn spec_state(&self) -> ShaderState {
        self.state
    }

    /// The text of the error that the last compile ended with, if it ended with one.
    pub closed spec fn spec_error(&self) -> Option<Seq<char>> {
        match self.error {
            Some(text) => Some(text@),
            None => None,
        }
    }

    /// The state agrees with the source: a fallback holds nothing, a
    /// compiled shader holds what its module was made from, and only a
    /// textual shader waits for the device or falls back.
    pub open spec fn wf(&self) -> bool {
        &&& self.spec_source().wf()
        &&& self.spec_state() == ShaderState::Fallback ==> self.spec_source().spec_is_fallback()
        &&& self.spec_state() == ShaderState::Compiled ==> !self.spec_source().spec_is_fallback()
        &&& self.spec_state() == ShaderState::Compiling ==> self.spec_source().spec_backend()
            == ShaderBackend::Wgsl
        &&& self.spec_error() is Some ==> self.spec_state() == ShaderState::Fallback
    }

    /// Whether a pipeline can be built with the module.
    pub open spec fn spec_ready(&self) -> bool {
        self.spec_state() == ShaderState::Compiled || self.spec_state() == ShaderState::Fallback
    }

    /// A shader that was read and has no module yet.
    pub fn new(source: ShaderSource) -> (shader: Self)
        requires
            source.wf(),
        ensures
            shader.wf(),
            shader.spec_source() == source,
            shader.spec_state() == ShaderState::Loaded,
            shader.spec_error() is None,
    {
        Shader { source, module: 0, state: ShaderState::Loaded, error: None }
    }

    /// Starts making the module of what the source holds and returns what
    /// the device makes it from. A textual shader then waits for the device
    /// to report on the compile; a binary one is not validated and is
    /// compiled at once.
    pub fn begin_compile(&mut self, gpu: &mut GpuContext) -> (desc: ShaderModuleDescriptor)
        requires
            old(self).wf(),
            old(gpu).has_room(1),
        ensures
            final(self).wf(),
            final(self).spec_source() == old(self).spec_source(),
            final(gpu).spec_float32_filterable() == old(gpu).spec_float32_filterable(),
            desc@ == spec_descriptor(
                old(self).spec_source().spec_name(),
                old(self).spec_source().spec_backend(),
                old(self).spec_source().spec_data(),
            ),
            final(self).spec_module() == old(gpu).next_id(),
            final(gpu).next_id() == old(gpu).next_id() + 1,
            final(self).spec_error() is None,
            final(self).spec_state() == (match old(self).spec_source().spec_backend() {
                ShaderBackend::Wgsl => ShaderState::Compiling,
                ShaderBackend::Spirv => ShaderState::Compiled,
            }),
    {
        let desc = self.source.descriptor();
        self.module = gpu.allocate();
        self.error = None;
        self.state = match self.source.backend() {
            ShaderBackend::Wgsl => ShaderState::Compiling,
            ShaderBackend::Spirv => ShaderState::Compiled,
        };
        desc
    }

    /// Takes the device's report on the compile that was begun. On an error
    /// the source gives up what it holds, the fixed fallback takes the place
    /// of the module, and the error text is kept; the fallback is returned for
    /// the device to make. Without an error the module stands.
    pub fn finish_compile(&mut self, gpu: &mut GpuContext, device_error: Option<String>) -> (fallback:
        Option<ShaderModuleDescriptor>)
        requires
            old(self).wf(),
            old(self).spec_state() == ShaderState::Compiling,
            old(gpu).has_room(1),
        ensures
            final(self).wf(),
            final(self).spec_ready(),
            final(gpu).spec_float32_filterable() == old(gpu).spec_float32_filterable(),
            final(self).spec_source().spec_name() == old(self).spec_source().spec_name(),
            final(self).spec_source().spec_path() == old(self).spec_source().spec_path(),
            final(self).spec_source().spec_backend() == old(self).spec_source().spec_backend(),
            final(self).spec_state() == spec_settled(
                device_error is Some,
                old(self).spec_source().spec_is_fallback(),
            ),
            match device_error {
                Some(text) => {
                    &&& final(self).spec_source().spec_is_fallback()
                    &&& final(self).spec_error() == Some(text@)
                    &&& final(self).spec_module() == old(gpu).next_id()
                    &&& final(gpu).next_id() == old(gpu).next_id() + 1
                    &&& fallback matches Some(d) && d@ == (ShaderModuleDescriptorView::Fallback {
                        label: old(self).spec_source().spec_name(),
                    })
                },
                None => {
                    &&& final(self).spec_source() == old(self).spec_source()
                    &&& final(self).spec_error() is None
                    &&& final(self).spec_module() == old(self).spec_module()
                    &&& final(gpu).next_id() == old(gpu).next_id()
                    &&& fallback is None
                },
            },
    {
        match device_error {
            Some(text) => {
                self.source.make_fallback();
                self.module = gpu.allocate();
                self.state = ShaderState::Fallback;
                self.error = Some(text);
                Some(self.source.fallback_descriptor())
            },
            None => {
                self.state = if self.source.is_fallback() {
                    ShaderState::Fallback
                } else {
                    ShaderState::Compiled
                };
                self.error = None;
                None
            },
        }
    }

    /// Takes a new read of the file and starts making its module. A read
    /// that a binary shader cannot take is an error and leaves the shader
    /// and its module as they were.
    pub fn recreate(&mut self, gpu: &mut GpuContext, data: Option<ShaderData>) -> (desc: Result<
        ShaderModuleDescriptor,
        ShaderError,
    >)
        requires
            old(self).wf(),
            old(gpu).has_room(1),
        ensures
            final(self).wf(),
            final(gpu).spec_float32_filterable() == old(gpu).spec_float32_filterable(),
            match desc {
                Ok(d) => {
                    &&& spec_load_error(old(self).spec_source().spec_backend(), data) is None
                    &&& final(self).spec_source().spec_name() == old(self).spec_source().spec_name()
                    &&& final(self).spec_source().spec_path() == old(self).spec_source().spec_path()
                    &&& final(self).spec_source().spec_backend() == old(self).spec_source().spec_backend()
                    &&& final(self).spec_source().spec_data() == spec_loaded(
                        data,
                        old(self).spec_source().spec_backend(),
                    )
                    &&& d@ == spec_descriptor(
                        old(self).spec_source().spec_name(),
                        old(self).spec_source().spec_backend(),
                        spec_loaded(data, old(self).spec_source().spec_backend()),
                    )
                    &&& final(self).spec_module() == old(gpu).next_id()
                    &&& final(gpu).next_id() == old(gpu).next_id() + 1
                    &&& final(self).spec_error() is None
                    &&& final(self).spec_state() == (match old(self).spec_source().spec_backend() {
                        ShaderBackend::Wgsl => ShaderState::Compiling,
                        ShaderBackend::Spirv => ShaderState::Compiled,
                    })
                },
                Err(e) => {
                    &&& spec_load_error(old(self).spec_source().spec_backend(), data) == Some(e)
                    &&& *final(self) == *old(self)
                    &&& final(gpu).next_id() == old(gpu).next_id()
                },
            },
    {
        match self.source.reload(data) {
            Err(e) => Err(e),
            Ok(()) => {
                self.state = ShaderState::Loaded;
                self.error = None;
                Ok(self.begin_compile(gpu))
            },
        }
    }

    /// The source of the shader.
    pub fn source(&self) -> (source: &ShaderSource)
        ensures
            *source == self.spec_source(),
    {
        &self.source
    }

    /// Identity of the module.
    #[verifier::when_used_as_spec(spec_module)]
    pub fn module(&self) -> (module: u64)
        ensures
            module == self.spec_module(),
    {
        self.module
    }

    /// Where the shader stands.
    #[verifier::when_used_as_spec(spec_state)]
    pub fn state(&self) -> (state: ShaderState)
        ensures
            state == self.spec_state(),
    {
        self.state
    }

    /// Whether a pipeline can be built with the module.
    #[verifier::when_used_as_spec(spec_ready)]
    pub fn is_ready(&self) -> (ready: bool)
        ensures
            ready == self.spec_ready(),
    {
        match self.state {
            ShaderState::Compiled => true,
            ShaderState::Fallback => true,
            _ => false,
        }
    }

    /// The text of the error that the last compile ended with.
    pub fn error(&self) -> (error: Option<&String>)
        ensures
            match error {
                Some(text) => self.spec_error() == Some(text@),
                None => self.spec_error() is None,
            },
    {
        self.error.as_ref()
    }
}

/// Whatever the device reports, a compile that was begun ends with a module
/// that pipelines can be built with: the shader is a fallback exactly if the
/// device reported an error or the source held nothing, and compiled otherwise.
pub proof fn lemma_compile_settles(failed: bool, held_nothing: bool)
    ensures
        spec_settled(failed, held_nothing) == ShaderState::Fallback <==> failed || held_nothing,
        spec_settled(failed, held_nothing) == ShaderState::Compiled <==> !failed && !held_nothing,
{
}


/// Whether the shaders are to be read and compiled again: only if at least
/// one recompile event was raised since the last frame.
pub fn recompile_shaders(recompile_events: usize) -> (due: bool)
    ensures
        due == (recompile_events > 0),
{
    recompile_events != 0
}

} // verus!

//! Formats, usages and operations of graphics resources, and the names of
//! shader profiles.

use vstd::prelude::*;
use vstd::string::StringExecFns;

verus! {

/// What a buffer may be bound as: a set of usages, one bit each.
#[derive(Clone, Copy, Debug, PartialEq, Eq, Hash, Structural)]
pub struct BBufferUsages {
    bits: u64,
}

impl View for BBufferUsages {
    type V = u64;

    closed spec fn view(&self) -> u64 {
        self.bits
    }
}

impl BBufferUsages {
    /// The bit of the usage as a vertex buffer.
    pub const VERTEX: u64 = 0x1;

    /// The bit of the usage as an index buffer.
    pub const INDEX: u64 = 0x2;

    /// The bit of the usage as a uniform buffer.
    pub const UNIFORM: u64 = 0x4;

    /// All bits that stand for a usage.
    pub const ALL: u64 = 0x7;

    /// No usage at all.
    pub fn empty() -> (usages: Self)
        ensures
            usages@ == 0,
    {
        BBufferUsages { bits: 0 }
    }

    /// The usages whose bits are set in `bits`; bits that stand for no usage
    /// are dropped.
    pub fn from_bits_truncate(bits: u64) -> (usages: Self)
        ensures
            usages@ == bits & Self::ALL,
    {
        BBufferUsages { bits: bits & Self::ALL }
    }

    /// The usages as bits.
    pub fn bits(&self) -> (bits: u64)
        ensures
            bits == self@,
    {
        self.bits
    }

    /// Whether every usage in `other` is in `self`.
    pub fn contains(&self, other: BBufferUsages) -> (r: bool)
        ensures
            r == (self@ & other@ == other@),
    {
        self.bits & other.bits == other.bits
    }

    /// The usages of `self` together with those of `other`.
    pub fn union(self, other: BBufferUsages) -> (usages: Self)
        ensures
            usages@ == self@ | other@,
    {
        BBufferUsages { bits: self.bits | other.bits }
    }

    /// A union contains both of its parts, and every set of usages contains
    /// itself and the empty one.
    pub proof fn lemma_union_contains(a: u64, b: u64)
        ensures
            (a | b) & a == a,
            (a | b) & b == b,
            a & a == a,
            a & 0 == 0,
    {
        assert((a | b) & a == a) by (bit_vector);
        assert((a | b) & b == b) by (bit_vector);
        assert(a & a == a) by (bit_vector);
        assert(a & 0 == 0) by (bit_vector);
    }
}

/// What a texture may be bound as: a set of usages, one bit each.
#[derive(Clone, Copy, Debug, PartialEq, Eq, Hash, Structural)]
pub struct BTextureUsages {
    bits: u64,
}

impl View for BTextureUsages {
    type V = u64;

    closed spec fn view(&self) -> u64 {
        self.bits
    }
}

impl BTextureUsages {
    /// The bit of the usage as a render attachment.
    pub const ATTACHMENT: u64 = 0x1;

    /// The bit of the usage as a sampled texture.
    pub const SAMPLED: u64 = 0x4;

    /// The bit of the usage as a storage texture.
    pub const UNORDERED_ACCESS: u64 = 0x8;

    /// All bits that stand for a usage.
    pub const ALL: u64 = 0xd;

    /// No usage at all.
    pub fn empty() -> (usages: Self)
        ensures
            usages@ == 0,
    {
        BTextureUsages { bits: 0 }
    }

    /// The usages whose bits are set in `bits`; bits that stand for no usage
    /// are dropped.
    pub fn from_bits_truncate(bits: u64) -> (usages: Self)
        ensures
            usages@ == bits & Self::ALL,
    {
        BTextureUsages { bits: bits & Self::ALL }
    }

    /// The usages as bits.
    pub fn bits(&self) -> (bits: u64)
        ensures
            bits == self@,
    {
        self.bits
    }

    /// Whether every usage in `other` is in `self`.
    pub fn contains(&self, other: BTextureUsages) -> (r: bool)
        ensures
            r == (self@ & other@ == other@),
    {
        self.bits & other.bits == other.bits
    }

    /// The usages of `self` together with those of `other`.
    pub fn union(self, other: BTextureUsages) -> (usages: Self)
        ensures
            usages@ == self@ | other@,
    {
        BTextureUsages { bits: self.bits | other.bits }
    }
}

/// The most colour attachments that a pass can have.
pub const MAX_N_COLOR_ATTACHMENTS: usize = 4;

/// What happens to an attachment when a pass begins.
#[derive(Clone, Debug)]
pub enum ELoadOp {
    Load,
    Clear,
}

/// What happens to an attachment when a pass ends.
#[derive(Clone, Debug)]
pub enum EStoreOp {
    Store,
    Discard,
}

impl EStoreOp {
    /// Whether the attachment is kept.
    pub fn store(&self) -> (keep: bool)
        ensures
            keep == (*self is Store),
    {
        match self {
            EStoreOp::Store => true,
            EStoreOp::Discard => false,
        }
    }
}

/// How the values of a resource are laid out.
pub trait TValueFormat {
    spec fn spec_block_size(&self) -> u32;

    spec fn spec_dimension(&self) -> u32;

    /// The bytes that one value takes.
    fn block_size(&self) -> (size: u32)
        ensures
            size == self.spec_block_size(),
    ;

    /// The number of components of one value.
    fn dimension(&self) -> (dimension: u32)
        ensures
            dimension == self.spec_dimension(),
    ;
}

/// The formats of textures.
#[derive(Clone, Copy, Debug, PartialEq, Eq, Hash, Structural)]
pub enum ETextureFormat {
    Bgra8Unorm,
    Bgra8UnormSrgb,
    Rgba16Float,
    Rgba32Float,
    R32Uint,
    Depth24PlusStencil8,
}

impl TValueFormat for ETextureFormat {
    open spec fn spec_block_size(&self) -> u32 {
        match self {
            ETextureFormat::Bgra8Unorm => 4,
            ETextureFormat::Bgra8UnormSrgb => 4,
            ETextureFormat::Rgba16Float => 8,
            ETextureFormat::Rgba32Float => 16,
            ETextureFormat::R32Uint => 4,
            ETextureFormat::Depth24PlusStencil8 => 4,
        }
    }

    open spec fn spec_dimension(&self) -> u32 {
        match self {
            ETextureFormat::R32Uint => 1,
            _ => 2,
        }
    }

    fn block_size(&self) -> (size: u32) {
        match self {
            ETextureFormat::Bgra8Unorm => 4,
            ETextureFormat::Bgra8UnormSrgb => 4,
            ETextureFormat::Rgba16Float => 8,
            ETextureFormat::Rgba32Float => 16,
            ETextureFormat::R32Uint => 4,
            ETextureFormat::Depth24PlusStencil8 => 4,
        }
    }

    fn dimension(&self) -> (dimension: u32) {
        match self {
            ETextureFormat::Bgra8Unorm => 2,
            ETextureFormat::Bgra8UnormSrgb => 2,
            ETextureFormat::Rgba16Float => 2,
            ETextureFormat::Rgba32Float => 2,
            ETextureFormat::R32Uint => 1,
            ETextureFormat::Depth24PlusStencil8 => 2,
        }
    }
}

/// The formats of indices.
#[derive(Clone, Copy, Debug, PartialEq, Eq, Hash, Structural)]
pub enum EIndexFormat {
    Uint16,
    Uint32,
}

impl TValueFormat for EIndexFormat {
    open spec fn spec_block_size(&self) -> u32 {
        match self {
            EIndexFormat::Uint16 => 2,
            EIndexFormat::Uint32 => 4,
        }
    }

    open spec fn spec_dimension(&self) -> u32 {
        1
    }

    fn block_size(&self) -> (size: u32) {
        match self {
            EIndexFormat::Uint16 => 2,
            EIndexFormat::Uint32 => 4,
        }
    }

    fn dimension(&self) -> (dimension: u32) {
        match self {
            EIndexFormat::Uint16 => 1,
            EIndexFormat::Uint32 => 1,
        }
    }
}

/// The formats of vertex attributes: one to four 32-bit components.
#[derive(Clone, Copy, Debug, PartialEq, Eq, Hash, Structural)]
pub enum EVertexFormat {
    Float32,
    Float32x2,
    Float32x3,
    Float32x4,
}

impl TValueFormat for EVertexFormat {
    open spec fn spec_block_size(&self) -> u32 {
        (4 * self.spec_dimension()) as u32
    }

    open spec fn spec_dimension(&self) -> u32 {
        match self {
            EVertexFormat::Float32 => 1,
            EVertexFormat::Float32x2 => 2,
            EVertexFormat::Float32x3 => 3,
            EVertexFormat::Float32x4 => 4,
        }
    }

    fn block_size(&self) -> (size: u32) {
        match self {
            EVertexFormat::Float32 => 4,
            EVertexFormat::Float32x2 => 8,
            EVertexFormat::Float32x3 => 12,
            EVertexFormat::Float32x4 => 16,
        }
    }

    fn dimension(&self) -> (dimension: u32) {
        match self {
            EVertexFormat::Float32 => 1,
            EVertexFormat::Float32x2 => 2,
            EVertexFormat::Float32x3 => 3,
            EVertexFormat::Float32x4 => 4,
        }
    }
}

/// The formats of the values in buffers and textures.
#[derive(Clone, Copy, Debug, PartialEq, Eq, Hash, Structural)]
pub enum EValueFormat {
    Uint32,
    Float32,
    Float32x2,
    Float32x3,
    Float32x4,
    Unorm8x4,
    Unorm8x4Srgb,
    Depth24Stencil8,
}

impl EValueFormat {
    pub open spec fn spec_size(&self) -> usize {
        match self {
            EValueFormat::Uint32 => 4,
            EValueFormat::Float32 => 4,
            EValueFormat::Float32x2 => 8,
            EValueFormat::Float32x3 => 12,
            EValueFormat::Float32x4 => 16,
            EValueFormat::Unorm8x4 => 4,
            EValueFormat::Unorm8x4Srgb => 4,
            EValueFormat::Depth24Stencil8 => 32,
        }
    }

    /// The size of one value.
    pub fn size(&self) -> (size: usize)
        ensures
            size == self.spec_size(),
    {
        match self {
            EValueFormat::Uint32 => 4,
            EValueFormat::Float32 => 4,
            EValueFormat::Float32x2 => 8,
            EValueFormat::Float32x3 => 12,
            EValueFormat::Float32x4 => 16,
            EValueFormat::Unorm8x4 => 4,
            EValueFormat::Unorm8x4Srgb => 4,
            EValueFormat::Depth24Stencil8 => 32,
        }
    }
}

/// What a view of a buffer is bound as.
#[derive(Clone, Copy, Debug, PartialEq, Eq, Hash, Structural)]
pub enum EBufferViewType {
    Vertex,
    Index,
    Uniform,
}

impl EBufferViewType {
    pub open spec fn spec_required_usage(&self) -> u64 {
        match self {
            EBufferViewType::Vertex => BBufferUsages::VERTEX,
            EBufferViewType::Index => BBufferUsages::INDEX,
            EBufferViewType::Uniform => BBufferUsages::UNIFORM,
        }
    }

    /// The usage that a buffer must have to be viewed this way.
    pub fn required_usage(&self) -> (usage: BBufferUsages)
        ensures
            usage@ == self.spec_required_usage(),
    {
        match self {
            EBufferViewType::Vertex => BBufferUsages { bits: BBufferUsages::VERTEX },
            EBufferViewType::Index => BBufferUsages { bits: BBufferUsages::INDEX },
            EBufferViewType::Uniform => BBufferUsages { bits: BBufferUsages::UNIFORM },
        }
    }
}

/// Whether a view of `size` bytes at `offset`, bound as `view_type`, fits a
/// buffer of `buffer_len` bytes with usages `usages`.
pub open spec fn view_fits(
    offset: u64,
    size: u64,
    view_type: EBufferViewType,
    buffer_len: usize,
    usages: BBufferUsages,
) -> bool {
    &&& offset + size <= buffer_len
    &&& usages@ & view_type.spec_required_usage() == view_type.spec_required_usage()
}

/// Checks a view against the buffer it looks into: it must lie within the
/// buffer's data, and the buffer must allow the view's kind of use.
pub fn check_buffer_view(
    offset: u64,
    size: u64,
    view_type: EBufferViewType,
    buffer_len: usize,
    usages: BBufferUsages,
) -> (fits: bool)
    ensures
        fits == view_fits(offset, size, view_type, buffer_len, usages),
{
    let end = match offset.checked_add(size) {
        Some(end) => end,
        None => {
            return false;
        },
    };
    if end > buffer_len as u64 {
        return false;
    }
    usages.contains(view_type.required_usage())
}

/// What a search of `haystack` for the regular expression `pattern` gives:
/// nothing where `pattern` is no regular expression, else whether some part of
/// `haystack` matches it.
pub uninterp spec fn regex_search(pattern: Seq<char>, haystack: Seq<char>) -> Option<bool>;

/// `regex::Regex::new` and, on the expression it compiled,
/// `regex::Regex::is_match`.  The crate says of the first that it fails on an
/// invalid pattern, of the second that it is true if and only if there is a
/// match anywhere in the haystack.  The contract gives that answer a name and
/// says nothing of which texts match.
#[verifier::external_body]
fn search(pattern: &str, haystack: &str) -> (found: Option<bool>)
    ensures
        found == regex_search(pattern@, haystack@),
{
    match regex::Regex::new(pattern) {
        Ok(compiled) => Some(compiled.is_match(haystack)),
        Err(_) => None,
    }
}

/// The regular expression that a shader profile's name must match: letters
/// and underscores, then letters, underscores and digits.
pub open spec fn profile_name_pattern() -> Seq<char> {
    "^[a-zA-Z_]+[a-zA-Z_0-9]*$"@
}

/// The text of a refused profile name.
pub open spec fn bad_profile_name(name: Seq<char>) -> Seq<char> {
    "hoo_engine::device::graphics::resource: failed: shader profile name: "@ + name
}

/// Accepts `name` exactly where the search for the profile name pattern found
/// a match.
pub fn profile_name_verdict(name: &str, found: Option<bool>) -> (r: Result<(), String>)
    ensures
        found == Some(true) ==> r is Ok,
        found != Some(true) ==> (r matches Err(msg) && msg@ == bad_profile_name(name@)),
{
    match found {
        Some(true) => Ok(()),
        _ => {
            let mut msg = String::from_str(
                "hoo_engine::device::graphics::resource: failed: shader profile name: ",
            );
            msg.append(name);
            Err(msg)
        },
    }
}

/// Checks that `name` can name a shader profile, and so be part of the name
/// of an entry point.
pub fn check_shader_profile_name(name: &str) -> (r: Result<(), String>)
    ensures
        regex_search(profile_name_pattern(), name@) == Some(true) ==> r is Ok,
        regex_search(profile_name_pattern(), name@) != Some(true) ==> (r matches Err(msg) && msg@
            == bad_profile_name(name@)),
{
    profile_name_verdict(name, search("^[a-zA-Z_]+[a-zA-Z_0-9]*$", name))
}

/// The entry point of the vertex stage of profile `name`.
pub fn vertex_stage_entry(name: &str) -> (entry: String)
    ensures
        entry@ == "vsMain_"@ + name@,
{
    let mut entry = String::from_str("vsMain_");
    entry.append(name);
    entry
}

/// The entry point of the fragment stage of profile `name`.
pub fn fragment_stage_entry(name: &str) -> (entry: String)
    ensures
        entry@ == "fsMain_"@ + name@,
{
    let mut entry = String::from_str("fsMain_");
    entry.append(name);
    entry
}

} // verus!

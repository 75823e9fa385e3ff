use vstd::prelude::*;
use vstd::string::{StrSliceExecFns, StringExecFns};

verus! {

/// The stage a shader source is compiled for.
#[derive(Clone, Copy, Debug, PartialEq, Eq)]
pub enum ShaderKind {
    Vertex,
    Fragment,
}

/// `GL_VERTEX_SHADER`.
pub const GL_VERTEX_SHADER: u32 = 0x8B31;

/// `GL_FRAGMENT_SHADER`.
pub const GL_FRAGMENT_SHADER: u32 = 0x8B30;

impl ShaderKind {
    /// The OpenGL enum for this stage.
    pub fn gl_enum(&self) -> (r: u32)
        ensures
            *self is Vertex ==> r == GL_VERTEX_SHADER,
            *self is Fragment ==> r == GL_FRAGMENT_SHADER,
    {
        match self {
            ShaderKind::Vertex => GL_VERTEX_SHADER,
            ShaderKind::Fragment => GL_FRAGMENT_SHADER,
        }
    }
}

/// Whether `s` ends with `suffix`.
pub open spec fn has_suffix(s: Seq<char>, suffix: Seq<char>) -> bool {
    suffix.len() <= s.len() && s.subrange(s.len() - suffix.len(), s.len() as int) == suffix
}

/// The extension of vertex shader resources.
pub open spec fn vert_suffix() -> Seq<char> {
    seq!['.', 'v', 'e', 'r', 't']
}

/// The extension of fragment shader resources.
pub open spec fn frag_suffix() -> Seq<char> {
    seq!['.', 'f', 'r', 'a', 'g']
}

/// The stage a resource name selects by its extension: ".vert" or ".frag".
pub open spec fn kind_for_name(name: Seq<char>) -> Option<ShaderKind> {
    if has_suffix(name, vert_suffix()) {
        Some(ShaderKind::Vertex)
    } else if has_suffix(name, frag_suffix()) {
        Some(ShaderKind::Fragment)
    } else {
        None
    }
}

/// The error text for a resource name with neither extension.
pub open spec fn unknown_kind_message(name: Seq<char>) -> Seq<char> {
    "Can not determine shader type for resource "@ + name
}

fn ends_with(s: &str, suffix: &str) -> (r: bool)
    ensures
        r == has_suffix(s@, suffix@),
{
    let n: usize = s.unicode_len();
    let m: usize = suffix.unicode_len();
    if m > n {
        return false;
    }
    let start: usize = n - m;
    let mut i: usize = 0;
    while i < m
        invariant
            n == s@.len(),
            m == suffix@.len(),
            start + m == n,
            i <= m,
            forall|j: int| 0 <= j < i ==> s@[start + j] == suffix@[j],
        decreases m - i,
    {
        if s.get_char(start + i) != suffix.get_char(i) {
            assert(s@.subrange(start as int, s@.len() as int)[i as int] != suffix@[i as int]);
            return false;
        }
        i = i + 1;
    }
    assert(s@.subrange(start as int, s@.len() as int) =~= suffix@);
    true
}

/// The stage of a shader resource, chosen by the extension of its name, or
/// an error that names the resource.
pub fn shader_kind_for_name(name: &str) -> (r: Result<ShaderKind, String>)
    ensures
        match kind_for_name(name@) {
            Some(k) => r == Ok::<ShaderKind, String>(k),
            None => r matches Err(e) && e@ == unknown_kind_message(name@),
        },
{
    proof {
        reveal_strlit(".vert");
        reveal_strlit(".frag");
    }
    assert(".vert"@ =~= vert_suffix());
    assert(".frag"@ =~= frag_suffix());
    if ends_with(name, ".vert") {
        Ok(ShaderKind::Vertex)
    } else if ends_with(name, ".frag") {
        Ok(ShaderKind::Fragment)
    } else {
        let mut message = String::from_str("Can not determine shader type for resource ");
        message.append(name);
        Err(message)
    }
}

/// A buffer of `len` spaces, for the graphics driver to write a log into.
pub fn whitespace_buffer(len: usize) -> (r: Vec<u8>)
    ensures
        r@ == Seq::new(len as nat, |i: int| 32u8),
{
    let mut buffer: Vec<u8> = Vec::with_capacity(len);
    let mut i: usize = 0;
    while i < len
        invariant
            i <= len,
            buffer@ == Seq::new(i as nat, |j: int| 32u8),
        decreases len - i,
    {
        buffer.push(32u8);
        i = i + 1;
        assert(buffer@ =~= Seq::new(i as nat, |j: int| 32u8));
    }
    buffer
}

/// The buffer for an info log whose length the driver reported; a negative
/// report gives an empty buffer.
pub fn info_log_buffer(reported_len: i32) -> (r: Vec<u8>)
    ensures
        reported_len >= 0 ==> r@ == Seq::new(reported_len as nat, |i: int| 32u8),
        reported_len < 0 ==> r@.len() == 0,
{
    if reported_len < 0 {
        Vec::new()
    } else {
        whitespace_buffer(reported_len as usize)
    }
}

} // verus!

//! Naming shader resources and reading what the GL driver answers.
use vstd::prelude::*;

verus! {

/// `s` ends with `suffix`.
pub open spec fn ends_with(s: Seq<char>, suffix: Seq<char>) -> bool {
    suffix.len() <= s.len() && s.subrange(s.len() - suffix.len(), s.len() as int) == suffix
}

/// `str::ends_with` with a string pattern: whether `suffix` is a suffix of `s`.
#[verifier::external_body]
fn str_ends_with(s: &str, suffix: &str) -> (r: bool)
    ensures
        r == ends_with(s@, suffix@),
{
    s.ends_with(suffix)
}

/// The two kinds of shader that a program is linked from.
#[derive(Debug, PartialEq, Eq, Clone, Copy)]
pub enum ShaderKind {
    Vertex,
    Fragment,
}

/// Errors in finding a shader resource.
#[derive(Debug, PartialEq, Eq)]
pub enum ShaderError {
    /// The resource name ends neither in `.vert` nor in `.frag`.
    CanNotDetermineShaderTypeForResource { name: String },
}

/// The kind of shader that a resource name calls for: `.vert` before `.frag`.
pub open spec fn shader_kind_of(name: Seq<char>) -> Option<ShaderKind> {
    if ends_with(name, ".vert"@) {
        Some(ShaderKind::Vertex)
    } else if ends_with(name, ".frag"@) {
        Some(ShaderKind::Fragment)
    } else {
        None
    }
}

/// The kind of shader in resource `name`, from its extension.
pub fn shader_kind(name: &str) -> (r: Result<ShaderKind, ShaderError>)
    ensures
        match shader_kind_of(name@) {
            Some(k) => r == Ok::<ShaderKind, ShaderError>(k),
            None => r matches Err(ShaderError::CanNotDetermineShaderTypeForResource { name: n }) && n@ == name@,
        },
{
    if str_ends_with(name, ".vert") {
        Ok(ShaderKind::Vertex)
    } else if str_ends_with(name, ".frag") {
        Ok(ShaderKind::Fragment)
    } else {
        Err(ShaderError::CanNotDetermineShaderTypeForResource { name: String::from_str(name) })
    }
}

/// The resources that program `name` is linked from: its vertex shader, then its fragment
/// shader.
pub fn program_resource_names(name: &str) -> (r: Vec<String>)
    ensures
        r@.len() == 2,
        r@[0]@ == name@ + ".vert"@,
        r@[1]@ == name@ + ".frag"@,
{
    let mut vert = String::from_str(name);
    vert.append(".vert");
    let mut frag = String::from_str(name);
    frag.append(".frag");
    let mut names = Vec::new();
    names.push(vert);
    names.push(frag);
    names
}

/// A buffer of `len` spaces, for the driver to write an info log into.
pub fn whitespace_buffer(len: usize) -> (b: Vec<u8>)
    ensures
        b@ == Seq::new(len as nat, |_i: int| 32u8),
{
    let mut buffer: Vec<u8> = Vec::with_capacity(len);
    let mut i: usize = 0;
    while i < len
        invariant
            i <= len,
            buffer@ == Seq::new(i as nat, |_i: int| 32u8),
        decreases len - i,
    {
        buffer.push(32u8);
        i = i + 1;
        assert(buffer@ =~= Seq::new(i as nat, |_i: int| 32u8));
    }
    buffer
}

/// The uniform location that the driver answered: `-1` means that there is none.
pub fn uniform_location(raw: i32) -> (r: Option<i32>)
    ensures
        raw == -1 ==> r is None,
        raw != -1 ==> r == Some(raw),
{
    if raw == -1 {
        None
    } else {
        Some(raw)
    }
}

} // verus!

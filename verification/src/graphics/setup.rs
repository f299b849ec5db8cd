//! Choosing the graphics backend from its name (as the `WGPU_BACKEND` variable gives it).
use vstd::prelude::*;

verus! {

/// `str::to_lowercase` of a string.
pub uninterp spec fn lowercased(s: Seq<char>) -> Seq<char>;

/// `str::to_lowercase`: the string with every character replaced by its Unicode lowercase
/// mapping. Its result is named, not spelled out.
#[verifier::external_body]
fn str_to_lowercase(s: &str) -> (r: String)
    ensures
        r@ == lowercased(s@),
{
    s.to_lowercase()
}

/// The graphics backends that can be asked for by name.
#[derive(Debug, PartialEq, Eq, Clone, Copy)]
pub enum Backend {
    Vulkan,
    Metal,
    Dx12,
    Dx11,
    Gl,
    BrowserWebGpu,
}

/// The backend that a lowercase name stands for.
pub open spec fn backend_named(name: Seq<char>) -> Option<Backend> {
    if name == "vulkan"@ {
        Some(Backend::Vulkan)
    } else if name == "metal"@ {
        Some(Backend::Metal)
    } else if name == "dx12"@ {
        Some(Backend::Dx12)
    } else if name == "dx11"@ {
        Some(Backend::Dx11)
    } else if name == "gl"@ {
        Some(Backend::Gl)
    } else if name == "webgpu"@ {
        Some(Backend::BrowserWebGpu)
    } else {
        None
    }
}

/// The backend that a lowercase name stands for; `None` for an unknown name.
pub fn backend_from_lowercase(name: &str) -> (b: Option<Backend>)
    ensures
        b == backend_named(name@),
{
    let n = String::from_str(name);
    if n == String::from_str("vulkan") {
        Some(Backend::Vulkan)
    } else if n == String::from_str("metal") {
        Some(Backend::Metal)
    } else if n == String::from_str("dx12") {
        Some(Backend::Dx12)
    } else if n == String::from_str("dx11") {
        Some(Backend::Dx11)
    } else if n == String::from_str("gl") {
        Some(Backend::Gl)
    } else if n == String::from_str("webgpu") {
        Some(Backend::BrowserWebGpu)
    } else {
        None
    }
}

/// The backend that a name stands for, in any letter case; `None` for an unknown name.
pub fn backend_from_name(name: &str) -> (b: Option<Backend>)
    ensures
        b == backend_named(lowercased(name@)),
{
    let lower = str_to_lowercase(name);
    backend_from_lowercase(lower.as_str())
}

} // verus!

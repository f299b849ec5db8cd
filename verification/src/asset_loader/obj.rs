//! Loading an OBJ file together with its materials.
use vstd::prelude::*;

verus! {

/// Why loading an OBJ file failed. `E` is the error of the OBJ reader.
#[derive(Debug)]
pub enum Error<E> {
    /// The reader failed.
    LoadError(E),
    /// The path was not absolute; the file was not read.
    ObjPathMustBeAbsolute { path: String },
}

/// The models of an OBJ file and the materials that its MTL files define.
pub struct ModelsWithMaterials<M, T> {
    pub models: Vec<M>,
    pub materials: Vec<T>,
}

/// What a reader's answer becomes.
pub open spec fn load_result<M, T, E>(out: Result<(Vec<M>, Vec<T>), E>) -> Result<ModelsWithMaterials<M, T>, Error<E>> {
    match out {
        Ok((models, materials)) => Ok(ModelsWithMaterials { models, materials }),
        Err(e) => Err(Error::LoadError(e)),
    }
}

/// The path starts with a root (a slash or a backslash) or with a drive letter and a colon: the marks
/// without which no path is absolute.
pub open spec fn has_absolute_mark(path: Seq<char>) -> bool {
    path.len() > 0 && (path[0] == '/' || path[0] == '\\' || (path.len() >= 2 && path[1] == ':'))
}

/// Calls `std::path::Path::is_absolute`: whether the platform considers `path` absolute. On
/// Unix a path is absolute when it starts with the root `/`; on Windows when it has a prefix
/// (a drive such as `C:`, or one that starts with two backslashes) and a root. Which marked paths count
/// depends on the platform, so the contract states only that a path without any of these
/// marks is never absolute.
#[verifier::external_body]
fn path_is_absolute(path: &str) -> (r: bool)
    ensures
        r ==> has_absolute_mark(path@),
{
    std::path::Path::new(path).is_absolute()
}

impl<M, T> ModelsWithMaterials<M, T> {
    /// Loads the OBJ file at `path` with `load_obj` when `is_absolute` says that the path is
    /// absolute; otherwise fails with `ObjPathMustBeAbsolute` without calling the reader.
    pub fn load_checked<E, F>(path: &str, is_absolute: bool, load_obj: F) -> (r: Result<Self, Error<E>>)
        where F: FnOnce() -> Result<(Vec<M>, Vec<T>), E>,
        requires
            is_absolute ==> call_requires(load_obj, ()),
        ensures
            !is_absolute ==> (r matches Err(Error::ObjPathMustBeAbsolute { path: p }) && p@ == path@),
            is_absolute ==> exists|out: Result<(Vec<M>, Vec<T>), E>|
                #[trigger] call_ensures(load_obj, (), out) && r == load_result(out),
    {
        if !is_absolute {
            return Err(Error::ObjPathMustBeAbsolute { path: String::from_str(path) });
        }
        let out = load_obj();
        match out {
            Ok((models, materials)) => Ok(ModelsWithMaterials { models, materials }),
            Err(e) => Err(Error::LoadError(e)),
        }
    }

    /// Loads the OBJ file at `path` with `load_obj`, which is called only when the platform
    /// considers the path absolute. Either the path is refused, or the answer is the reader's.
    /// The reader need only be callable for paths that bear an absolute mark: a path without
    /// one is refused without calling it.
    pub fn load<E, F>(path: &str, load_obj: F) -> (r: Result<Self, Error<E>>)
        where F: FnOnce() -> Result<(Vec<M>, Vec<T>), E>,
        requires
            has_absolute_mark(path@) ==> call_requires(load_obj, ()),
        ensures
            (r matches Err(Error::ObjPathMustBeAbsolute { path: p }) && p@ == path@)
            || exists|out: Result<(Vec<M>, Vec<T>), E>|
                #[trigger] call_ensures(load_obj, (), out) && r == load_result(out),
            !has_absolute_mark(path@) ==> (r matches Err(Error::ObjPathMustBeAbsolute { path: p }) && p@ == path@),
    {
        let is_absolute = path_is_absolute(path);
        Self::load_checked(path, is_absolute, load_obj)
    }
}

} // verus!

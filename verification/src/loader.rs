//! The decisions of loading a library and resolving a symbol in it.  The
//! caller makes the platform calls (`dlopen`/`dlsym`, or `LoadLibraryA`/
//! `GetProcAddress`) and hands their outcome to these functions.
use vstd::prelude::*;

use crate::libs::{get, spec_get, LibError};
use crate::text::{has_nul_byte, utf8_bytes};

verus! {

/// `c` separates the components of a path on some platform.
pub open spec fn is_separator(c: char) -> bool {
    c == '/' || c == '\\'
}

/// `p` may be a Windows verbatim path (`\\?\...`), in which `/` is no
/// separator and `..` is not resolved.
pub open spec fn may_be_verbatim(p: Seq<char>) -> bool {
    p.len() >= 3 && is_separator(p[0]) && is_separator(p[1]) && p[2] == '?'
}

/// `p` is `..` or ends in `/..`.
pub open spec fn ends_in_parent(p: Seq<char>) -> bool {
    p == ".."@ || p.len() >= 3 && p.subrange(p.len() - 3, p.len() as int) == "/.."@
}

/// `p` is a bare file name on every platform: not empty, not `.` or `..`,
/// and free of `/`, `\` and `:`.
pub open spec fn is_plain_name(p: Seq<char>) -> bool {
    &&& p.len() > 0
    &&& p != "."@
    &&& p != ".."@
    &&& !p.contains('/')
    &&& !p.contains('\\')
    &&& !p.contains(':')
}

/// `p` ends in a `/` at position `i` followed by a bare file name, and does
/// not start like a Windows verbatim, UNC or device path (two separators).
/// Such a path has that bare name as its final component on every platform.
pub open spec fn ends_in_plain_after_slash(p: Seq<char>, i: int) -> bool {
    &&& 0 <= i < p.len()
    &&& p[i] == '/'
    &&& is_plain_name(p.subrange(i + 1, p.len() as int))
    &&& !may_be_verbatim(p)
    &&& !(p.len() >= 2 && is_separator(p[0]) && is_separator(p[1]))
}

/// `p` ends in a separator (`/`, or `\` on Windows) at position `i` followed
/// by a bare file name, and does not start like a Windows verbatim, UNC or
/// device path.  Such a path has a final component on every platform: the
/// bare name where `\` separates, and a component ending in it elsewhere.
pub open spec fn ends_in_plain_after_separator(p: Seq<char>, i: int) -> bool {
    &&& 0 <= i < p.len()
    &&& is_separator(p[i])
    &&& is_plain_name(p.subrange(i + 1, p.len() as int))
    &&& !may_be_verbatim(p)
    &&& !(p.len() >= 2 && is_separator(p[0]) && is_separator(p[1]))
}

/// The final component of `path`, the way `std::path::Path::file_name`
/// finds it, as a `String`.
///
/// Claimed of `Path::file_name`, as its documentation gives it: the final
/// component is returned when it is a normal one, so the path `..` has no
/// file name and a file name is never empty nor `..`; a bare name is its own
/// file name.  Outside Windows verbatim paths (`\\?\...`), `/` separates
/// components, so a path ending in `/..` has no file name and a file name
/// holds no `/`.  Which component is final in other paths depends on the
/// platform's path syntax and is left unsaid, except that the empty path has
/// no file name, a path `.../name` with a bare `name` has `name`, and a path
/// `...\name` has a file name, outside paths that start with two separators.
#[verifier::external_body]
fn path_file_name(path: &str) -> (name: Option<String>)
    ensures
        path@ == ".."@ ==> name is None,
        path@.len() == 0 ==> name is None,
        name is Some || !(exists|i: int| ends_in_plain_after_slash(path@, i)),
        name is Some || !(exists|i: int| ends_in_plain_after_separator(path@, i)),
        name matches Some(n) ==> forall|i: int|
            ends_in_plain_after_slash(path@, i) ==> n@ == path@.subrange(i + 1, path@.len() as int),
        !may_be_verbatim(path@) && ends_in_parent(path@) ==> name is None,
        name matches Some(n) ==> n@.len() > 0 && n@ != ".."@,
        name matches Some(n) ==> (!may_be_verbatim(path@) ==> !n@.contains('/')),
        is_plain_name(path@) ==> name is Some,
        name matches Some(n) ==> (is_plain_name(path@) ==> n@ == path@),
{
    match std::path::Path::new(path).file_name() {
        Some(n) => n.to_str().map(String::from),
        None => None,
    }
}

/// The name that resolving `name` asks the loader for: the translated name
/// (`get`), unless it cannot be passed as a C string.
pub fn sym_name(name: &str) -> (resolved: Result<&str, LibError>)
    ensures
        utf8_bytes(spec_get(name@)).contains(0u8) ==> resolved == Err::<&str, LibError>(
            LibError::FailedToCreateCString,
        ),
        !utf8_bytes(spec_get(name@)).contains(0u8) ==> (resolved matches Ok(n) && n@ == spec_get(
            name@,
        )),
{
    let name_str = get(name);
    if has_nul_byte(name_str) {
        Err(LibError::FailedToCreateCString)
    } else {
        Ok(name_str)
    }
}

/// The answer to resolving `name` once the loader has been asked for it:
/// `found` says whether the loader returned a symbol.  A missing symbol is
/// reported under its translated name.
pub fn sym_outcome(name: &str, found: bool) -> (outcome: Result<(), LibError>)
    ensures
        found ==> outcome is Ok,
        !found ==> (outcome matches Err(LibError::FailedToGetFnPtr(s)) && s@ == spec_get(name@)),
{
    if found {
        Ok(())
    } else {
        let display_string = String::from_str(get(name));
        Err(LibError::FailedToGetFnPtr(display_string))
    }
}

/// The path that loading a library hands to the loader: `path` is the
/// library path as text, `None` when it is not valid UTF-8.
pub fn lib_path(path: Option<&str>) -> (c_path: Result<&str, LibError>)
    ensures
        path is None ==> c_path == Err::<&str, LibError>(LibError::FailedToGetLibPath),
        path matches Some(p) ==> (if utf8_bytes(p@).contains(0u8) {
            c_path == Err::<&str, LibError>(LibError::FailedToCreateCString)
        } else {
            c_path == Ok::<&str, LibError>(p)
        }),
{
    match path {
        None => Err(LibError::FailedToGetLibPath),
        Some(p) => {
            if has_nul_byte(p) {
                Err(LibError::FailedToCreateCString)
            } else {
                Ok(p)
            }
        },
    }
}

/// The library name that loading reports, given the final component of the
/// library's path (`None` when the path has none).
pub fn lib_name_from(file_name: Option<String>) -> (lib_name: Result<String, LibError>)
    ensures
        file_name is None ==> lib_name == Err::<String, LibError>(LibError::FailedToGetLibName),
        file_name matches Some(n) ==> (lib_name matches Ok(m) && m@ == n@),
{
    match file_name {
        None => Err(LibError::FailedToGetLibName),
        Some(n) => Ok(n),
    }
}

/// The answer to loading the library at `path` once the loader has been
/// asked for it: `loaded` says whether it returned a handle.  On success the
/// answer is the library's name, the final component of `path`: a bare file
/// name is its own library name, and so is the part after the last `/` of a
/// path that ends in one; a path that ends in `\` and a bare name has a
/// library name too, which is that bare name on Windows.
pub fn lib_name(path: &str, loaded: bool) -> (lib_name: Result<String, LibError>)
    ensures
        !loaded ==> lib_name == Err::<String, LibError>(LibError::FailedToLoadLib),
        loaded ==> (lib_name matches Err(e) ==> e == LibError::FailedToGetLibName),
        loaded && path@ == ".."@ ==> lib_name == Err::<String, LibError>(
            LibError::FailedToGetLibName,
        ),
        loaded && !may_be_verbatim(path@) && ends_in_parent(path@) ==> lib_name == Err::<
            String,
            LibError,
        >(LibError::FailedToGetLibName),
        loaded && path@.len() == 0 ==> lib_name == Err::<String, LibError>(
            LibError::FailedToGetLibName,
        ),
        loaded && is_plain_name(path@) ==> (lib_name matches Ok(n) && n@ == path@),
        forall|i: int| loaded && ends_in_plain_after_separator(path@, i) ==> lib_name is Ok,
        forall|i: int|
            loaded && ends_in_plain_after_slash(path@, i) ==> (lib_name matches Ok(n) && n@
                == path@.subrange(i + 1, path@.len() as int)),
        lib_name matches Ok(n) ==> n@.len() > 0 && n@ != ".."@,
        !may_be_verbatim(path@) ==> (lib_name matches Ok(n) ==> !n@.contains('/')),
{
    if !loaded {
        return Err(LibError::FailedToLoadLib);
    }
    lib_name_from(path_file_name(path))
}

} // verus!

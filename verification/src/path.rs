//! File paths as strings: the final component of a path, its stem and its
//! extension, and a path extended by one more component.
//!
//! Where a path ends and how two paths are put together is the platform's
//! business and is asked of the standard library. How a file name divides at
//! its last dot is decided here.

use vstd::prelude::*;

verus! {

/// The final component of a path, as the standard library finds it by the
/// rules of the platform that the crate is built for; `None` where the path
/// has none, as when it ends in `..`.
pub uninterp spec fn path_file_name(path: Seq<char>) -> Option<Seq<char>>;

/// The path that the standard library makes of `base` and one more
/// component, by the rules of the platform that the crate is built for.
pub uninterp spec fn path_join(base: Seq<char>, child: Seq<char>) -> Seq<char>;

/// Calls `std::path::Path::file_name`. Trusted: the result is the final
/// component of `path`, which depends on the characters of `path` alone.
/// Nothing is read from the file system.
#[verifier::external_body]
pub(crate) fn file_name(path: &str) -> (name: Option<String>)
    ensures
        name.deep_view() == path_file_name(path@),
{
    std::path::Path::new(path).file_name().map(|name| name.to_string_lossy().into_owned())
}

/// Calls `std::path::Path::join`. Trusted: the result is `base` adjoined with
/// `child`, which depends on the characters of the two alone. Nothing is
/// read from the file system.
#[verifier::external_body]
pub(crate) fn join(base: &str, child: &str) -> (joined: String)
    ensures
        joined@ == path_join(base@, child@),
{
    std::path::Path::new(base).join(child).to_string_lossy().into_owned()
}

/// Where a file name divides into stem and extension: at its last dot,
/// unless that dot is the first character or there is none.
pub open spec fn dividing_dot(name: Seq<char>) -> Option<int> {
    match name.index_of_last('.') {
        Some(i) => if 0 < i < name.len() {
            Some(i)
        } else {
            None
        },
        None => None,
    }
}

/// The stem of a file name: what stands before the dividing dot, or the whole
/// name where nothing divides it.
pub open spec fn stem_of(name: Seq<char>) -> Seq<char> {
    match dividing_dot(name) {
        Some(i) => name.take(i),
        None => name,
    }
}

/// The extension of a file name: what stands after the dividing dot.
pub open spec fn extension_of(name: Seq<char>) -> Option<Seq<char>> {
    match dividing_dot(name) {
        Some(i) => Some(name.skip(i + 1)),
        None => None,
    }
}

/// The stem of the file that a path names, `None` where the path names none.
pub open spec fn path_stem(path: Seq<char>) -> Option<Seq<char>> {
    match path_file_name(path) {
        Some(name) => Some(stem_of(name)),
        None => None,
    }
}

/// The extension of the file that a path names, `None` where the path names
/// no file or the file name has no extension.
pub open spec fn path_extension(path: Seq<char>) -> Option<Seq<char>> {
    match path_file_name(path) {
        Some(name) => extension_of(name),
        None => None,
    }
}

/// Finds the dividing dot of a file name.
fn find_dividing_dot(name: &str) -> (dot: Option<usize>)
    ensures
        match dot {
            Some(i) => dividing_dot(name@) == Some(i as int),
            None => dividing_dot(name@) is None,
        },
{
    let n = name.unicode_len();
    let mut i: usize = n;
    while i > 0
        invariant
            n == name@.len(),
            i <= n,
            forall|k: int| i <= k < n ==> name@[k] != '.',
        decreases i,
    {
        i = i - 1;
        if name.get_char(i) == '.' {
            proof {
                name@.index_of_last_ensures('.');
            }
            if i > 0 {
                return Some(i);
            } else {
                return None;
            }
        }
    }
    proof {
        name@.index_of_last_ensures('.');
    }
    None
}

/// The stem of a file name.
pub fn stem(name: &str) -> (stem: String)
    ensures
        stem@ == stem_of(name@),
{
    match find_dividing_dot(name) {
        Some(i) => String::from_str(name.substring_char(0, i)),
        None => String::from_str(name),
    }
}

/// The extension of a file name, if it has one.
pub fn extension(name: &str) -> (extension: Option<String>)
    ensures
        extension.deep_view() == extension_of(name@),
{
    match find_dividing_dot(name) {
        Some(i) => {
            let n = name.unicode_len();
            Some(String::from_str(name.substring_char(i + 1, n)))
        },
        None => None,
    }
}

/// The stem of the file that `path` names.
pub fn file_stem(path: &str) -> (stem: Option<String>)
    ensures
        stem.deep_view() == path_stem(path@),
{
    match file_name(path) {
        Some(name) => Some(self::stem(name.as_str())),
        None => None,
    }
}

/// The extension of the file that `path` names.
pub fn file_extension(path: &str) -> (extension: Option<String>)
    ensures
        extension.deep_view() == path_extension(path@),
{
    match file_name(path) {
        Some(name) => self::extension(name.as_str()),
        None => None,
    }
}

} // verus!

//! Resolution of the input and output CSS paths relative to the manifest
//! directory.
//!
//! Paths are modeled as POSIX-style `/`-separated strings: a path is
//! absolute exactly when it starts with `/`, joining appends `/` and the
//! relative part, and the parent of a path is everything before its last
//! `/`. Windows spellings are outside the model: a drive-letter path such as
//! `C:\out.css` does not count as absolute and is joined under the manifest
//! directory like any other relative path.

use vstd::prelude::*;
use vstd::string::StrSliceExecFns;
use vstd::string::StringExecFns;

verus! {

/// A path is absolute when it starts with the separator.
pub open spec fn is_absolute_spec(p: Seq<char>) -> bool {
    p.len() > 0 && p[0] == '/'
}

/// Joining a base directory and a relative path with the separator.
pub open spec fn join_spec(base: Seq<char>, rel: Seq<char>) -> Seq<char> {
    base + "/"@ + rel
}

/// Append `rel` to the directory `base`.
pub fn join(base: &str, rel: &str) -> (r: String)
    ensures
        r@ == join_spec(base@, rel@),
{
    let mut s = String::from_str(base);
    s.append("/");
    s.append(rel);
    s
}

/// An explicit path is taken as is when absolute, and anchored at the
/// manifest directory when relative.
pub open spec fn resolve_path_spec(manifest_dir: Seq<char>, path: Seq<char>) -> Seq<char> {
    if is_absolute_spec(path) {
        path
    } else {
        join_spec(manifest_dir, path)
    }
}

/// Resolve a user-supplied path against the manifest directory.
pub fn resolve_path(manifest_dir: &str, path: &str) -> (r: String)
    ensures
        r@ == resolve_path_spec(manifest_dir@, path@),
{
    let absolute = if path.unicode_len() > 0 {
        let c = path.get_char(0);
        c == '/'
    } else {
        false
    };
    if absolute {
        String::from_str(path)
    } else {
        join(manifest_dir, path)
    }
}

/// The resolved input CSS path: the explicit path if one was given, otherwise
/// `tailwind.css` in the manifest directory.
pub open spec fn resolve_input_spec(manifest_dir: Seq<char>, input: Option<Seq<char>>) -> Seq<
    char,
> {
    match input {
        Option::None => join_spec(manifest_dir, "tailwind.css"@),
        Option::Some(p) => resolve_path_spec(manifest_dir, p),
    }
}

/// Resolve the input CSS path against the manifest directory.
pub fn resolve_input(manifest_dir: &str, input_path: Option<&String>) -> (r: String)
    ensures
        r@ == resolve_input_spec(manifest_dir@, input_path.deep_view()),
{
    match input_path {
        Option::None => join(manifest_dir, "tailwind.css"),
        Option::Some(p) => resolve_path(manifest_dir, p.as_str()),
    }
}

/// Index of the last separator strictly before position `i`, if any.
pub open spec fn last_slash(p: Seq<char>, i: int) -> Option<int>
    decreases i,
{
    if i <= 0 || i > p.len() {
        Option::None
    } else if p[i - 1] == '/' {
        Option::Some(i - 1)
    } else {
        last_slash(p, i - 1)
    }
}

/// The parent directory of a path: everything before the last separator,
/// `/` itself for a path directly under the root, and nothing for the root
/// or for a path without a separator.
pub open spec fn parent_of_spec(p: Seq<char>) -> Option<Seq<char>> {
    match last_slash(p, p.len() as int) {
        Option::None => Option::None,
        Option::Some(i) => if p.len() == 1 {
            Option::None
        } else if i == 0 {
            Option::Some("/"@)
        } else {
            Option::Some(p.subrange(0, i))
        },
    }
}

/// Parent directory of `p`, or `None` when `p` is the root or has no
/// separator.
pub fn path_parent(p: &str) -> (r: Option<String>)
    ensures
        r.deep_view() == parent_of_spec(p@),
{
    let n = p.unicode_len();
    let mut i: usize = n;
    while i > 0
        invariant
            0 <= i <= n,
            n == p@.len(),
            last_slash(p@, n as int) == last_slash(p@, i as int),
        decreases i,
    {
        let c = p.get_char(i - 1);
        if c == '/' {
            if n == 1 {
                return Option::None;
            } else if i - 1 == 0 {
                return Option::Some(String::from_str("/"));
            } else {
                let parent = p.substring_char(0, i - 1);
                return Option::Some(String::from_str(parent));
            }
        }
        i -= 1;
    }
    Option::None
}

/// The resolved output CSS path: the explicit path if one was given,
/// otherwise `assets/tailwind.css` in the manifest directory.
pub open spec fn resolve_output_path_spec(manifest_dir: Seq<char>, output: Option<Seq<char>>) -> Seq<
    char,
> {
    match output {
        Option::None => join_spec(join_spec(manifest_dir, "assets"@), "tailwind.css"@),
        Option::Some(p) => resolve_path_spec(manifest_dir, p),
    }
}

/// Failure to resolve the output path.
#[derive(Clone, Copy, Debug, PartialEq, Eq, Structural)]
pub enum PathError {
    /// The output path has no parent directory to create.
    NoParent,
}

impl PathError {
    /// Human-readable description of the failure.
    pub fn message(&self) -> (r: String)
        ensures
            r@ == "tailwind output path has no parent"@,
    {
        String::from_str("tailwind output path has no parent")
    }
}

/// Resolve the output CSS path and the parent directory that must exist
/// before the tool writes to it. The caller creates that directory if it is
/// missing.
pub fn resolve_output(manifest_dir: &str, output_path: Option<&String>) -> (r: Result<
    (String, String),
    PathError,
>)
    ensures
        r is Ok <==> parent_of_spec(
            resolve_output_path_spec(manifest_dir@, output_path.deep_view()),
        ) is Some,
        r matches Ok(pair) ==> pair.0@ == resolve_output_path_spec(
            manifest_dir@,
            output_path.deep_view(),
        ) && Option::Some(pair.1@) == parent_of_spec(pair.0@),
        r is Err ==> r == Result::<(String, String), PathError>::Err(PathError::NoParent),
{
    let path = match output_path {
        Option::None => join(join(manifest_dir, "assets").as_str(), "tailwind.css"),
        Option::Some(p) => resolve_path(manifest_dir, p.as_str()),
    };
    match path_parent(path.as_str()) {
        Option::Some(parent) => Result::Ok((path, parent)),
        Option::None => Result::Err(PathError::NoParent),
    }
}

} // verus!

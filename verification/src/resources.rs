//! Resource names and the paths they resolve to.
//!
//! Resource names are platform independent and use `/` as their separator.
//! This module resolves a name against a root directory, formats the names
//! of the textures that belong to one collection, classifies shader
//! resources by their extension, and checks loaded shader sources for
//! interior nul bytes. The filesystem itself is read by the caller; paths
//! are modelled as strings whose components are joined with `/`.

use vstd::prelude::*;
use vstd::string::StrSliceExecFns;
use vstd::string::StringExecFns;

verus! {

/// An error of the resource loader.
#[derive(Debug)]
pub enum Error {
    /// The underlying read failed; carries the reported reason.
    IO(String),
    /// A shader source contains a nul byte and cannot be handed to the
    /// graphics backend.
    FileContainsNil,
    /// The directory of the running executable could not be determined.
    FailedToGetExePath,
}

/// Resolves resource names relative to a root directory.
#[derive(Debug)]
pub struct Resources {
    /// The root directory all resource names are resolved against.
    pub root_path: String,
}

/// Appending one path component: an empty path becomes the component, a
/// path ending in the separator takes the component as is, and any other
/// path takes a separator first. This mirrors how paths are extended
/// component by component.
pub open spec fn spec_join_step(path: Seq<char>, part: Seq<char>) -> Seq<char> {
    if path.len() == 0 {
        part
    } else if path.last() == '/' {
        path + part
    } else {
        path + seq!['/'] + part
    }
}

/// The path that joining every `/`-separated component of `location` onto
/// `path` yields, with `part` the component read so far.
pub open spec fn spec_joined(path: Seq<char>, part: Seq<char>, location: Seq<char>) -> Seq<char>
    decreases location.len(),
{
    if location.len() == 0 {
        spec_join_step(path, part)
    } else if location[0] == '/' {
        spec_joined(spec_join_step(path, part), Seq::empty(), location.drop_first())
    } else {
        spec_joined(path, part.push(location[0]), location.drop_first())
    }
}

/// The platform path of the resource `location` under `root_dir`: every
/// `/`-separated component of `location` is joined onto the root in turn.
pub open spec fn spec_resource_path(root_dir: Seq<char>, location: Seq<char>) -> Seq<char> {
    spec_joined(root_dir, Seq::empty(), location)
}

/// Joins one component onto a path.
fn join_step(path: String, part: &str) -> (joined: String)
    ensures
        joined@ == spec_join_step(path@, part@),
{
    let len = path.as_str().unicode_len();
    if len == 0 {
        part.to_owned()
    } else {
        let last = path.as_str().get_char(len - 1);
        let mut joined = path;
        if last != '/' {
            joined.append("/");
            proof {
                reveal_strlit("/");
                assert("/"@ =~= seq!['/']);
            }
        }
        joined.append(part);
        joined
    }
}

/// Converts the given platform-independent location (separated with `/`)
/// to the path of that resource under `root_dir`.
pub fn resource_name_to_path(root_dir: &str, location: &str) -> (path: String)
    ensures
        path@ == spec_resource_path(root_dir@, location@),
{
    let mut path = root_dir.to_owned();
    let n = location.unicode_len();
    let mut start: usize = 0;
    let mut i: usize = 0;
    proof {
        assert(location@.subrange(0, 0) =~= Seq::<char>::empty());
        assert(location@.skip(0) =~= location@);
    }
    while i < n
        invariant
            n == location@.len(),
            start <= i <= n,
            spec_joined(
                path@,
                location@.subrange(start as int, i as int),
                location@.skip(i as int),
            ) == spec_resource_path(root_dir@, location@),
        decreases n - i,
    {
        let ghost prev = i as int;
        let c = location.get_char(i);
        if c == '/' {
            let part = location.substring_char(start, i);
            path = join_step(path, part);
            start = i + 1;
        }
        i = i + 1;
        proof {
            assert(location@.skip(prev)[0] == location@[prev]);
            assert(location@.skip(prev).drop_first() =~= location@.skip(prev + 1));
            if location@[prev] == '/' {
                assert(location@.subrange(start as int, i as int) =~= Seq::<char>::empty());
            } else {
                assert(location@.subrange(start as int, i as int) =~= location@.subrange(
                    start as int,
                    prev,
                ).push(location@[prev]));
            }
        }
    }
    let part = location.substring_char(start, n);
    let result = join_step(path, part);
    proof {
        assert(location@.skip(n as int) =~= Seq::<char>::empty());
        assert(location@.subrange(start as int, n as int) == part@);
    }
    result
}

impl Resources {
    /// A resolver rooted at the given directory.
    pub fn new(root_path: String) -> (resources: Resources)
        ensures
            resources.root_path == root_path,
    {
        Resources { root_path }
    }

    /// The platform path of the named resource under this resolver's root.
    /// Resolution itself cannot fail; the `Result` mirrors the loader's
    /// interface.
    pub fn construct_path(&self, resource_name: &str) -> (path: Result<String, Error>)
        ensures
            path matches Ok(p) && p@ == spec_resource_path(self.root_path@, resource_name@),
    {
        Ok(resource_name_to_path(self.root_path.as_str(), resource_name))
    }
}

/// Formats texture paths as `{name}_{type}.{ext}`, so that the textures
/// belonging to one collection can be loaded at once.
pub fn format_texture_path(texture_name: &str, texture_type: &str, extension: &str) -> (path:
    String)
    ensures
        path@ == texture_name@ + "_"@ + texture_type@ + "."@ + extension@,
{
    let mut path = texture_name.to_owned();
    path.append("_");
    path.append(texture_type);
    path.append(".");
    path.append(extension);
    path
}

/// Whether a shader source still contains a nul byte; such a source cannot
/// be passed on as a C string.
pub fn contains_nil(buffer: &Vec<u8>) -> (found: bool)
    ensures
        found <==> exists|i: int| 0 <= i < buffer@.len() && buffer@[i] == 0,
{
    let n = buffer.len();
    let mut i: usize = 0;
    while i < n
        invariant
            n == buffer@.len(),
            i <= n,
            forall|j: int| 0 <= j < i ==> buffer@[j] != 0,
        decreases n - i,
    {
        if buffer[i] == 0 {
            return true;
        }
        i = i + 1;
    }
    false
}

} // verus!

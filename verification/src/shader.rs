//! Classifying shader resources.
//!
//! The demo compiles every shader a program names; whether a resource is a
//! vertex or a fragment shader is decided by the extension of its name.
//! The compilation itself is done by the graphics backend; the decision is
//! made, and verified, here.

use vstd::prelude::*;
use vstd::string::StrSliceExecFns;

verus! {

/// The kinds of shader the demo compiles.
#[derive(Clone, Copy, Debug, PartialEq, Eq, Structural)]
pub enum ShaderKind {
    Vertex,
    Fragment,
}

/// Whether `s` ends in `suffix`.
pub open spec fn spec_has_suffix(s: Seq<char>, suffix: Seq<char>) -> bool {
    s.len() >= suffix.len() && s.subrange(s.len() - suffix.len(), s.len() as int) == suffix
}

/// Whether the string ends in the given suffix.
pub fn has_suffix(s: &str, suffix: &str) -> (found: bool)
    ensures
        found == spec_has_suffix(s@, suffix@),
{
    let n = s.unicode_len();
    let m = suffix.unicode_len();
    if m > n {
        return false;
    }
    let mut i: usize = 0;
    while i < m
        invariant
            n == s@.len(),
            m == suffix@.len(),
            m <= n,
            i <= m,
            forall|j: int| 0 <= j < i ==> s@[n - m + j] == suffix@[j],
        decreases m - i,
    {
        if s.get_char(n - m + i) != suffix.get_char(i) {
            proof {
                assert(s@.subrange(n - m, n as int)[i as int] == s@[n - m + i]);
            }
            return false;
        }
        i = i + 1;
    }
    proof {
        assert(s@.subrange(n - m, n as int) =~= suffix@);
    }
    true
}

/// The shader kind a resource name stands for.
pub open spec fn spec_shader_kind(name: Seq<char>) -> Option<ShaderKind> {
    if spec_has_suffix(name, ".vert"@) {
        Some(ShaderKind::Vertex)
    } else if spec_has_suffix(name, ".frag"@) {
        Some(ShaderKind::Fragment)
    } else {
        None
    }
}

/// Determines the shader kind from the resource name: `.vert` names a
/// vertex shader, `.frag` a fragment shader, and any other name cannot be
/// compiled.
pub fn shader_kind_for_resource(name: &str) -> (kind: Option<ShaderKind>)
    ensures
        kind == spec_shader_kind(name@),
{
    if has_suffix(name, ".vert") {
        Some(ShaderKind::Vertex)
    } else if has_suffix(name, ".frag") {
        Some(ShaderKind::Fragment)
    } else {
        None
    }
}

} // verus!

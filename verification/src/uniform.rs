//! Uniform values and the ordered list of per-draw uniform bindings.

use vstd::prelude::*;

verus! {

use crate::glcall::GlId;
use crate::texture::TextureFormat;

/// The declared type of a shader uniform, as reflected from a linked
/// program. `Other` stands for every reflected type this layer cannot bind a
/// value to; a binding against it always fails validation.
#[derive(Debug, Clone, Copy, PartialEq, Eq, Structural)]
pub enum UniformKind {
    Float,
    FloatVec2,
    FloatVec3,
    FloatVec4,
    FloatMat4x4,
    Sampler2D,
    Other,
}

/// A uniform value to bind for one draw, tagged by shape. Scalar payloads
/// are IEEE-754 bit patterns of single-precision floats; a matrix is sixteen
/// of them in column-major order; a sampler carries the texture object to
/// bind and the sampling parameters to apply.
#[derive(Debug, Clone, Copy, PartialEq)]
pub enum UniformTypes {
    Float1(u32),
    Float2(u32, u32),
    Float3(u32, u32, u32),
    Float4(u32, u32, u32, u32),
    Mat4x4([u32; 16]),
    Sampler2D(GlId, TextureFormat),
}

/// The declared type that a bound value satisfies: exactly the kind of the
/// same shape.
pub open spec fn value_kind(value: UniformTypes) -> UniformKind {
    match value {
        UniformTypes::Float1(..) => UniformKind::Float,
        UniformTypes::Float2(..) => UniformKind::FloatVec2,
        UniformTypes::Float3(..) => UniformKind::FloatVec3,
        UniformTypes::Float4(..) => UniformKind::FloatVec4,
        UniformTypes::Mat4x4(..) => UniformKind::FloatMat4x4,
        UniformTypes::Sampler2D(..) => UniformKind::Sampler2D,
    }
}

/// An ordered list of `(name, value)` uniform bindings, built fresh for each
/// draw call. Adding never mutates in place; it extends the list, and each
/// entry is visited exactly once when the draw is planned.
#[derive(Debug)]
pub struct UniformItem {
    entries: Vec<(String, UniformTypes)>,
}

impl UniformItem {
    /// The bindings in insertion order.
    pub closed spec fn spec_entries(self) -> Seq<(String, UniformTypes)> {
        self.entries@
    }

    /// An empty list of bindings.
    pub fn new() -> (r: UniformItem)
        ensures
            r.spec_entries() == Seq::<(String, UniformTypes)>::empty(),
    {
        UniformItem { entries: Vec::new() }
    }

    /// Extends the list with one binding of `value` under `name`.
    pub fn add(self, name: &str, value: UniformTypes) -> (r: UniformItem)
        ensures
            r.spec_entries().len() == self.spec_entries().len() + 1,
            r.spec_entries().drop_last() == self.spec_entries(),
            r.spec_entries().last().0@ == name@,
            r.spec_entries().last().1 == value,
    {
        let mut entries = self.entries;
        entries.push((name.to_owned(), value));
        proof {
            assert(entries@.drop_last() =~= self.entries@);
        }
        UniformItem { entries }
    }

    /// The number of bindings in the list.
    pub fn len(&self) -> (r: usize)
        ensures
            r == self.spec_entries().len(),
    {
        self.entries.len()
    }

    /// The bindings in insertion order.
    pub(crate) fn entries(&self) -> (r: &Vec<(String, UniformTypes)>)
        ensures
            r@ == self.spec_entries(),
    {
        &self.entries
    }
}

/// The empty chain of uniform bindings: the list every chain of `add` calls
/// grows from.
#[derive(Debug, Clone, Copy, PartialEq, Eq, Structural)]
pub struct UniformEmpty;

impl UniformEmpty {
    /// Starts a chain of bindings with one binding of `value` under `name`.
    pub fn add(self, name: &str, value: UniformTypes) -> (r: UniformItem)
        ensures
            r.spec_entries().len() == 1,
            r.spec_entries().last().0@ == name@,
            r.spec_entries().last().1 == value,
    {
        UniformItem::new().add(name, value)
    }
}

} // verus!

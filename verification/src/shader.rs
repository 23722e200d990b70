//! Shader stages, linked programs, and the uniform reflection table built
//! once at link time.

use vstd::prelude::*;

verus! {

use core::marker::PhantomData;

use crate::glcall::GlId;
use crate::uniform::UniformKind;

/// Marker for the vertex stage of a program.
#[derive(Debug, Clone, Copy, PartialEq, Eq, Structural)]
pub struct ShaderPartVertex;

/// Marker for the fragment stage of a program.
#[derive(Debug, Clone, Copy, PartialEq, Eq, Structural)]
pub struct ShaderPartFragment;

/// One compiled shader stage. The marker type `T` tags the stage, so only a
/// vertex part and a fragment part together can be linked into a `Shader`.
#[derive(Debug)]
pub struct ShaderPart<T> {
    object: GlId,
    kind: PhantomData<T>,
}

impl<T> ShaderPart<T> {
    /// The shader object's name.
    pub closed spec fn spec_object(self) -> GlId {
        self.object
    }

    /// Accepts or rejects the outcome of compiling one stage: the stage
    /// object `object` becomes a usable part exactly where the device
    /// reported the compilation successful; otherwise the diagnostic `log` is
    /// handed back to the caller.
    pub fn new(object: GlId, compiled: bool, log: String) -> (r: Result<ShaderPart<T>, String>)
        ensures
            r is Ok <==> compiled,
            compiled ==> (r matches Ok(p) && p.spec_object() == object),
            !compiled ==> r == Err::<ShaderPart<T>, String>(log),
    {
        if compiled {
            Ok(ShaderPart { object, kind: PhantomData })
        } else {
            Err(log)
        }
    }

    /// The shader object's name.
    pub fn handle(&self) -> (r: GlId)
        ensures
            r == self.spec_object(),
    {
        self.object
    }
}

impl ShaderPartVertex {
    /// Accepts or rejects a compiled vertex stage.
    pub fn new(object: GlId, compiled: bool, log: String) -> (r: Result<
        ShaderPart<ShaderPartVertex>,
        String,
    >)
        ensures
            r is Ok <==> compiled,
            compiled ==> (r matches Ok(p) && p.spec_object() == object),
            !compiled ==> r == Err::<ShaderPart<ShaderPartVertex>, String>(log),
    {
        ShaderPart::new(object, compiled, log)
    }
}

impl ShaderPartFragment {
    /// Accepts or rejects a compiled fragment stage.
    pub fn new(object: GlId, compiled: bool, log: String) -> (r: Result<
        ShaderPart<ShaderPartFragment>,
        String,
    >)
        ensures
            r is Ok <==> compiled,
            compiled ==> (r matches Ok(p) && p.spec_object() == object),
            !compiled ==> r == Err::<ShaderPart<ShaderPartFragment>, String>(log),
    {
        ShaderPart::new(object, compiled, log)
    }
}

/// The declared type of the uniform called `name` in the reflection table
/// `table`: the type of the latest entry under that name, since a later
/// reflected entry overwrites an earlier one of the same name.
pub open spec fn lookup_uniform(table: Seq<(String, UniformKind)>, name: Seq<char>) -> Option<
    UniformKind,
>
    decreases table.len(),
{
    if table.len() == 0 {
        None
    } else if table.last().0@ == name {
        Some(table.last().1)
    } else {
        lookup_uniform(table.drop_last(), name)
    }
}

/// A linked program and its uniform reflection table: each active uniform's
/// name and declared type, recorded once at link time and immutable after.
/// The table is the single source of truth when bindings are validated.
#[derive(Debug)]
pub struct Shader {
    object: GlId,
    uniforms: Vec<(String, UniformKind)>,
}

impl Shader {
    /// The program object's name.
    pub closed spec fn spec_object(self) -> GlId {
        self.object
    }

    /// The reflection table, in the order the device reported the active
    /// uniforms.
    pub closed spec fn spec_table(self) -> Seq<(String, UniformKind)> {
        self.uniforms@
    }

    /// Accepts or rejects the outcome of linking a vertex part and a
    /// fragment part into the program object `program`. Where the device
    /// reported the link successful, the reflected `active_uniforms` become
    /// the program's reflection table; otherwise the diagnostic `log` is
    /// handed back. Both parts are consumed either way.
    pub fn new(
        vertex: ShaderPart<ShaderPartVertex>,
        fragment: ShaderPart<ShaderPartFragment>,
        program: GlId,
        linked: bool,
        log: String,
        active_uniforms: Vec<(String, UniformKind)>,
    ) -> (r: Result<Shader, String>)
        ensures
            r is Ok <==> linked,
            linked ==> (r matches Ok(s) && s.spec_object() == program && s.spec_table()
                == active_uniforms@),
            !linked ==> r == Err::<Shader, String>(log),
    {
        let _ = vertex;
        let _ = fragment;
        if linked {
            Ok(Shader { object: program, uniforms: active_uniforms })
        } else {
            Err(log)
        }
    }

    /// The program object's name.
    pub fn handle(&self) -> (r: GlId)
        ensures
            r == self.spec_object(),
    {
        self.object
    }

    /// The declared type of the uniform called `name`, or nothing where the
    /// program declares no such uniform. Absence is not an error at this
    /// layer; the draw orchestrator treats it as a fatal mismatch.
    pub fn get_uniform(&self, name: &str) -> (r: Option<UniformKind>)
        ensures
            r == lookup_uniform(self.spec_table(), name@),
    {
        let wanted: String = name.to_owned();
        let mut i = self.uniforms.len();
        proof {
            assert(self.uniforms@.take(i as int) =~= self.uniforms@);
        }
        while i > 0
            invariant
                0 <= i <= self.uniforms@.len(),
                lookup_uniform(self.spec_table(), name@) == lookup_uniform(
                    self.uniforms@.take(i as int),
                    name@,
                ),
                wanted@ == name@,
            decreases i,
        {
            i = i - 1;
            if self.uniforms[i].0 == wanted {
                proof {
                    assert(self.uniforms@.take(i + 1).last() == self.uniforms@[i as int]);
                }
                return Some(self.uniforms[i].1);
            }
            proof {
                assert(self.uniforms@.take(i + 1).drop_last() =~= self.uniforms@.take(i as int));
                assert(self.uniforms@.take(i + 1).last() == self.uniforms@[i as int]);
            }
        }
        None
    }
}

} // verus!

//! The uniforms that the viewer's program consumes.
//!
//! Their locations are looked up once, after the program has linked, and do
//! not change afterwards.

use vstd::prelude::*;
use crate::resource::Program;

verus! {

/// The four uniforms, in the order in which they are looked up.
#[derive(Clone, Copy, Debug, PartialEq, Eq)]
pub enum UniformName {
    AspectRatio,
    Camera,
    Time,
    Iterations,
}

impl UniformName {
    /// The name as the native layer wants it: the identifier used in the
    /// shader source, closed by a NUL character.
    pub open spec fn spec_c_name(self) -> Seq<char> {
        match self {
            UniformName::AspectRatio => "aspect_ratio\0"@,
            UniformName::Camera => "camera\0"@,
            UniformName::Time => "time\0"@,
            UniformName::Iterations => "iterations\0"@,
        }
    }

    /// Returns the NUL-terminated name to look the uniform up by.
    pub fn c_name(self) -> (name: &'static str)
        ensures
            name@ == self.spec_c_name(),
            name@.len() > 0,
            name@.last() == '\0',
            forall|i: int| 0 <= i < name@.len() - 1 ==> name@[i] != '\0',
    {
        proof {
            reveal_strlit("aspect_ratio\0");
            reveal_strlit("camera\0");
            reveal_strlit("time\0");
            reveal_strlit("iterations\0");
        }
        match self {
            UniformName::AspectRatio => "aspect_ratio\0",
            UniformName::Camera => "camera\0",
            UniformName::Time => "time\0",
            UniformName::Iterations => "iterations\0",
        }
    }
}

/// The locations of the four uniforms in a linked program.
#[derive(Clone, Copy, Debug, PartialEq, Eq)]
pub struct Uniforms {
    pub aspect_ratio: i32,
    pub camera: i32,
    pub time: i32,
    pub iterations: i32,
}

/// The first of the four uniforms, in lookup order, for which the native
/// layer returned -1, if there is one.
pub open spec fn first_missing(aspect_ratio: i32, camera: i32, time: i32, iterations: i32) -> Option<
    UniformName,
> {
    if aspect_ratio == -1 {
        Some(UniformName::AspectRatio)
    } else if camera == -1 {
        Some(UniformName::Camera)
    } else if time == -1 {
        Some(UniformName::Time)
    } else if iterations == -1 {
        Some(UniformName::Iterations)
    } else {
        None
    }
}

impl Uniforms {
    /// Reads the four locations that the native layer returned for the
    /// uniforms of `program`.  All four must be present; otherwise the first
    /// missing one, in lookup order, is named.
    pub fn resolve(
        program: &Program,
        aspect_ratio: i32,
        camera: i32,
        time: i32,
        iterations: i32,
    ) -> (resolved: Result<Uniforms, UniformName>)
        ensures
            resolved == match first_missing(aspect_ratio, camera, time, iterations) {
                Some(name) => Err::<Uniforms, UniformName>(name),
                None => Ok(Uniforms { aspect_ratio, camera, time, iterations }),
            },
    {
        let aspect_ratio = match program.get_uniform_location(aspect_ratio) {
            Some(location) => location,
            None => { return Err(UniformName::AspectRatio); },
        };
        let camera = match program.get_uniform_location(camera) {
            Some(location) => location,
            None => { return Err(UniformName::Camera); },
        };
        let time = match program.get_uniform_location(time) {
            Some(location) => location,
            None => { return Err(UniformName::Time); },
        };
        let iterations = match program.get_uniform_location(iterations) {
            Some(location) => location,
            None => { return Err(UniformName::Iterations); },
        };
        Ok(Uniforms { aspect_ratio, camera, time, iterations })
    }
}

/// All four uniforms resolve exactly when none of the four lookups came back
/// as -1, and the resolved locations are then the ones that were returned.
pub proof fn lemma_all_present_resolves(aspect_ratio: i32, camera: i32, time: i32, iterations: i32)
    ensures
        first_missing(aspect_ratio, camera, time, iterations) is None <==> (aspect_ratio != -1
            && camera != -1 && time != -1 && iterations != -1),
{
}

} // verus!

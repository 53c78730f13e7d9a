use birbgl::resource::Program;
use birbgl::uniforms::{UniformName, Uniforms};

#[test]
fn uniform_names_are_nul_terminated() {
    assert_eq!(UniformName::AspectRatio.c_name(), "aspect_ratio\0");
    assert_eq!(UniformName::Camera.c_name(), "camera\0");
    assert_eq!(UniformName::Time.c_name(), "time\0");
    assert_eq!(UniformName::Iterations.c_name(), "iterations\0");
    let names = [
        UniformName::AspectRatio,
        UniformName::Camera,
        UniformName::Time,
        UniformName::Iterations,
    ];
    for name in names {
        let text = name.c_name();
        assert!(text.ends_with('\0'));
        assert_eq!(text.matches('\0').count(), 1);
    }
}

#[test]
fn four_present_uniforms_resolve() {
    let program = Program(1);
    assert_eq!(
        Uniforms::resolve(&program, 0, 1, 2, 3),
        Ok(Uniforms { aspect_ratio: 0, camera: 1, time: 2, iterations: 3 })
    );
}

#[test]
fn first_missing_uniform_is_named() {
    let program = Program(1);
    assert_eq!(Uniforms::resolve(&program, -1, 1, 2, 3), Err(UniformName::AspectRatio));
    assert_eq!(Uniforms::resolve(&program, 0, -1, 2, 3), Err(UniformName::Camera));
    assert_eq!(Uniforms::resolve(&program, 0, 1, -1, 3), Err(UniformName::Time));
    assert_eq!(Uniforms::resolve(&program, 0, 1, 2, -1), Err(UniformName::Iterations));
    assert_eq!(Uniforms::resolve(&program, -1, -1, -1, -1), Err(UniformName::AspectRatio));
    assert_eq!(Uniforms::resolve(&program, 0, 1, -1, -1), Err(UniformName::Time));
}

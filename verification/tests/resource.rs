use birbgl::resource::{
    buffer_data, read_status, source_length, BufferType, BufferUpload, Program, Shader, ShaderType,
};

#[test]
fn buffer_targets_are_the_bindings_constants() {
    assert_eq!(BufferType::Array.to_enum(), gl::ARRAY_BUFFER);
    assert_eq!(BufferType::ElementArray.to_enum(), gl::ELEMENT_ARRAY_BUFFER);
    assert_eq!(BufferType::Array.to_enum(), 0x8892);
    assert_eq!(BufferType::ElementArray.to_enum(), 0x8893);
}

#[test]
fn shader_stages_are_the_bindings_constants() {
    assert_eq!(ShaderType::Vertex.to_enum(), gl::VERTEX_SHADER);
    assert_eq!(ShaderType::Fragment.to_enum(), gl::FRAGMENT_SHADER);
    assert_eq!(ShaderType::Vertex.to_enum(), 0x8B31);
    assert_eq!(ShaderType::Fragment.to_enum(), 0x8B30);
}

#[test]
fn status_one_is_true_and_zero_is_false() {
    assert!(read_status(1));
    assert!(!read_status(0));
    assert!(read_status(i32::from(gl::TRUE)));
    assert!(!read_status(i32::from(gl::FALSE)));
}

#[test]
fn status_is_read_by_its_low_byte() {
    assert!(read_status(257));
    assert!(read_status(-255));
    assert!(!read_status(256));
    assert!(!read_status(2));
    assert!(!read_status(-1));
    assert!(!read_status(i32::MIN));
    assert!(!read_status(i32::MAX));
}

#[test]
fn shader_of_zero_is_absent() {
    assert_eq!(Shader::new(0), None);
}

#[test]
fn shader_keeps_its_identifier() {
    let shader = Shader::new(5).unwrap();
    assert_eq!(shader.id(), 5);
    assert_eq!(Shader::new(u32::MAX).unwrap().id(), u32::MAX);
}

#[test]
fn program_of_zero_is_absent() {
    assert_eq!(Program::new(0), None);
    assert_eq!(Program::new(3), Some(Program(3)));
}

#[test]
fn compile_and_link_read_the_status() {
    let shader = Shader::new(1).unwrap();
    assert!(shader.compile(1));
    assert!(!shader.compile(0));
    let program = Program(2);
    assert!(program.link(1));
    assert!(!program.link(0));
}

#[test]
fn uniform_location_minus_one_is_absent() {
    let program = Program(2);
    assert_eq!(program.get_uniform_location(-1), None);
    assert_eq!(program.get_uniform_location(0), Some(0));
    assert_eq!(program.get_uniform_location(7), Some(7));
    assert_eq!(program.get_uniform_location(-2), Some(-2));
}

#[test]
fn source_length_counts_bytes() {
    assert_eq!(source_length(""), 0);
    assert_eq!(source_length("void main() {}"), 14);
    assert_eq!(source_length("é"), 2);
    let shader = Shader::new(1).unwrap();
    assert_eq!(shader.source("#version 330 core\n"), 18);
}

#[test]
fn buffer_data_sizes_the_upload() {
    let data = [0u8; 48];
    let upload = buffer_data(BufferType::Array, &data, gl::STATIC_DRAW);
    assert_eq!(upload, BufferUpload { target: gl::ARRAY_BUFFER, size: 48, usage: gl::STATIC_DRAW });
    let empty: [u8; 0] = [];
    let upload = buffer_data(BufferType::ElementArray, &empty, 7);
    assert_eq!(upload, BufferUpload { target: 0x8893, size: 0, usage: 7 });
}

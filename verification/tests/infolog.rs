use birbgl::infolog::{log_capacity, read_log};
use birbgl::resource::{Program, Shader};

#[test]
fn log_capacity_is_the_queried_length() {
    assert_eq!(log_capacity(0), 0);
    assert_eq!(log_capacity(128), 128);
    assert_eq!(log_capacity(i32::MAX), i32::MAX as usize);
}

#[test]
fn log_is_cut_at_the_written_count() {
    let buffer = b"ERROR: 0:1: syntax error\0\0\0\0".to_vec();
    assert_eq!(read_log(&buffer, 24), "ERROR: 0:1: syntax error");
    assert_eq!(read_log(&buffer, 5), "ERROR");
    assert_eq!(read_log(&buffer, 0), "");
}

#[test]
fn log_may_fill_the_whole_buffer() {
    let buffer = b"abc".to_vec();
    assert_eq!(read_log(&buffer, 3), "abc");
}

#[test]
fn log_decoding_replaces_malformed_bytes() {
    let buffer = vec![b'o', b'k', 0xFF, b'!'];
    assert_eq!(read_log(&buffer, 4), "ok\u{FFFD}!");
    assert_eq!(read_log(&buffer, 2), "ok");
}

#[test]
fn log_decoding_keeps_multibyte_text() {
    let text = "Fehler: ungültig";
    let buffer = text.as_bytes().to_vec();
    assert_eq!(read_log(&buffer, buffer.len() as i32), text);
}

#[test]
fn shader_and_program_logs_read_alike() {
    let buffer = b"link failed.....".to_vec();
    let shader = Shader::new(4).unwrap();
    let program = Program(9);
    assert_eq!(shader.get_log(&buffer, 11), "link failed");
    assert_eq!(program.get_log(&buffer, 11), "link failed");
}

use boulder_dash::shader::{
    diagnostic, log_buffer_len, log_text, new_log_buffer, program_outcome, status_ok, BuildError,
    BuildStage,
};

#[test]
fn successful_build_yields_nonzero_program() {
    assert_eq!(program_outcome(1, 1, 1, 3), Ok(3));
}

#[test]
fn zero_program_handle_is_an_error() {
    assert_eq!(program_outcome(1, 1, 1, 0), Err(BuildError::NoProgram));
}

#[test]
fn first_failing_step_is_reported() {
    assert_eq!(program_outcome(0, 0, 0, 3), Err(BuildError::VertexCompile));
    assert_eq!(program_outcome(1, 0, 0, 3), Err(BuildError::FragmentCompile));
    assert_eq!(program_outcome(1, 1, 0, 3), Err(BuildError::Link));
}

#[test]
fn status_convention() {
    assert!(!status_ok(0));
    assert!(status_ok(1));
    assert!(status_ok(-1));
}

#[test]
fn failed_compile_reports_compiler_text() {
    let text = "0:3(1): error: syntax error, unexpected '}'";
    let mut log: Vec<u8> = text.as_bytes().to_vec();
    log.push(0);
    let d = diagnostic(0, &log).unwrap();
    assert!(!d.is_empty());
    assert_eq!(d, text);
}

#[test]
fn successful_compile_reports_nothing() {
    let log: Vec<u8> = b"warning\0".to_vec();
    assert_eq!(diagnostic(1, &log), None);
}

#[test]
fn log_text_stops_at_first_nul() {
    assert_eq!(log_text(&b"ab\0cd\0".to_vec()), "ab");
    assert_eq!(log_text(&b"abc".to_vec()), "abc");
    assert_eq!(log_text(&Vec::new()), "");
    assert_eq!(log_text(&vec![0u8; 8]), "");
}

#[test]
fn log_text_replaces_invalid_utf8() {
    assert_eq!(log_text(&vec![b'a', 0xff, b'b', 0]), "a\u{FFFD}b");
    assert_eq!(log_text(&"é".as_bytes().to_vec()), "é");
}

#[test]
fn log_buffer_is_zeroed_and_sized() {
    assert_eq!(new_log_buffer(5), vec![0u8; 5]);
    assert!(new_log_buffer(0).is_empty());
    assert_eq!(log_buffer_len(12), 12);
    assert_eq!(log_buffer_len(0), 0);
    assert_eq!(log_buffer_len(-4), 0);
}

#[test]
fn only_link_diagnostics_are_prefixed() {
    assert_eq!(BuildStage::ProgramLink.log_prefix(), "ERROR: ");
    assert_eq!(BuildStage::VertexShader.log_prefix(), "");
    assert_eq!(BuildStage::FragmentShader.log_prefix(), "");
}

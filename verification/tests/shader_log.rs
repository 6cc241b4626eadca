use open_gl_rs::shader::{failure_message, info_log_text, Shader, ShaderStage};

/// A 512-byte info log buffer as GL leaves it: the message, a NUL, and the
/// spaces the buffer was filled with.
fn gl_log(msg: &str) -> [i8; 512] {
    let mut log = [32i8; 512];
    for (i, b) in msg.bytes().enumerate() {
        log[i] = b as i8;
    }
    log[msg.len()] = 0;
    log
}

fn std_text(log: &[i8]) -> String {
    let msg: String = log.iter().map(|i| char::from_u32(*i as u32).unwrap()).collect();
    msg.trim().to_string()
}

#[test]
fn info_log_text_trims_like_std() {
    for msg in ["0:1(10): error: syntax error\n", "  \t padded \r\n", "", "x"] {
        let log = gl_log(msg);
        assert_eq!(info_log_text(&log), std_text(&log));
    }
    let all_space = [32i8; 16];
    assert_eq!(info_log_text(&all_space), "");
    let tabs: Vec<i8> = vec![9, 10, 11, 12, 13, 32, 65, 66, 9, 67, 13];
    assert_eq!(info_log_text(&tabs), "AB\tC");
}

#[test]
fn failure_messages_name_the_stage() {
    let log = gl_log("bad");
    assert_eq!(
        failure_message(ShaderStage::Vertex, &log),
        format!("ERROR::SHADER::VERTEX::COMPILATION::FAILED\n{}", std_text(&log))
    );
    assert_eq!(
        failure_message(ShaderStage::Fragment, &[]),
        "ERROR::SHADER::FRAGMENT::COMPILATION::FAILED\n"
    );
    assert_eq!(
        failure_message(ShaderStage::Program, &[32, 104, 105, 32]),
        "ERROR::SHADER::PROGRAM::LINKING_FAILED\nhi"
    );
    assert!(failure_message(ShaderStage::Vertex, &log).ends_with("bad\0"));
}

#[test]
fn shader_is_its_program_id() {
    let s = Shader { id: 12 };
    assert_eq!(s, Shader { id: 12 });
    assert_ne!(s, Shader { id: 13 });
}

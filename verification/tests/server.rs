use onlyoffice_convert::encrypted::FileCondition;
use onlyoffice_convert::server::{
    configured_path, get_error_code_message, server_address, stage_failure, task_config,
    x2t_failure, Stage,
};
use onlyoffice_convert::temp::{convert_temp_names, create_convert_temp_names};
use onlyoffice_convert::text::decimal;

#[test]
fn every_named_exit_code_has_its_name() {
    let names = [
        (0x0001, "AVS_FILEUTILS_ERROR_UNKNOWN"),
        (0x0050, "AVS_FILEUTILS_ERROR_CONVERT"),
        (0x0051, "AVS_FILEUTILS_ERROR_CONVERT_DOWNLOAD"),
        (0x0052, "AVS_FILEUTILS_ERROR_CONVERT_UNKNOWN_FORMAT"),
        (0x0053, "AVS_FILEUTILS_ERROR_CONVERT_TIMEOUT"),
        (0x0054, "AVS_FILEUTILS_ERROR_CONVERT_READ_FILE"),
        (0x0055, "AVS_FILEUTILS_ERROR_CONVERT_DRM_UNSUPPORTED"),
        (0x0056, "AVS_FILEUTILS_ERROR_CONVERT_CORRUPTED"),
        (0x0057, "AVS_FILEUTILS_ERROR_CONVERT_LIBREOFFICE"),
        (0x0058, "AVS_FILEUTILS_ERROR_CONVERT_PARAMS"),
        (0x0059, "AVS_FILEUTILS_ERROR_CONVERT_NEED_PARAMS"),
        (0x005a, "AVS_FILEUTILS_ERROR_CONVERT_DRM"),
        (0x005b, "AVS_FILEUTILS_ERROR_CONVERT_PASSWORD"),
        (0x005c, "AVS_FILEUTILS_ERROR_CONVERT_ICU"),
        (0x005d, "AVS_FILEUTILS_ERROR_CONVERT_LIMITS"),
        (0x005e, "AVS_FILEUTILS_ERROR_CONVERT_ROWLIMITS"),
        (0x005f, "AVS_FILEUTILS_ERROR_CONVERT_DETECT"),
        (0x0060, "AVS_FILEUTILS_ERROR_CONVERT_CELLLIMITS"),
    ];
    for (code, name) in names {
        assert_eq!(get_error_code_message(code), Some(name), "{}", code);
    }
}

#[test]
fn other_exit_codes_have_no_name() {
    for code in [0, 2, 0x4f, 0x61, 0x100, -1, -0x50, i32::MIN, i32::MAX] {
        assert_eq!(get_error_code_message(code), None, "{}", code);
    }
}

#[test]
fn out_of_range_crash_is_put_down_to_encryption() {
    let stderr = b"terminate called after throwing an instance of 'std::out_of_range'\n";
    for condition in
        [FileCondition::Normal, FileCondition::LikelyCorrupted, FileCondition::LikelyEncrypted]
    {
        let error = x2t_failure(Some(0x56), stderr, condition);
        assert_eq!(error.code, Some(0x56));
        assert_eq!(error.message, "file is encrypted");
    }
    let error = x2t_failure(None, stderr, FileCondition::Normal);
    assert_eq!(error.code, None);
    assert_eq!(error.message, "file is encrypted");
}

#[test]
fn out_of_range_marker_is_found_between_bytes_that_are_no_text() {
    let mut stderr = vec![0xff, 0xfe, 0x80];
    stderr.extend_from_slice(b"std::out_of_range");
    stderr.extend_from_slice(&[0xc3, 0x28]);
    let error = x2t_failure(Some(1), &stderr, FileCondition::LikelyCorrupted);
    assert_eq!(error.message, "file is encrypted");
}

#[test]
fn corrupted_document_is_reported_as_corrupted() {
    let error = x2t_failure(Some(0x50), b"some output", FileCondition::LikelyCorrupted);
    assert_eq!(error.code, Some(0x50));
    assert_eq!(error.message, "file is corrupted");
}

#[test]
fn encrypted_document_is_reported_as_encrypted() {
    let error = x2t_failure(Some(0x5b), b"", FileCondition::LikelyEncrypted);
    assert_eq!(error.code, Some(0x5b));
    assert_eq!(error.message, "file is encrypted");
}

#[test]
fn normal_document_is_reported_by_the_name_of_the_exit_code() {
    let error = x2t_failure(Some(0x53), b"std::out_of_rang", FileCondition::Normal);
    assert_eq!(error.code, Some(0x53));
    assert_eq!(error.message, "AVS_FILEUTILS_ERROR_CONVERT_TIMEOUT");
}

#[test]
fn unnamed_exit_code_gives_the_general_message() {
    let error = x2t_failure(Some(139), b"", FileCondition::Normal);
    assert_eq!(error.code, Some(139));
    assert_eq!(error.message, "unknown error occurred");
}

#[test]
fn missing_exit_code_gives_the_general_message() {
    let error = x2t_failure(None, b"killed", FileCondition::Normal);
    assert_eq!(error.code, None);
    assert_eq!(error.message, "unknown error occurred");
}

#[test]
fn each_stage_fails_with_its_message_and_no_code() {
    let messages = [
        (Stage::CreateTempDir, "failed to create temporary directory"),
        (Stage::SetupTempPaths, "failed to setup temporary paths"),
        (Stage::WriteFiles, "failed to write files"),
        (Stage::RunConverter, "failed to run x2t"),
        (Stage::ReadOutput, "failed to read output"),
        (Stage::MakeResponse, "failed to make response"),
    ];
    for (stage, message) in messages {
        let error = stage_failure(stage);
        assert_eq!(error.code, None);
        assert_eq!(error.message, message);
    }
}

#[test]
fn task_config_names_the_three_paths() {
    let config = task_config("/tmp/in", "/tmp/out.pdf", "/usr/share/fonts");
    let expected = "\n        <?xml version=\"1.0\" encoding=\"utf-8\"?>\n        <TaskQueueDataConvert xmlns:xsi=\"http://www.w3.org/2001/XMLSchema-instance\"\n                              xmlns:xsd=\"http://www.w3.org/2001/XMLSchema\">\n          <m_sFileFrom>/tmp/in</m_sFileFrom>\n          <m_sFileTo>/tmp/out.pdf</m_sFileTo>\n          <m_sFontDir>/usr/share/fonts</m_sFontDir>\n          <m_nFormatTo>513</m_nFormatTo>\n        </TaskQueueDataConvert>\n        ";
    assert_eq!(config, expected);
}

#[test]
fn task_config_takes_the_paths_as_they_are() {
    let config = task_config("", "a b", "<&>");
    assert!(config.contains("<m_sFileFrom></m_sFileFrom>"));
    assert!(config.contains("<m_sFileTo>a b</m_sFileTo>"));
    assert!(config.contains("<m_sFontDir><&></m_sFontDir>"));
    assert!(config.contains("<m_nFormatTo>513</m_nFormatTo>"));
}

#[test]
fn host_and_port_make_the_address() {
    assert_eq!(
        server_address(Some("127.0.0.1".to_string()), Some(3000), Some("ignored:1".to_string())),
        Some("127.0.0.1:3000".to_string())
    );
}

#[test]
fn missing_port_is_8080() {
    assert_eq!(
        server_address(Some("localhost".to_string()), None, None),
        Some("localhost:8080".to_string())
    );
}

#[test]
fn missing_host_is_every_interface() {
    assert_eq!(server_address(None, Some(0), None), Some("0.0.0.0:0".to_string()));
    assert_eq!(server_address(None, Some(u16::MAX), None), Some("0.0.0.0:65535".to_string()));
}

#[test]
fn configured_address_is_used_without_host_and_port() {
    assert_eq!(
        server_address(None, None, Some("10.0.0.1:9000".to_string())),
        Some("10.0.0.1:9000".to_string())
    );
}

#[test]
fn no_address_without_host_port_and_configuration() {
    assert_eq!(server_address(None, None, None), None);
}

#[test]
fn path_from_the_command_line_wins() {
    let path = configured_path(
        Some("/cli".to_string()),
        Some("/env".to_string()),
        Some("/default".to_string()),
    );
    assert_eq!(path.as_deref(), Some("/cli"));
}

#[test]
fn path_from_the_environment_wins_over_the_fallback() {
    let path = configured_path(None, Some("/env".to_string()), Some("/default".to_string()));
    assert_eq!(path.as_deref(), Some("/env"));
}

#[test]
fn fallback_path_is_used_last() {
    assert_eq!(configured_path(None, None, Some("/default".to_string())).as_deref(), Some("/default"));
    assert_eq!(configured_path(None, None, None), None);
}

#[test]
fn temp_names_carry_the_id() {
    let names = convert_temp_names("0123456789abcdef0123456789abcdef");
    assert_eq!(names.config, "tmp_native_config_0123456789abcdef0123456789abcdef.xml");
    assert_eq!(names.input, "tmp_native_input_0123456789abcdef0123456789abcdef");
    assert_eq!(names.output, "tmp_native_output_0123456789abcdef0123456789abcdef.pdf");
}

#[test]
fn temp_names_of_an_empty_id() {
    let names = convert_temp_names("");
    assert_eq!(names.config, "tmp_native_config_.xml");
    assert_eq!(names.input, "tmp_native_input_");
    assert_eq!(names.output, "tmp_native_output_.pdf");
}

#[test]
fn fresh_temp_names_share_one_simple_random_id() {
    let names = create_convert_temp_names();
    let id = names.input.strip_prefix("tmp_native_input_").unwrap().to_string();
    assert_eq!(id.len(), 32);
    assert!(id.chars().all(|c| c.is_ascii_digit() || ('a'..='f').contains(&c)));
    assert_eq!(id.as_bytes()[12], b'4');
    assert!(b"89ab".contains(&id.as_bytes()[16]));
    assert_eq!(names.config, format!("tmp_native_config_{}.xml", id));
    assert_eq!(names.output, format!("tmp_native_output_{}.pdf", id));
}

#[test]
fn fresh_temp_names_differ_from_call_to_call() {
    let first = create_convert_temp_names();
    let second = create_convert_temp_names();
    assert_ne!(first.input, second.input);
    assert_ne!(first.config, second.config);
    assert_ne!(first.output, second.output);
}

#[test]
fn decimal_writes_numbers_as_text() {
    assert_eq!(decimal(0), "0");
    assert_eq!(decimal(7), "7");
    assert_eq!(decimal(10), "10");
    assert_eq!(decimal(8080), "8080");
    assert_eq!(decimal(-1), "-1");
    assert_eq!(decimal(-120), "-120");
    assert_eq!(decimal(1_000_000_007), "1000000007");
    assert_eq!(decimal(i64::MAX), "9223372036854775807");
    assert_eq!(decimal(i64::MIN), "-9223372036854775808");
}

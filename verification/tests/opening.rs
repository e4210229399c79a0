use mailshell::opener::opener_command;
use mailshell::opener::prepare_open_file;
use mailshell::opener::Platform;

#[test]
fn well_formed_base64_decodes_to_its_bytes() {
    let req = prepare_open_file("aGVsbG8=", "note.msg".to_string()).unwrap();
    assert_eq!(req.bytes, b"hello".to_vec());
    assert_eq!(req.file_name, "note.msg".to_string());
}

#[test]
fn empty_payload_decodes_to_no_bytes() {
    let req = prepare_open_file("", "empty.eml".to_string()).unwrap();
    assert_eq!(req.bytes, Vec::<u8>::new());
}

#[test]
fn binary_payload_survives_the_round_trip() {
    // AAEC/w== is the standard-alphabet encoding of the bytes 0, 1, 2, 255.
    let req = prepare_open_file("AAEC/w==", "raw.msg".to_string()).unwrap();
    assert_eq!(req.bytes, vec![0u8, 1, 2, 255]);
}

#[test]
fn malformed_base64_is_a_decode_error() {
    let err = prepare_open_file("!!!not-base64!!!", "x.msg".to_string()).unwrap_err();
    assert!(err.contains("decode"));
}

#[test]
fn missing_padding_is_a_decode_error() {
    assert!(prepare_open_file("aGVsbG8", "x.msg".to_string()).is_err());
}

#[test]
fn opener_command_per_platform() {
    assert_eq!(
        opener_command(Platform::MacOs, "/tmp/a.msg".to_string()),
        vec!["open".to_string(), "/tmp/a.msg".to_string()]
    );
    assert_eq!(
        opener_command(Platform::Windows, "C:\\t\\a.msg".to_string()),
        vec![
            "powershell".to_string(),
            "-Command".to_string(),
            "Start-Process".to_string(),
            "-FilePath".to_string(),
            "C:\\t\\a.msg".to_string(),
        ]
    );
    assert_eq!(
        opener_command(Platform::Linux, "/tmp/a.eml".to_string()),
        vec!["xdg-open".to_string(), "/tmp/a.eml".to_string()]
    );
}

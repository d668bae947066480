use kakaia::{failure_response, Failure, Number, PayloadError};

#[test]
fn malformed_payload() {
    let failure = Failure::Payload(PayloadError::Malformed("Invalid byte 33, offset 0.".to_string()));
    let response = failure_response(&failure);
    assert_eq!(response.command, "none");
    assert_eq!(response.human, "unexpected error decoding audio data");
    assert_eq!(response.raw, "failed to decode audio.data: Invalid byte 33, offset 0.\n");
    assert_eq!(response.result, Number::Integer(0));
}

#[test]
fn payload_over_the_limit() {
    let response = failure_response(&Failure::Payload(PayloadError::TooLarge));
    assert_eq!(response.command, "none");
    assert_eq!(response.human, "unexpected error decoding audio data");
    assert_eq!(response.raw, "failed to decode audio.data: audio data exceeds the size limit\n");
    assert_eq!(response.result, Number::Integer(0));
}

#[test]
fn temporary_file_failures() {
    let created = failure_response(&Failure::TemporaryFileCreation("denied".to_string()));
    assert_eq!(created.human, "unexpected error creating a temporary file");
    assert_eq!(created.raw, "failed to create temporary file: denied");
    let opened = failure_response(&Failure::TemporaryFileOpening("gone".to_string()));
    assert_eq!(opened.human, "unexpected error opening a temporary file");
    assert_eq!(opened.raw, "failed to open temporary file: gone");
    let written = failure_response(&Failure::TemporaryFileWriting("disk full".to_string()));
    assert_eq!(written.human, "unexpected error creating a temporary file");
    assert_eq!(written.raw, "failed to create temporary file: disk full");
    for response in [created, opened, written] {
        assert_eq!(response.command, "none");
        assert_eq!(response.result, Number::Integer(0));
    }
}

#[test]
fn archive_directory_failure() {
    let failure = Failure::ArchiveDirectory {
        directory: "archive/2020/03/07/".to_string(),
        reason: "read-only file system".to_string(),
    };
    let response = failure_response(&failure);
    assert_eq!(response.command, "none");
    assert_eq!(response.human, "unexpected error creating directory");
    assert_eq!(
        response.raw,
        "failed to create directory 'archive/2020/03/07/': read-only file system"
    );
    assert_eq!(response.result, Number::Integer(0));
}

#[test]
fn denoising_failure() {
    let response = failure_response(&Failure::Denoising);
    assert_eq!(response.command, "none");
    assert_eq!(response.human, "unexpected error denoising audio");
    assert_eq!(response.raw, "failed to denoise audio");
    assert_eq!(response.result, Number::Integer(0));
}

use safe_core::errors::{ClientError, CmdError, ErrorMessage, TransferError};

fn is_message(e: &ClientError, expected: &ErrorMessage) -> bool {
    matches!(e, ClientError::ErrorMessage(m) if m == expected)
}

#[test]
fn every_cmd_error_becomes_its_message() {
    let data = ClientError::from(CmdError::Data(ErrorMessage::NoSuchKey));
    assert!(is_message(&data, &ErrorMessage::NoSuchKey));

    let validation = ClientError::from(CmdError::Transfer(TransferError::TransferValidation(
        ErrorMessage::DataExists,
    )));
    assert!(is_message(&validation, &ErrorMessage::DataExists));

    let registration = ClientError::from(CmdError::Transfer(TransferError::TransferRegistration(
        ErrorMessage::TooManyEntries,
    )));
    assert!(is_message(&registration, &ErrorMessage::TooManyEntries));

    let auth = ClientError::from(CmdError::Auth(ErrorMessage::FailedToWriteFile));
    assert!(is_message(&auth, &ErrorMessage::FailedToWriteFile));
}

#[test]
fn outside_errors_are_wrapped() {
    let io = ClientError::from(std::io::Error::new(std::io::ErrorKind::Other, "disk"));
    assert!(matches!(io, ClientError::IoError(ref e) if e.to_string() == "disk"));

    let json = serde_json::from_str::<u8>("not json").unwrap_err();
    assert!(matches!(ClientError::from(json), ClientError::ConfigError(_)));

    let msg = ClientError::from(ErrorMessage::NoSuchEntry);
    assert!(is_message(&msg, &ErrorMessage::NoSuchEntry));

    let bin = bincode::deserialize::<u64>(&[1]).unwrap_err();
    assert!(matches!(ClientError::from(bin), ClientError::Bincode(_)));
}

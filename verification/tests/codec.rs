use bankid::response::CollectFields;
use bankid::response::CollectHintCode;
use bankid::response::CollectResponse;
use bankid::response::CollectStatus;
use bankid::response::CompletionFields;
use bankid::response::ErrorCode;
use bankid::response::decode_collect;
use bankid::response::decode_error_body;
use bankid::response::decode_order_fields;
use bankid::Error;

fn completion_fields() -> CompletionFields {
    CompletionFields {
        personal_number: String::from("198710101234"),
        name: String::from("Some Person"),
        given_name: String::from("Some"),
        surname: String::from("Person"),
        ip_address: String::from("192.168.0.1"),
        not_before: String::from("1518418206296"),
        not_after: String::from("1928509171149"),
        signature: String::from("c2lnbmF0dXJl"),
        ocsp_response: String::from("b2NzcA=="),
    }
}

#[test]
fn error_code_literals_round_trip() {
    let cases = [
        (ErrorCode::AlreadyInProgress, "alreadyInProgress"),
        (ErrorCode::InvalidParameters, "invalidParameters"),
        (ErrorCode::Canceled, "canceled"),
        (ErrorCode::Unauthorized, "unauthorized"),
        (ErrorCode::NotFound, "notFound"),
        (ErrorCode::RequestTimeout, "requestTimeout"),
        (ErrorCode::UnsupportedMediaType, "unsupportedMediaType"),
        (ErrorCode::InternalError, "internalError"),
        (ErrorCode::Maintenance, "maintenance"),
    ];
    for (code, literal) in cases {
        assert_eq!(code.encode(), literal);
        assert_eq!(ErrorCode::decode(literal), Some(code));
    }
    assert_eq!(ErrorCode::decode("ALREADYINPROGRESS"), None);
    assert_eq!(ErrorCode::decode("cancelled"), None);
    assert_eq!(ErrorCode::decode(""), None);
}

#[test]
fn hint_code_literals_round_trip() {
    let cases = [
        (CollectHintCode::OutstandingTransaction, "outstandingTransaction"),
        (CollectHintCode::NoClient, "noClient"),
        (CollectHintCode::Started, "started"),
        (CollectHintCode::UserSign, "userSign"),
        (CollectHintCode::ExpiredTransaction, "expiredTransaction"),
        (CollectHintCode::CertificateErr, "certificateErr"),
        (CollectHintCode::UserCancel, "userCancel"),
        (CollectHintCode::Canceled, "cancelled"),
        (CollectHintCode::StartFailed, "startFailed"),
    ];
    for (code, literal) in cases {
        assert_eq!(code.encode(), literal);
        assert_eq!(CollectHintCode::decode(literal), Some(code));
    }
    assert_eq!(CollectHintCode::decode("canceled"), None);
    assert_eq!(CollectHintCode::decode("OutstandingTransaction"), None);
}

#[test]
fn status_literals_round_trip() {
    let cases = [
        (CollectStatus::Pending, "pending"),
        (CollectStatus::Failed, "failed"),
        (CollectStatus::Complete, "complete"),
    ];
    for (status, literal) in cases {
        assert_eq!(status.encode(), literal);
        assert_eq!(CollectStatus::decode(literal), Some(status));
    }
    assert_eq!(CollectStatus::decode("done"), None);
    assert!(!CollectStatus::Pending.is_terminal());
    assert!(CollectStatus::Failed.is_terminal());
    assert!(CollectStatus::Complete.is_terminal());
}

#[test]
fn collect_pending_decodes() {
    let fields = CollectFields {
        status: String::from("pending"),
        hint_code: Some(String::from("outstandingTransaction")),
        order_ref: Some(String::from("131daac9-16c6-4618-beb0-365768f37288")),
        completion: None,
    };
    let outcome = decode_collect(&fields).expect("pending body must decode");
    match outcome {
        CollectResponse::Pending { hint_code, order_ref } => {
            assert_eq!(hint_code, CollectHintCode::OutstandingTransaction);
            assert_eq!(
                order_ref,
                Some(String::from("131daac9-16c6-4618-beb0-365768f37288"))
            );
        }
        other => panic!("expected Pending, got {:?}", other),
    }
}

#[test]
fn collect_pending_decodes_without_order_ref() {
    let fields = CollectFields {
        status: String::from("pending"),
        hint_code: Some(String::from("outstandingTransaction")),
        order_ref: None,
        completion: None,
    };
    let outcome = decode_collect(&fields).expect("minimal pending body must decode");
    match outcome {
        CollectResponse::Pending { hint_code, order_ref } => {
            assert_eq!(hint_code, CollectHintCode::OutstandingTransaction);
            assert_eq!(order_ref, None);
        }
        other => panic!("expected Pending, got {:?}", other),
    }
}

#[test]
fn collect_complete_decodes() {
    let fields = CollectFields {
        status: String::from("complete"),
        hint_code: None,
        order_ref: Some(String::from("131daac9-16c6-4618-beb0-365768f37288")),
        completion: Some(completion_fields()),
    };
    let outcome = decode_collect(&fields).expect("complete body must decode");
    match outcome {
        CollectResponse::Complete { completion_data, order_ref } => {
            assert_eq!(completion_data.user.personal_number.render(), "198710101234");
            assert_eq!(completion_data.user.given_name, "Some");
            assert_eq!(completion_data.device.ip_address, "192.168.0.1");
            assert_eq!(completion_data.signature, "c2lnbmF0dXJl");
            assert_eq!(
                order_ref,
                Some(String::from("131daac9-16c6-4618-beb0-365768f37288"))
            );
        }
        other => panic!("expected Complete, got {:?}", other),
    }
    assert!(decode_collect(&fields).expect("still decodes").is_terminal());
}

#[test]
fn collect_complete_decodes_without_order_ref() {
    let fields = CollectFields {
        status: String::from("complete"),
        hint_code: None,
        order_ref: None,
        completion: Some(completion_fields()),
    };
    let outcome = decode_collect(&fields).expect("minimal complete body must decode");
    match outcome {
        CollectResponse::Complete { completion_data, order_ref } => {
            assert_eq!(completion_data.user.personal_number.render(), "198710101234");
            assert_eq!(order_ref, None);
        }
        other => panic!("expected Complete, got {:?}", other),
    }
}

#[test]
fn collect_unrecognized_status_is_shape_error() {
    let fields = CollectFields {
        status: String::from("almostDone"),
        hint_code: Some(String::from("outstandingTransaction")),
        order_ref: Some(String::from("131daac9-16c6-4618-beb0-365768f37288")),
        completion: None,
    };
    match decode_collect(&fields) {
        Err(Error::UnexpectedResponse(_)) => {}
        other => panic!("expected a shape error, got {:?}", other),
    }
}

#[test]
fn collect_unrecognized_hint_is_shape_error() {
    let fields = CollectFields {
        status: String::from("pending"),
        hint_code: Some(String::from("somethingNew")),
        order_ref: Some(String::from("131daac9-16c6-4618-beb0-365768f37288")),
        completion: None,
    };
    assert!(matches!(decode_collect(&fields), Err(Error::UnexpectedResponse(_))));
}

#[test]
fn collect_missing_member_is_shape_error() {
    let fields = CollectFields {
        status: String::from("failed"),
        hint_code: None,
        order_ref: None,
        completion: None,
    };
    assert!(matches!(decode_collect(&fields), Err(Error::UnexpectedResponse(_))));
}

#[test]
fn collect_malformed_personal_number_is_shape_error() {
    let mut completion = completion_fields();
    completion.personal_number = String::from("8710101234");
    let fields = CollectFields {
        status: String::from("complete"),
        hint_code: None,
        order_ref: Some(String::from("131daac9-16c6-4618-beb0-365768f37288")),
        completion: Some(completion),
    };
    assert!(matches!(decode_collect(&fields), Err(Error::UnexpectedResponse(_))));
}

#[test]
fn error_body_decodes_to_client_error() {
    let outcome = decode_error_body("alreadyInProgress", String::from("x"));
    match outcome {
        Error::ClientError(ce) => {
            assert_eq!(ce.error_code, ErrorCode::AlreadyInProgress);
            assert_eq!(ce.details, "x");
        }
        other => panic!("expected a client error, got {:?}", other),
    }
    assert!(!matches!(
        decode_error_body("alreadyInProgress", String::from("x")),
        Error::TransportFailure(_)
    ));
}

#[test]
fn error_body_with_unknown_code_is_shape_error() {
    assert!(matches!(
        decode_error_body("brandNewError", String::from("x")),
        Error::UnexpectedResponse(_)
    ));
}

#[test]
fn order_fields_decode_checks_token_shape() {
    let ok = decode_order_fields(
        "131daac9-16c6-4618-beb0-365768f37288",
        "7c40b5c9-fa74-49cf-b98c-bfe651f9a7c6",
        "67df3917-fa0d-44e5-b327-edcc928297f8",
        "d28db9a7-4cde-429e-a983-359be676944c",
    )
    .expect("well-formed tokens must be accepted");
    assert_eq!(ok.order_ref, "131daac9-16c6-4618-beb0-365768f37288");
    assert_eq!(ok.qr_start_secret, "d28db9a7-4cde-429e-a983-359be676944c");

    let bad = decode_order_fields(
        "131daac9-16c6-4618-beb0-365768f3728x",
        "7c40b5c9-fa74-49cf-b98c-bfe651f9a7c6",
        "67df3917-fa0d-44e5-b327-edcc928297f8",
        "d28db9a7-4cde-429e-a983-359be676944c",
    );
    assert!(matches!(bad, Err(Error::UnexpectedResponse(_))));

    let not_even_close = decode_order_fields(
        "definitely not a uuid",
        "7c40b5c9-fa74-49cf-b98c-bfe651f9a7c6",
        "67df3917-fa0d-44e5-b327-edcc928297f8",
        "d28db9a7-4cde-429e-a983-359be676944c",
    );
    assert!(not_even_close.is_err());
}

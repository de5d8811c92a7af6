use bankid::is_success_status;
use bankid::request::AuthRequest;
use bankid::request::CancelRequest;
use bankid::request::CardReaderClass;
use bankid::request::CollectRequest;
use bankid::request::Requirement;
use bankid::request::SignRequest;
use bankid::response::CollectFields;
use bankid::response::CollectHintCode;
use bankid::response::CollectResponse;
use bankid::response::ErrorCode;
use bankid::response::decode_collect;
use bankid::response::decode_error_body;
use bankid::response::decode_order_fields;
use bankid::Endpoint;
use bankid::Error;
use bankid::Identity;
use bankid::PersonalNumber;

#[test]
fn urls_join_operation_paths() {
    assert_eq!(
        Endpoint::Test.url("auth"),
        "https://appapi2.test.bankid.com/rp/v5.1/auth"
    );
    assert_eq!(
        Endpoint::Test.url("collect"),
        "https://appapi2.test.bankid.com/rp/v5.1/collect"
    );
    let production = Endpoint::Production(Identity {
        pkcs12_der: vec![1, 2, 3],
        password: String::from("not a real passphrase"),
    });
    assert_eq!(
        production.url("cancel"),
        "https://appapi2.bankid.com/rp/v5.1/cancel"
    );
}

#[test]
fn success_statuses_are_the_two_hundreds() {
    assert!(!is_success_status(199));
    assert!(is_success_status(200));
    assert!(is_success_status(204));
    assert!(is_success_status(299));
    assert!(!is_success_status(300));
    assert!(!is_success_status(404));
    assert!(!is_success_status(503));
}

#[test]
fn auth_body_with_personal_number() {
    let request = AuthRequest {
        end_user_ip: String::from("127.0.0.1"),
        personal_number: Some(PersonalNumber::parse("198710100101").unwrap()),
        requirement: None,
    };
    assert_eq!(
        request.to_json(),
        r#"{"endUserIp":"127.0.0.1","personalNumber":"198710100101"}"#
    );
}

#[test]
fn auth_body_omits_absent_members() {
    let request = AuthRequest {
        end_user_ip: String::from("2001:db8::1"),
        personal_number: None,
        requirement: None,
    };
    assert_eq!(request.to_json(), r#"{"endUserIp":"2001:db8::1"}"#);
}

#[test]
fn requirement_object_joins_present_members() {
    let empty = Requirement::default();
    assert_eq!(empty.to_json(), "{}");

    let some = Requirement {
        certificate_policies: Some(vec![String::from("1.2.752.78.1.5")]),
        allow_fingerprint: Some(true),
        auto_start_token_required: None,
        issuer_cn: None,
        card_reader: Some(CardReaderClass::Class1),
    };
    assert_eq!(
        some.to_json(),
        r#"{"certificatePolicies":["1.2.752.78.1.5"],"allowFingerprint":true,"cardReader":"class1"}"#
    );

    let bools = Requirement {
        certificate_policies: None,
        allow_fingerprint: None,
        auto_start_token_required: Some(false),
        issuer_cn: Some(true),
        card_reader: None,
    };
    assert_eq!(
        bools.to_json(),
        r#"{"autoStartTokenRequired":false,"issuerCn":true}"#
    );
}

#[test]
fn auth_body_with_requirement() {
    let request = AuthRequest {
        end_user_ip: String::from("127.0.0.1"),
        personal_number: None,
        requirement: Some(Requirement {
            certificate_policies: None,
            allow_fingerprint: Some(false),
            auto_start_token_required: None,
            issuer_cn: None,
            card_reader: None,
        }),
    };
    assert_eq!(
        request.to_json(),
        r#"{"endUserIp":"127.0.0.1","requirement":{"allowFingerprint":false}}"#
    );
}

#[test]
fn sign_body_escapes_user_text() {
    let request = SignRequest {
        end_user_ip: String::from("10.0.0.1"),
        personal_number: None,
        requirement: None,
        user_visible_data: Some(String::from("a\"b\\c\nd")),
        user_non_visible_data: None,
    };
    assert_eq!(
        request.to_json(),
        "{\"endUserIp\":\"10.0.0.1\",\"userVisibleData\":\"a\\\"b\\\\c\\nd\"}"
    );
}

#[test]
fn sign_body_with_all_members() {
    let request = SignRequest {
        end_user_ip: String::from("10.0.0.1"),
        personal_number: Some(PersonalNumber::parse("198710101234").unwrap()),
        requirement: Some(Requirement::default()),
        user_visible_data: Some(String::from("visible")),
        user_non_visible_data: Some(String::from("hidden")),
    };
    assert_eq!(
        request.to_json(),
        r#"{"endUserIp":"10.0.0.1","personalNumber":"198710101234","requirement":{},"userVisibleData":"visible","userNonVisibleData":"hidden"}"#
    );
}

#[test]
fn collect_and_cancel_bodies_carry_the_order_ref() {
    let collect = CollectRequest {
        order_ref: String::from("131daac9-16c6-4618-beb0-365768f37288"),
    };
    assert_eq!(
        collect.to_json(),
        r#"{"orderRef":"131daac9-16c6-4618-beb0-365768f37288"}"#
    );
    let cancel = CancelRequest {
        order_ref: String::from("131daac9-16c6-4618-beb0-365768f37288"),
    };
    assert_eq!(cancel.to_json(), collect.to_json());
}

#[test]
fn control_characters_are_escaped() {
    let request = SignRequest {
        end_user_ip: String::from("10.0.0.1"),
        personal_number: None,
        requirement: None,
        user_visible_data: Some(String::from("a\u{1}b\u{1f}")),
        user_non_visible_data: None,
    };
    assert_eq!(
        request.to_json(),
        r#"{"endUserIp":"10.0.0.1","userVisibleData":"a\u0001b\u001f"}"#
    );
}

/// The whole order lifecycle at the value level: start yields an order
/// handle, a poll is pending, cancellation succeeds with an empty body, and
/// a poll after cancellation is either a failed order with the cancellation
/// hint or a not-found server error — both must be accepted.
#[test]
fn order_lifecycle_scenario() {
    let auth = AuthRequest {
        end_user_ip: String::from("127.0.0.1"),
        personal_number: Some(PersonalNumber::parse("198710100101").unwrap()),
        requirement: None,
    };
    assert!(auth.to_json().contains("\"endUserIp\":\"127.0.0.1\""));

    let order = decode_order_fields(
        "131daac9-16c6-4618-beb0-365768f37288",
        "7c40b5c9-fa74-49cf-b98c-bfe651f9a7c6",
        "67df3917-fa0d-44e5-b327-edcc928297f8",
        "d28db9a7-4cde-429e-a983-359be676944c",
    )
    .expect("start must yield an order");

    let poll = CollectFields {
        status: String::from("pending"),
        hint_code: Some(String::from("outstandingTransaction")),
        order_ref: Some(order.order_ref.clone()),
        completion: None,
    };
    let pending = decode_collect(&poll).expect("first poll must decode");
    assert!(!pending.is_terminal());
    match &pending {
        CollectResponse::Pending { order_ref, .. } => {
            assert_eq!(order_ref.as_deref(), Some(order.order_ref.as_str()));
        }
        other => panic!("expected Pending, got {:?}", other),
    }

    let after_cancel_poll = CollectFields {
        status: String::from("failed"),
        hint_code: Some(String::from("cancelled")),
        order_ref: None,
        completion: None,
    };
    let after_cancel_error = decode_error_body("notFound", String::from("order expired"));
    let failed_with_cancel_hint = match decode_collect(&after_cancel_poll) {
        Ok(CollectResponse::Failed { hint_code }) => hint_code == CollectHintCode::Canceled,
        _ => false,
    };
    let not_found = match &after_cancel_error {
        Error::ClientError(ce) => ce.error_code == ErrorCode::NotFound,
        _ => false,
    };
    assert!(failed_with_cancel_hint);
    assert!(not_found);
    assert!(failed_with_cancel_hint || not_found);
}

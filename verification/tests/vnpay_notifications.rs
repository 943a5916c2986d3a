use vn_connectors::codec::query_string;
use vn_connectors::params::ParamMap;
use vn_connectors::types::{
    ConnectorError, IncomingWebhookEvent, IncomingWebhookRequestDetails, ObjectReferenceId,
    PaymentIdType, SignatureAlgorithm,
};
use vn_connectors::vnpay::transformers::compute_vnpay_signature;
use vn_connectors::vnpay::{
    decode_webhook_body, event_of, message_of, reference_of, signature_of, Vnpay,
};

fn map_of(pairs: &[(&str, &str)]) -> ParamMap {
    ParamMap::from_pairs(pairs.iter().map(|(k, v)| (k.to_string(), v.to_string())).collect())
}

fn request(body: &str) -> IncomingWebhookRequestDetails<'_> {
    IncomingWebhookRequestDetails { body: body.as_bytes() }
}

fn signature(body: &str) -> Result<Vec<u8>, ConnectorError> {
    Vnpay::new().get_webhook_source_verification_signature(&request(body))
}

fn message(body: &str) -> String {
    let bytes = Vnpay::new().get_webhook_source_verification_message(&request(body)).unwrap();
    String::from_utf8(bytes).unwrap()
}

fn verifies(secret: &str, body: &str) -> bool {
    let key = ring::hmac::Key::new(ring::hmac::HMAC_SHA512, secret.as_bytes());
    ring::hmac::verify(&key, message(body).as_bytes(), &signature(body).unwrap()).is_ok()
}

#[test]
fn notifications_are_signed_with_sha512() {
    assert_eq!(
        Vnpay::new().get_webhook_source_verification_algorithm(&request("")).unwrap(),
        SignatureAlgorithm::HmacSha512
    );
}

#[test]
fn a_body_is_decoded_into_sorted_parameters() {
    let map = decode_webhook_body(b"b=x+y&a=%C3%A0&b=z%26&&c").unwrap_or_else(|_| panic!("refused"));
    assert_eq!(map.len(), 3);
    assert_eq!(map.key(0), "a");
    assert_eq!(map.value(0), "\u{e0}");
    assert_eq!(map.key(1), "b");
    assert_eq!(map.value(1), "z&");
    assert_eq!(map.key(2), "c");
    assert_eq!(map.value(2), "");
}

#[test]
fn a_body_that_is_no_text_is_decoded_all_the_same() {
    let map = decode_webhook_body(&[b'a', b'=', 0xff]).unwrap_or_else(|_| panic!("refused"));
    assert_eq!(map.value(0), "\u{fffd}");
}

#[test]
fn a_query_string_is_read_back() {
    let map = map_of(&[("vnp_TxnRef", "ref 1+2"), ("vnp_Amount", "5000000"), ("x.y~z-w_v", "Cà phê")]);
    let back = decode_webhook_body(query_string(&map).as_bytes()).unwrap_or_else(|_| panic!("refused"));
    assert_eq!(query_string(&back), query_string(&map));
    assert_eq!(back.get("vnp_TxnRef").map(|v| v.as_str()), Some("ref 1+2"));
    assert_eq!(back.get("x.y~z-w_v").map(|v| v.as_str()), Some("Cà phê"));
}

#[test]
fn the_signature_of_a_notification() {
    assert_eq!(signature("vnp_SecureHash=00ffA1b2&x=1").unwrap(), vec![0x00, 0xff, 0xa1, 0xb2]);
    assert_eq!(signature("vnp_SecureHash=").unwrap(), Vec::<u8>::new());
    assert_eq!(signature_of(&map_of(&[("vnp_SecureHash", "0a")])).unwrap(), vec![10]);
}

#[test]
fn a_notification_without_a_signature() {
    for body in ["", "x=1", "vnp_SecureHash=abc", "vnp_SecureHash=zz"] {
        assert!(matches!(signature(body), Err(ConnectorError::WebhookSignatureNotFound)));
    }
    assert!(matches!(
        signature_of(&ParamMap::new()),
        Err(ConnectorError::WebhookSignatureNotFound)
    ));
}

#[test]
fn the_message_of_a_notification() {
    assert_eq!(
        message("vnp_TxnRef=ref+1&vnp_SecureHashType=HmacSHA512&vnp_Amount=5&vnp_SecureHash=00"),
        "vnp_Amount=5&vnp_TxnRef=ref%201"
    );
    assert_eq!(message(""), "");
    let map = map_of(&[("b", "2"), ("vnp_SecureHash", "00"), ("a", "1 ")]);
    assert_eq!(message_of(&map), b"a=1%20&b=2".to_vec());
}

#[test]
fn a_signed_notification_verifies_in_any_order() {
    let map = map_of(&[
        ("vnp_Amount", "5000000"),
        ("vnp_OrderInfo", "Thanh toan don hang ref_1"),
        ("vnp_ResponseCode", "00"),
        ("vnp_TxnRef", "ref_1"),
    ]);
    let hash = compute_vnpay_signature(&map, "hash-secret").unwrap();
    let body = format!("vnp_TxnRef=ref_1&vnp_SecureHash={}&vnp_OrderInfo=Thanh+toan+don+hang+ref_1&vnp_SecureHashType=SHA512&vnp_ResponseCode=00&vnp_Amount=5000000", hash);
    assert_eq!(message(&body), query_string(&map));
    assert!(verifies("hash-secret", &body));
    assert!(!verifies("other-secret", &body));
    let changed = body.replace("5000000", "5000001");
    assert!(!verifies("hash-secret", &changed));
}

#[test]
fn what_is_sent_for_a_payment_verifies() {
    let mut map = map_of(&[
        ("vnp_Command", "pay"),
        ("vnp_ReturnUrl", "https://example.com/return?x=1"),
        ("vnp_TxnRef", "ref_1"),
    ]);
    let hash = compute_vnpay_signature(&map, "hash-secret").unwrap();
    map.insert("vnp_SecureHash".to_string(), hash);
    assert!(verifies("hash-secret", &query_string(&map)));
}

#[test]
fn the_payment_of_a_notification() {
    match Vnpay::new().get_webhook_object_reference_id(&request("a=1&vnp_TxnRef=ref%201")).unwrap() {
        ObjectReferenceId::PaymentId(PaymentIdType::ConnectorTransactionId(id)) => {
            assert_eq!(id, "ref 1")
        }
    }
    assert!(matches!(
        Vnpay::new().get_webhook_object_reference_id(&request("a=1")),
        Err(ConnectorError::WebhookReferenceIdNotFound)
    ));
    assert!(reference_of(&map_of(&[("vnp_TxnRef", "")])).is_ok());
}

#[test]
fn the_event_of_a_notification() {
    for (body, event) in [
        ("vnp_ResponseCode=00", IncomingWebhookEvent::PaymentIntentSuccess),
        ("vnp_ResponseCode=24", IncomingWebhookEvent::PaymentIntentCancelled),
        ("vnp_ResponseCode=07", IncomingWebhookEvent::PaymentIntentFailure),
        ("vnp_ResponseCode=", IncomingWebhookEvent::PaymentIntentFailure),
        ("x=00", IncomingWebhookEvent::PaymentIntentFailure),
        ("vnp_ResponseCode=24&vnp_ResponseCode=00", IncomingWebhookEvent::PaymentIntentSuccess),
    ] {
        assert_eq!(Vnpay::new().get_webhook_event_type(&request(body)).unwrap(), event);
    }
    assert_eq!(event_of(&ParamMap::new()), IncomingWebhookEvent::PaymentIntentFailure);
}

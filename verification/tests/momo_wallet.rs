use std::marker::PhantomData;

use vn_connectors::momo::transformers::{
    compute_signature, get_momo_webhook_event, momo_result_code_to_attempt_status, take_created,
    MomoAuthType, MomoCreatePaymentRequest, MomoCreatePaymentResponse, MomoErrorResponse,
    MomoIpnPayload, MomoQueryRequest, MomoQueryResponse, MomoRefundQueryRequest, MomoRefundRequest,
    MomoRefundResponse, MomoRequestType, MomoRouterData,
};
use vn_connectors::types::{
    AttemptStatus, ConnectorAuthType, ConnectorError, Currency, Execute, IncomingWebhookEvent,
    Method, MinorUnit, OrderDetailsWithAmount, PSync, PaymentsAuthorizeData,
    PaymentsAuthorizeRouterData, PaymentsResponseData, PaymentsSyncData, PaymentsSyncRouterData,
    RSync, RedirectForm, RefundStatus, RefundsData, RefundsResponseData, RefundsRouterData,
    ResponseId, ResponseRouterData, RouterData, Secret,
};

fn secret(text: &str) -> Secret {
    Secret::new(text.to_string())
}

fn signature_key() -> ConnectorAuthType {
    ConnectorAuthType::SignatureKey {
        api_key: secret("MOMO1"),
        key1: secret("AK"),
        api_secret: secret("SK"),
    }
}

fn empty_response() -> PaymentsResponseData {
    PaymentsResponseData::TransactionResponse {
        resource_id: ResponseId::NoResponseId,
        redirection_data: None,
        mandate_reference: None,
        connector_metadata: None,
        network_txn_id: None,
        connector_response_reference_id: None,
        incremental_authorization_allowed: None,
        authentication_data: None,
        charges: None,
    }
}

fn data<F, Req, Resp>(request: Req, response: Resp) -> RouterData<F, Req, Resp> {
    RouterData {
        flow: PhantomData,
        attempt_id: "attempt_1".to_string(),
        connector_request_reference_id: "ref_1".to_string(),
        connector_auth_type: signature_key(),
        connector_meta_data: None,
        status: AttemptStatus::Started,
        request,
        response: Ok(response),
    }
}

fn payment() -> PaymentsAuthorizeRouterData {
    data(
        PaymentsAuthorizeData {
            amount: 75000,
            currency: Currency::VND,
            statement_descriptor: None,
            complete_authorize_url: None,
            router_return_url: Some("https://shop.example/back".to_string()),
            webhook_url: Some("https://shop.example/ipn".to_string()),
            browser_info: None,
            order_details: None,
        },
        empty_response(),
    )
}

fn sync() -> PaymentsSyncRouterData {
    data(
        PaymentsSyncData { connector_transaction_id: ResponseId::NoResponseId },
        empty_response(),
    )
}

fn refund<F>(metadata: Option<serde_json::Value>) -> RefundsRouterData<F> {
    data(
        RefundsData {
            refund_id: "refund_1".to_string(),
            reason: None,
            connector_metadata: metadata,
            connector_refund_id: None,
        },
        RefundsResponseData {
            connector_refund_id: "".to_string(),
            refund_status: RefundStatus::Pending,
        },
    )
}

fn metadata(text: &str) -> Option<serde_json::Value> {
    Some(serde_json::from_str(text).unwrap())
}

fn create(
    data: &PaymentsAuthorizeRouterData,
    amount: i64,
) -> Result<MomoCreatePaymentRequest, ConnectorError> {
    MomoCreatePaymentRequest::try_from(&MomoRouterData::from((MinorUnit::new(amount), data)))
}

fn refund_request(
    data: &RefundsRouterData<Execute>,
    amount: i64,
) -> Result<MomoRefundRequest, ConnectorError> {
    MomoRefundRequest::try_from(&MomoRouterData::from((MinorUnit::new(amount), data)))
}

fn taken<T>(r: Result<T, ConnectorError>) -> T {
    r.unwrap_or_else(|e| panic!("refused: {:?}", e))
}

// ---- credentials ----

#[test]
fn credentials_are_a_signature_key() {
    let auth = taken(MomoAuthType::try_from(&signature_key()));
    assert_eq!(auth.partner_code.peek(), "MOMO1");
    assert_eq!(auth.access_key.peek(), "AK");
    assert_eq!(auth.secret_key.peek(), "SK");
    let other = ConnectorAuthType::BodyKey { api_key: secret("a"), key1: secret("b") };
    assert!(matches!(
        MomoAuthType::try_from(&other),
        Err(ConnectorError::FailedToObtainAuthType)
    ));
}

#[test]
fn a_signature_is_sha256_in_hexadecimal() {
    assert_eq!(
        compute_signature("The quick brown fox jumps over the lazy dog", &secret("key")).unwrap(),
        "f7bc83f430538424b13298e6aa6fb143ef4d59a14946175997479dbc2d1a3cd8"
    );
}

// ---- starting a payment ----

#[test]
fn the_request_that_starts_a_payment() {
    let request = taken(create(&payment(), 75000));
    assert_eq!(request.partner_code.peek(), "MOMO1");
    assert_eq!(request.request_type, MomoRequestType::CaptureWallet);
    assert_eq!(request.ipn_url, "https://shop.example/ipn");
    assert_eq!(request.redirect_url, "https://shop.example/back");
    assert_eq!(request.order_id, "attempt_1");
    assert_eq!(request.amount, 75000);
    assert_eq!(request.order_info, "Payment");
    assert_eq!(request.request_id, "attempt_1");
    assert_eq!(request.extra_data, "");
    assert_eq!(request.lang, "vi");
    assert_eq!(
        request.signature,
        "68f20998c894594e491e2642c809d556c632ab17cd30781b09ba35357ad19d77"
    );
}

#[test]
fn the_first_article_is_what_is_paid_for() {
    let mut data = payment();
    data.request.order_details = Some(vec![
        OrderDetailsWithAmount { product_name: "Cà phê".to_string() },
        OrderDetailsWithAmount { product_name: "Trà".to_string() },
    ]);
    let request = taken(create(&data, 75000));
    assert_eq!(request.order_info, "Cà phê");
    assert_eq!(
        request.signature,
        "baf51a13563561771211758a5a6c6c0ecf8e65224274396d0aab4457a8b2a858"
    );
    data.request.order_details = Some(vec![]);
    assert_eq!(taken(create(&data, 75000)).order_info, "Payment");
}

#[test]
fn what_a_payment_needs() {
    let mut data = payment();
    data.request.router_return_url = None;
    assert!(matches!(
        create(&data, 1),
        Err(ConnectorError::MissingRequiredField { field_name: "return_url" })
    ));
    data.request.webhook_url = None;
    assert!(matches!(
        create(&data, 1),
        Err(ConnectorError::MissingRequiredField { field_name: "webhook_url" })
    ));
    data.connector_auth_type = ConnectorAuthType::NoKey;
    assert!(matches!(create(&data, 1), Err(ConnectorError::FailedToObtainAuthType)));
}

fn created(result_code: i64, pay_url: Option<&str>) -> MomoCreatePaymentResponse {
    MomoCreatePaymentResponse {
        partner_code: "MOMO1".to_string(),
        order_id: "attempt_1".to_string(),
        request_id: "attempt_1".to_string(),
        amount: 75000,
        response_time: None,
        message: "Giao dịch bị từ chối".to_string(),
        result_code,
        pay_url: pay_url.map(|u| u.to_string()),
        deeplink: None,
        qr_code_data: None,
    }
}

fn take_in(
    response: MomoCreatePaymentResponse,
) -> Result<PaymentsAuthorizeRouterData, ConnectorError> {
    PaymentsAuthorizeRouterData::try_from(ResponseRouterData {
        response,
        data: payment(),
        http_code: 200,
    })
}

#[test]
fn the_payer_is_sent_to_the_page() {
    let after = taken(take_in(created(0, Some("HTTPS://Pay.Example/a b?t=1"))));
    assert_eq!(after.status, AttemptStatus::AuthenticationPending);
    assert_eq!(after.attempt_id, "attempt_1");
    match after.response {
        Ok(PaymentsResponseData::TransactionResponse {
            resource_id: ResponseId::ConnectorTransactionId(id),
            redirection_data: Some(RedirectForm::Url { url, method }),
            connector_response_reference_id: Some(reference),
            connector_metadata: None,
            ..
        }) => {
            assert_eq!(id, "attempt_1");
            assert_eq!(url, "https://pay.example/a%20b?t=1");
            assert_eq!(method, Method::Get);
            assert_eq!(reference, "attempt_1");
        }
        _ => panic!("no page"),
    }
}

#[test]
fn a_success_must_name_a_page() {
    assert!(matches!(
        take_in(created(0, None)),
        Err(ConnectorError::MissingRequiredField { field_name: "payUrl" })
    ));
    assert!(matches!(
        take_in(created(0, Some("no url"))),
        Err(ConnectorError::ResponseDeserializationFailed)
    ));
}

#[test]
fn a_page_that_is_given_is_taken() {
    let after = taken(take_created(created(0, None), Some(Some("x".to_string())), payment(), 200));
    assert!(matches!(
        after.response,
        Ok(PaymentsResponseData::TransactionResponse {
            redirection_data: Some(RedirectForm::Url { .. }),
            ..
        })
    ));
}

#[test]
fn a_payment_that_was_refused() {
    for pay_url in [None, Some("no url")] {
        let after = taken(take_in(created(1006, pay_url)));
        assert_eq!(after.status, AttemptStatus::Failure);
        match after.response {
            Err(error) => {
                assert_eq!(error.code, "1006");
                assert_eq!(error.message, "Giao dịch bị từ chối");
                assert_eq!(error.reason.as_deref(), Some("Giao dịch bị từ chối"));
                assert_eq!(error.status_code, 200);
                assert!(error.connector_metadata.is_none());
            }
            Ok(_) => panic!("accepted"),
        }
    }
}

// ---- the state of a payment ----

#[test]
fn the_query_for_a_payment_by_its_attempt() {
    let query = taken(MomoQueryRequest::try_from(&sync()));
    assert_eq!(query.partner_code.peek(), "MOMO1");
    assert_eq!(query.request_id, "attempt_1");
    assert_eq!(query.order_id, "attempt_1");
    assert_eq!(query.order_id, taken(create(&payment(), 75000)).order_id);
    assert_eq!(query.lang, "vi");
    assert_eq!(
        query.signature,
        "2ba04ecc961786bb9580000a889d8195473813a97ea89d67e87439d4d2eee855"
    );
    let mut other = sync();
    other.connector_auth_type = ConnectorAuthType::NoKey;
    assert!(matches!(
        MomoQueryRequest::try_from(&other),
        Err(ConnectorError::FailedToObtainAuthType)
    ));
}

fn queried(result_code: i64, trans_id: Option<i64>) -> MomoQueryResponse {
    MomoQueryResponse {
        partner_code: "MOMO1".to_string(),
        request_id: None,
        order_id: "order_5".to_string(),
        extra_data: None,
        amount: Some(75000),
        trans_id,
        pay_type: None,
        result_code,
        message: "message".to_string(),
        response_time: None,
        payment_option: None,
    }
}

fn synced(response: MomoQueryResponse) -> PaymentsSyncRouterData {
    taken(<PaymentsSyncRouterData as TryFrom<
        ResponseRouterData<PSync, MomoQueryResponse, PaymentsSyncData, PaymentsResponseData>,
    >>::try_from(ResponseRouterData { response, data: sync(), http_code: 201 }))
}

fn kept_metadata(data: PaymentsSyncRouterData) -> Option<serde_json::Value> {
    match data.response {
        Ok(PaymentsResponseData::TransactionResponse { connector_metadata, .. }) => {
            connector_metadata
        }
        Err(_) => panic!("failed"),
    }
}

#[test]
fn what_result_codes_mean_for_a_payment() {
    for (code, status) in [
        (0, AttemptStatus::Charged),
        (9000, AttemptStatus::Authorized),
        (1000, AttemptStatus::AuthenticationPending),
        (1, AttemptStatus::Failure),
        (-1, AttemptStatus::Failure),
        (1006, AttemptStatus::Failure),
    ] {
        assert_eq!(momo_result_code_to_attempt_status(code), status);
        let after = synced(queried(code, Some(7)));
        assert_eq!(after.status, status);
        assert_eq!(after.response.is_err(), status == AttemptStatus::Failure);
    }
}

#[test]
fn the_state_of_a_payment_by_its_order() {
    match synced(queried(0, Some(2588659987))).response {
        Ok(PaymentsResponseData::TransactionResponse {
            resource_id: ResponseId::ConnectorTransactionId(id),
            redirection_data: None,
            connector_metadata: Some(metadata),
            connector_response_reference_id: Some(reference),
            ..
        }) => {
            assert_eq!(id, "order_5");
            assert_eq!(reference, "order_5");
            assert_eq!(metadata.to_string(), "{\"trans_id\":2588659987}");
        }
        _ => panic!("no transaction"),
    }
}

#[test]
fn no_number_is_kept_where_there_is_none() {
    assert!(kept_metadata(synced(queried(0, None))).is_none());
    assert!(kept_metadata(synced(queried(0, Some(0)))).is_none());
    assert!(kept_metadata(synced(queried(9000, Some(-3)))).is_some());
}

#[test]
fn a_failed_payment_reports_its_code() {
    match synced(queried(-49, Some(1))).response {
        Err(error) => {
            assert_eq!(error.code, "-49");
            assert_eq!(error.message, "message");
            assert_eq!(error.status_code, 201);
        }
        Ok(_) => panic!("no failure"),
    }
}

// ---- refunds ----

#[test]
fn the_request_that_starts_a_refund() {
    let mut data = refund(metadata("{\"trans_id\": 2588659987, \"other\": \"x\"}"));
    data.request.reason = Some("damaged".to_string());
    let request = taken(refund_request(&data, 20000));
    assert_eq!(request.partner_code.peek(), "MOMO1");
    assert_eq!(request.order_id, "refund_1");
    assert_eq!(request.request_id, "refund_1");
    assert_eq!(request.amount, 20000);
    assert_eq!(request.trans_id, 2588659987);
    assert_eq!(request.lang, "vi");
    assert_eq!(request.description, "damaged");
    assert_eq!(
        request.signature,
        "36d46dc83661bb6f795cac8ca6510ab17f696afa97d350f40434ce2361d95f10"
    );
}

#[test]
fn a_refund_without_a_reason() {
    let request = taken(refund_request(&refund(metadata("{\"trans_id\": 2588659987}")), -5));
    assert_eq!(request.description, "");
    assert_eq!(
        request.signature,
        "f6e79d510747833535906f630e016db9c91b5ba3f21e2fec149eb328bf0b9333"
    );
}

#[test]
fn a_refund_finds_the_number_that_was_kept() {
    let kept = kept_metadata(synced(queried(0, Some(42))));
    assert_eq!(taken(refund_request(&refund(kept), 1)).trans_id, 42);
}

#[test]
fn a_refund_needs_the_number_of_the_transaction() {
    for kept in [
        None,
        kept_metadata(synced(queried(0, Some(0)))),
        metadata("{}"),
        metadata("{\"trans_id\": \"42\"}"),
        metadata("{\"trans_id\": 1.5}"),
        metadata("{\"trans_id\": 9223372036854775808}"),
        metadata("[42]"),
        metadata("42"),
    ] {
        assert!(matches!(
            refund_request(&refund(kept), 1),
            Err(ConnectorError::MissingRequiredField { field_name: "trans_id" })
        ));
    }
    let mut data = refund(None);
    data.connector_auth_type = ConnectorAuthType::NoKey;
    assert!(matches!(refund_request(&data, 1), Err(ConnectorError::FailedToObtainAuthType)));
}

fn refund_answer(result_code: i64) -> MomoRefundResponse {
    MomoRefundResponse {
        partner_code: "MOMO1".to_string(),
        order_id: "refund_1".to_string(),
        request_id: "refund_1".to_string(),
        amount: None,
        trans_id: None,
        result_code,
        message: "message".to_string(),
        response_time: None,
    }
}

#[test]
fn what_becomes_of_a_refund() {
    for (code, status) in [
        (0, RefundStatus::Success),
        (1000, RefundStatus::Failure),
        (1080, RefundStatus::Failure),
    ] {
        let after = taken(RefundsRouterData::<Execute>::try_from(ResponseRouterData {
            response: refund_answer(code),
            data: refund(None),
            http_code: 200,
        }));
        assert_eq!(after.status, AttemptStatus::Started);
        match after.response {
            Ok(response) => {
                assert_eq!(response.connector_refund_id, "refund_1");
                assert_eq!(response.refund_status, status);
            }
            Err(_) => panic!("failed"),
        }
    }
}

#[test]
fn what_becomes_of_a_refund_that_is_asked_for() {
    for (code, status) in [
        (0, RefundStatus::Success),
        (1000, RefundStatus::Pending),
        (9000, RefundStatus::Failure),
    ] {
        let after = taken(RefundsRouterData::<RSync>::try_from(ResponseRouterData {
            response: queried(code, None),
            data: refund(None),
            http_code: 200,
        }));
        match after.response {
            Ok(response) => {
                assert_eq!(response.connector_refund_id, "order_5");
                assert_eq!(response.refund_status, status);
            }
            Err(_) => panic!("failed"),
        }
    }
}

#[test]
fn the_query_for_a_refund() {
    let mut data = refund::<RSync>(None);
    assert!(matches!(
        MomoRefundQueryRequest::try_from(&data),
        Err(ConnectorError::MissingConnectorRefundID)
    ));
    data.request.connector_refund_id = Some("refund_1".to_string());
    let query = taken(MomoRefundQueryRequest::try_from(&data));
    assert_eq!(query.partner_code.peek(), "MOMO1");
    assert_eq!(query.order_id, "refund_1");
    assert_eq!(query.request_id, "refund_1");
    assert_eq!(query.lang, "vi");
    assert_eq!(
        query.signature,
        "4b454a4a28717048d1661209e1c07cfe0f30e04184fc0a7b2b20cf675ebe141b"
    );
    data.connector_auth_type = ConnectorAuthType::NoKey;
    assert!(matches!(
        MomoRefundQueryRequest::try_from(&data),
        Err(ConnectorError::FailedToObtainAuthType)
    ));
}

// ---- reports ----

#[test]
fn what_a_report_tells() {
    let report = MomoIpnPayload {
        partner_code: "MOMO1".to_string(),
        order_id: "order_5".to_string(),
        request_id: "order_5".to_string(),
        amount: 75000,
        order_info: None,
        order_type: None,
        trans_id: 42,
        result_code: 9000,
        message: "message".to_string(),
        pay_type: None,
        response_time: 0,
        extra_data: None,
        signature: "".to_string(),
    };
    assert_eq!(
        get_momo_webhook_event(report.result_code),
        IncomingWebhookEvent::PaymentIntentAuthorizationSuccess
    );
    assert_eq!(get_momo_webhook_event(0), IncomingWebhookEvent::PaymentIntentSuccess);
    assert_eq!(get_momo_webhook_event(1000), IncomingWebhookEvent::PaymentIntentFailure);
    assert_eq!(get_momo_webhook_event(-1), IncomingWebhookEvent::PaymentIntentFailure);
}

#[test]
fn an_error_may_say_nothing() {
    let error = MomoErrorResponse { result_code: None, message: None };
    assert!(error.result_code.is_none());
    assert!(error.message.is_none());
}

use std::marker::PhantomData;

use vn_connectors::clock::LAST_SECOND;
use vn_connectors::codec::query_string;
use vn_connectors::params::ParamMap;
use vn_connectors::types::{
    AttemptStatus, BrowserInformation, CallConnectorAction, CaptureMethod, ConnectorAuthType,
    ConnectorCategory, ConnectorError, ConnectorIntegrationStatus, ConnectorParams, Connectors,
    Currency, CurrencyUnit, EventClass, FeatureStatus, Method, PaymentAction, PaymentMethod,
    PaymentMethodType, PaymentsAuthorizeData, PaymentsAuthorizeRouterData, PaymentsResponseData,
    PaymentsSyncData, PaymentsSyncRouterData, RedirectForm, RequestContent, Response, ResponseId,
    RouterData, Secret,
};
use vn_connectors::vnpay::transformers::{
    build_redirect_url, compute_vnpay_signature, VnpayAuthType, VnpayConnectorMeta,
    VnpayIpnResponse, VnpayPaymentParams, VnpayQueryRequest, VnpayQueryResponse, VnpayRouterData,
};
use vn_connectors::vnpay::Vnpay;

const MOMENT: i64 = 1700000000;

const SIGNATURE: &str = "0c29646570c8ad213d4a007ee9a5e1398ca12b17a799f6981d980374fdb70b3cc903cf8cff4c0f4376cc19942a0da99233cd6f9a48bad65b8b83002a9afd3f4c";

fn secret(text: &str) -> Secret {
    Secret::new(text.to_string())
}

fn body_key() -> ConnectorAuthType {
    ConnectorAuthType::BodyKey { api_key: secret("hash-secret"), key1: secret("TMN01") }
}

fn payment() -> PaymentsAuthorizeRouterData {
    RouterData {
        flow: PhantomData,
        attempt_id: "attempt_1".to_string(),
        connector_request_reference_id: "ref_1".to_string(),
        connector_auth_type: body_key(),
        connector_meta_data: None,
        status: AttemptStatus::Started,
        request: PaymentsAuthorizeData {
            amount: 50000,
            currency: Currency::VND,
            statement_descriptor: None,
            complete_authorize_url: Some("https://example.com/return?x=1".to_string()),
            router_return_url: None,
            webhook_url: None,
            browser_info: None,
            order_details: None,
        },
        response: Ok(PaymentsResponseData::TransactionResponse {
            resource_id: ResponseId::NoResponseId,
            redirection_data: None,
            mandate_reference: None,
            connector_metadata: None,
            network_txn_id: None,
            connector_response_reference_id: None,
            incremental_authorization_allowed: None,
            authentication_data: None,
            charges: None,
        }),
    }
}

fn sync(id: ResponseId) -> PaymentsSyncRouterData {
    let base = payment();
    RouterData {
        flow: PhantomData,
        attempt_id: base.attempt_id,
        connector_request_reference_id: base.connector_request_reference_id,
        connector_auth_type: base.connector_auth_type,
        connector_meta_data: base.connector_meta_data,
        status: base.status,
        request: PaymentsSyncData { connector_transaction_id: id },
        response: base.response,
    }
}

fn connectors() -> Connectors {
    Connectors { vnpay: ConnectorParams { base_url: "https://pay.example/".to_string() } }
}

fn answer(body: &[u8]) -> Response {
    Response { response: body.to_vec(), status_code: 502 }
}

fn params_at_moment(data: &PaymentsAuthorizeRouterData) -> Result<VnpayPaymentParams, ConnectorError> {
    VnpayPaymentParams::try_from_at(&VnpayRouterData::from((data.request.amount, data)), MOMENT)
}

fn pairs_of(map: &ParamMap) -> Vec<(String, String)> {
    (0..map.len()).map(|i| (map.key(i).clone(), map.value(i).clone())).collect()
}

fn form_of(data: PaymentsAuthorizeRouterData) -> (String, Method, ParamMap) {
    match data.response {
        Ok(PaymentsResponseData::TransactionResponse {
            redirection_data: Some(RedirectForm::Form { endpoint, method, form_fields }),
            ..
        }) => (endpoint, method, form_fields),
        _ => panic!("no form"),
    }
}

// ---- credentials ----

#[test]
fn credentials_are_a_body_key() {
    let auth = VnpayAuthType::try_from(&body_key()).unwrap_or_else(|_| panic!("refused"));
    assert_eq!(auth.hash_secret.peek(), "hash-secret");
    assert_eq!(auth.tmn_code.expose(), "TMN01");
    for other in [
        ConnectorAuthType::NoKey,
        ConnectorAuthType::HeaderKey { api_key: secret("a") },
        ConnectorAuthType::SignatureKey {
            api_key: secret("a"),
            key1: secret("b"),
            api_secret: secret("c"),
        },
    ] {
        assert!(matches!(
            VnpayAuthType::try_from(&other),
            Err(ConnectorError::FailedToObtainAuthType)
        ));
    }
}

// ---- parameters ----

#[test]
fn parameters_of_a_payment() {
    let data = payment();
    let params = params_at_moment(&data).unwrap();
    assert_eq!(params.tmn_code, "TMN01");
    assert_eq!(params.amount_x100, 5000000);
    assert_eq!(params.txn_ref, "ref_1");
    assert_eq!(params.order_info, "Thanh toan don hang ref_1");
    assert_eq!(params.return_url, "https://example.com/return?x=1");
    assert_eq!(params.ip_addr, "127.0.0.1");
    assert_eq!(params.create_date, "20231115051320");
    assert_eq!(params.locale, "vn");
}

#[test]
fn parameters_that_the_request_gives() {
    let mut data = payment();
    data.request.statement_descriptor = Some("Order 7".to_string());
    data.request.browser_info =
        Some(BrowserInformation { ip_address: Some("203.0.113.9".to_string()) });
    let params = params_at_moment(&data).unwrap();
    assert_eq!(params.order_info, "Order 7");
    assert_eq!(params.ip_addr, "203.0.113.9");
    data.request.browser_info = Some(BrowserInformation { ip_address: None });
    assert_eq!(params_at_moment(&data).unwrap().ip_addr, "127.0.0.1");
}

#[test]
fn parameters_of_a_payment_made_now() {
    let data = payment();
    let before = VnpayPaymentParams::try_from_at(
        &VnpayRouterData::from((50000, &data)),
        time::OffsetDateTime::now_utc().unix_timestamp(),
    )
    .unwrap();
    let params = VnpayPaymentParams::try_from(&VnpayRouterData::from((50000, &data))).unwrap();
    assert_eq!(params.create_date.len(), 14);
    assert!(before.create_date <= params.create_date);
    assert_eq!(params.amount_x100, 5000000);
}

#[test]
fn a_payment_needs_credentials() {
    let mut data = payment();
    data.connector_auth_type = ConnectorAuthType::NoKey;
    data.request.currency = Currency::Other;
    assert!(matches!(params_at_moment(&data), Err(ConnectorError::FailedToObtainAuthType)));
}

#[test]
fn a_payment_is_in_dong() {
    let mut data = payment();
    data.request.currency = Currency::Other;
    data.request.complete_authorize_url = None;
    match params_at_moment(&data) {
        Err(ConnectorError::NotSupported { message, connector }) => {
            assert_eq!(message, "VNPay only supports VND");
            assert_eq!(connector, "vnpay");
        }
        _ => panic!("accepted"),
    }
}

#[test]
fn a_payment_needs_a_return_url() {
    let mut data = payment();
    data.request.complete_authorize_url = None;
    assert!(matches!(
        params_at_moment(&data),
        Err(ConnectorError::MissingRequiredField { field_name: "complete_authorize_url" })
    ));
}

#[test]
fn a_payment_beyond_the_calendar_is_refused() {
    let data = payment();
    let item = VnpayRouterData::from((50000, &data));
    assert!(VnpayPaymentParams::try_from_at(&item, LAST_SECOND - 25200).is_ok());
    assert!(matches!(
        VnpayPaymentParams::try_from_at(&item, LAST_SECOND),
        Err(ConnectorError::RequestEncodingFailed)
    ));
}

#[test]
fn the_sorted_map_of_a_payment() {
    let map = params_at_moment(&payment()).unwrap().to_sorted_map();
    let expected = [
        ("vnp_Amount", "5000000"),
        ("vnp_Command", "pay"),
        ("vnp_CreateDate", "20231115051320"),
        ("vnp_CurrCode", "VND"),
        ("vnp_IpAddr", "127.0.0.1"),
        ("vnp_Locale", "vn"),
        ("vnp_OrderInfo", "Thanh toan don hang ref_1"),
        ("vnp_OrderType", "other"),
        ("vnp_ReturnUrl", "https://example.com/return?x=1"),
        ("vnp_TmnCode", "TMN01"),
        ("vnp_TxnRef", "ref_1"),
        ("vnp_Version", "2.1.0"),
    ];
    let expected: Vec<(String, String)> =
        expected.iter().map(|(k, v)| (k.to_string(), v.to_string())).collect();
    assert_eq!(pairs_of(&map), expected);
    let mut keys: Vec<String> = pairs_of(&map).into_iter().map(|(k, _)| k).collect();
    keys.sort();
    keys.dedup();
    assert_eq!(keys.len(), map.len());
}

// ---- signatures and redirects ----

#[test]
fn the_signature_of_a_payment() {
    let map = params_at_moment(&payment()).unwrap().to_sorted_map();
    assert_eq!(compute_vnpay_signature(&map, "hash-secret").unwrap(), SIGNATURE);
    assert_ne!(compute_vnpay_signature(&map, "other-secret").unwrap(), SIGNATURE);
}

#[test]
fn the_signature_of_two_parameters() {
    let map = ParamMap::from_pairs(vec![
        ("b".to_string(), " x".to_string()),
        ("a".to_string(), "1".to_string()),
    ]);
    assert_eq!(
        compute_vnpay_signature(&map, "k").unwrap(),
        "780121540e947f4c108e81afd270295d8034b4857db2c77be7d2bab963660df0aa5e6be5003798683909623890b7fe6c0c4462b28b66e83d254bf448ab9b606f"
    );
}

#[test]
fn the_redirect_url_of_a_payment() {
    let params = params_at_moment(&payment()).unwrap();
    let url = build_redirect_url("https://pay.example/", &params, "hash-secret").unwrap();
    let expected = format!("https://pay.example/paymentv2/vpcpay.html?vnp_Amount=5000000&vnp_Command=pay&vnp_CreateDate=20231115051320&vnp_CurrCode=VND&vnp_IpAddr=127.0.0.1&vnp_Locale=vn&vnp_OrderInfo=Thanh%20toan%20don%20hang%20ref_1&vnp_OrderType=other&vnp_ReturnUrl=https%3A%2F%2Fexample.com%2Freturn%3Fx%3D1&vnp_SecureHash={}&vnp_TmnCode=TMN01&vnp_TxnRef=ref_1&vnp_Version=2.1.0", SIGNATURE);
    assert_eq!(url, expected);
}

#[test]
fn the_request_of_a_payment() {
    let data = payment();
    let request = Vnpay::new()
        .authorize_build_request_at(&data, &connectors(), MOMENT)
        .unwrap()
        .unwrap();
    assert_eq!(request.method, Method::Get);
    let params = params_at_moment(&data).unwrap();
    assert_eq!(
        request.url,
        build_redirect_url("https://pay.example/", &params, "hash-secret").unwrap()
    );
    assert!(!request.default_headers);
    assert!(request.headers.is_empty());
    assert!(request.body.is_none());
}

#[test]
fn the_request_of_a_payment_made_now() {
    let request =
        Vnpay::new().authorize_build_request(&payment(), &connectors()).unwrap().unwrap();
    assert!(request.url.starts_with("https://pay.example/paymentv2/vpcpay.html?vnp_Amount=5000000&"));
    assert!(request.url.ends_with("&vnp_TmnCode=TMN01&vnp_TxnRef=ref_1&vnp_Version=2.1.0"));
}

#[test]
fn a_request_is_refused_as_its_payment_is() {
    let mut data = payment();
    data.request.complete_authorize_url = None;
    assert!(matches!(
        Vnpay::new().authorize_build_request(&data, &connectors()),
        Err(ConnectorError::MissingRequiredField { field_name: "complete_authorize_url" })
    ));
    assert!(matches!(
        Vnpay::new().authorize_handle_response(data, answer(b"")),
        Err(ConnectorError::MissingRequiredField { field_name: "complete_authorize_url" })
    ));
    let mut data = payment();
    data.connector_auth_type = ConnectorAuthType::NoKey;
    assert!(matches!(
        Vnpay::new().authorize_build_request(&data, &connectors()),
        Err(ConnectorError::FailedToObtainAuthType)
    ));
}

#[test]
fn should_only_authorize_payment() {
    let response = Vnpay::new()
        .authorize_handle_response(payment(), answer(b""))
        .unwrap_or_else(|_| panic!("Authorize payment response"));
    assert_eq!(response.status, AttemptStatus::AuthenticationPending);
}

#[test]
fn the_form_of_a_payment() {
    let response = Vnpay::new()
        .authorize_handle_response_at(payment(), MOMENT)
        .unwrap_or_else(|_| panic!("refused"));
    assert_eq!(response.connector_request_reference_id, "ref_1");
    assert_eq!(response.request.amount, 50000);
    let (endpoint, method, fields) = form_of(response);
    assert_eq!(endpoint, "https://sandbox.vnpayment.vn/paymentv2/vpcpay.html");
    assert_eq!(method, Method::Get);
    assert_eq!(fields.len(), 13);
    assert_eq!(fields.get("vnp_SecureHash").map(|v| v.as_str()), Some(SIGNATURE));
    assert_eq!(fields.get("vnp_Amount").map(|v| v.as_str()), Some("5000000"));
}

#[test]
fn the_form_goes_where_the_settings_say() {
    let mut data = payment();
    data.connector_meta_data =
        Some(VnpayConnectorMeta { payment_base_url: Some("https://live.example/".to_string()) });
    let response =
        Vnpay::new().authorize_handle_response_at(data, MOMENT).unwrap_or_else(|_| panic!("refused"));
    assert_eq!(form_of(response).0, "https://live.example/paymentv2/vpcpay.html");
    let mut data = payment();
    data.connector_meta_data = Some(VnpayConnectorMeta { payment_base_url: None });
    let response =
        Vnpay::new().authorize_handle_response_at(data, MOMENT).unwrap_or_else(|_| panic!("refused"));
    assert_eq!(form_of(response).0, "https://sandbox.vnpayment.vn/paymentv2/vpcpay.html");
}

#[test]
fn the_request_and_the_form_agree() {
    let mut data = payment();
    data.connector_meta_data =
        Some(VnpayConnectorMeta { payment_base_url: Some("https://pay.example/".to_string()) });
    let request =
        Vnpay::new().authorize_build_request_at(&data, &connectors(), MOMENT).unwrap().unwrap();
    let response =
        Vnpay::new().authorize_handle_response_at(data, MOMENT).unwrap_or_else(|_| panic!("refused"));
    let (endpoint, method, fields) = form_of(response);
    assert_eq!(request.method, method);
    assert_eq!(request.url, format!("{}?{}", endpoint, query_string(&fields)));
}

#[test]
fn the_request_and_the_form_agree_wherever_they_go() {
    let request =
        Vnpay::new().authorize_build_request_at(&payment(), &connectors(), MOMENT).unwrap().unwrap();
    let response = Vnpay::new()
        .authorize_handle_response_at(payment(), MOMENT)
        .unwrap_or_else(|_| panic!("refused"));
    let (endpoint, _, fields) = form_of(response);
    assert_eq!(endpoint, "https://sandbox.vnpayment.vn/paymentv2/vpcpay.html");
    assert_eq!(
        request.url,
        format!("https://pay.example/paymentv2/vpcpay.html?{}", query_string(&fields))
    );
}

#[test]
fn the_signing_secret_stays_out_of_the_parameters() {
    let mut other = payment();
    other.connector_auth_type =
        ConnectorAuthType::BodyKey { api_key: secret("other-secret"), key1: secret("TMN01") };
    assert_eq!(
        pairs_of(&params_at_moment(&payment()).unwrap().to_sorted_map()),
        pairs_of(&params_at_moment(&other).unwrap().to_sorted_map())
    );
    other.request.currency = Currency::Other;
    assert!(matches!(params_at_moment(&other), Err(ConnectorError::NotSupported { .. })));
}

#[test]
fn a_payment_has_one_answer() {
    let first = Vnpay::new()
        .authorize_handle_response_at(payment(), MOMENT)
        .unwrap_or_else(|_| panic!("refused"));
    let second = Vnpay::new()
        .authorize_handle_response_at(payment(), MOMENT)
        .unwrap_or_else(|_| panic!("refused"));
    assert_eq!(first.status, second.status);
    let (page, how, fields) = form_of(first);
    let (endpoint, method, form_fields) = form_of(second);
    assert_eq!(page, endpoint);
    assert_eq!(how, method);
    assert_eq!(pairs_of(&fields), pairs_of(&form_fields));
    for body in ["", "an error page"] {
        let mut data = payment();
        data.request.currency = Currency::Other;
        assert!(matches!(
            Vnpay::new().authorize_handle_response(data, answer(body.as_bytes())),
            Err(ConnectorError::NotSupported { .. })
        ));
    }
}

#[test]
fn the_page_of_payments_and_its_empty_body() {
    let url = Vnpay::new().authorize_get_url(&payment(), &connectors()).unwrap();
    assert_eq!(url, "https://pay.example/paymentv2/vpcpay.html");
    match Vnpay::new().authorize_get_request_body(&payment(), &connectors()).unwrap() {
        RequestContent::RawBytes(bytes) => assert!(bytes.is_empty()),
        _ => panic!("a body"),
    }
}

// ---- the state of a payment ----

#[test]
fn the_query_for_a_payment() {
    let data = sync(ResponseId::ConnectorTransactionId("txn_9".to_string()));
    let query = VnpayQueryRequest::try_from_at(&data, MOMENT, "req-1".to_string()).unwrap();
    assert_eq!(query.request_id, "req-1");
    assert_eq!(query.version, "2.1.0");
    assert_eq!(query.command, "querydr");
    assert_eq!(query.tmn_code, "TMN01");
    assert_eq!(query.txn_ref, "txn_9");
    assert_eq!(query.order_info, "Kiem tra GD txn_9");
    assert_eq!(query.trans_date, "20231115051320");
    assert_eq!(query.create_date, "20231115051320");
    assert_eq!(query.ip_addr, "127.0.0.1");
    assert_eq!(
        query.secure_hash,
        "f209727bcc5d133381a4f49fa61806f0a6dbae1aff42717b7f25b0cd3f43ef95b30ae11d731fc95e59e610171844f50758d942e3bbb2a4b8982a8f5a0fda7d11"
    );
}

#[test]
fn a_query_made_now_has_a_random_name() {
    let data = sync(ResponseId::ConnectorTransactionId("txn_9".to_string()));
    let a = VnpayQueryRequest::try_from(&data).unwrap();
    let b = VnpayQueryRequest::try_from(&data).unwrap();
    assert_ne!(a.request_id, b.request_id);
    let id = uuid::Uuid::parse_str(&a.request_id).unwrap();
    assert_eq!(id.get_version_num(), 4);
    assert_eq!(id.to_string(), a.request_id);
    assert_eq!(a.trans_date, a.create_date);
}

#[test]
fn a_query_is_signed_for_what_it_says() {
    let data = sync(ResponseId::ConnectorTransactionId("txn_9".to_string()));
    let query = VnpayQueryRequest::try_from(&data).unwrap();
    let map = ParamMap::from_pairs(vec![
        ("vnp_RequestId".to_string(), query.request_id),
        ("vnp_Version".to_string(), query.version),
        ("vnp_Command".to_string(), query.command),
        ("vnp_TmnCode".to_string(), query.tmn_code),
        ("vnp_TxnRef".to_string(), query.txn_ref),
        ("vnp_OrderInfo".to_string(), query.order_info),
        ("vnp_TransDate".to_string(), query.trans_date),
        ("vnp_CreateDate".to_string(), query.create_date),
        ("vnp_IpAddr".to_string(), query.ip_addr),
    ]);
    assert_eq!(compute_vnpay_signature(&map, "hash-secret").unwrap(), query.secure_hash);
}

#[test]
fn a_query_needs_credentials_and_a_transaction() {
    let data = sync(ResponseId::NoResponseId);
    assert!(matches!(
        VnpayQueryRequest::try_from(&data),
        Err(ConnectorError::MissingConnectorTransactionID)
    ));
    let data = sync(ResponseId::EncodedData("txn_9".to_string()));
    assert!(matches!(
        VnpayQueryRequest::try_from(&data),
        Err(ConnectorError::MissingConnectorTransactionID)
    ));
    let mut data = sync(ResponseId::NoResponseId);
    data.connector_auth_type = ConnectorAuthType::NoKey;
    assert!(matches!(
        VnpayQueryRequest::try_from(&data),
        Err(ConnectorError::FailedToObtainAuthType)
    ));
    let data = sync(ResponseId::ConnectorTransactionId("txn_9".to_string()));
    assert!(matches!(
        VnpayQueryRequest::try_from_at(&data, LAST_SECOND, "r".to_string()),
        Err(ConnectorError::RequestEncodingFailed)
    ));
}

#[test]
fn the_request_for_the_state_of_a_payment() {
    let data = sync(ResponseId::ConnectorTransactionId("txn_9".to_string()));
    let request = Vnpay::new()
        .psync_build_request_at(&data, &connectors(), MOMENT, "req-1".to_string())
        .unwrap()
        .unwrap();
    assert_eq!(request.method, Method::Post);
    assert_eq!(request.url, "https://pay.example/merchant_webapi/api/transaction");
    assert_eq!(
        request.url,
        Vnpay::new().psync_get_url(&data, &connectors()).unwrap()
    );
    assert!(request.default_headers);
    assert_eq!(
        request.headers,
        vec![("Content-Type".to_string(), "application/json; charset=UTF-8".to_string())]
    );
    match request.body {
        Some(RequestContent::Json(query)) => assert_eq!(query.request_id, "req-1"),
        _ => panic!("no query"),
    }
}

#[test]
fn the_request_for_the_state_of_a_payment_made_now() {
    let data = sync(ResponseId::ConnectorTransactionId("txn_9".to_string()));
    let request = Vnpay::new().psync_build_request(&data, &connectors()).unwrap().unwrap();
    match request.body {
        Some(RequestContent::Json(query)) => assert_eq!(query.txn_ref, "txn_9"),
        _ => panic!("no query"),
    }
    match Vnpay::new().psync_get_request_body(&data, &connectors()).unwrap() {
        RequestContent::Json(query) => assert_eq!(query.order_info, "Kiem tra GD txn_9"),
        _ => panic!("no query"),
    }
    let data = sync(ResponseId::NoResponseId);
    assert!(matches!(
        Vnpay::new().psync_build_request(&data, &connectors()),
        Err(ConnectorError::MissingConnectorTransactionID)
    ));
}

fn query_answer(code: &str) -> VnpayQueryResponse {
    VnpayQueryResponse {
        response_code: code.to_string(),
        message: None,
        txn_ref: Some("ref_1".to_string()),
        transaction_no: Some("14422574".to_string()),
        transaction_status: None,
    }
}

fn report(code: &str) -> VnpayIpnResponse {
    VnpayIpnResponse {
        tmn_code: "TMN01".to_string(),
        amount: "5000000".to_string(),
        bank_code: None,
        bank_tran_no: None,
        card_type: None,
        order_info: "info".to_string(),
        transaction_no: "14422574".to_string(),
        response_code: code.to_string(),
        transaction_status: "00".to_string(),
        txn_ref: "ref_1".to_string(),
        secure_hash: "".to_string(),
    }
}

#[test]
fn what_response_codes_mean() {
    for (code, answered, reported) in [
        ("00", AttemptStatus::Charged, AttemptStatus::Charged),
        ("07", AttemptStatus::Pending, AttemptStatus::Pending),
        ("24", AttemptStatus::Failure, AttemptStatus::Voided),
        ("01", AttemptStatus::Failure, AttemptStatus::Failure),
        ("", AttemptStatus::Failure, AttemptStatus::Failure),
        ("000", AttemptStatus::Failure, AttemptStatus::Failure),
    ] {
        assert_eq!(query_answer(code).to_attempt_status(), answered);
        assert_eq!(report(code).to_attempt_status(), reported);
    }
}

#[test]
fn the_state_of_a_payment_is_taken_in() {
    let data = sync(ResponseId::ConnectorTransactionId("txn_9".to_string()));
    let synced = Vnpay::new()
        .psync_handle_response(data, Some(query_answer("00")))
        .unwrap_or_else(|_| panic!("refused"));
    assert_eq!(synced.status, AttemptStatus::Charged);
    assert_eq!(synced.attempt_id, "attempt_1");
    match synced.response {
        Ok(PaymentsResponseData::TransactionResponse {
            resource_id: ResponseId::ConnectorTransactionId(id),
            redirection_data: None,
            connector_metadata: None,
            connector_response_reference_id: Some(reference),
            ..
        }) => {
            assert_eq!(id, "14422574");
            assert_eq!(reference, "ref_1");
        }
        _ => panic!("no transaction"),
    }
}

#[test]
fn a_state_without_a_transaction_number() {
    let data = sync(ResponseId::ConnectorTransactionId("txn_9".to_string()));
    let answer = VnpayQueryResponse { transaction_no: None, txn_ref: None, ..query_answer("07") };
    let synced =
        Vnpay::new().psync_handle_response(data, Some(answer)).unwrap_or_else(|_| panic!("refused"));
    assert_eq!(synced.status, AttemptStatus::Pending);
    match synced.response {
        Ok(PaymentsResponseData::TransactionResponse {
            resource_id: ResponseId::ConnectorTransactionId(id),
            connector_response_reference_id: None,
            ..
        }) => assert_eq!(id, ""),
        _ => panic!("no transaction"),
    }
}

#[test]
fn an_answer_that_cannot_be_read() {
    let data = sync(ResponseId::ConnectorTransactionId("txn_9".to_string()));
    assert!(matches!(
        Vnpay::new().psync_handle_response(data, None),
        Err(ConnectorError::ResponseDeserializationFailed)
    ));
}

// ---- what holds of every request ----

#[test]
fn what_the_connector_is() {
    let vnpay = Vnpay::new();
    assert_eq!(vnpay.id(), "vnpay");
    assert_eq!(vnpay.get_currency_unit(), CurrencyUnit::Minor);
    assert_eq!(vnpay.common_get_content_type(), "application/json; charset=UTF-8");
    assert_eq!(vnpay.base_url(&connectors()), "https://pay.example/");
    let about = vnpay.get_connector_about().unwrap();
    assert_eq!(about.display_name, "VNPay");
    assert_eq!(about.description, "VNPay is Vietnam's leading payment gateway supporting local bank transfers, ATM cards, and QR code payments.");
    assert_eq!(about.connector_type, ConnectorCategory::PaymentGateway);
    assert_eq!(about.integration_status, ConnectorIntegrationStatus::Alpha);
    assert_eq!(vnpay.get_supported_webhook_flows().unwrap(), vec![EventClass::Payments]);
    let methods = vnpay.get_supported_payment_methods().unwrap();
    assert_eq!(methods.len(), 1);
    assert_eq!(methods[0].payment_method, PaymentMethod::BankRedirect);
    assert_eq!(methods[0].payment_method_type, PaymentMethodType::OnlineBankingVietnam);
    assert_eq!(methods[0].details.mandates, FeatureStatus::NotSupported);
    assert_eq!(methods[0].details.refunds, FeatureStatus::NotSupported);
    assert_eq!(methods[0].details.supported_capture_methods, vec![CaptureMethod::Automatic]);
    assert!(methods[0].details.specific_features.is_none());
}

#[test]
fn the_headers_of_a_request() {
    let expected =
        vec![("Content-Type".to_string(), "application/json; charset=UTF-8".to_string())];
    assert_eq!(Vnpay::new().build_headers(&payment(), &connectors()).unwrap(), expected);
    assert_eq!(Vnpay::new().get_headers(&payment(), &connectors()).unwrap(), expected);
}

#[test]
fn an_error_carries_the_text_of_the_answer() {
    let error = Vnpay::new().build_error_response(answer(b"bad gateway")).unwrap();
    assert_eq!(error.code, "VNPAY_ERROR");
    assert_eq!(error.message, "VNPay error");
    assert_eq!(error.reason.as_deref(), Some("bad gateway"));
    assert_eq!(error.status_code, 502);
    assert!(error.attempt_status.is_none());
    let error = Vnpay::new().get_error_response(answer(&[0xff, 0xfe])).unwrap();
    assert!(error.reason.is_none());
}

#[test]
fn the_payer_coming_back_triggers_a_call() {
    for action in [
        PaymentAction::PSync,
        PaymentAction::CompleteAuthorize,
        PaymentAction::PaymentAuthenticateCompleteAuthorize,
    ] {
        assert_eq!(
            Vnpay::new().get_flow_type("", None, action).unwrap(),
            CallConnectorAction::Trigger
        );
    }
}

#[test]
fn any_payment_may_be_asked_for() {
    let data = PaymentsSyncData { connector_transaction_id: ResponseId::NoResponseId };
    assert!(Vnpay::new()
        .validate_psync_reference_id(&data, false, AttemptStatus::Started, &None)
        .is_ok());
}

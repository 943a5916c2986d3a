//! The connector for VNPay.
pub mod effects;
pub mod laws;
pub mod transformers;

use vstd::prelude::*;
use vstd::string::*;
use vstd::utf8::*;

use crate::clock;
use crate::codec;
use crate::ids;
use crate::params;
use crate::params::{Entry, ParamMap};
use crate::signing;
use crate::text;
use crate::types::{
    AttemptStatus, CallConnectorAction, CaptureMethod, ConnectorCategory, ConnectorError,
    ConnectorInfo, ConnectorIntegrationStatus, Connectors, CurrencyUnit, ErrorResponse, EventClass,
    FeatureStatus, IncomingWebhookEvent, IncomingWebhookRequestDetails, Method, ObjectReferenceId,
    PaymentAction, PaymentIdType, PaymentMethod, PaymentMethodDetails, PaymentMethodType,
    PaymentsAuthorizeRouterData, PaymentsResponseData, PaymentsSyncData, PaymentsSyncRouterData,
    RedirectForm, Request, RequestContent, Response, ResponseId, RouterData, SignatureAlgorithm,
    SupportedPaymentMethod,
};
use transformers::{
    VnpayAuthType, VnpayConnectorMeta, VnpayPaymentParams, VnpayQueryRequest, VnpayQueryResponse,
    VnpayRouterData,
};

verus! {

/// The connector for VNPay.
#[derive(Clone, Copy)]
pub struct Vnpay;

// ---- what holds of every request ----

/// The headers of a request.
pub open spec fn json_headers() -> Seq<Entry> {
    seq![("Content-Type"@, "application/json; charset=UTF-8"@)]
}

/// What is reported of an answer that is an error.
pub open spec fn error_outcome(res: Response, error: ErrorResponse) -> bool {
    &&& error.bare()
    &&& error.status_code == res.status_code
    &&& error.code@ == "VNPAY_ERROR"@
    &&& error.message@ == "VNPay error"@
    &&& error.reason is Some <==> valid_utf8(res.response@)
    &&& error.reason matches Some(reason) ==> reason@ == decode_utf8(res.response@)
}

impl Vnpay {
    /// The connector.
    pub fn new() -> (r: &'static Self)
        ensures
            *r == Vnpay,
    {
        &Vnpay
    }

    /// The connector's name.
    pub fn id(&self) -> (r: &'static str)
        ensures
            r@ == "vnpay"@,
    {
        "vnpay"
    }

    /// The unit in which amounts are counted: the dong has no smaller one.
    pub fn get_currency_unit(&self) -> (r: CurrencyUnit)
        ensures
            r == CurrencyUnit::Minor,
    {
        CurrencyUnit::Minor
    }

    /// The content type of requests.
    pub fn common_get_content_type(&self) -> (r: &'static str)
        ensures
            r@ == "application/json; charset=UTF-8"@,
    {
        "application/json; charset=UTF-8"
    }

    /// Where VNPay is reached.
    pub fn base_url<'a>(&self, connectors: &'a Connectors) -> (r: &'a str)
        ensures
            r@ == connectors.vnpay.base_url@,
    {
        connectors.vnpay.base_url.as_str()
    }

    /// The headers of a request.
    pub fn build_headers<F, Req, Resp>(
        &self,
        _req: &RouterData<F, Req, Resp>,
        _connectors: &Connectors,
    ) -> (r: Result<Vec<(String, String)>, ConnectorError>)
        ensures
            r matches Ok(headers) && params::entries_of(headers@) == json_headers(),
    {
        let mut headers: Vec<(String, String)> = Vec::new();
        headers.push(
            ("Content-Type".to_owned(), "application/json; charset=UTF-8".to_owned()),
        );
        assert(params::entries_of(headers@) =~= json_headers());
        Ok(headers)
    }

    /// The headers of a request in any of the flows.
    pub fn get_headers<F, Req, Resp>(
        &self,
        req: &RouterData<F, Req, Resp>,
        connectors: &Connectors,
    ) -> (r: Result<Vec<(String, String)>, ConnectorError>)
        ensures
            r matches Ok(headers) && params::entries_of(headers@) == json_headers(),
    {
        self.build_headers(req, connectors)
    }

    /// What is reported of an answer that is an error: its text, as far as it is one.
    pub fn build_error_response(&self, res: Response) -> (r: Result<ErrorResponse, ConnectorError>)
        ensures
            r matches Ok(error) && error_outcome(res, error),
    {
        Ok(
            ErrorResponse {
                status_code: res.status_code,
                code: "VNPAY_ERROR".to_owned(),
                message: "VNPay error".to_owned(),
                reason: codec::text_from_utf8(res.response),
                attempt_status: None,
                connector_transaction_id: None,
                connector_response_reference_id: None,
                network_advice_code: None,
                network_decline_code: None,
                network_error_message: None,
                connector_metadata: None,
            },
        )
    }

    /// What is reported of an answer that is an error, in any of the flows.
    pub fn get_error_response(&self, res: Response) -> (r: Result<ErrorResponse, ConnectorError>)
        ensures
            r matches Ok(error) && error_outcome(res, error),
    {
        self.build_error_response(res)
    }

    /// Whether the state of a payment may be asked for: always.
    pub fn validate_psync_reference_id(
        &self,
        _data: &PaymentsSyncData,
        _is_three_ds: bool,
        _status: AttemptStatus,
        _connector_meta_data: &Option<VnpayConnectorMeta>,
    ) -> (r: Result<(), ConnectorError>)
        ensures
            r is Ok,
    {
        Ok(())
    }

    /// Whether VNPay is called when the payer comes back: always.
    pub fn get_flow_type(
        &self,
        _query_params: &str,
        _json_payload: Option<serde_json::Value>,
        action: PaymentAction,
    ) -> (r: Result<CallConnectorAction, ConnectorError>)
        ensures
            r == Ok::<CallConnectorAction, ConnectorError>(CallConnectorAction::Trigger),
    {
        match action {
            PaymentAction::PSync | PaymentAction::CompleteAuthorize => Ok(
                CallConnectorAction::Trigger,
            ),
            PaymentAction::PaymentAuthenticateCompleteAuthorize => Ok(
                CallConnectorAction::Trigger,
            ),
        }
    }
}

// ---- starting a payment ----

/// The request by which a payment is started at a point in time.
pub open spec fn authorize_request_outcome(
    base_url: Seq<char>,
    data: PaymentsAuthorizeRouterData,
    unix_seconds: int,
    r: Result<Option<Request>, ConnectorError>,
) -> bool {
    let p = transformers::payment_fields(data, data.request.amount as int, unix_seconds);
    let secret = data.connector_auth_type->BodyKey_api_key@;
    &&& r is Ok <==> transformers::payable(data) && clock::in_calendar(unix_seconds)
        && signing::signable_sha512(secret, transformers::payment_message(p))
    &&& r matches Ok(request) ==> {
        &&& request is Some
        &&& request->0.method == Method::Get
        &&& request->0.url@ == transformers::redirect_url(base_url, p, secret)
        &&& !request->0.default_headers
        &&& request->0.headers@.len() == 0
        &&& request->0.body is None
    }
    &&& r matches Err(e) ==> transformers::payment_refusal(data, e)
}

/// Where VNPay's pages are: as the merchant's settings say, else at the test site.
pub open spec fn payment_base_url(meta: Option<VnpayConnectorMeta>) -> Seq<char> {
    match meta {
        Some(VnpayConnectorMeta { payment_base_url: Some(url) }) => url@,
        _ => "https://sandbox.vnpayment.vn/"@,
    }
}

/// The answer by which the payer of a payment that is started at a point in time is sent to
/// VNPay.
pub open spec fn redirection_outcome(
    data: PaymentsAuthorizeRouterData,
    unix_seconds: int,
    r: Result<PaymentsAuthorizeRouterData, ConnectorError>,
) -> bool {
    let p = transformers::payment_fields(data, data.request.amount as int, unix_seconds);
    let secret = data.connector_auth_type->BodyKey_api_key@;
    let signature = signing::signature_sha512(secret, transformers::payment_message(p));
    &&& r is Ok <==> transformers::payable(data) && clock::in_calendar(unix_seconds)
        && signing::signable_sha512(secret, transformers::payment_message(p))
    &&& r matches Ok(answer) ==> {
        &&& answer.same_request(data)
        &&& answer.status == AttemptStatus::AuthenticationPending
        &&& answer.response matches Ok(response)
        &&& response.plain()
        &&& response matches PaymentsResponseData::TransactionResponse {
            resource_id,
            redirection_data,
            connector_metadata,
            connector_response_reference_id,
            ..
        }
        &&& resource_id is NoResponseId
        &&& connector_metadata is None
        &&& connector_response_reference_id is None
        &&& redirection_data matches Some(
            RedirectForm::Form { endpoint, method, form_fields },
        )
        &&& endpoint@ == transformers::payment_page(payment_base_url(data.connector_meta_data))
        &&& method == Method::Get
        &&& form_fields.wf()
        &&& form_fields.entries() == transformers::signed_payment_entries(p, signature)
    }
    &&& r matches Err(e) ==> transformers::payment_refusal(data, e)
}

impl Vnpay {
    /// The page on which a payment is made.
    pub fn authorize_get_url(
        &self,
        _req: &PaymentsAuthorizeRouterData,
        connectors: &Connectors,
    ) -> (r: Result<String, ConnectorError>)
        ensures
            r matches Ok(url) && url@ == transformers::payment_page(connectors.vnpay.base_url@),
    {
        let mut url = self.base_url(connectors).to_owned();
        url.append("paymentv2/vpcpay.html");
        Ok(url)
    }

    /// The body of the request by which a payment is started: nothing, as all is in the URL.
    pub fn authorize_get_request_body(
        &self,
        _req: &PaymentsAuthorizeRouterData,
        _connectors: &Connectors,
    ) -> (r: Result<RequestContent, ConnectorError>)
        ensures
            r matches Ok(RequestContent::RawBytes(bytes)) && bytes@.len() == 0,
    {
        Ok(RequestContent::RawBytes(Vec::new()))
    }

    /// The request by which a payment is started now.
    pub fn authorize_build_request(
        &self,
        req: &PaymentsAuthorizeRouterData,
        connectors: &Connectors,
    ) -> (r: Result<Option<Request>, ConnectorError>)
        requires
            transformers::amount_fits(*req, req.request.amount as int),
        ensures
            exists|now: int|
                clock::FIRST_SECOND <= now <= clock::LAST_SECOND
                    && #[trigger] authorize_request_outcome(
                    connectors.vnpay.base_url@,
                    *req,
                    now,
                    r,
                ),
    {
        let now: i64 = clock::now();
        let r = self.authorize_build_request_at(req, connectors, now);
        assert(authorize_request_outcome(connectors.vnpay.base_url@, *req, now as int, r));
        r
    }

    /// The request by which a payment is started at a point in time.
    pub fn authorize_build_request_at(
        &self,
        req: &PaymentsAuthorizeRouterData,
        connectors: &Connectors,
        unix_seconds: i64,
    ) -> (r: Result<Option<Request>, ConnectorError>)
        requires
            transformers::amount_fits(*req, req.request.amount as int),
        ensures
            authorize_request_outcome(connectors.vnpay.base_url@, *req, unix_seconds as int, r),
    {
        let auth = match VnpayAuthType::try_from(&req.connector_auth_type) {
            Ok(auth) => auth,
            Err(e) => return Err(e),
        };
        let wrapper = VnpayRouterData::from((req.request.amount, req));
        let params = match VnpayPaymentParams::try_from_at(&wrapper, unix_seconds) {
            Ok(params) => params,
            Err(e) => return Err(e),
        };
        let url = match transformers::build_redirect_url(
            self.base_url(connectors),
            &params,
            auth.hash_secret.peek().as_str(),
        ) {
            Ok(url) => url,
            Err(e) => return Err(e),
        };
        Ok(
            Some(
                Request {
                    method: Method::Get,
                    url,
                    default_headers: false,
                    headers: Vec::new(),
                    body: None,
                },
            ),
        )
    }

    /// The answer by which the payer of a payment that is started now is sent to VNPay.
    pub fn authorize_handle_response(&self, data: PaymentsAuthorizeRouterData, _res: Response) -> (r:
        Result<PaymentsAuthorizeRouterData, ConnectorError>)
        requires
            transformers::amount_fits(data, data.request.amount as int),
        ensures
            exists|now: int|
                clock::FIRST_SECOND <= now <= clock::LAST_SECOND && #[trigger] redirection_outcome(
                    data,
                    now,
                    r,
                ),
    {
        let now: i64 = clock::now();
        let r = self.authorize_handle_response_at(data, now);
        assert(redirection_outcome(data, now as int, r));
        r
    }

    /// The answer by which the payer of a payment that is started at a point in time is sent to
    /// VNPay.
    pub fn authorize_handle_response_at(
        &self,
        data: PaymentsAuthorizeRouterData,
        unix_seconds: i64,
    ) -> (r: Result<PaymentsAuthorizeRouterData, ConnectorError>)
        requires
            transformers::amount_fits(data, data.request.amount as int),
        ensures
            redirection_outcome(data, unix_seconds as int, r),
    {
        let auth = match VnpayAuthType::try_from(&data.connector_auth_type) {
            Ok(auth) => auth,
            Err(e) => return Err(e),
        };
        let wrapper = VnpayRouterData::from((data.request.amount, &data));
        let params = match VnpayPaymentParams::try_from_at(&wrapper, unix_seconds) {
            Ok(params) => params,
            Err(e) => return Err(e),
        };
        let mut endpoint = match &data.connector_meta_data {
            Some(VnpayConnectorMeta { payment_base_url: Some(url) }) => url.clone(),
            _ => "https://sandbox.vnpayment.vn/".to_owned(),
        };
        let form_fields = match transformers::sign_payment(
            &params,
            auth.hash_secret.peek().as_str(),
        ) {
            Ok(map) => map,
            Err(e) => return Err(e),
        };
        endpoint.append("paymentv2/vpcpay.html");
        Ok(
            RouterData {
                status: AttemptStatus::AuthenticationPending,
                response: Ok(
                    PaymentsResponseData::TransactionResponse {
                        resource_id: ResponseId::NoResponseId,
                        redirection_data: Some(
                            RedirectForm::Form { endpoint, method: Method::Get, form_fields },
                        ),
                        mandate_reference: None,
                        connector_metadata: None,
                        network_txn_id: None,
                        connector_response_reference_id: None,
                        incremental_authorization_allowed: None,
                        authentication_data: None,
                        charges: None,
                    },
                ),
                ..data
            },
        )
    }
}

// ---- asking for the state of a payment ----

/// The body of a request for the state of a payment that is made at a point in time under a
/// given name.
pub open spec fn query_body_outcome(
    data: PaymentsSyncRouterData,
    unix_seconds: int,
    request_id: Seq<char>,
    r: Result<RequestContent, ConnectorError>,
) -> bool {
    match r {
        Ok(content) => content is Json && transformers::query_outcome(
            data,
            unix_seconds,
            request_id,
            Ok(content->Json_0),
        ),
        Err(e) => transformers::query_outcome(data, unix_seconds, request_id, Err(e)),
    }
}

/// The request by which the state of a payment is asked for at a point in time under a given
/// name.
pub open spec fn sync_request_outcome(
    base_url: Seq<char>,
    data: PaymentsSyncRouterData,
    unix_seconds: int,
    request_id: Seq<char>,
    r: Result<Option<Request>, ConnectorError>,
) -> bool {
    &&& r is Ok <==> transformers::queryable(data) && clock::in_calendar(unix_seconds)
        && signing::signable_sha512(
        data.connector_auth_type->BodyKey_api_key@,
        transformers::query_message(transformers::unsigned_query(data, unix_seconds, request_id)),
    )
    &&& r matches Ok(request) ==> {
        &&& request is Some
        &&& request->0.method == Method::Post
        &&& request->0.url@ == base_url + "merchant_webapi/api/transaction"@
        &&& request->0.default_headers
        &&& params::entries_of(request->0.headers@) == json_headers()
        &&& request->0.body matches Some(RequestContent::Json(query))
        &&& query@ == transformers::query_fields(data, unix_seconds, request_id)
    }
    &&& r matches Err(e) ==> transformers::query_refusal(data, e)
}

/// What an answer of VNPay, if it could be read, makes of a request for the state of a payment.
pub open spec fn sync_outcome(
    data: PaymentsSyncRouterData,
    answer: Option<VnpayQueryResponse>,
    r: Result<PaymentsSyncRouterData, ConnectorError>,
) -> bool {
    &&& r is Ok <==> answer is Some
    &&& r matches Ok(synced) ==> {
        &&& synced.same_request(data)
        &&& synced.status == transformers::query_status(answer->0.response_code@)
        &&& synced.response matches Ok(response)
        &&& response.plain()
        &&& response matches PaymentsResponseData::TransactionResponse {
            resource_id,
            redirection_data,
            connector_metadata,
            connector_response_reference_id,
            ..
        }
        &&& resource_id matches ResponseId::ConnectorTransactionId(id)
        &&& id@ == match answer->0.transaction_no {
            Some(number) => number@,
            None => seq![],
        }
        &&& redirection_data is None
        &&& connector_metadata is None
        &&& connector_response_reference_id == answer->0.txn_ref
    }
    &&& r matches Err(e) ==> e is ResponseDeserializationFailed
}

impl Vnpay {
    /// Where VNPay answers for the state of a payment.
    pub fn psync_get_url(&self, _req: &PaymentsSyncRouterData, connectors: &Connectors) -> (r:
        Result<String, ConnectorError>)
        ensures
            r matches Ok(url) && url@ == connectors.vnpay.base_url@
                + "merchant_webapi/api/transaction"@,
    {
        let mut url = self.base_url(connectors).to_owned();
        url.append("merchant_webapi/api/transaction");
        Ok(url)
    }

    /// The body of a request for the state of a payment that is made now.
    pub fn psync_get_request_body(&self, req: &PaymentsSyncRouterData, _connectors: &Connectors) -> (r:
        Result<RequestContent, ConnectorError>)
        ensures
            exists|now: int, id: Seq<char>|
                clock::FIRST_SECOND <= now <= clock::LAST_SECOND && ids::is_random_uuid(id)
                    && #[trigger] query_body_outcome(*req, now, id, r),
    {
        let query = VnpayQueryRequest::try_from(req);
        let ghost (now, id) = choose|now: int, id: Seq<char>|
            clock::FIRST_SECOND <= now <= clock::LAST_SECOND && ids::is_random_uuid(id)
                && #[trigger] transformers::query_outcome(*req, now, id, query);
        let r = match query {
            Ok(query) => Ok(RequestContent::Json(query)),
            Err(e) => Err(e),
        };
        assert(query_body_outcome(*req, now, id, r));
        r
    }

    /// The request by which the state of a payment is asked for now.
    pub fn psync_build_request(&self, req: &PaymentsSyncRouterData, connectors: &Connectors) -> (r:
        Result<Option<Request>, ConnectorError>)
        ensures
            exists|now: int, id: Seq<char>|
                clock::FIRST_SECOND <= now <= clock::LAST_SECOND && ids::is_random_uuid(id)
                    && #[trigger] sync_request_outcome(
                    connectors.vnpay.base_url@,
                    *req,
                    now,
                    id,
                    r,
                ),
    {
        let content = self.psync_get_request_body(req, connectors);
        let ghost (now, id) = choose|now: int, id: Seq<char>|
            clock::FIRST_SECOND <= now <= clock::LAST_SECOND && ids::is_random_uuid(id)
                && #[trigger] query_body_outcome(*req, now, id, content);
        let r = self.psync_request_with(req, connectors, content);
        assert(sync_request_outcome(connectors.vnpay.base_url@, *req, now, id, r));
        r
    }

    /// The request by which the state of a payment is asked for at a point in time, in seconds
    /// since the start of 1970, under a given name.
    pub fn psync_build_request_at(
        &self,
        req: &PaymentsSyncRouterData,
        connectors: &Connectors,
        unix_seconds: i64,
        request_id: String,
    ) -> (r: Result<Option<Request>, ConnectorError>)
        ensures
            sync_request_outcome(
                connectors.vnpay.base_url@,
                *req,
                unix_seconds as int,
                request_id@,
                r,
            ),
    {
        let content = match VnpayQueryRequest::try_from_at(req, unix_seconds, request_id) {
            Ok(query) => Ok(RequestContent::Json(query)),
            Err(e) => Err(e),
        };
        self.psync_request_with(req, connectors, content)
    }

    /// The request that carries a body to the place where VNPay answers for payments.
    fn psync_request_with(
        &self,
        req: &PaymentsSyncRouterData,
        connectors: &Connectors,
        content: Result<RequestContent, ConnectorError>,
    ) -> (r: Result<Option<Request>, ConnectorError>)
        ensures
            r is Ok <==> content is Ok,
            r matches Ok(request) ==> {
                &&& request is Some
                &&& request->0.method == Method::Post
                &&& request->0.url@ == connectors.vnpay.base_url@
                    + "merchant_webapi/api/transaction"@
                &&& request->0.default_headers
                &&& params::entries_of(request->0.headers@) == json_headers()
                &&& request->0.body == Some(content->Ok_0)
            },
            r matches Err(e) ==> content == Err::<RequestContent, ConnectorError>(e),
    {
        let url = match self.psync_get_url(req, connectors) {
            Ok(url) => url,
            Err(e) => return Err(e),
        };
        let headers = match self.get_headers(req, connectors) {
            Ok(headers) => headers,
            Err(e) => return Err(e),
        };
        let body = match content {
            Ok(body) => body,
            Err(e) => return Err(e),
        };
        Ok(
            Some(
                Request {
                    method: Method::Post,
                    url,
                    default_headers: true,
                    headers,
                    body: Some(body),
                },
            ),
        )
    }

    /// Takes in VNPay's answer to a request for the state of a payment. There is none where
    /// what came back could not be read as one.
    pub fn psync_handle_response(
        &self,
        data: PaymentsSyncRouterData,
        answer: Option<VnpayQueryResponse>,
    ) -> (r: Result<PaymentsSyncRouterData, ConnectorError>)
        ensures
            sync_outcome(data, answer, r),
    {
        let query_response = match answer {
            Some(query_response) => query_response,
            None => return Err(ConnectorError::ResponseDeserializationFailed),
        };
        let status = query_response.to_attempt_status();
        let txn_no = match query_response.transaction_no {
            Some(number) => number,
            None => String::new(),
        };
        Ok(
            RouterData {
                status,
                response: Ok(
                    PaymentsResponseData::TransactionResponse {
                        resource_id: ResponseId::ConnectorTransactionId(txn_no),
                        redirection_data: None,
                        mandate_reference: None,
                        connector_metadata: None,
                        network_txn_id: None,
                        connector_response_reference_id: query_response.txn_ref,
                        incremental_authorization_allowed: None,
                        authentication_data: None,
                        charges: None,
                    },
                ),
                ..data
            },
        )
    }
}

// ---- being told of a payment ----

/// The bytes by which a notification is signed: those that `vnp_SecureHash` holds in
/// hexadecimal.
pub open spec fn webhook_signature(entries: Seq<Entry>) -> Option<Seq<u8>> {
    match params::lookup(entries, "vnp_SecureHash"@) {
        Some(hash) => codec::hex_bytes(hash),
        None => None,
    }
}

/// The text that the signature of a notification covers: all parameters in the order of their
/// names but those that hold the signature and its kind.
pub open spec fn webhook_message(entries: Seq<Entry>) -> Seq<char> {
    codec::query_text(
        params::without(
            params::sorted_entries(entries),
            "vnp_SecureHash"@,
            "vnp_SecureHashType"@,
        ),
    )
}

/// The payment that a notification is about.
pub open spec fn webhook_reference(entries: Seq<Entry>) -> Option<Seq<char>> {
    params::lookup(entries, "vnp_TxnRef"@)
}

/// What a notification reports.
pub open spec fn webhook_event(entries: Seq<Entry>) -> IncomingWebhookEvent {
    let code = params::lookup(entries, "vnp_ResponseCode"@);
    if code == Some("00"@) {
        IncomingWebhookEvent::PaymentIntentSuccess
    } else if code == Some("24"@) {
        IncomingWebhookEvent::PaymentIntentCancelled
    } else {
        IncomingWebhookEvent::PaymentIntentFailure
    }
}

/// What reading the signature of a notification with the given parameters gives.
pub open spec fn signature_outcome(
    entries: Seq<Entry>,
    r: Result<Vec<u8>, ConnectorError>,
) -> bool {
    &&& r is Ok <==> webhook_signature(entries) is Some
    &&& r matches Ok(signature) ==> Some(signature@) == webhook_signature(entries)
    &&& r matches Err(e) ==> e is WebhookSignatureNotFound
}

/// What looking for the payment that a notification with the given parameters is about gives.
pub open spec fn reference_outcome(
    entries: Seq<Entry>,
    r: Result<ObjectReferenceId, ConnectorError>,
) -> bool {
    &&& r is Ok <==> webhook_reference(entries) is Some
    &&& r matches Ok(ObjectReferenceId::PaymentId(PaymentIdType::ConnectorTransactionId(id)))
        ==> Some(id@) == webhook_reference(entries)
    &&& r matches Err(e) ==> e is WebhookReferenceIdNotFound
}

/// Whether a body is a query string of the given parameters, whose names need no encoding.
pub open spec fn body_of(body: Seq<u8>, entries: Seq<Entry>) -> bool {
    codec::plain_keys(entries) && body == encode_utf8(codec::query_text(entries))
}

/// Reads the parameters of a notification.
pub fn decode_webhook_body(body: &[u8]) -> (r: Result<ParamMap, ConnectorError>)
    ensures
        r matches Ok(map) && map.wf() && map.entries() == params::sorted_entries(
            codec::form_pairs(body@),
        ),
        forall|entries: Seq<Entry>| #[trigger]
            body_of(body@, entries) ==> codec::form_pairs(body@) == entries,
{
    match codec::form_decode(body) {
        Ok(pairs) => {
            assert forall|entries: Seq<Entry>| #[trigger] body_of(body@, entries) implies
                codec::form_pairs(body@) == entries by {
                assert(body@ == encode_utf8(codec::query_text(entries)));
            }
            Ok(ParamMap::from_pairs(pairs))
        },
        Err(_) => Err(ConnectorError::WebhookBodyDecodingFailed),
    }
}

/// The bytes by which a notification with the given parameters is signed.
pub fn signature_of(map: &ParamMap) -> (r: Result<Vec<u8>, ConnectorError>)
    ensures
        signature_outcome(map.entries(), r),
{
    match map.get("vnp_SecureHash") {
        Some(hash) => match codec::hex_decode(hash.as_str()) {
            Ok(signature) => Ok(signature),
            Err(_) => Err(ConnectorError::WebhookSignatureNotFound),
        },
        None => Err(ConnectorError::WebhookSignatureNotFound),
    }
}

/// The bytes that the signature of a notification with the given parameters covers.
pub fn message_of(map: &ParamMap) -> (r: Vec<u8>)
    requires
        map.wf(),
    ensures
        r@ == encode_utf8(webhook_message(map.entries())),
{
    proof {
        params::lemma_sorted_entries_of_sorted(map.entries());
    }
    let signed = map.without_keys("vnp_SecureHash", "vnp_SecureHashType");
    codec::query_string(&signed).as_str().as_bytes_vec()
}

/// The payment that a notification with the given parameters is about.
pub fn reference_of(map: &ParamMap) -> (r: Result<ObjectReferenceId, ConnectorError>)
    ensures
        reference_outcome(map.entries(), r),
        params::lookup(map.entries(), "vnp_TxnRef"@) is Some <==> r is Ok,
        r matches Ok(ObjectReferenceId::PaymentId(PaymentIdType::ConnectorTransactionId(id)))
            ==> params::lookup(map.entries(), "vnp_TxnRef"@) == Some(id@),
{
    match map.get("vnp_TxnRef") {
        Some(txn_ref) => Ok(
            ObjectReferenceId::PaymentId(PaymentIdType::ConnectorTransactionId(txn_ref.clone())),
        ),
        None => Err(ConnectorError::WebhookReferenceIdNotFound),
    }
}

/// What a notification with the given parameters reports.
pub fn event_of(map: &ParamMap) -> (r: IncomingWebhookEvent)
    ensures
        r == webhook_event(map.entries()),
        r == IncomingWebhookEvent::PaymentIntentSuccess <==> params::lookup(
            map.entries(),
            "vnp_ResponseCode"@,
        ) == Some("00"@),
{
    match map.get("vnp_ResponseCode") {
        Some(code) => if text::same_text(code, "00") {
            IncomingWebhookEvent::PaymentIntentSuccess
        } else if text::same_text(code, "24") {
            IncomingWebhookEvent::PaymentIntentCancelled
        } else {
            IncomingWebhookEvent::PaymentIntentFailure
        },
        None => IncomingWebhookEvent::PaymentIntentFailure,
    }
}

impl Vnpay {
    /// How notifications are signed.
    pub fn get_webhook_source_verification_algorithm(
        &self,
        _request: &IncomingWebhookRequestDetails<'_>,
    ) -> (r: Result<SignatureAlgorithm, ConnectorError>)
        ensures
            r == Ok::<SignatureAlgorithm, ConnectorError>(SignatureAlgorithm::HmacSha512),
    {
        Ok(SignatureAlgorithm::HmacSha512)
    }

    /// The bytes by which a notification is signed.
    pub fn get_webhook_source_verification_signature(
        &self,
        request: &IncomingWebhookRequestDetails<'_>,
    ) -> (r: Result<Vec<u8>, ConnectorError>)
        ensures
            signature_outcome(codec::form_pairs(request.body@), r),
            forall|entries: Seq<Entry>| #[trigger]
                body_of(request.body@, entries) ==> signature_outcome(entries, r),
    {
        let map = match decode_webhook_body(request.body) {
            Ok(map) => map,
            Err(e) => return Err(e),
        };
        proof {
            params::lemma_sorted_entries(codec::form_pairs(request.body@));
        }
        signature_of(&map)
    }

    /// The bytes that the signature of a notification covers.
    pub fn get_webhook_source_verification_message(
        &self,
        request: &IncomingWebhookRequestDetails<'_>,
    ) -> (r: Result<Vec<u8>, ConnectorError>)
        ensures
            r matches Ok(message) && message@ == encode_utf8(
                webhook_message(codec::form_pairs(request.body@)),
            ),
            forall|entries: Seq<Entry>| #[trigger]
                body_of(request.body@, entries) ==> r->Ok_0@ == encode_utf8(
                    webhook_message(entries),
                ),
    {
        let map = match decode_webhook_body(request.body) {
            Ok(map) => map,
            Err(e) => return Err(e),
        };
        proof {
            params::lemma_sorted_entries_of_sorted(map.entries());
        }
        Ok(message_of(&map))
    }

    /// The payment that a notification is about.
    pub fn get_webhook_object_reference_id(&self, request: &IncomingWebhookRequestDetails<'_>) -> (r:
        Result<ObjectReferenceId, ConnectorError>)
        ensures
            reference_outcome(codec::form_pairs(request.body@), r),
            forall|entries: Seq<Entry>| #[trigger]
                body_of(request.body@, entries) ==> reference_outcome(entries, r),
    {
        let map = match decode_webhook_body(request.body) {
            Ok(map) => map,
            Err(e) => return Err(e),
        };
        proof {
            params::lemma_sorted_entries(codec::form_pairs(request.body@));
        }
        reference_of(&map)
    }

    /// What a notification reports.
    pub fn get_webhook_event_type(&self, request: &IncomingWebhookRequestDetails<'_>) -> (r: Result<
        IncomingWebhookEvent,
        ConnectorError,
    >)
        ensures
            r == Ok::<IncomingWebhookEvent, ConnectorError>(
                webhook_event(codec::form_pairs(request.body@)),
            ),
            forall|entries: Seq<Entry>| #[trigger]
                body_of(request.body@, entries) ==> r->Ok_0 == webhook_event(entries),
    {
        let map = match decode_webhook_body(request.body) {
            Ok(map) => map,
            Err(e) => return Err(e),
        };
        proof {
            params::lemma_sorted_entries(codec::form_pairs(request.body@));
        }
        Ok(event_of(&map))
    }
}

// ---- what the connector says of itself ----

impl Vnpay {
    /// A description of VNPay.
    pub fn get_connector_about(&self) -> (r: Option<ConnectorInfo>)
        ensures
            r matches Some(info) && info.display_name@ == "VNPay"@ && info.description@
                == "VNPay is Vietnam's leading payment gateway supporting local bank transfers, ATM cards, and QR code payments."@
                && info.connector_type == ConnectorCategory::PaymentGateway
                && info.integration_status == ConnectorIntegrationStatus::Alpha,
    {
        Some(
            ConnectorInfo {
                display_name: "VNPay",
                description:
                    "VNPay is Vietnam's leading payment gateway supporting local bank transfers, ATM cards, and QR code payments.",
                connector_type: ConnectorCategory::PaymentGateway,
                integration_status: ConnectorIntegrationStatus::Alpha,
            },
        )
    }

    /// The payment methods that VNPay offers.
    pub fn get_supported_payment_methods(&self) -> (r: Option<Vec<SupportedPaymentMethod>>)
        ensures
            r matches Some(methods) && methods@.len() == 1 && methods@[0].payment_method
                == PaymentMethod::BankRedirect && methods@[0].payment_method_type
                == PaymentMethodType::OnlineBankingVietnam && methods@[0].details.mandates
                == FeatureStatus::NotSupported && methods@[0].details.refunds
                == FeatureStatus::NotSupported
                && methods@[0].details.supported_capture_methods@ == seq![CaptureMethod::Automatic]
                && methods@[0].details.specific_features is None,
    {
        let mut capture: Vec<CaptureMethod> = Vec::new();
        capture.push(CaptureMethod::Automatic);
        assert(capture@ =~= seq![CaptureMethod::Automatic]);
        let mut methods: Vec<SupportedPaymentMethod> = Vec::new();
        methods.push(
            SupportedPaymentMethod {
                payment_method: PaymentMethod::BankRedirect,
                payment_method_type: PaymentMethodType::OnlineBankingVietnam,
                details: PaymentMethodDetails {
                    mandates: FeatureStatus::NotSupported,
                    refunds: FeatureStatus::NotSupported,
                    supported_capture_methods: capture,
                    specific_features: None,
                },
            },
        );
        Some(methods)
    }

    /// What VNPay sends notifications about.
    pub fn get_supported_webhook_flows(&self) -> (r: Option<Vec<EventClass>>)
        ensures
            r matches Some(flows) && flows@ == seq![EventClass::Payments],
    {
        let mut flows: Vec<EventClass> = Vec::new();
        flows.push(EventClass::Payments);
        assert(flows@ =~= seq![EventClass::Payments]);
        Some(flows)
    }
}

} // verus!

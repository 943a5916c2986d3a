//! Requests to MoMo, its answers, and how requests are signed.
use vstd::prelude::*;
use vstd::string::*;

use crate::codec;
use crate::json;
use crate::signing;
use crate::text;
use crate::types::{
    AttemptStatus, Authorize, ConnectorAuthType, ConnectorError, ErrorResponse, Execute,
    IncomingWebhookEvent, Method, MinorUnit, PaymentsAuthorizeData, PaymentsAuthorizeRouterData,
    PaymentsResponseData, PaymentsSyncRouterData, RSync, RedirectForm, RefundStatus,
    RefundSyncRouterData, RefundsData, RefundsResponseData, RefundsResponseRouterData,
    RefundsRouterData, ResponseId, ResponseRouterData, RouterData, Secret,
};

verus! {

/// A request with the amount that goes with it.
pub struct MomoRouterData<T> {
    pub amount: MinorUnit,
    pub router_data: T,
}

impl<T> From<(MinorUnit, T)> for MomoRouterData<T> {
    fn from(pair: (MinorUnit, T)) -> (r: Self) {
        MomoRouterData { amount: pair.0, router_data: pair.1 }
    }
}

impl<T> vstd::std_specs::convert::FromSpecImpl<(MinorUnit, T)> for MomoRouterData<T> {
    open spec fn obeys_from_spec() -> bool {
        true
    }

    open spec fn from_spec(v: (MinorUnit, T)) -> Self {
        MomoRouterData { amount: v.0, router_data: v.1 }
    }
}

// ---- credentials and signatures ----

/// The credentials of a merchant with MoMo.
pub struct MomoAuthType {
    pub partner_code: Secret,
    pub access_key: Secret,
    pub secret_key: Secret,
}

impl TryFrom<&ConnectorAuthType> for MomoAuthType {
    type Error = ConnectorError;

    fn try_from(auth_type: &ConnectorAuthType) -> (r: Result<Self, Self::Error>)
        ensures
            r is Ok <==> auth_type is SignatureKey,
            r matches Ok(auth) ==> auth.partner_code == auth_type->SignatureKey_api_key
                && auth.access_key == auth_type->SignatureKey_key1 && auth.secret_key
                == auth_type->SignatureKey_api_secret,
            r matches Err(e) ==> e is FailedToObtainAuthType,
    {
        match auth_type {
            ConnectorAuthType::SignatureKey { api_key, key1, api_secret } => Ok(
                MomoAuthType {
                    partner_code: api_key.clone(),
                    access_key: key1.clone(),
                    secret_key: api_secret.clone(),
                },
            ),
            _ => Err(ConnectorError::FailedToObtainAuthType),
        }
    }
}

impl vstd::std_specs::convert::TryFromSpecImpl<&ConnectorAuthType> for MomoAuthType {
    open spec fn obeys_try_from_spec() -> bool {
        true
    }

    open spec fn try_from_spec(v: &ConnectorAuthType) -> Result<Self, Self::Error> {
        match v {
            ConnectorAuthType::SignatureKey { api_key, key1, api_secret } => Ok(
                MomoAuthType {
                    partner_code: *api_key,
                    access_key: *key1,
                    secret_key: *api_secret,
                },
            ),
            _ => Err(ConnectorError::FailedToObtainAuthType),
        }
    }
}

/// HMAC-SHA256 over a message, in hexadecimal.
pub fn compute_signature(message: &str, secret_key: &Secret) -> (r: Result<String, ConnectorError>)
    ensures
        r is Ok <==> signing::signable_sha256(secret_key@, message@),
        r matches Ok(signature) ==> signature@ == signing::signature_sha256(secret_key@, message@)
            && signature@.len() == 64,
        r matches Err(e) ==> e is RequestEncodingFailed,
{
    signing::sign_message_sha256(secret_key.peek().as_str(), message)
}

// ---- starting a payment ----

/// How a payment is to be made.
#[derive(Debug, Clone, Copy, PartialEq, Eq, Structural)]
pub enum MomoRequestType {
    CaptureWallet,
}

/// A request that starts a payment.
pub struct MomoCreatePaymentRequest {
    pub partner_code: Secret,
    pub request_type: MomoRequestType,
    pub ipn_url: String,
    pub redirect_url: String,
    pub order_id: String,
    pub amount: i64,
    pub order_info: String,
    pub request_id: String,
    pub extra_data: String,
    pub lang: String,
    pub signature: String,
}

/// What is paid for: the first article of the order, where one is named.
pub open spec fn order_info(data: PaymentsAuthorizeRouterData) -> Seq<char> {
    match data.request.order_details {
        Some(articles) => if articles@.len() > 0 {
            articles@[0].product_name@
        } else {
            "Payment"@
        },
        None => "Payment"@,
    }
}

/// What a request that starts a payment says apart from its signature.
pub open spec fn creates(
    request: MomoCreatePaymentRequest,
    data: PaymentsAuthorizeRouterData,
    amount: i64,
) -> bool {
    &&& request.partner_code == data.connector_auth_type->SignatureKey_api_key
    &&& request.request_type == MomoRequestType::CaptureWallet
    &&& request.ipn_url@ == data.request.webhook_url->0@
    &&& request.redirect_url@ == data.request.router_return_url->0@
    &&& request.order_id@ == data.attempt_id@
    &&& request.amount == amount
    &&& request.order_info@ == order_info(data)
    &&& request.request_id@ == data.attempt_id@
    &&& request.extra_data@ == Seq::<char>::empty()
    &&& request.lang@ == "vi"@
}

/// The text that is signed to start a payment.
pub open spec fn payment_message(data: PaymentsAuthorizeRouterData, amount: i64) -> Seq<char> {
    "accessKey="@ + data.connector_auth_type->SignatureKey_key1@ + "&amount="@ + text::decimal(
        amount as int,
    ) + "&extraData="@ + Seq::<char>::empty() + "&ipnUrl="@ + data.request.webhook_url->0@
        + "&orderId="@ + data.attempt_id@ + "&orderInfo="@ + order_info(data) + "&partnerCode="@
        + data.connector_auth_type->SignatureKey_api_key@ + "&redirectUrl="@
        + data.request.router_return_url->0@ + "&requestId="@ + data.attempt_id@
        + "&requestType=captureWallet"@
}

/// Whether a payment can be put to MoMo: with MoMo's credentials, and with places to report to
/// and to send the payer back to.
pub open spec fn payable(data: PaymentsAuthorizeRouterData) -> bool {
    &&& data.connector_auth_type is SignatureKey
    &&& data.request.webhook_url is Some
    &&& data.request.router_return_url is Some
}

/// Why a payment fails: the first thing that keeps it from being payable, or else that its
/// request could not be written.
pub open spec fn payment_refusal(data: PaymentsAuthorizeRouterData, e: ConnectorError) -> bool {
    if !(data.connector_auth_type is SignatureKey) {
        e is FailedToObtainAuthType
    } else if data.request.webhook_url is None {
        e matches ConnectorError::MissingRequiredField { field_name } && field_name@
            == "webhook_url"@
    } else if data.request.router_return_url is None {
        e matches ConnectorError::MissingRequiredField { field_name } && field_name@
            == "return_url"@
    } else {
        e is RequestEncodingFailed
    }
}

/// What becomes of a payment that is put into a request.
pub open spec fn create_outcome(
    data: PaymentsAuthorizeRouterData,
    amount: i64,
    r: Result<MomoCreatePaymentRequest, ConnectorError>,
) -> bool {
    let secret = data.connector_auth_type->SignatureKey_api_secret@;
    &&& r is Ok <==> payable(data) && signing::signable_sha256(secret, payment_message(data, amount))
    &&& r matches Ok(request) ==> creates(request, data, amount) && request.signature@
        == signing::signature_sha256(secret, payment_message(data, amount))
    &&& r matches Err(e) ==> payment_refusal(data, e)
}

impl TryFrom<&MomoRouterData<&PaymentsAuthorizeRouterData>> for MomoCreatePaymentRequest {
    type Error = ConnectorError;

    fn try_from(item: &MomoRouterData<&PaymentsAuthorizeRouterData>) -> (r: Result<
        Self,
        Self::Error,
    >)
        ensures
            create_outcome(*item.router_data, item.amount.amount, r),
    {
        let data = item.router_data;
        let auth = match MomoAuthType::try_from(&data.connector_auth_type) {
            Ok(auth) => auth,
            Err(e) => return Err(e),
        };
        let order_id = data.attempt_id.clone();
        let request_id = order_id.clone();
        let amount: i64 = item.amount.get_amount_as_i64();
        let ipn_url = match data.request.get_webhook_url() {
            Ok(url) => url,
            Err(e) => return Err(e),
        };
        let redirect_url = match data.request.get_router_return_url() {
            Ok(url) => url,
            Err(e) => return Err(e),
        };
        let extra_data = String::new();
        let order_info = match &data.request.order_details {
            Some(articles) => if articles.len() > 0 {
                articles[0].product_name.clone()
            } else {
                "Payment".to_owned()
            },
            None => "Payment".to_owned(),
        };
        let mut message = "accessKey=".to_owned();
        message.append(auth.access_key.peek().as_str());
        message.append("&amount=");
        message.append(text::decimal_text(amount).as_str());
        message.append("&extraData=");
        message.append(extra_data.as_str());
        message.append("&ipnUrl=");
        message.append(ipn_url.as_str());
        message.append("&orderId=");
        message.append(order_id.as_str());
        message.append("&orderInfo=");
        message.append(order_info.as_str());
        message.append("&partnerCode=");
        message.append(auth.partner_code.peek().as_str());
        message.append("&redirectUrl=");
        message.append(redirect_url.as_str());
        message.append("&requestId=");
        message.append(request_id.as_str());
        message.append("&requestType=captureWallet");
        assert(message@ =~= payment_message(*data, amount));
        let signature = match compute_signature(message.as_str(), &auth.secret_key) {
            Ok(signature) => signature,
            Err(e) => return Err(e),
        };
        Ok(
            MomoCreatePaymentRequest {
                partner_code: auth.partner_code,
                request_type: MomoRequestType::CaptureWallet,
                ipn_url,
                redirect_url,
                order_id,
                amount,
                order_info,
                request_id,
                extra_data,
                lang: "vi".to_owned(),
                signature,
            },
        )
    }
}

impl vstd::std_specs::convert::TryFromSpecImpl<&MomoRouterData<&PaymentsAuthorizeRouterData>>
    for MomoCreatePaymentRequest {
    open spec fn obeys_try_from_spec() -> bool {
        false
    }

    open spec fn try_from_spec(v: &MomoRouterData<&PaymentsAuthorizeRouterData>) -> Result<
        Self,
        Self::Error,
    > {
        arbitrary()
    }
}

/// What MoMo answers to a request that starts a payment.
#[derive(Debug)]
pub struct MomoCreatePaymentResponse {
    pub partner_code: String,
    pub order_id: String,
    pub request_id: String,
    pub amount: i64,
    pub response_time: Option<i64>,
    pub message: String,
    pub result_code: i64,
    pub pay_url: Option<String>,
    pub deeplink: Option<String>,
    pub qr_code_data: Option<String>,
}

/// A failure that MoMo reported with a result code and a message.
pub open spec fn reported_failure(
    error: ErrorResponse,
    result_code: i64,
    message: String,
    http_code: u16,
) -> bool {
    &&& error.bare()
    &&& error.code@ == text::decimal(result_code as int)
    &&& error.message@ == message@
    &&& error.reason matches Some(reason)
    &&& reason@ == message@
    &&& error.status_code == http_code
}

fn report_failure(result_code: i64, message: String, http_code: u16) -> (r: ErrorResponse)
    ensures
        reported_failure(r, result_code, message, http_code),
{
    ErrorResponse {
        code: text::decimal_text(result_code),
        message: message.clone(),
        reason: Some(message),
        status_code: http_code,
        attempt_status: None,
        connector_transaction_id: None,
        connector_response_reference_id: None,
        network_advice_code: None,
        network_decline_code: None,
        network_error_message: None,
        connector_metadata: None,
    }
}

/// What the answer to a request that starts a payment makes of it: the payer is sent to the
/// page that MoMo names, or the payment has failed.
pub open spec fn created(
    answer: MomoCreatePaymentResponse,
    page_url: Seq<char>,
    http_code: u16,
    before: PaymentsAuthorizeRouterData,
    after: PaymentsAuthorizeRouterData,
) -> bool {
    &&& after.same_request(before)
    &&& if answer.result_code == 0 {
        &&& after.status == AttemptStatus::AuthenticationPending
        &&& after.response matches Ok(response)
        &&& response.plain()
        &&& response matches PaymentsResponseData::TransactionResponse {
            resource_id,
            redirection_data,
            connector_metadata,
            connector_response_reference_id,
            ..
        }
        &&& resource_id matches ResponseId::ConnectorTransactionId(id)
        &&& id@ == answer.order_id@
        &&& redirection_data matches Some(RedirectForm::Url { url, method })
        &&& url@ == page_url
        &&& method == Method::Get
        &&& connector_metadata is None
        &&& connector_response_reference_id == Some(answer.order_id)
    } else {
        &&& after.status == AttemptStatus::Failure
        &&& after.response matches Err(error)
        &&& reported_failure(error, answer.result_code, answer.message, http_code)
    }
}

/// What becomes of an answer to a request that starts a payment. One that reports success must
/// name a page by a URL.
pub open spec fn created_outcome(
    answer: MomoCreatePaymentResponse,
    http_code: u16,
    before: PaymentsAuthorizeRouterData,
    r: Result<PaymentsAuthorizeRouterData, ConnectorError>,
) -> bool {
    &&& r is Ok <==> (answer.result_code == 0 ==> answer.pay_url is Some && codec::parsed_url(
        answer.pay_url->0@,
    ) is Some)
    &&& r matches Ok(after) ==> created(
        answer,
        codec::parsed_url(answer.pay_url->0@)->0,
        http_code,
        before,
        after,
    )
    &&& r matches Err(e) ==> if answer.pay_url is None {
        e matches ConnectorError::MissingRequiredField { field_name } && field_name@ == "payUrl"@
    } else {
        e is ResponseDeserializationFailed
    }
}

/// Takes in the answer to a request that starts a payment, given what became of the page that
/// the answer names: nothing where it names none, and otherwise its URL, if it is one.
pub fn take_created(
    answer: MomoCreatePaymentResponse,
    page: Option<Option<String>>,
    data: PaymentsAuthorizeRouterData,
    http_code: u16,
) -> (r: Result<PaymentsAuthorizeRouterData, ConnectorError>)
    ensures
        r is Ok <==> (answer.result_code == 0 ==> page matches Some(Some(_))),
        r matches Ok(after) ==> created(answer, page->0->0@, http_code, data, after),
        r matches Err(e) ==> if page is None {
            e matches ConnectorError::MissingRequiredField { field_name } && field_name@
                == "payUrl"@
        } else {
            e is ResponseDeserializationFailed
        },
{
    if answer.result_code == 0 {
        let url = match page {
            Some(Some(url)) => url,
            Some(None) => return Err(ConnectorError::ResponseDeserializationFailed),
            None => return Err(ConnectorError::MissingRequiredField { field_name: "payUrl" }),
        };
        Ok(
            RouterData {
                status: AttemptStatus::AuthenticationPending,
                response: Ok(
                    PaymentsResponseData::TransactionResponse {
                        resource_id: ResponseId::ConnectorTransactionId(answer.order_id.clone()),
                        redirection_data: Some(RedirectForm::Url { url, method: Method::Get }),
                        mandate_reference: None,
                        connector_metadata: None,
                        network_txn_id: None,
                        connector_response_reference_id: Some(answer.order_id),
                        incremental_authorization_allowed: None,
                        authentication_data: None,
                        charges: None,
                    },
                ),
                ..data
            },
        )
    } else {
        Ok(
            RouterData {
                status: AttemptStatus::Failure,
                response: Err(report_failure(answer.result_code, answer.message, http_code)),
                ..data
            },
        )
    }
}

impl TryFrom<
    ResponseRouterData<
        Authorize,
        MomoCreatePaymentResponse,
        PaymentsAuthorizeData,
        PaymentsResponseData,
    >,
> for RouterData<Authorize, PaymentsAuthorizeData, PaymentsResponseData> {
    type Error = ConnectorError;

    fn try_from(
        item: ResponseRouterData<
            Authorize,
            MomoCreatePaymentResponse,
            PaymentsAuthorizeData,
            PaymentsResponseData,
        >,
    ) -> (r: Result<Self, Self::Error>)
        ensures
            created_outcome(item.response, item.http_code, item.data, r),
    {
        let page = match &item.response.pay_url {
            Some(pay_url) if item.response.result_code == 0 => match codec::url_parse(
                pay_url.as_str(),
            ) {
                Ok(url) => Some(Some(url)),
                Err(_) => Some(None),
            },
            _ => None,
        };
        take_created(item.response, page, item.data, item.http_code)
    }
}

impl vstd::std_specs::convert::TryFromSpecImpl<
    ResponseRouterData<
        Authorize,
        MomoCreatePaymentResponse,
        PaymentsAuthorizeData,
        PaymentsResponseData,
    >,
> for RouterData<Authorize, PaymentsAuthorizeData, PaymentsResponseData> {
    open spec fn obeys_try_from_spec() -> bool {
        false
    }

    open spec fn try_from_spec(
        v: ResponseRouterData<
            Authorize,
            MomoCreatePaymentResponse,
            PaymentsAuthorizeData,
            PaymentsResponseData,
        >,
    ) -> Result<Self, Self::Error> {
        arbitrary()
    }
}

// ---- asking for the state of a payment or of a refund ----

/// The text that is signed for a request that asks for the state of an order.
pub open spec fn state_message(
    access_key: Seq<char>,
    order_id: Seq<char>,
    partner_code: Seq<char>,
    request_id: Seq<char>,
) -> Seq<char> {
    "accessKey="@ + access_key + "&orderId="@ + order_id + "&partnerCode="@ + partner_code
        + "&requestId="@ + request_id
}

/// Signs a request that asks for the state of an order.
fn sign_state_request(auth: &MomoAuthType, order_id: &String, request_id: &String) -> (r: Result<
    String,
    ConnectorError,
>)
    ensures
        ({
            let message = state_message(
                auth.access_key@,
                order_id@,
                auth.partner_code@,
                request_id@,
            );
            &&& r is Ok <==> signing::signable_sha256(auth.secret_key@, message)
            &&& r matches Ok(signature) ==> signature@ == signing::signature_sha256(
                auth.secret_key@,
                message,
            )
            &&& r matches Err(e) ==> e is RequestEncodingFailed
        }),
{
    let mut message = "accessKey=".to_owned();
    message.append(auth.access_key.peek().as_str());
    message.append("&orderId=");
    message.append(order_id.as_str());
    message.append("&partnerCode=");
    message.append(auth.partner_code.peek().as_str());
    message.append("&requestId=");
    message.append(request_id.as_str());
    assert(message@ =~= state_message(
        auth.access_key@,
        order_id@,
        auth.partner_code@,
        request_id@,
    ));
    compute_signature(message.as_str(), &auth.secret_key)
}

/// A request that asks for the state of a payment.
pub struct MomoQueryRequest {
    pub partner_code: Secret,
    pub request_id: String,
    pub order_id: String,
    pub lang: String,
    pub signature: String,
}

/// What becomes of a request that asks for the state of a payment.
pub open spec fn query_outcome(
    data: PaymentsSyncRouterData,
    r: Result<MomoQueryRequest, ConnectorError>,
) -> bool {
    let auth = data.connector_auth_type;
    let secret = auth->SignatureKey_api_secret@;
    let message = state_message(
        auth->SignatureKey_key1@,
        data.attempt_id@,
        auth->SignatureKey_api_key@,
        data.attempt_id@,
    );
    &&& r is Ok <==> auth is SignatureKey && signing::signable_sha256(secret, message)
    &&& r matches Ok(request) ==> {
        &&& request.partner_code == auth->SignatureKey_api_key
        &&& request.request_id@ == data.attempt_id@
        &&& request.order_id@ == data.attempt_id@
        &&& request.lang@ == "vi"@
        &&& request.signature@ == signing::signature_sha256(secret, message)
    }
    &&& r matches Err(e) ==> if auth is SignatureKey {
        e is RequestEncodingFailed
    } else {
        e is FailedToObtainAuthType
    }
}

impl TryFrom<&PaymentsSyncRouterData> for MomoQueryRequest {
    type Error = ConnectorError;

    fn try_from(item: &PaymentsSyncRouterData) -> (r: Result<Self, Self::Error>)
        ensures
            query_outcome(*item, r),
    {
        let auth = match MomoAuthType::try_from(&item.connector_auth_type) {
            Ok(auth) => auth,
            Err(e) => return Err(e),
        };
        let order_id = item.attempt_id.clone();
        let request_id = item.attempt_id.clone();
        let signature = match sign_state_request(&auth, &order_id, &request_id) {
            Ok(signature) => signature,
            Err(e) => return Err(e),
        };
        Ok(
            MomoQueryRequest {
                partner_code: auth.partner_code,
                request_id,
                order_id,
                lang: "vi".to_owned(),
                signature,
            },
        )
    }
}

impl vstd::std_specs::convert::TryFromSpecImpl<&PaymentsSyncRouterData> for MomoQueryRequest {
    open spec fn obeys_try_from_spec() -> bool {
        false
    }

    open spec fn try_from_spec(v: &PaymentsSyncRouterData) -> Result<Self, Self::Error> {
        arbitrary()
    }
}

/// What MoMo answers to a request that asks for the state of a payment or of a refund.
#[derive(Debug)]
pub struct MomoQueryResponse {
    pub partner_code: String,
    pub request_id: Option<String>,
    pub order_id: String,
    pub extra_data: Option<String>,
    pub amount: Option<i64>,
    pub trans_id: Option<i64>,
    pub pay_type: Option<String>,
    pub result_code: i64,
    pub message: String,
    pub response_time: Option<i64>,
    pub payment_option: Option<String>,
}

/// What a result code means for a payment.
pub open spec fn result_status(result_code: i64) -> AttemptStatus {
    if result_code == 0 {
        AttemptStatus::Charged
    } else if result_code == 9000 {
        AttemptStatus::Authorized
    } else if result_code == 1000 {
        AttemptStatus::AuthenticationPending
    } else {
        AttemptStatus::Failure
    }
}

/// What a result code means for a payment.
pub fn momo_result_code_to_attempt_status(result_code: i64) -> (r: AttemptStatus)
    ensures
        r == result_status(result_code),
{
    match result_code {
        0 => AttemptStatus::Charged,
        9000 => AttemptStatus::Authorized,
        1000 => AttemptStatus::AuthenticationPending,
        _ => AttemptStatus::Failure,
    }
}

/// The metadata in which MoMo's number of a transaction is kept for a later refund: an object
/// with that one member. The number zero stands for none.
pub open spec fn keeps_trans_id(
    metadata: Option<serde_json::Value>,
    trans_id: Option<i64>,
) -> bool {
    match trans_id {
        Some(id) => if id != 0 {
            &&& metadata is Some
            &&& json::integer_members(metadata->0) == map!["trans_id"@ => id]
            &&& json::member_names(metadata->0) == set!["trans_id"@]
        } else {
            metadata is None
        },
        None => metadata is None,
    }
}

fn keep_trans_id(trans_id: Option<i64>) -> (r: Option<serde_json::Value>)
    ensures
        keeps_trans_id(r, trans_id),
{
    match trans_id {
        Some(id) => if id != 0 {
            Some(json::integer_object("trans_id", id))
        } else {
            None
        },
        None => None,
    }
}

/// What the answer to a request for the state of a payment makes of it.
pub open spec fn queried<F, T>(
    answer: MomoQueryResponse,
    http_code: u16,
    before: RouterData<F, T, PaymentsResponseData>,
    after: RouterData<F, T, PaymentsResponseData>,
) -> bool {
    &&& after.same_request(before)
    &&& after.status == result_status(answer.result_code)
    &&& if answer.result_code == 0 || answer.result_code == 9000 || answer.result_code == 1000 {
        &&& after.response matches Ok(response)
        &&& response.plain()
        &&& response matches PaymentsResponseData::TransactionResponse {
            resource_id,
            redirection_data,
            connector_metadata,
            connector_response_reference_id,
            ..
        }
        &&& resource_id matches ResponseId::ConnectorTransactionId(id)
        &&& id@ == answer.order_id@
        &&& redirection_data is None
        &&& keeps_trans_id(connector_metadata, answer.trans_id)
        &&& connector_response_reference_id == Some(answer.order_id)
    } else {
        &&& after.response matches Err(error)
        &&& reported_failure(error, answer.result_code, answer.message, http_code)
    }
}

impl<F, T> TryFrom<ResponseRouterData<F, MomoQueryResponse, T, PaymentsResponseData>>
    for RouterData<F, T, PaymentsResponseData> {
    type Error = ConnectorError;

    fn try_from(item: ResponseRouterData<F, MomoQueryResponse, T, PaymentsResponseData>) -> (r:
        Result<Self, Self::Error>)
        ensures
            r matches Ok(after) && queried(item.response, item.http_code, item.data, after),
    {
        let ResponseRouterData { response: answer, data, http_code } = item;
        let result_code: i64 = answer.result_code;
        let status = momo_result_code_to_attempt_status(result_code);
        let connector_metadata = keep_trans_id(answer.trans_id);
        if result_code == 0 || result_code == 9000 || result_code == 1000 {
            Ok(
                RouterData {
                    status,
                    response: Ok(
                        PaymentsResponseData::TransactionResponse {
                            resource_id: ResponseId::ConnectorTransactionId(
                                answer.order_id.clone(),
                            ),
                            redirection_data: None,
                            mandate_reference: None,
                            connector_metadata,
                            network_txn_id: None,
                            connector_response_reference_id: Some(answer.order_id),
                            incremental_authorization_allowed: None,
                            authentication_data: None,
                            charges: None,
                        },
                    ),
                    ..data
                },
            )
        } else {
            Ok(
                RouterData {
                    status: AttemptStatus::Failure,
                    response: Err(report_failure(result_code, answer.message, http_code)),
                    ..data
                },
            )
        }
    }
}

impl<F, T> vstd::std_specs::convert::TryFromSpecImpl<ResponseRouterData<F, MomoQueryResponse, T, PaymentsResponseData>>
    for RouterData<F, T, PaymentsResponseData> {
    open spec fn obeys_try_from_spec() -> bool {
        false
    }

    open spec fn try_from_spec(
        v: ResponseRouterData<F, MomoQueryResponse, T, PaymentsResponseData>,
    ) -> Result<Self, Self::Error> {
        arbitrary()
    }
}

// ---- refunds ----

/// A request that starts a refund.
pub struct MomoRefundRequest {
    pub partner_code: Secret,
    pub order_id: String,
    pub request_id: String,
    pub amount: i64,
    pub trans_id: i64,
    pub lang: String,
    pub description: String,
    pub signature: String,
}

/// MoMo's number of the transaction that is refunded, as the metadata keep it.
pub open spec fn kept_trans_id(metadata: Option<serde_json::Value>) -> Option<i64> {
    match metadata {
        Some(value) => if json::integer_members(value).dom().contains("trans_id"@) {
            Some(json::integer_members(value)["trans_id"@])
        } else {
            None
        },
        None => None,
    }
}

/// Why a refund is made.
pub open spec fn refund_description(data: RefundsData) -> Seq<char> {
    match data.reason {
        Some(reason) => reason@,
        None => seq![],
    }
}

/// The text that is signed to start a refund.
pub open spec fn refund_message<F>(data: RefundsRouterData<F>, amount: i64) -> Seq<char> {
    "accessKey="@ + data.connector_auth_type->SignatureKey_key1@ + "&amount="@ + text::decimal(
        amount as int,
    ) + "&description="@ + refund_description(data.request) + "&orderId="@
        + data.request.refund_id@ + "&partnerCode="@
        + data.connector_auth_type->SignatureKey_api_key@ + "&requestId="@
        + data.request.refund_id@ + "&transId="@ + text::decimal(
        kept_trans_id(data.request.connector_metadata)->0 as int,
    )
}

/// What becomes of a refund that is put into a request.
pub open spec fn refund_outcome<F>(
    data: RefundsRouterData<F>,
    amount: i64,
    r: Result<MomoRefundRequest, ConnectorError>,
) -> bool {
    let auth = data.connector_auth_type;
    let secret = auth->SignatureKey_api_secret@;
    let trans_id = kept_trans_id(data.request.connector_metadata);
    let message = refund_message(data, amount);
    &&& r is Ok <==> auth is SignatureKey && trans_id is Some && signing::signable_sha256(secret, message)
    &&& r matches Ok(request) ==> {
        &&& request.partner_code == auth->SignatureKey_api_key
        &&& request.order_id@ == data.request.refund_id@
        &&& request.request_id@ == data.request.refund_id@
        &&& request.amount == amount
        &&& Some(request.trans_id) == trans_id
        &&& request.lang@ == "vi"@
        &&& request.description@ == refund_description(data.request)
        &&& request.signature@ == signing::signature_sha256(secret, message)
    }
    &&& r matches Err(e) ==> if !(auth is SignatureKey) {
        e is FailedToObtainAuthType
    } else if trans_id is None {
        e matches ConnectorError::MissingRequiredField { field_name } && field_name@
            == "trans_id"@
    } else {
        e is RequestEncodingFailed
    }
}

impl<F> TryFrom<&MomoRouterData<&RefundsRouterData<F>>> for MomoRefundRequest {
    type Error = ConnectorError;

    fn try_from(item: &MomoRouterData<&RefundsRouterData<F>>) -> (r: Result<Self, Self::Error>)
        ensures
            refund_outcome(*item.router_data, item.amount.amount, r),
    {
        let data = item.router_data;
        let auth = match MomoAuthType::try_from(&data.connector_auth_type) {
            Ok(auth) => auth,
            Err(e) => return Err(e),
        };
        let order_id = data.request.refund_id.clone();
        let request_id = data.request.refund_id.clone();
        let amount: i64 = item.amount.get_amount_as_i64();
        let description = match &data.request.reason {
            Some(reason) => reason.clone(),
            None => String::new(),
        };
        let kept: Option<i64> = match &data.request.connector_metadata {
            Some(metadata) => json::integer_member(metadata, "trans_id"),
            None => None,
        };
        let trans_id: i64 = match kept {
            Some(trans_id) => trans_id,
            None => return Err(ConnectorError::MissingRequiredField { field_name: "trans_id" }),
        };
        let mut message = "accessKey=".to_owned();
        message.append(auth.access_key.peek().as_str());
        message.append("&amount=");
        message.append(text::decimal_text(amount).as_str());
        message.append("&description=");
        message.append(description.as_str());
        message.append("&orderId=");
        message.append(order_id.as_str());
        message.append("&partnerCode=");
        message.append(auth.partner_code.peek().as_str());
        message.append("&requestId=");
        message.append(request_id.as_str());
        message.append("&transId=");
        message.append(text::decimal_text(trans_id).as_str());
        assert(message@ =~= refund_message(*data, amount));
        let signature = match compute_signature(message.as_str(), &auth.secret_key) {
            Ok(signature) => signature,
            Err(e) => return Err(e),
        };
        Ok(
            MomoRefundRequest {
                partner_code: auth.partner_code,
                order_id,
                request_id,
                amount,
                trans_id,
                lang: "vi".to_owned(),
                description,
                signature,
            },
        )
    }
}

impl<F> vstd::std_specs::convert::TryFromSpecImpl<&MomoRouterData<&RefundsRouterData<F>>> for MomoRefundRequest {
    open spec fn obeys_try_from_spec() -> bool {
        false
    }

    open spec fn try_from_spec(v: &MomoRouterData<&RefundsRouterData<F>>) -> Result<
        Self,
        Self::Error,
    > {
        arbitrary()
    }
}

/// What MoMo answers to a request that starts a refund.
#[derive(Debug)]
pub struct MomoRefundResponse {
    pub partner_code: String,
    pub order_id: String,
    pub request_id: String,
    pub amount: Option<i64>,
    pub trans_id: Option<i64>,
    pub result_code: i64,
    pub message: String,
    pub response_time: Option<i64>,
}

/// What an answer of MoMo makes of a refund: its name with MoMo and how far it has come.
pub open spec fn refunded<F>(
    order_id: String,
    refund_status: RefundStatus,
    before: RefundsRouterData<F>,
    after: RefundsRouterData<F>,
) -> bool {
    &&& after.same_request(before)
    &&& after.status == before.status
    &&& after.response matches Ok(response)
    &&& response.connector_refund_id == order_id
    &&& response.refund_status == refund_status
}

/// What the result code of an answer to a request that starts a refund means.
pub open spec fn refund_status(result_code: i64) -> RefundStatus {
    if result_code == 0 {
        RefundStatus::Success
    } else {
        RefundStatus::Failure
    }
}

impl TryFrom<RefundsResponseRouterData<Execute, MomoRefundResponse>> for RefundsRouterData<Execute> {
    type Error = ConnectorError;

    fn try_from(item: RefundsResponseRouterData<Execute, MomoRefundResponse>) -> (r: Result<
        Self,
        Self::Error,
    >)
        ensures
            r matches Ok(after) && refunded(
                item.response.order_id,
                refund_status(item.response.result_code),
                item.data,
                after,
            ),
            r->Ok_0.response->Ok_0.refund_status == RefundStatus::Success
                <==> item.response.result_code == 0,
    {
        let status = if item.response.result_code == 0 {
            RefundStatus::Success
        } else {
            RefundStatus::Failure
        };
        Ok(
            RouterData {
                response: Ok(
                    RefundsResponseData {
                        connector_refund_id: item.response.order_id,
                        refund_status: status,
                    },
                ),
                ..item.data
            },
        )
    }
}

impl vstd::std_specs::convert::TryFromSpecImpl<RefundsResponseRouterData<Execute, MomoRefundResponse>> for RefundsRouterData<Execute> {
    open spec fn obeys_try_from_spec() -> bool {
        false
    }

    open spec fn try_from_spec(v: RefundsResponseRouterData<Execute, MomoRefundResponse>) -> Result<
        Self,
        Self::Error,
    > {
        arbitrary()
    }
}

/// A request that asks for the state of a refund.
pub struct MomoRefundQueryRequest {
    pub partner_code: Secret,
    pub request_id: String,
    pub order_id: String,
    pub lang: String,
    pub signature: String,
}

/// What becomes of a request that asks for the state of a refund.
pub open spec fn refund_query_outcome(
    data: RefundSyncRouterData,
    r: Result<MomoRefundQueryRequest, ConnectorError>,
) -> bool {
    let auth = data.connector_auth_type;
    let secret = auth->SignatureKey_api_secret@;
    let order_id = data.request.connector_refund_id->0@;
    let message = state_message(
        auth->SignatureKey_key1@,
        order_id,
        auth->SignatureKey_api_key@,
        order_id,
    );
    &&& r is Ok <==> auth is SignatureKey && data.request.connector_refund_id is Some
        && signing::signable_sha256(secret, message)
    &&& r matches Ok(request) ==> {
        &&& request.partner_code == auth->SignatureKey_api_key
        &&& request.request_id@ == order_id
        &&& request.order_id@ == order_id
        &&& request.lang@ == "vi"@
        &&& request.signature@ == signing::signature_sha256(secret, message)
    }
    &&& r matches Err(e) ==> if !(auth is SignatureKey) {
        e is FailedToObtainAuthType
    } else if data.request.connector_refund_id is None {
        e is MissingConnectorRefundID
    } else {
        e is RequestEncodingFailed
    }
}

impl TryFrom<&RefundSyncRouterData> for MomoRefundQueryRequest {
    type Error = ConnectorError;

    fn try_from(item: &RefundSyncRouterData) -> (r: Result<Self, Self::Error>)
        ensures
            refund_query_outcome(*item, r),
    {
        let auth = match MomoAuthType::try_from(&item.connector_auth_type) {
            Ok(auth) => auth,
            Err(e) => return Err(e),
        };
        let order_id = match &item.request.connector_refund_id {
            Some(order_id) => order_id.clone(),
            None => return Err(ConnectorError::MissingConnectorRefundID),
        };
        let request_id = order_id.clone();
        let signature = match sign_state_request(&auth, &order_id, &request_id) {
            Ok(signature) => signature,
            Err(e) => return Err(e),
        };
        Ok(
            MomoRefundQueryRequest {
                partner_code: auth.partner_code,
                request_id,
                order_id,
                lang: "vi".to_owned(),
                signature,
            },
        )
    }
}

impl vstd::std_specs::convert::TryFromSpecImpl<&RefundSyncRouterData> for MomoRefundQueryRequest {
    open spec fn obeys_try_from_spec() -> bool {
        false
    }

    open spec fn try_from_spec(v: &RefundSyncRouterData) -> Result<Self, Self::Error> {
        arbitrary()
    }
}

/// What the result code of an answer to a request for the state of a refund means.
pub open spec fn refund_sync_status(result_code: i64) -> RefundStatus {
    if result_code == 0 {
        RefundStatus::Success
    } else if result_code == 1000 {
        RefundStatus::Pending
    } else {
        RefundStatus::Failure
    }
}

impl TryFrom<RefundsResponseRouterData<RSync, MomoQueryResponse>> for RefundsRouterData<RSync> {
    type Error = ConnectorError;

    fn try_from(item: RefundsResponseRouterData<RSync, MomoQueryResponse>) -> (r: Result<
        Self,
        Self::Error,
    >)
        ensures
            r matches Ok(after) && refunded(
                item.response.order_id,
                refund_sync_status(item.response.result_code),
                item.data,
                after,
            ),
            r->Ok_0.response->Ok_0.refund_status == RefundStatus::Success
                <==> item.response.result_code == 0,
            r->Ok_0.response->Ok_0.refund_status == RefundStatus::Pending
                <==> item.response.result_code == 1000,
    {
        let status = if item.response.result_code == 0 {
            RefundStatus::Success
        } else if item.response.result_code == 1000 {
            RefundStatus::Pending
        } else {
            RefundStatus::Failure
        };
        Ok(
            RouterData {
                response: Ok(
                    RefundsResponseData {
                        connector_refund_id: item.response.order_id,
                        refund_status: status,
                    },
                ),
                ..item.data
            },
        )
    }
}

impl vstd::std_specs::convert::TryFromSpecImpl<RefundsResponseRouterData<RSync, MomoQueryResponse>> for RefundsRouterData<RSync> {
    open spec fn obeys_try_from_spec() -> bool {
        false
    }

    open spec fn try_from_spec(v: RefundsResponseRouterData<RSync, MomoQueryResponse>) -> Result<
        Self,
        Self::Error,
    > {
        arbitrary()
    }
}

// ---- being told of a payment ----

/// What MoMo reports of a payment.
#[derive(Debug)]
pub struct MomoIpnPayload {
    pub partner_code: String,
    pub order_id: String,
    pub request_id: String,
    pub amount: i64,
    pub order_info: Option<String>,
    pub order_type: Option<String>,
    pub trans_id: i64,
    pub result_code: i64,
    pub message: String,
    pub pay_type: Option<String>,
    pub response_time: i64,
    pub extra_data: Option<String>,
    pub signature: String,
}

/// What a report with a result code tells.
pub open spec fn webhook_event(result_code: i64) -> IncomingWebhookEvent {
    if result_code == 0 {
        IncomingWebhookEvent::PaymentIntentSuccess
    } else if result_code == 9000 {
        IncomingWebhookEvent::PaymentIntentAuthorizationSuccess
    } else {
        IncomingWebhookEvent::PaymentIntentFailure
    }
}

/// What a report with a result code tells.
pub fn get_momo_webhook_event(result_code: i64) -> (r: IncomingWebhookEvent)
    ensures
        r == webhook_event(result_code),
{
    match result_code {
        0 => IncomingWebhookEvent::PaymentIntentSuccess,
        9000 => IncomingWebhookEvent::PaymentIntentAuthorizationSuccess,
        _ => IncomingWebhookEvent::PaymentIntentFailure,
    }
}

/// What MoMo answers where a request failed.
#[derive(Debug)]
pub struct MomoErrorResponse {
    pub result_code: Option<i64>,
    pub message: Option<String>,
}

} // verus!

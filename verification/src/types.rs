//! The data that connectors take from a payment host and hand back to it.
use std::marker::PhantomData;
use vstd::prelude::*;
use vstd::string::*;

use crate::params::ParamMap;
use crate::vnpay::transformers::{VnpayConnectorMeta, VnpayQueryRequest};

verus! {

// ---- errors and statuses ----

/// Why a connector could not do what it was asked.
#[derive(Debug)]
pub enum ConnectorError {
    FailedToObtainAuthType,
    NotSupported { message: String, connector: &'static str },
    MissingRequiredField { field_name: &'static str },
    MissingConnectorTransactionID,
    MissingConnectorRefundID,
    RequestEncodingFailed,
    ResponseDeserializationFailed,
    WebhookBodyDecodingFailed,
    WebhookSignatureNotFound,
    WebhookReferenceIdNotFound,
}

impl ConnectorError {
    /// Whether two errors say the same.
    pub open spec fn same(self, other: ConnectorError) -> bool {
        match (self, other) {
            (
                ConnectorError::NotSupported { message: a, connector: c },
                ConnectorError::NotSupported { message: b, connector: d },
            ) => a@ == b@ && c@ == d@,
            (
                ConnectorError::MissingRequiredField { field_name: a },
                ConnectorError::MissingRequiredField { field_name: b },
            ) => a@ == b@,
            _ => self == other,
        }
    }
}

/// How far a payment attempt has come.
#[derive(Debug, Clone, Copy, PartialEq, Eq, Structural)]
pub enum AttemptStatus {
    Started,
    AuthenticationPending,
    Authorized,
    Charged,
    Pending,
    Voided,
    Failure,
}

/// How far a refund has come.
#[derive(Debug, Clone, Copy, PartialEq, Eq, Structural)]
pub enum RefundStatus {
    Success,
    Pending,
    Failure,
}

/// What a webhook reports.
#[derive(Debug, Clone, Copy, PartialEq, Eq, Structural)]
pub enum IncomingWebhookEvent {
    PaymentIntentSuccess,
    PaymentIntentAuthorizationSuccess,
    PaymentIntentCancelled,
    PaymentIntentFailure,
}

// ---- credentials and amounts ----

/// A text that is kept out of debug output.
pub struct Secret {
    text: String,
}

impl View for Secret {
    type V = Seq<char>;

    closed spec fn view(&self) -> Seq<char> {
        self.text@
    }
}

impl Secret {
    /// Keeps a text secret.
    pub fn new(text: String) -> (r: Secret)
        ensures
            r@ == text@,
    {
        Secret { text }
    }

    /// Reads the text.
    pub fn peek(&self) -> (r: &String)
        ensures
            r@ == self@,
    {
        &self.text
    }

    /// Hands the text out.
    pub fn expose(self) -> (r: String)
        ensures
            r@ == self@,
    {
        self.text
    }
}

impl Clone for Secret {
    fn clone(&self) -> (r: Secret)
        ensures
            r == *self,
    {
        Secret { text: self.text.clone() }
    }
}

/// The credentials that a merchant holds with a gateway.
pub enum ConnectorAuthType {
    NoKey,
    HeaderKey { api_key: Secret },
    BodyKey { api_key: Secret, key1: Secret },
    SignatureKey { api_key: Secret, key1: Secret, api_secret: Secret },
    MultiAuthKey { api_key: Secret, key1: Secret, api_secret: Secret, key2: Secret },
}

/// An amount in the smallest unit of its currency.
#[derive(Debug, Clone, Copy, PartialEq, Eq, Structural)]
pub struct MinorUnit {
    pub amount: i64,
}

impl MinorUnit {
    /// An amount of so many units.
    pub fn new(amount: i64) -> (r: MinorUnit)
        ensures
            r.amount == amount,
    {
        MinorUnit { amount }
    }

    /// The number of units.
    pub fn get_amount_as_i64(&self) -> (r: i64)
        ensures
            r == self.amount,
    {
        self.amount
    }
}

/// A currency: that of Vietnam or any other.
#[derive(Debug, Clone, Copy, PartialEq, Eq, Structural)]
pub enum Currency {
    VND,
    Other,
}

/// The unit in which a gateway counts amounts.
#[derive(Debug, Clone, Copy, PartialEq, Eq, Structural)]
pub enum CurrencyUnit {
    Base,
    Minor,
}

// ---- flows ----

/// The flow that starts a payment.
pub struct Authorize;

/// The flow that asks for the state of a payment.
pub struct PSync;

/// The flow that starts a refund.
pub struct Execute;

/// The flow that asks for the state of a refund.
pub struct RSync;

// ---- what a host asks for ----

/// An article of an order.
#[derive(Debug)]
pub struct OrderDetailsWithAmount {
    pub product_name: String,
}

/// What is known of the payer's browser.
#[derive(Debug)]
pub struct BrowserInformation {
    /// The address as text.
    pub ip_address: Option<String>,
}

/// What is asked for when a payment is started.
#[derive(Debug)]
pub struct PaymentsAuthorizeData {
    pub amount: i64,
    pub currency: Currency,
    pub statement_descriptor: Option<String>,
    pub complete_authorize_url: Option<String>,
    pub router_return_url: Option<String>,
    pub webhook_url: Option<String>,
    pub browser_info: Option<BrowserInformation>,
    pub order_details: Option<Vec<OrderDetailsWithAmount>>,
}

impl PaymentsAuthorizeData {
    /// Where the gateway is to report the outcome.
    pub fn get_webhook_url(&self) -> (r: Result<String, ConnectorError>)
        ensures
            r is Ok <==> self.webhook_url is Some,
            r matches Ok(url) ==> url@ == self.webhook_url->0@,
            r matches Err(e) ==> e matches ConnectorError::MissingRequiredField { field_name }
                && field_name@ == "webhook_url"@,
    {
        match &self.webhook_url {
            Some(url) => Ok(url.clone()),
            None => Err(ConnectorError::MissingRequiredField { field_name: "webhook_url" }),
        }
    }

    /// Where the gateway is to send the payer back to.
    pub fn get_router_return_url(&self) -> (r: Result<String, ConnectorError>)
        ensures
            r is Ok <==> self.router_return_url is Some,
            r matches Ok(url) ==> url@ == self.router_return_url->0@,
            r matches Err(e) ==> e matches ConnectorError::MissingRequiredField { field_name }
                && field_name@ == "return_url"@,
    {
        match &self.router_return_url {
            Some(url) => Ok(url.clone()),
            None => Err(ConnectorError::MissingRequiredField { field_name: "return_url" }),
        }
    }
}

/// The gateway's name for a transaction.
#[derive(Debug)]
pub enum ResponseId {
    ConnectorTransactionId(String),
    EncodedData(String),
    NoResponseId,
}

impl ResponseId {
    /// The transaction's name, where the gateway gave one.
    pub fn get_connector_transaction_id(&self) -> (r: Option<String>)
        ensures
            r is Some <==> self is ConnectorTransactionId,
            r matches Some(id) ==> id@ == self->ConnectorTransactionId_0@,
    {
        match self {
            ResponseId::ConnectorTransactionId(id) => Some(id.clone()),
            _ => None,
        }
    }
}

/// What is asked for when the state of a payment is wanted.
#[derive(Debug)]
pub struct PaymentsSyncData {
    pub connector_transaction_id: ResponseId,
}

/// What is asked for when a refund is started or its state is wanted.
#[derive(Debug)]
pub struct RefundsData {
    pub refund_id: String,
    pub reason: Option<String>,
    pub connector_metadata: Option<serde_json::Value>,
    pub connector_refund_id: Option<String>,
}

// ---- what a connector answers ----

/// A failure that a gateway reported.
#[derive(Debug)]
pub struct ErrorResponse {
    pub code: String,
    pub message: String,
    pub reason: Option<String>,
    pub status_code: u16,
    pub attempt_status: Option<AttemptStatus>,
    pub connector_transaction_id: Option<String>,
    pub connector_response_reference_id: Option<String>,
    pub network_advice_code: Option<String>,
    pub network_decline_code: Option<String>,
    pub network_error_message: Option<String>,
    pub connector_metadata: Option<serde_json::Value>,
}

impl ErrorResponse {
    /// Whether nothing is said beyond the code, the message, the reason and the status code.
    pub open spec fn bare(self) -> bool {
        &&& self.attempt_status is None
        &&& self.connector_transaction_id is None
        &&& self.connector_response_reference_id is None
        &&& self.network_advice_code is None
        &&& self.network_decline_code is None
        &&& self.network_error_message is None
        &&& self.connector_metadata is None
    }
}

/// The method of an HTTP request.
#[derive(Debug, Clone, Copy, PartialEq, Eq, Structural)]
pub enum Method {
    Get,
    Post,
}

/// Where a payer is sent.
pub enum RedirectForm {
    /// To an endpoint, with the fields of a form.
    Form { endpoint: String, method: Method, form_fields: ParamMap },
    /// To a URL.
    Url { url: String, method: Method },
}

/// What became of a payment request.
pub enum PaymentsResponseData {
    TransactionResponse {
        resource_id: ResponseId,
        redirection_data: Option<RedirectForm>,
        mandate_reference: Option<String>,
        connector_metadata: Option<serde_json::Value>,
        network_txn_id: Option<String>,
        connector_response_reference_id: Option<String>,
        incremental_authorization_allowed: Option<bool>,
        authentication_data: Option<serde_json::Value>,
        charges: Option<serde_json::Value>,
    },
}

impl PaymentsResponseData {
    /// Whether nothing is said of mandates, network transactions, incremental authorization,
    /// authentication and charges.
    pub open spec fn plain(self) -> bool {
        match self {
            PaymentsResponseData::TransactionResponse {
                mandate_reference,
                network_txn_id,
                incremental_authorization_allowed,
                authentication_data,
                charges,
                ..
            } => {
                &&& mandate_reference is None
                &&& network_txn_id is None
                &&& incremental_authorization_allowed is None
                &&& authentication_data is None
                &&& charges is None
            },
        }
    }
}

/// What became of a refund request.
#[derive(Debug)]
pub struct RefundsResponseData {
    pub connector_refund_id: String,
    pub refund_status: RefundStatus,
}

/// A request to a connector in one of its flows, with what became of it so far.
pub struct RouterData<F, Req, Resp> {
    pub flow: PhantomData<F>,
    pub attempt_id: String,
    pub connector_request_reference_id: String,
    pub connector_auth_type: ConnectorAuthType,
    /// The merchant's settings, as far as they were given and could be read.
    pub connector_meta_data: Option<VnpayConnectorMeta>,
    pub status: AttemptStatus,
    pub request: Req,
    pub response: Result<Resp, ErrorResponse>,
}

impl<F, Req, Resp> RouterData<F, Req, Resp> {
    /// Whether two requests differ at most in their status and their response.
    pub open spec fn same_request(self, other: Self) -> bool {
        &&& self.flow == other.flow
        &&& self.attempt_id == other.attempt_id
        &&& self.connector_request_reference_id == other.connector_request_reference_id
        &&& self.connector_auth_type == other.connector_auth_type
        &&& self.connector_meta_data == other.connector_meta_data
        &&& self.request == other.request
    }
}

/// A request that is the same as another differs from it in nothing but the status and the
/// response.
pub proof fn lemma_same_request<F, Req, Resp>(
    a: RouterData<F, Req, Resp>,
    b: RouterData<F, Req, Resp>,
)
    requires
        a.same_request(b),
    ensures
        a == (RouterData { status: a.status, response: a.response, ..b }),
{
}

/// A bare error says nothing beyond its code, its message, its reason and its status code.
pub proof fn lemma_bare(e: ErrorResponse)
    requires
        e.bare(),
    ensures
        e == (ErrorResponse {
            attempt_status: None,
            connector_transaction_id: None,
            connector_response_reference_id: None,
            network_advice_code: None,
            network_decline_code: None,
            network_error_message: None,
            connector_metadata: None,
            ..e
        }),
{
}

/// A plain response says nothing beyond the names of the transaction, where the payer is sent,
/// and the metadata.
pub proof fn lemma_plain(r: PaymentsResponseData)
    requires
        r.plain(),
    ensures
        r == (PaymentsResponseData::TransactionResponse {
            resource_id: r->resource_id,
            redirection_data: r->redirection_data,
            mandate_reference: None,
            connector_metadata: r->connector_metadata,
            network_txn_id: None,
            connector_response_reference_id: r->connector_response_reference_id,
            incremental_authorization_allowed: None,
            authentication_data: None,
            charges: None,
        }),
{
}

pub type PaymentsAuthorizeRouterData = RouterData<
    Authorize,
    PaymentsAuthorizeData,
    PaymentsResponseData,
>;

pub type PaymentsSyncRouterData = RouterData<PSync, PaymentsSyncData, PaymentsResponseData>;

pub type RefundsRouterData<F> = RouterData<F, RefundsData, RefundsResponseData>;

pub type RefundSyncRouterData = RefundsRouterData<RSync>;

/// A request together with what the gateway answered.
pub struct ResponseRouterData<F, R, Req, Resp> {
    pub response: R,
    pub data: RouterData<F, Req, Resp>,
    pub http_code: u16,
}

pub type RefundsResponseRouterData<F, R> = ResponseRouterData<
    F,
    R,
    RefundsData,
    RefundsResponseData,
>;

// ---- what passes between a connector and a gateway ----

/// The settings of one gateway.
#[derive(Debug)]
pub struct ConnectorParams {
    pub base_url: String,
}

/// The settings of the gateways.
#[derive(Debug)]
pub struct Connectors {
    pub vnpay: ConnectorParams,
}

/// What a gateway answered.
#[derive(Debug)]
pub struct Response {
    pub response: Vec<u8>,
    pub status_code: u16,
}

/// The body of a request.
#[derive(Debug)]
pub enum RequestContent {
    RawBytes(Vec<u8>),
    /// A request for the state of a transaction, to be sent as JSON.
    Json(VnpayQueryRequest),
}

/// A request to be sent to a gateway.
#[derive(Debug)]
pub struct Request {
    pub method: Method,
    pub url: String,
    /// Whether the host's own headers go with the request.
    pub default_headers: bool,
    pub headers: Vec<(String, String)>,
    pub body: Option<RequestContent>,
}

/// A webhook that came in.
pub struct IncomingWebhookRequestDetails<'a> {
    pub body: &'a [u8],
}

/// What a webhook is about.
#[derive(Debug)]
pub enum ObjectReferenceId {
    PaymentId(PaymentIdType),
}

/// The name of a payment.
#[derive(Debug)]
pub enum PaymentIdType {
    ConnectorTransactionId(String),
}

/// How a webhook is signed.
#[derive(Debug, Clone, Copy, PartialEq, Eq, Structural)]
pub enum SignatureAlgorithm {
    HmacSha256,
    HmacSha512,
}

/// What a host wants to do when the payer comes back.
#[derive(Debug, Clone, Copy, PartialEq, Eq, Structural)]
pub enum PaymentAction {
    PSync,
    CompleteAuthorize,
    PaymentAuthenticateCompleteAuthorize,
}

/// Whether a host is to call the gateway.
#[derive(Debug, Clone, Copy, PartialEq, Eq, Structural)]
pub enum CallConnectorAction {
    Trigger,
    Avoid,
}

// ---- what a connector says of itself ----

#[derive(Debug, Clone, Copy, PartialEq, Eq, Structural)]
pub enum ConnectorCategory {
    PaymentGateway,
    AlternativePaymentMethod,
    BankAcquirer,
}

#[derive(Debug, Clone, Copy, PartialEq, Eq, Structural)]
pub enum ConnectorIntegrationStatus {
    Live,
    Sandbox,
    Beta,
    Alpha,
}

#[derive(Debug, Clone, Copy, PartialEq, Eq, Structural)]
pub enum EventClass {
    Payments,
    Refunds,
}

#[derive(Debug, Clone, Copy, PartialEq, Eq, Structural)]
pub enum PaymentMethod {
    BankRedirect,
    Wallet,
}

#[derive(Debug, Clone, Copy, PartialEq, Eq, Structural)]
pub enum PaymentMethodType {
    OnlineBankingVietnam,
    Momo,
}

#[derive(Debug, Clone, Copy, PartialEq, Eq, Structural)]
pub enum FeatureStatus {
    NotSupported,
    Supported,
}

#[derive(Debug, Clone, Copy, PartialEq, Eq, Structural)]
pub enum CaptureMethod {
    Automatic,
    Manual,
}

/// A description of a gateway.
#[derive(Debug, Clone, Copy)]
pub struct ConnectorInfo {
    pub display_name: &'static str,
    pub description: &'static str,
    pub connector_type: ConnectorCategory,
    pub integration_status: ConnectorIntegrationStatus,
}

/// What a gateway offers with a payment method.
#[derive(Debug)]
pub struct PaymentMethodDetails {
    pub mandates: FeatureStatus,
    pub refunds: FeatureStatus,
    pub supported_capture_methods: Vec<CaptureMethod>,
    pub specific_features: Option<String>,
}

/// The payment methods of a gateway.
#[derive(Debug)]
pub struct SupportedPaymentMethod {
    pub payment_method: PaymentMethod,
    pub payment_method_type: PaymentMethodType,
    pub details: PaymentMethodDetails,
}

} // verus!

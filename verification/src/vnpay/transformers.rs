//! Requests to VNPay, its answers, and how both are signed.
use vstd::prelude::*;
use vstd::string::*;

use crate::clock;
use crate::clock::CivilTime;
use crate::codec;
use crate::ids;
use crate::params;
use crate::params::{Entry, ParamMap};
use crate::signing;
use crate::text;
use crate::types::{
    AttemptStatus, BrowserInformation, ConnectorAuthType, ConnectorError, Currency,
    PaymentsAuthorizeRouterData, PaymentsSyncRouterData, Secret,
};

verus! {

// ---- credentials and settings ----

/// The credentials of a merchant with VNPay.
pub struct VnpayAuthType {
    /// The secret that requests are signed with (`vnp_HashSecret`).
    pub hash_secret: Secret,
    /// The code of the merchant's terminal (`vnp_TmnCode`).
    pub tmn_code: Secret,
}

impl TryFrom<&ConnectorAuthType> for VnpayAuthType {
    type Error = ConnectorError;

    fn try_from(auth_type: &ConnectorAuthType) -> (r: Result<Self, Self::Error>)
        ensures
            r is Ok <==> auth_type is BodyKey,
            r matches Ok(auth) ==> auth.hash_secret == auth_type->BodyKey_api_key && auth.tmn_code
                == auth_type->BodyKey_key1,
            r matches Err(e) ==> e is FailedToObtainAuthType,
    {
        match auth_type {
            ConnectorAuthType::BodyKey { api_key, key1 } => Ok(
                VnpayAuthType { hash_secret: api_key.clone(), tmn_code: key1.clone() },
            ),
            _ => Err(ConnectorError::FailedToObtainAuthType),
        }
    }
}

impl vstd::std_specs::convert::TryFromSpecImpl<&ConnectorAuthType> for VnpayAuthType {
    open spec fn obeys_try_from_spec() -> bool {
        true
    }

    open spec fn try_from_spec(v: &ConnectorAuthType) -> Result<Self, Self::Error> {
        match v {
            ConnectorAuthType::BodyKey { api_key, key1 } => Ok(
                VnpayAuthType { hash_secret: *api_key, tmn_code: *key1 },
            ),
            _ => Err(ConnectorError::FailedToObtainAuthType),
        }
    }
}

/// The merchant's settings for VNPay.
#[derive(Debug)]
pub struct VnpayConnectorMeta {
    pub payment_base_url: Option<String>,
}

/// A request with the amount that goes with it, in dong.
pub struct VnpayRouterData<T> {
    pub amount: i64,
    pub router_data: T,
}

impl<T> From<(i64, T)> for VnpayRouterData<T> {
    fn from(pair: (i64, T)) -> (r: Self) {
        VnpayRouterData { amount: pair.0, router_data: pair.1 }
    }
}

impl<T> vstd::std_specs::convert::FromSpecImpl<(i64, T)> for VnpayRouterData<T> {
    open spec fn obeys_from_spec() -> bool {
        true
    }

    open spec fn from_spec(v: (i64, T)) -> Self {
        VnpayRouterData { amount: v.0, router_data: v.1 }
    }
}

// ---- signatures ----

/// HMAC-SHA512 over the parameters in the order of their keys, with the values in percent
/// encoding.
pub fn compute_vnpay_signature(map: &ParamMap, secret: &str) -> (r: Result<String, ConnectorError>)
    ensures
        r is Ok <==> signing::signable_sha512(secret@, codec::query_text(map.entries())),
        r matches Ok(signature) ==> signature@ == signing::signature_sha512(
            secret@,
            codec::query_text(map.entries()),
        ) && signature@.len() == 128,
        r matches Err(e) ==> e is RequestEncodingFailed,
{
    let query = codec::query_string(map);
    signing::sign_message_sha512(secret, query.as_str())
}

// ---- time ----

/// A date and time of day as `YYYYMMDDHHmmss`.
pub open spec fn datetime_text(t: CivilTime) -> Seq<char> {
    text::zero_padded(t.year as int, 4) + text::zero_padded(t.month as int, 2) + text::zero_padded(
        t.day as int,
        2,
    ) + text::zero_padded(t.hour as int, 2) + text::zero_padded(t.minute as int, 2)
        + text::zero_padded(t.second as int, 2)
}

/// Formats a point in time, given in seconds since the start of 1970, as `YYYYMMDDHHmmss` in
/// UTC+7 (Vietnam time).
pub fn format_vnpay_datetime(unix_seconds: i64) -> (r: String)
    requires
        clock::in_calendar(unix_seconds as int),
    ensures
        r@ == datetime_text(clock::vietnam_time(unix_seconds as int)),
{
    let t = clock::vietnam_clock(unix_seconds);
    let mut out = text::zero_padded_text(t.year as i64, 4);
    out.append(text::zero_padded_text(t.month as i64, 2).as_str());
    out.append(text::zero_padded_text(t.day as i64, 2).as_str());
    out.append(text::zero_padded_text(t.hour as i64, 2).as_str());
    out.append(text::zero_padded_text(t.minute as i64, 2).as_str());
    out.append(text::zero_padded_text(t.second as i64, 2).as_str());
    out
}

// ---- starting a payment ----

/// The parameters of a payment.
#[derive(Debug)]
pub struct VnpayPaymentParams {
    pub tmn_code: String,
    /// A hundred times the amount in dong, as VNPay requires.
    pub amount_x100: i64,
    pub txn_ref: String,
    pub order_info: String,
    pub return_url: String,
    pub ip_addr: String,
    pub create_date: String,
    pub locale: String,
}

/// The texts and numbers of a payment's parameters.
pub struct PaymentFields {
    pub tmn_code: Seq<char>,
    pub amount_x100: int,
    pub txn_ref: Seq<char>,
    pub order_info: Seq<char>,
    pub return_url: Seq<char>,
    pub ip_addr: Seq<char>,
    pub create_date: Seq<char>,
    pub locale: Seq<char>,
}

impl View for VnpayPaymentParams {
    type V = PaymentFields;

    open spec fn view(&self) -> PaymentFields {
        PaymentFields {
            tmn_code: self.tmn_code@,
            amount_x100: self.amount_x100 as int,
            txn_ref: self.txn_ref@,
            order_info: self.order_info@,
            return_url: self.return_url@,
            ip_addr: self.ip_addr@,
            create_date: self.create_date@,
            locale: self.locale@,
        }
    }
}

/// The parameters of a payment under VNPay's names, sorted by name, without the signature.
pub open spec fn payment_entries(p: PaymentFields) -> Seq<Entry> {
    seq![
        ("vnp_Amount"@, text::decimal(p.amount_x100)),
        ("vnp_Command"@, "pay"@),
        ("vnp_CreateDate"@, p.create_date),
        ("vnp_CurrCode"@, "VND"@),
        ("vnp_IpAddr"@, p.ip_addr),
        ("vnp_Locale"@, p.locale),
        ("vnp_OrderInfo"@, p.order_info),
        ("vnp_OrderType"@, "other"@),
        ("vnp_ReturnUrl"@, p.return_url),
        ("vnp_TmnCode"@, p.tmn_code),
        ("vnp_TxnRef"@, p.txn_ref),
        ("vnp_Version"@, "2.1.0"@),
    ]
}

/// The parameters of a payment under VNPay's names, sorted by name, with a signature.
pub open spec fn signed_payment_entries(p: PaymentFields, signature: Seq<char>) -> Seq<Entry> {
    seq![
        ("vnp_Amount"@, text::decimal(p.amount_x100)),
        ("vnp_Command"@, "pay"@),
        ("vnp_CreateDate"@, p.create_date),
        ("vnp_CurrCode"@, "VND"@),
        ("vnp_IpAddr"@, p.ip_addr),
        ("vnp_Locale"@, p.locale),
        ("vnp_OrderInfo"@, p.order_info),
        ("vnp_OrderType"@, "other"@),
        ("vnp_ReturnUrl"@, p.return_url),
        ("vnp_SecureHash"@, signature),
        ("vnp_TmnCode"@, p.tmn_code),
        ("vnp_TxnRef"@, p.txn_ref),
        ("vnp_Version"@, "2.1.0"@),
    ]
}

/// The text that is signed for a payment.
pub open spec fn payment_message(p: PaymentFields) -> Seq<char> {
    codec::query_text(payment_entries(p))
}

/// The order of the names that VNPay gives to parameters.
pub proof fn lemma_names_ascend()
    ensures
        params::text_less("vnp_Amount"@, "vnp_Command"@),
        params::text_less("vnp_Command"@, "vnp_CreateDate"@),
        params::text_less("vnp_CreateDate"@, "vnp_CurrCode"@),
        params::text_less("vnp_CreateDate"@, "vnp_IpAddr"@),
        params::text_less("vnp_CurrCode"@, "vnp_IpAddr"@),
        params::text_less("vnp_IpAddr"@, "vnp_Locale"@),
        params::text_less("vnp_IpAddr"@, "vnp_OrderInfo"@),
        params::text_less("vnp_Locale"@, "vnp_OrderInfo"@),
        params::text_less("vnp_OrderInfo"@, "vnp_OrderType"@),
        params::text_less("vnp_OrderInfo"@, "vnp_RequestId"@),
        params::text_less("vnp_OrderType"@, "vnp_ReturnUrl"@),
        params::text_less("vnp_RequestId"@, "vnp_TmnCode"@),
        params::text_less("vnp_ReturnUrl"@, "vnp_TmnCode"@),
        params::text_less("vnp_ReturnUrl"@, "vnp_SecureHash"@),
        params::text_less("vnp_SecureHash"@, "vnp_SecureHashType"@),
        params::text_less("vnp_SecureHash"@, "vnp_TmnCode"@),
        params::text_less("vnp_SecureHashType"@, "vnp_TmnCode"@),
        params::text_less("vnp_TmnCode"@, "vnp_TransDate"@),
        params::text_less("vnp_TmnCode"@, "vnp_TxnRef"@),
        params::text_less("vnp_TransDate"@, "vnp_TxnRef"@),
        params::text_less("vnp_TxnRef"@, "vnp_Version"@),
{
    reveal_strlit("vnp_Amount");
    reveal_strlit("vnp_Command");
    reveal_strlit("vnp_CreateDate");
    reveal_strlit("vnp_CurrCode");
    reveal_strlit("vnp_IpAddr");
    reveal_strlit("vnp_Locale");
    reveal_strlit("vnp_OrderInfo");
    reveal_strlit("vnp_OrderType");
    reveal_strlit("vnp_RequestId");
    reveal_strlit("vnp_ReturnUrl");
    reveal_strlit("vnp_SecureHash");
    reveal_strlit("vnp_SecureHashType");
    reveal_strlit("vnp_TmnCode");
    reveal_strlit("vnp_TransDate");
    reveal_strlit("vnp_TxnRef");
    reveal_strlit("vnp_Version");
    assert(params::before_at("vnp_Amount"@, "vnp_Command"@, 4));
    assert(params::before_at("vnp_Command"@, "vnp_CreateDate"@, 5));
    assert(params::before_at("vnp_CreateDate"@, "vnp_CurrCode"@, 5));
    assert(params::before_at("vnp_CreateDate"@, "vnp_IpAddr"@, 4));
    assert(params::before_at("vnp_CurrCode"@, "vnp_IpAddr"@, 4));
    assert(params::before_at("vnp_IpAddr"@, "vnp_Locale"@, 4));
    assert(params::before_at("vnp_IpAddr"@, "vnp_OrderInfo"@, 4));
    assert(params::before_at("vnp_Locale"@, "vnp_OrderInfo"@, 4));
    assert(params::before_at("vnp_OrderInfo"@, "vnp_OrderType"@, 9));
    assert(params::before_at("vnp_OrderInfo"@, "vnp_RequestId"@, 4));
    assert(params::before_at("vnp_OrderType"@, "vnp_ReturnUrl"@, 4));
    assert(params::before_at("vnp_RequestId"@, "vnp_TmnCode"@, 4));
    assert(params::before_at("vnp_ReturnUrl"@, "vnp_TmnCode"@, 4));
    assert(params::before_at("vnp_ReturnUrl"@, "vnp_SecureHash"@, 4));
    assert(params::before_at("vnp_SecureHash"@, "vnp_SecureHashType"@, 14));
    assert(params::before_at("vnp_SecureHash"@, "vnp_TmnCode"@, 4));
    assert(params::before_at("vnp_SecureHashType"@, "vnp_TmnCode"@, 4));
    assert(params::before_at("vnp_TmnCode"@, "vnp_TransDate"@, 5));
    assert(params::before_at("vnp_TmnCode"@, "vnp_TxnRef"@, 5));
    assert(params::before_at("vnp_TransDate"@, "vnp_TxnRef"@, 5));
    assert(params::before_at("vnp_TxnRef"@, "vnp_Version"@, 4));
}

/// Appends a parameter whose name comes after those that the map holds.
fn append(map: &mut ParamMap, name: &str, value: &str)
    requires
        old(map).wf(),
        old(map).entries().len() > 0 ==> params::text_less(old(map).entries().last().0, name@),
    ensures
        final(map).wf(),
        final(map).entries() == old(map).entries().push((name@, value@)),
{
    proof {
        params::lemma_insert_last(map.entries(), name@, value@);
    }
    map.insert(name.to_owned(), value.to_owned());
}

impl VnpayPaymentParams {
    /// The parameters under VNPay's names, sorted by name, without the signature.
    pub fn to_sorted_map(&self) -> (r: ParamMap)
        ensures
            r.wf(),
            r.entries() == payment_entries(self@),
    {
        proof {
            lemma_names_ascend();
        }
        let mut map = ParamMap::new();
        append(&mut map, "vnp_Amount", text::decimal_text(self.amount_x100).as_str());
        append(&mut map, "vnp_Command", "pay");
        append(&mut map, "vnp_CreateDate", self.create_date.as_str());
        append(&mut map, "vnp_CurrCode", "VND");
        append(&mut map, "vnp_IpAddr", self.ip_addr.as_str());
        append(&mut map, "vnp_Locale", self.locale.as_str());
        append(&mut map, "vnp_OrderInfo", self.order_info.as_str());
        append(&mut map, "vnp_OrderType", "other");
        append(&mut map, "vnp_ReturnUrl", self.return_url.as_str());
        append(&mut map, "vnp_TmnCode", self.tmn_code.as_str());
        append(&mut map, "vnp_TxnRef", self.txn_ref.as_str());
        append(&mut map, "vnp_Version", "2.1.0");
        assert(map.entries() =~= payment_entries(self@));
        map
    }
}

/// The text `Thanh toan don hang` (payment of order) and the order's name.
pub open spec fn default_order_info(txn_ref: Seq<char>) -> Seq<char> {
    "Thanh toan don hang "@ + txn_ref
}

/// Whether a payment can be put to VNPay: with VNPay's credentials, in dong, and with a place to
/// send the payer back to.
pub open spec fn payable(data: PaymentsAuthorizeRouterData) -> bool {
    &&& data.connector_auth_type is BodyKey
    &&& data.request.currency == Currency::VND
    &&& data.request.complete_authorize_url is Some
}

/// Why a payment fails: the first thing that keeps it from being payable, or else that its
/// request could not be written.
pub open spec fn payment_refusal(data: PaymentsAuthorizeRouterData, e: ConnectorError) -> bool {
    if !(data.connector_auth_type is BodyKey) {
        e is FailedToObtainAuthType
    } else if data.request.currency != Currency::VND {
        e matches ConnectorError::NotSupported { message, connector } && message@
            == "VNPay only supports VND"@ && connector@ == "vnpay"@
    } else if data.request.complete_authorize_url is None {
        e matches ConnectorError::MissingRequiredField { field_name } && field_name@
            == "complete_authorize_url"@
    } else {
        e is RequestEncodingFailed
    }
}

/// The parameters of a payment that is started at a point in time.
pub open spec fn payment_fields(
    data: PaymentsAuthorizeRouterData,
    amount: int,
    unix_seconds: int,
) -> PaymentFields {
    PaymentFields {
        tmn_code: data.connector_auth_type->BodyKey_key1@,
        amount_x100: amount * 100,
        txn_ref: data.connector_request_reference_id@,
        order_info: match data.request.statement_descriptor {
            Some(text) => text@,
            None => default_order_info(data.connector_request_reference_id@),
        },
        return_url: data.request.complete_authorize_url->0@,
        ip_addr: match data.request.browser_info {
            Some(BrowserInformation { ip_address: Some(ip) }) => ip@,
            _ => "127.0.0.1"@,
        },
        create_date: datetime_text(clock::vietnam_time(unix_seconds)),
        locale: "vn"@,
    }
}

/// What becomes of a payment that is put into parameters at a point in time. A point in time
/// beyond the calendar has no date to write.
pub open spec fn payment_outcome(
    data: PaymentsAuthorizeRouterData,
    amount: int,
    unix_seconds: int,
    r: Result<VnpayPaymentParams, ConnectorError>,
) -> bool {
    &&& r is Ok <==> payable(data) && clock::in_calendar(unix_seconds)
    &&& r matches Ok(params) ==> params@ == payment_fields(data, amount, unix_seconds)
    &&& r matches Err(e) ==> payment_refusal(data, e)
}

/// Whether a hundred times the amount of a payment in dong can be written.
pub open spec fn amount_fits(data: PaymentsAuthorizeRouterData, amount: int) -> bool {
    data.connector_auth_type is BodyKey && data.request.currency == Currency::VND ==> i64::MIN
        <= amount * 100 <= i64::MAX
}

impl VnpayPaymentParams {
    /// The parameters of a payment that is started now.
    pub fn try_from(item: &VnpayRouterData<&PaymentsAuthorizeRouterData>) -> (r: Result<
        VnpayPaymentParams,
        ConnectorError,
    >)
        requires
            amount_fits(*item.router_data, item.amount as int),
        ensures
            exists|now: int|
                clock::FIRST_SECOND <= now <= clock::LAST_SECOND && #[trigger] payment_outcome(
                    *item.router_data,
                    item.amount as int,
                    now,
                    r,
                ),
    {
        let now: i64 = clock::now();
        let r = Self::try_from_at(item, now);
        assert(payment_outcome(*item.router_data, item.amount as int, now as int, r));
        r
    }

    /// The parameters of a payment that is started at a point in time, in seconds since the
    /// start of 1970.
    pub fn try_from_at(
        item: &VnpayRouterData<&PaymentsAuthorizeRouterData>,
        unix_seconds: i64,
    ) -> (r: Result<VnpayPaymentParams, ConnectorError>)
        requires
            amount_fits(*item.router_data, item.amount as int),
        ensures
            payment_outcome(*item.router_data, item.amount as int, unix_seconds as int, r),
    {
        let data = item.router_data;
        let auth = match VnpayAuthType::try_from(&data.connector_auth_type) {
            Ok(auth) => auth,
            Err(e) => return Err(e),
        };
        match data.request.currency {
            Currency::VND => {},
            _ => return Err(
                ConnectorError::NotSupported {
                    message: "VNPay only supports VND".to_owned(),
                    connector: "vnpay",
                },
            ),
        }
        let amount_x100: i64 = item.amount * 100;
        let txn_ref = data.connector_request_reference_id.clone();
        let order_info = match &data.request.statement_descriptor {
            Some(text) => text.clone(),
            None => {
                let mut text = "Thanh toan don hang ".to_owned();
                text.append(txn_ref.as_str());
                text
            },
        };
        let return_url = match &data.request.complete_authorize_url {
            Some(url) => url.clone(),
            None => return Err(
                ConnectorError::MissingRequiredField { field_name: "complete_authorize_url" },
            ),
        };
        let ip_addr = match &data.request.browser_info {
            Some(BrowserInformation { ip_address: Some(ip) }) => ip.clone(),
            _ => "127.0.0.1".to_owned(),
        };
        if !clock::calendar_reaches(unix_seconds) {
            return Err(ConnectorError::RequestEncodingFailed);
        }
        Ok(
            VnpayPaymentParams {
                tmn_code: auth.tmn_code.expose(),
                amount_x100,
                txn_ref,
                order_info,
                return_url,
                ip_addr,
                create_date: format_vnpay_datetime(unix_seconds),
                locale: "vn".to_owned(),
            },
        )
    }
}

/// Adds the signature to the parameters of a payment.
pub(crate) fn sign_payment(params: &VnpayPaymentParams, hash_secret: &str) -> (r: Result<
    ParamMap,
    ConnectorError,
>)
    ensures
        r is Ok <==> signing::signable_sha512(hash_secret@, payment_message(params@)),
        r matches Ok(map) ==> map.wf() && map.entries() == signed_payment_entries(
            params@,
            signing::signature_sha512(hash_secret@, payment_message(params@)),
        ),
        r matches Err(e) ==> e is RequestEncodingFailed,
{
    let mut map = params.to_sorted_map();
    let signature = match compute_vnpay_signature(&map, hash_secret) {
        Ok(signature) => signature,
        Err(e) => return Err(e),
    };
    proof {
        lemma_names_ascend();
        params::lemma_insert_between(map.entries(), "vnp_SecureHash"@, signature@, 9);
    }
    map.insert("vnp_SecureHash".to_owned(), signature);
    assert(map.entries() =~= signed_payment_entries(
        params@,
        signing::signature_sha512(hash_secret@, payment_message(params@)),
    ));
    Ok(map)
}

/// The page on which a payment is made.
pub open spec fn payment_page(base_url: Seq<char>) -> Seq<char> {
    base_url + "paymentv2/vpcpay.html"@
}

/// The URL on which a payment is made, with its parameters and their signature.
pub open spec fn redirect_url(
    base_url: Seq<char>,
    p: PaymentFields,
    hash_secret: Seq<char>,
) -> Seq<char> {
    payment_page(base_url) + seq!['?'] + codec::query_text(
        signed_payment_entries(p, signing::signature_sha512(hash_secret, payment_message(p))),
    )
}

/// Writes the URL on which a payment is made, with its parameters and their signature.
pub fn build_redirect_url(
    base_url: &str,
    params: &VnpayPaymentParams,
    hash_secret: &str,
) -> (r: Result<String, ConnectorError>)
    ensures
        r is Ok <==> signing::signable_sha512(hash_secret@, payment_message(params@)),
        r matches Ok(url) ==> url@ == redirect_url(base_url@, params@, hash_secret@),
        r matches Err(e) ==> e is RequestEncodingFailed,
{
    let map = match sign_payment(params, hash_secret) {
        Ok(map) => map,
        Err(e) => return Err(e),
    };
    let mut url = base_url.to_owned();
    url.append("paymentv2/vpcpay.html");
    proof {
        reveal_strlit("?");
    }
    url.append("?");
    url.append(codec::query_string(&map).as_str());
    assert(url@ =~= redirect_url(base_url@, params@, hash_secret@));
    Ok(url)
}

// ---- asking for the state of a payment ----

/// A request for the state of a transaction.
#[derive(Debug)]
pub struct VnpayQueryRequest {
    pub request_id: String,
    pub version: String,
    pub command: String,
    pub tmn_code: String,
    pub txn_ref: String,
    pub order_info: String,
    pub trans_date: String,
    pub create_date: String,
    pub ip_addr: String,
    pub secure_hash: String,
}

/// The texts of a request for the state of a transaction.
pub struct QueryFields {
    pub request_id: Seq<char>,
    pub version: Seq<char>,
    pub command: Seq<char>,
    pub tmn_code: Seq<char>,
    pub txn_ref: Seq<char>,
    pub order_info: Seq<char>,
    pub trans_date: Seq<char>,
    pub create_date: Seq<char>,
    pub ip_addr: Seq<char>,
    pub secure_hash: Seq<char>,
}

impl View for VnpayQueryRequest {
    type V = QueryFields;

    open spec fn view(&self) -> QueryFields {
        QueryFields {
            request_id: self.request_id@,
            version: self.version@,
            command: self.command@,
            tmn_code: self.tmn_code@,
            txn_ref: self.txn_ref@,
            order_info: self.order_info@,
            trans_date: self.trans_date@,
            create_date: self.create_date@,
            ip_addr: self.ip_addr@,
            secure_hash: self.secure_hash@,
        }
    }
}

/// The parameters of a request for the state of a transaction under VNPay's names, sorted by
/// name, without the signature.
pub open spec fn query_entries(q: QueryFields) -> Seq<Entry> {
    seq![
        ("vnp_Command"@, q.command),
        ("vnp_CreateDate"@, q.create_date),
        ("vnp_IpAddr"@, q.ip_addr),
        ("vnp_OrderInfo"@, q.order_info),
        ("vnp_RequestId"@, q.request_id),
        ("vnp_TmnCode"@, q.tmn_code),
        ("vnp_TransDate"@, q.trans_date),
        ("vnp_TxnRef"@, q.txn_ref),
        ("vnp_Version"@, q.version),
    ]
}

/// The text that is signed for a request for the state of a transaction.
pub open spec fn query_message(q: QueryFields) -> Seq<char> {
    codec::query_text(query_entries(q))
}

/// A request that is made at a point in time under a given name, before it is signed.
pub open spec fn unsigned_query(
    data: PaymentsSyncRouterData,
    unix_seconds: int,
    request_id: Seq<char>,
) -> QueryFields {
    let date = datetime_text(clock::vietnam_time(unix_seconds));
    let txn_ref = data.request.connector_transaction_id->ConnectorTransactionId_0@;
    QueryFields {
        request_id,
        version: "2.1.0"@,
        command: "querydr"@,
        tmn_code: data.connector_auth_type->BodyKey_key1@,
        txn_ref,
        order_info: "Kiem tra GD "@ + txn_ref,
        trans_date: date,
        create_date: date,
        ip_addr: "127.0.0.1"@,
        secure_hash: seq![],
    }
}

/// A request that is made at a point in time under a given name, signed with the merchant's
/// secret.
pub open spec fn query_fields(
    data: PaymentsSyncRouterData,
    unix_seconds: int,
    request_id: Seq<char>,
) -> QueryFields {
    let unsigned = unsigned_query(data, unix_seconds, request_id);
    QueryFields {
        secure_hash: signing::signature_sha512(
            data.connector_auth_type->BodyKey_api_key@,
            query_message(unsigned),
        ),
        ..unsigned
    }
}

/// Whether VNPay can be asked for the state of a payment: with VNPay's credentials and a
/// transaction that has a name.
pub open spec fn queryable(data: PaymentsSyncRouterData) -> bool {
    &&& data.connector_auth_type is BodyKey
    &&& data.request.connector_transaction_id is ConnectorTransactionId
}

/// Why a request for the state of a payment fails: the first thing that keeps VNPay from being
/// asked, or else that the request could not be written.
pub open spec fn query_refusal(data: PaymentsSyncRouterData, e: ConnectorError) -> bool {
    if !(data.connector_auth_type is BodyKey) {
        e is FailedToObtainAuthType
    } else if !(data.request.connector_transaction_id is ConnectorTransactionId) {
        e is MissingConnectorTransactionID
    } else {
        e is RequestEncodingFailed
    }
}

/// What becomes of a request for the state of a payment that is made at a point in time under a
/// given name.
pub open spec fn query_outcome(
    data: PaymentsSyncRouterData,
    unix_seconds: int,
    request_id: Seq<char>,
    r: Result<VnpayQueryRequest, ConnectorError>,
) -> bool {
    &&& r is Ok <==> queryable(data) && clock::in_calendar(unix_seconds) && signing::signable_sha512(
        data.connector_auth_type->BodyKey_api_key@,
        query_message(unsigned_query(data, unix_seconds, request_id)),
    )
    &&& r matches Ok(request) ==> request@ == query_fields(data, unix_seconds, request_id)
    &&& r matches Err(e) ==> query_refusal(data, e)
}

impl VnpayQueryRequest {
    /// A request for the state of a payment that is made at a point in time, in seconds since
    /// the start of 1970, under a given name.
    pub fn try_from_at(data: &PaymentsSyncRouterData, unix_seconds: i64, request_id: String) -> (r:
        Result<VnpayQueryRequest, ConnectorError>)
        ensures
            query_outcome(*data, unix_seconds as int, request_id@, r),
    {
        let auth = match VnpayAuthType::try_from(&data.connector_auth_type) {
            Ok(auth) => auth,
            Err(e) => return Err(e),
        };
        let txn_ref = match data.request.connector_transaction_id.get_connector_transaction_id() {
            Some(txn_ref) => txn_ref,
            None => return Err(ConnectorError::MissingConnectorTransactionID),
        };
        if !clock::calendar_reaches(unix_seconds) {
            return Err(ConnectorError::RequestEncodingFailed);
        }
        let create_date = format_vnpay_datetime(unix_seconds);
        let mut order_info = "Kiem tra GD ".to_owned();
        order_info.append(txn_ref.as_str());
        let ghost unsigned = unsigned_query(*data, unix_seconds as int, request_id@);
        proof {
            lemma_names_ascend();
        }
        let mut map = ParamMap::new();
        append(&mut map, "vnp_Command", "querydr");
        append(&mut map, "vnp_CreateDate", create_date.as_str());
        append(&mut map, "vnp_IpAddr", "127.0.0.1");
        append(&mut map, "vnp_OrderInfo", order_info.as_str());
        append(&mut map, "vnp_RequestId", request_id.as_str());
        append(&mut map, "vnp_TmnCode", auth.tmn_code.peek().as_str());
        append(&mut map, "vnp_TransDate", create_date.as_str());
        append(&mut map, "vnp_TxnRef", txn_ref.as_str());
        append(&mut map, "vnp_Version", "2.1.0");
        assert(map.entries() =~= query_entries(unsigned));
        let secure_hash = match compute_vnpay_signature(&map, auth.hash_secret.peek().as_str()) {
            Ok(secure_hash) => secure_hash,
            Err(e) => return Err(e),
        };
        Ok(
            VnpayQueryRequest {
                request_id,
                version: "2.1.0".to_owned(),
                command: "querydr".to_owned(),
                tmn_code: auth.tmn_code.expose(),
                txn_ref,
                order_info,
                trans_date: create_date.clone(),
                create_date,
                ip_addr: "127.0.0.1".to_owned(),
                secure_hash,
            },
        )
    }
}

impl TryFrom<&PaymentsSyncRouterData> for VnpayQueryRequest {
    type Error = ConnectorError;

    fn try_from(data: &PaymentsSyncRouterData) -> (r: Result<Self, Self::Error>)
        ensures
            exists|now: int, id: Seq<char>|
                clock::FIRST_SECOND <= now <= clock::LAST_SECOND && ids::is_random_uuid(id)
                    && #[trigger] query_outcome(*data, now, id, r),
    {
        let now: i64 = clock::now();
        let id = ids::random_uuid();
        let ghost name = id@;
        let r = VnpayQueryRequest::try_from_at(data, now, id);
        assert(query_outcome(*data, now as int, name, r));
        r
    }
}

impl vstd::std_specs::convert::TryFromSpecImpl<&PaymentsSyncRouterData> for VnpayQueryRequest {
    open spec fn obeys_try_from_spec() -> bool {
        false
    }

    open spec fn try_from_spec(v: &PaymentsSyncRouterData) -> Result<Self, Self::Error> {
        arbitrary()
    }
}

/// What VNPay answers to a request for the state of a transaction.
#[derive(Debug)]
pub struct VnpayQueryResponse {
    pub response_code: String,
    pub message: Option<String>,
    pub txn_ref: Option<String>,
    pub transaction_no: Option<String>,
    pub transaction_status: Option<String>,
}

/// What an answer of VNPay with a response code means for the payment.
pub open spec fn query_status(response_code: Seq<char>) -> AttemptStatus {
    if response_code == "00"@ {
        AttemptStatus::Charged
    } else if response_code == "07"@ {
        AttemptStatus::Pending
    } else {
        AttemptStatus::Failure
    }
}

impl VnpayQueryResponse {
    /// What the answer means for the payment.
    pub fn to_attempt_status(&self) -> (r: AttemptStatus)
        ensures
            r == query_status(self.response_code@),
            r == AttemptStatus::Charged <==> self.response_code@ == "00"@,
            r == AttemptStatus::Pending <==> self.response_code@ == "07"@
                && self.response_code@ != "00"@,
            r == AttemptStatus::Charged || r == AttemptStatus::Pending || r
                == AttemptStatus::Failure,
    {
        if text::same_text(&self.response_code, "00") {
            AttemptStatus::Charged
        } else if text::same_text(&self.response_code, "07") {
            AttemptStatus::Pending
        } else {
            AttemptStatus::Failure
        }
    }
}

// ---- being told of a payment ----

/// What VNPay reports of a payment, to the merchant or with the payer who comes back.
#[derive(Debug)]
pub struct VnpayIpnResponse {
    pub tmn_code: String,
    pub amount: String,
    pub bank_code: Option<String>,
    pub bank_tran_no: Option<String>,
    pub card_type: Option<String>,
    pub order_info: String,
    pub transaction_no: String,
    pub response_code: String,
    pub transaction_status: String,
    pub txn_ref: String,
    pub secure_hash: String,
}

/// What a report of VNPay with a response code means for the payment.
pub open spec fn ipn_status(response_code: Seq<char>) -> AttemptStatus {
    if response_code == "00"@ {
        AttemptStatus::Charged
    } else if response_code == "07"@ {
        AttemptStatus::Pending
    } else if response_code == "24"@ {
        AttemptStatus::Voided
    } else {
        AttemptStatus::Failure
    }
}

impl VnpayIpnResponse {
    /// What the report means for the payment.
    pub fn to_attempt_status(&self) -> (r: AttemptStatus)
        ensures
            r == ipn_status(self.response_code@),
            r == AttemptStatus::Charged <==> self.response_code@ == "00"@,
            r == AttemptStatus::Pending <==> self.response_code@ == "07"@
                && self.response_code@ != "00"@,
            r == AttemptStatus::Charged || r == AttemptStatus::Pending || r
                == AttemptStatus::Voided || r == AttemptStatus::Failure,
    {
        if text::same_text(&self.response_code, "00") {
            AttemptStatus::Charged
        } else if text::same_text(&self.response_code, "07") {
            AttemptStatus::Pending
        } else if text::same_text(&self.response_code, "24") {
            AttemptStatus::Voided
        } else {
            AttemptStatus::Failure
        }
    }
}

} // verus!

//! What each of VNPay's operations gives, said of what goes in and what comes out.
use vstd::prelude::*;
use vstd::string::*;
use vstd::utf8::*;

use crate::clock;
use crate::clock::CivilTime;
use crate::codec;
use crate::params;
use crate::params::Entry;
use crate::signing;
use crate::text;
use crate::types::{
    AttemptStatus, BrowserInformation, ConnectorAuthType, ConnectorError, Currency, ErrorResponse,
    IncomingWebhookEvent, Method, ObjectReferenceId, PaymentIdType, PaymentsAuthorizeRouterData,
    PaymentsResponseData, PaymentsSyncRouterData, RedirectForm, Request, RequestContent, Response,
    ResponseId,
};
use crate::vnpay;
use crate::vnpay::laws;
use crate::vnpay::transformers;
use crate::vnpay::transformers::{
    VnpayAuthType, VnpayConnectorMeta, VnpayPaymentParams, VnpayQueryRequest, VnpayQueryResponse,
    VnpayRouterData,
};

verus! {

// ---- amounts ----

/// VNPay is given a hundred times the amount, whatever the amount is.
pub proof fn lemma_amount_is_hundredfold(
    data: PaymentsAuthorizeRouterData,
    amount: int,
    unix_seconds: int,
    params: VnpayPaymentParams,
)
    requires
        transformers::payment_outcome(data, amount, unix_seconds, Ok(params)),
    ensures
        params.amount_x100 == 100 * amount,
{
}

/// Every amount is taken whose hundredfold fits in 64 bits with a sign, and any amount where the
/// payment is refused for its credentials or its currency.
pub proof fn lemma_amounts_taken(data: PaymentsAuthorizeRouterData, amount: int)
    ensures
        -9223372036854775808 <= 100 * amount <= 9223372036854775807 ==> transformers::amount_fits(
            data,
            amount,
        ),
        !(data.connector_auth_type is BodyKey) || data.request.currency != Currency::VND
            ==> transformers::amount_fits(data, amount),
{
}

/// What VNPay is given grows with the amount, a hundred for each dong: two payments differ by a
/// hundred times what their amounts differ by.
pub proof fn lemma_amounts_scale(
    a: PaymentsAuthorizeRouterData,
    b: PaymentsAuthorizeRouterData,
    x: int,
    y: int,
    s: int,
    t: int,
    first: VnpayPaymentParams,
    second: VnpayPaymentParams,
)
    requires
        transformers::payment_outcome(a, x, s, Ok(first)),
        transformers::payment_outcome(b, y, t, Ok(second)),
    ensures
        first.amount_x100 - second.amount_x100 == 100 * (x - y),
        first.amount_x100 < second.amount_x100 <==> x < y,
        first.amount_x100 == second.amount_x100 <==> x == y,
{
}

/// The form that the payer is sent with asks for a hundred times the amount, in decimal.
pub proof fn lemma_amount_in_form(
    data: PaymentsAuthorizeRouterData,
    unix_seconds: int,
    answer: PaymentsAuthorizeRouterData,
)
    requires
        vnpay::redirection_outcome(data, unix_seconds, Ok(answer)),
    ensures
        answer.response matches Ok(
            PaymentsResponseData::TransactionResponse {
                redirection_data: Some(RedirectForm::Form { form_fields, .. }),
                ..
            },
        ) && params::lookup(form_fields.entries(), "vnp_Amount"@) == Some(
            text::decimal(100 * data.request.amount),
        ) && text::integer(params::lookup(form_fields.entries(), "vnp_Amount"@)->0) == 100
            * data.request.amount,
{
    let p = transformers::payment_fields(data, data.request.amount as int, unix_seconds);
    let secret = data.connector_auth_type->BodyKey_api_key@;
    let signature = signing::signature_sha512(secret, transformers::payment_message(p));
    lemma_amount_sent(p, signature);
    text::lemma_decimal_reads_back(100 * data.request.amount);
}

/// The URL that the payer is sent to asks for a hundred times the amount, in decimal.
pub proof fn lemma_amount_in_url(
    base_url: Seq<char>,
    data: PaymentsAuthorizeRouterData,
    unix_seconds: int,
    request: Request,
)
    requires
        vnpay::authorize_request_outcome(base_url, data, unix_seconds, Ok(Some(request))),
    ensures
        exists|sent: Seq<Entry>|
            {
                &&& request.url@ == base_url + "paymentv2/vpcpay.html"@ + seq!['?']
                    + #[trigger] codec::query_text(sent)
                &&& params::sorted(sent)
                &&& codec::plain_keys(sent)
                &&& params::lookup(sent, "vnp_Amount"@) == Some(
                    text::decimal(100 * data.request.amount),
                )
            },
{
    let p = transformers::payment_fields(data, data.request.amount as int, unix_seconds);
    let secret = data.connector_auth_type->BodyKey_api_key@;
    let signature = signing::signature_sha512(secret, transformers::payment_message(p));
    let sent = transformers::signed_payment_entries(p, signature);
    lemma_amount_sent(p, signature);
    assert(params::sorted(sent) && codec::plain_keys(sent)) by {
        laws::lemma_signed_payment_entries(p, signature);
    }
    assert(request.url@ == base_url + "paymentv2/vpcpay.html"@ + seq!['?'] + codec::query_text(
        sent,
    ));
}

proof fn lemma_amount_sent(p: transformers::PaymentFields, signature: Seq<char>)
    ensures
        params::lookup(transformers::signed_payment_entries(p, signature), "vnp_Amount"@) == Some(
            text::decimal(p.amount_x100),
        ),
{
    let signed = transformers::signed_payment_entries(p, signature);
    assert(signed[0] == ("vnp_Amount"@, text::decimal(p.amount_x100)));
    assert(params::sorted(signed)) by {
        laws::lemma_signed_payment_entries(p, signature);
    }
    params::lemma_lookup_sorted(signed, 0);
}

// ---- starting a payment ----

/// Credentials are a pair of keys: the first signs, the second names the terminal.
pub proof fn lemma_credentials(auth: ConnectorAuthType)
    ensures
        match <VnpayAuthType as vstd::std_specs::convert::TryFromSpec<
            &ConnectorAuthType,
        >>::try_from_spec(&auth) {
            Ok(taken) => auth is BodyKey && taken.hash_secret == auth->BodyKey_api_key
                && taken.tmn_code == auth->BodyKey_key1,
            Err(e) => !(auth is BodyKey) && e is FailedToObtainAuthType,
        },
{
}

/// A request keeps the amount and the data that it was made of.
pub proof fn lemma_router_data<T>(amount: i64, data: T)
    ensures
        <VnpayRouterData<T> as vstd::std_specs::convert::FromSpec<(i64, T)>>::from_spec(
            (amount, data),
        ) == (VnpayRouterData { amount, router_data: data }),
{
}

/// What a payment's parameters say: the terminal, the order, the place to return to, what is paid
/// for, where the payer is, and when it was in Vietnam, seven hours ahead of UTC. What the
/// request gives is taken as it is; without a description the order is named, and without an
/// address the local one stands.
pub proof fn lemma_payment_parameters(
    data: PaymentsAuthorizeRouterData,
    amount: int,
    unix_seconds: int,
    params: VnpayPaymentParams,
    t: CivilTime,
)
    requires
        transformers::payment_outcome(data, amount, unix_seconds, Ok(params)),
        t.valid(),
        t.seconds() == unix_seconds + 7 * 3600,
    ensures
        data.connector_auth_type matches ConnectorAuthType::BodyKey { key1, .. }
            && params.tmn_code@ == key1@,
        params.txn_ref@ == data.connector_request_reference_id@,
        data.request.complete_authorize_url matches Some(url) && params.return_url@ == url@,
        data.request.statement_descriptor matches Some(description) ==> params.order_info@
            == description@,
        data.request.statement_descriptor is None ==> params.order_info@
            == "Thanh toan don hang "@ + data.connector_request_reference_id@,
        data.request.browser_info matches Some(BrowserInformation { ip_address: Some(ip) })
            ==> params.ip_addr@ == ip@,
        data.request.browser_info is None ==> params.ip_addr@ == "127.0.0.1"@,
        data.request.browser_info matches Some(BrowserInformation { ip_address: None })
            ==> params.ip_addr@ == "127.0.0.1"@,
        params.locale@ == "vn"@,
        params.create_date@ == text::zero_padded(t.year as int, 4) + text::zero_padded(
            t.month as int,
            2,
        ) + text::zero_padded(t.day as int, 2) + text::zero_padded(t.hour as int, 2)
            + text::zero_padded(t.minute as int, 2) + text::zero_padded(t.second as int, 2),
{
    lemma_time_shown(unix_seconds, t);
}

/// Vietnamese clocks show the date that is seven hours ahead of UTC.
proof fn lemma_time_shown(unix_seconds: int, t: CivilTime)
    requires
        clock::in_calendar(unix_seconds),
        t.valid(),
        t.seconds() == unix_seconds + 7 * 3600,
    ensures
        clock::vietnam_time(unix_seconds) == t,
{
    clock::lemma_civil_time(unix_seconds + 25200);
    clock::lemma_civil_time_unique(t, clock::vietnam_time(unix_seconds));
}

/// At every point in time that is written, what is written is the date seven hours ahead of UTC,
/// and each of its parts reads back as the number that it is: four digits of the year, two each
/// of the month, the day, the hour, the minute and the second. This is so for the years 0 to
/// 9999.
pub proof fn lemma_date_reads_back(unix_seconds: int)
    requires
        clock::in_calendar(unix_seconds),
        clock::vietnam_time(unix_seconds).year >= 0,
    ensures
        ({
            let date = transformers::datetime_text(clock::vietnam_time(unix_seconds));
            let t = clock::vietnam_time(unix_seconds);
            &&& t.valid()
            &&& t.seconds() == unix_seconds + 7 * 3600
            &&& date.len() == 14
            &&& text::number(date.subrange(0, 4)) == t.year
            &&& text::number(date.subrange(4, 6)) == t.month
            &&& text::number(date.subrange(6, 8)) == t.day
            &&& text::number(date.subrange(8, 10)) == t.hour
            &&& text::number(date.subrange(10, 12)) == t.minute
            &&& text::number(date.subrange(12, 14)) == t.second
        }),
{
    clock::lemma_civil_time(unix_seconds + 25200);
    let t = clock::vietnam_time(unix_seconds);
    let date = transformers::datetime_text(t);
    let year = text::zero_padded(t.year as int, 4);
    let month = text::zero_padded(t.month as int, 2);
    let day = text::zero_padded(t.day as int, 2);
    let hour = text::zero_padded(t.hour as int, 2);
    let minute = text::zero_padded(t.minute as int, 2);
    let second = text::zero_padded(t.second as int, 2);
    text::lemma_four_digits(t.year as int);
    text::lemma_two_digits(t.month as int);
    text::lemma_two_digits(t.day as int);
    text::lemma_two_digits(t.hour as int);
    text::lemma_two_digits(t.minute as int);
    text::lemma_two_digits(t.second as int);
    assert(date.subrange(0, 4) =~= year);
    assert(date.subrange(4, 6) =~= month);
    assert(date.subrange(6, 8) =~= day);
    assert(date.subrange(8, 10) =~= hour);
    assert(date.subrange(10, 12) =~= minute);
    assert(date.subrange(12, 14) =~= second);
    lemma_unsigned(t.year as int, 4);
    lemma_unsigned(t.month as int, 2);
    lemma_unsigned(t.day as int, 2);
    lemma_unsigned(t.hour as int, 2);
    lemma_unsigned(t.minute as int, 2);
    lemma_unsigned(t.second as int, 2);
}

proof fn lemma_unsigned(n: int, width: nat)
    requires
        n >= 0,
        width > 0,
    ensures
        text::number(text::zero_padded(n, width)) == n,
{
    text::lemma_zero_padded_reads_back(n, width);
    text::lemma_decimal_reads_back(n);
    let padded = text::zero_padded(n, width);
    assert(padded.len() > 0);
    assert('0' <= padded[0] <= '9');
}

/// When a payment is put into parameters, and which error comes otherwise: first the credentials
/// are looked at, then the currency, then the place to return to, and last whether the date can
/// be written.
pub proof fn lemma_payment_accepted(
    data: PaymentsAuthorizeRouterData,
    amount: int,
    unix_seconds: int,
    r: Result<VnpayPaymentParams, ConnectorError>,
)
    requires
        transformers::payment_outcome(data, amount, unix_seconds, r),
    ensures
        r is Ok <==> data.connector_auth_type is BodyKey && data.request.currency == Currency::VND
            && data.request.complete_authorize_url is Some && -377705116800 <= unix_seconds
            <= 253402275599,
        r matches Err(e) ==> {
            &&& e is FailedToObtainAuthType <==> !(data.connector_auth_type is BodyKey)
            &&& e is NotSupported <==> data.connector_auth_type is BodyKey && data.request.currency
                != Currency::VND
            &&& e is MissingRequiredField <==> data.connector_auth_type is BodyKey
                && data.request.currency == Currency::VND
                && data.request.complete_authorize_url is None
            &&& e matches ConnectorError::NotSupported { message, connector } ==> message@
                == "VNPay only supports VND"@ && connector@ == "vnpay"@
            &&& e matches ConnectorError::MissingRequiredField { field_name } ==> field_name@
                == "complete_authorize_url"@
            &&& e is FailedToObtainAuthType || e is NotSupported || e is MissingRequiredField
                || e is RequestEncodingFailed
        },
{
}

/// The URL of a payment is the page at the base URL with the thirteen parameters of the payment
/// in the order of their names, the signature among them. The signature is the HMAC-SHA512, under
/// the first key of the credentials, of the query string of the twelve others.
pub proof fn lemma_payment_url(
    base_url: Seq<char>,
    data: PaymentsAuthorizeRouterData,
    unix_seconds: int,
    request: Request,
    params: VnpayPaymentParams,
)
    requires
        vnpay::authorize_request_outcome(base_url, data, unix_seconds, Ok(Some(request))),
        transformers::payment_outcome(data, data.request.amount as int, unix_seconds, Ok(params)),
    ensures
        ({
            let signature = codec::hex_text(
                signing::hmac_sha512(
                    encode_utf8(data.connector_auth_type->BodyKey_api_key@),
                    encode_utf8(
                        codec::query_text(
                            seq![
                                ("vnp_Amount"@, text::decimal(params.amount_x100 as int)),
                                ("vnp_Command"@, "pay"@),
                                ("vnp_CreateDate"@, params.create_date@),
                                ("vnp_CurrCode"@, "VND"@),
                                ("vnp_IpAddr"@, params.ip_addr@),
                                ("vnp_Locale"@, params.locale@),
                                ("vnp_OrderInfo"@, params.order_info@),
                                ("vnp_OrderType"@, "other"@),
                                ("vnp_ReturnUrl"@, params.return_url@),
                                ("vnp_TmnCode"@, params.tmn_code@),
                                ("vnp_TxnRef"@, params.txn_ref@),
                                ("vnp_Version"@, "2.1.0"@),
                            ],
                        ),
                    ),
                ),
            );
            request.url@ == base_url + "paymentv2/vpcpay.html"@ + seq!['?'] + codec::query_text(
                seq![
                    ("vnp_Amount"@, text::decimal(params.amount_x100 as int)),
                    ("vnp_Command"@, "pay"@),
                    ("vnp_CreateDate"@, params.create_date@),
                    ("vnp_CurrCode"@, "VND"@),
                    ("vnp_IpAddr"@, params.ip_addr@),
                    ("vnp_Locale"@, params.locale@),
                    ("vnp_OrderInfo"@, params.order_info@),
                    ("vnp_OrderType"@, "other"@),
                    ("vnp_ReturnUrl"@, params.return_url@),
                    ("vnp_SecureHash"@, signature),
                    ("vnp_TmnCode"@, params.tmn_code@),
                    ("vnp_TxnRef"@, params.txn_ref@),
                    ("vnp_Version"@, "2.1.0"@),
                ],
            )
        }),
        request.method == Method::Get,
        request.headers@.len() == 0,
        !request.default_headers,
        request.body is None,
{
}

/// The form of a payment has the thirteen parameters of the payment as its fields, the signature
/// among them, and goes to the page where the merchant's settings say, or else to the page of
/// the test site. Nothing but the status and the response changes, and the response says nothing
/// else.
pub proof fn lemma_payment_form(
    data: PaymentsAuthorizeRouterData,
    unix_seconds: int,
    answer: PaymentsAuthorizeRouterData,
    params: VnpayPaymentParams,
)
    requires
        vnpay::redirection_outcome(data, unix_seconds, Ok(answer)),
        transformers::payment_outcome(data, data.request.amount as int, unix_seconds, Ok(params)),
    ensures
        answer.status == AttemptStatus::AuthenticationPending,
        answer == (PaymentsAuthorizeRouterData {
            status: answer.status,
            response: answer.response,
            ..data
        }),
        answer.response matches Ok(
            PaymentsResponseData::TransactionResponse {
                resource_id: ResponseId::NoResponseId,
                redirection_data: Some(
                    RedirectForm::Form { endpoint, method: Method::Get, form_fields },
                ),
                mandate_reference: None,
                connector_metadata: None,
                network_txn_id: None,
                connector_response_reference_id: None,
                incremental_authorization_allowed: None,
                authentication_data: None,
                charges: None,
            },
        ) && {
            let signature = codec::hex_text(
                signing::hmac_sha512(
                    encode_utf8(data.connector_auth_type->BodyKey_api_key@),
                    encode_utf8(
                        codec::query_text(
                            seq![
                                ("vnp_Amount"@, text::decimal(params.amount_x100 as int)),
                                ("vnp_Command"@, "pay"@),
                                ("vnp_CreateDate"@, params.create_date@),
                                ("vnp_CurrCode"@, "VND"@),
                                ("vnp_IpAddr"@, params.ip_addr@),
                                ("vnp_Locale"@, params.locale@),
                                ("vnp_OrderInfo"@, params.order_info@),
                                ("vnp_OrderType"@, "other"@),
                                ("vnp_ReturnUrl"@, params.return_url@),
                                ("vnp_TmnCode"@, params.tmn_code@),
                                ("vnp_TxnRef"@, params.txn_ref@),
                                ("vnp_Version"@, "2.1.0"@),
                            ],
                        ),
                    ),
                ),
            );
            &&& match data.connector_meta_data {
                Some(VnpayConnectorMeta { payment_base_url: Some(url) }) => endpoint@ == url@
                    + "paymentv2/vpcpay.html"@,
                _ => endpoint@ == "https://sandbox.vnpayment.vn/"@ + "paymentv2/vpcpay.html"@,
            }
            &&& form_fields.entries() == seq![
                ("vnp_Amount"@, text::decimal(params.amount_x100 as int)),
                ("vnp_Command"@, "pay"@),
                ("vnp_CreateDate"@, params.create_date@),
                ("vnp_CurrCode"@, "VND"@),
                ("vnp_IpAddr"@, params.ip_addr@),
                ("vnp_Locale"@, params.locale@),
                ("vnp_OrderInfo"@, params.order_info@),
                ("vnp_OrderType"@, "other"@),
                ("vnp_ReturnUrl"@, params.return_url@),
                ("vnp_SecureHash"@, signature),
                ("vnp_TmnCode"@, params.tmn_code@),
                ("vnp_TxnRef"@, params.txn_ref@),
                ("vnp_Version"@, "2.1.0"@),
            ]
        },
{
}

/// The parameters of any payment are written under twelve names in the order of the names, and its
/// URL adds to them the signature, at the place of its name, which is the HMAC-SHA512 of their
/// query string.
pub proof fn lemma_parameters_written(
    base_url: Seq<char>,
    params: VnpayPaymentParams,
    secret: Seq<char>,
)
    ensures
        ({
            let written = seq![
                ("vnp_Amount"@, text::decimal(params.amount_x100 as int)),
                ("vnp_Command"@, "pay"@),
                ("vnp_CreateDate"@, params.create_date@),
                ("vnp_CurrCode"@, "VND"@),
                ("vnp_IpAddr"@, params.ip_addr@),
                ("vnp_Locale"@, params.locale@),
                ("vnp_OrderInfo"@, params.order_info@),
                ("vnp_OrderType"@, "other"@),
                ("vnp_ReturnUrl"@, params.return_url@),
                ("vnp_TmnCode"@, params.tmn_code@),
                ("vnp_TxnRef"@, params.txn_ref@),
                ("vnp_Version"@, "2.1.0"@),
            ];
            let signature = codec::hex_text(
                signing::hmac_sha512(
                    encode_utf8(secret),
                    encode_utf8(codec::query_text(written)),
                ),
            );
            &&& transformers::payment_entries(params@) == written
            &&& transformers::payment_message(params@) == codec::query_text(written)
            &&& transformers::redirect_url(base_url, params@, secret) == base_url
                + "paymentv2/vpcpay.html"@ + seq!['?'] + codec::query_text(
                params::insert_entry(written, "vnp_SecureHash"@, signature),
            )
        }),
{
    let p = params@;
    let signature = signing::signature_sha512(secret, transformers::payment_message(p));
    let inserted = params::insert_entry(
        transformers::payment_entries(p),
        "vnp_SecureHash"@,
        signature,
    );
    lemma_hash_added(p, signature);
    assert(codec::query_text(transformers::signed_payment_entries(p, signature))
        == codec::query_text(inserted));
}

/// The signed parameters are the unsigned ones with the signature set among them.
proof fn lemma_hash_added(p: transformers::PaymentFields, signature: Seq<char>)
    ensures
        transformers::signed_payment_entries(p, signature) == params::insert_entry(
            transformers::payment_entries(p),
            "vnp_SecureHash"@,
            signature,
        ),
{
    laws::lemma_signed_payment_entries(p, signature);
}

/// A payment is sent to VNPay, by URL and by form, wherever it can be put into parameters whose
/// query string can be signed. Otherwise the error is that of the parameters, or that they could
/// not be signed.
pub proof fn lemma_payment_sent(
    base_url: Seq<char>,
    data: PaymentsAuthorizeRouterData,
    unix_seconds: int,
    params: Result<VnpayPaymentParams, ConnectorError>,
    built: Result<Option<Request>, ConnectorError>,
    answered: Result<PaymentsAuthorizeRouterData, ConnectorError>,
)
    requires
        transformers::payment_outcome(data, data.request.amount as int, unix_seconds, params),
        vnpay::authorize_request_outcome(base_url, data, unix_seconds, built),
        vnpay::redirection_outcome(data, unix_seconds, answered),
    ensures
        params is Err ==> built is Err && answered is Err && params->Err_0.same(built->Err_0)
            && params->Err_0.same(answered->Err_0),
        params is Ok && data.connector_auth_type->BodyKey_api_key@.len() <= 1000000
            && laws::short_payment(params->Ok_0@) ==> built is Ok && answered is Ok,
        params is Ok && built is Err ==> built->Err_0 is RequestEncodingFailed,
        params is Ok && answered is Err ==> answered->Err_0 is RequestEncodingFailed,
        built matches Ok(request) ==> request is Some,
{
    if params is Ok && data.connector_auth_type->BodyKey_api_key@.len() <= 1000000
        && laws::short_payment(params->Ok_0@) {
        laws::lemma_short_payment_is_signable(
            data.connector_auth_type->BodyKey_api_key@,
            params->Ok_0@,
        );
    }
}

// ---- asking for the state of a payment ----

/// What a request for the state of a payment says: the name under which it is made, the terminal,
/// the transaction, and when it was in Vietnam, seven hours ahead of UTC. It is signed, with
/// HMAC-SHA512 under the first key of the credentials, for all that it says.
pub proof fn lemma_query_parameters(
    data: PaymentsSyncRouterData,
    unix_seconds: int,
    request_id: Seq<char>,
    query: VnpayQueryRequest,
    t: CivilTime,
)
    requires
        transformers::query_outcome(data, unix_seconds, request_id, Ok(query)),
        t.valid(),
        t.seconds() == unix_seconds + 7 * 3600,
    ensures
        query.request_id@ == request_id,
        query.version@ == "2.1.0"@,
        query.command@ == "querydr"@,
        query.ip_addr@ == "127.0.0.1"@,
        data.connector_auth_type matches ConnectorAuthType::BodyKey { key1, .. } && query.tmn_code@
            == key1@,
        data.request.connector_transaction_id matches ResponseId::ConnectorTransactionId(id)
            && query.txn_ref@ == id@ && query.order_info@ == "Kiem tra GD "@ + id@,
        query.create_date@ == text::zero_padded(t.year as int, 4) + text::zero_padded(
            t.month as int,
            2,
        ) + text::zero_padded(t.day as int, 2) + text::zero_padded(t.hour as int, 2)
            + text::zero_padded(t.minute as int, 2) + text::zero_padded(t.second as int, 2),
        query.trans_date@ == query.create_date@,
        query.secure_hash@ == codec::hex_text(
            signing::hmac_sha512(
                encode_utf8(data.connector_auth_type->BodyKey_api_key@),
                encode_utf8(
                    codec::query_text(
                        seq![
                            ("vnp_Command"@, query.command@),
                            ("vnp_CreateDate"@, query.create_date@),
                            ("vnp_IpAddr"@, query.ip_addr@),
                            ("vnp_OrderInfo"@, query.order_info@),
                            ("vnp_RequestId"@, query.request_id@),
                            ("vnp_TmnCode"@, query.tmn_code@),
                            ("vnp_TransDate"@, query.trans_date@),
                            ("vnp_TxnRef"@, query.txn_ref@),
                            ("vnp_Version"@, query.version@),
                        ],
                    ),
                ),
            ),
        ),
{
    lemma_time_shown(unix_seconds, t);
}

/// When VNPay is asked for the state of a payment, and which error comes otherwise: first the
/// credentials are looked at, then the name of the transaction. Then a request fails only where
/// its date cannot be written or it cannot be signed.
pub proof fn lemma_query_accepted(
    data: PaymentsSyncRouterData,
    unix_seconds: int,
    request_id: Seq<char>,
    r: Result<VnpayQueryRequest, ConnectorError>,
)
    requires
        transformers::query_outcome(data, unix_seconds, request_id, r),
    ensures
        r is Ok ==> data.connector_auth_type is BodyKey
            && data.request.connector_transaction_id is ConnectorTransactionId && -377705116800
            <= unix_seconds <= 253402275599,
        data.connector_auth_type is BodyKey
            && data.request.connector_transaction_id is ConnectorTransactionId && -377705116800
            <= unix_seconds <= 253402275599
            && data.connector_auth_type->BodyKey_api_key@.len() <= 1000000
            && data.connector_auth_type->BodyKey_key1@.len() <= 1000000
            && data.request.connector_transaction_id->ConnectorTransactionId_0@.len() <= 900000
            && request_id.len() <= 1000000 ==> r is Ok,
        r matches Err(e) ==> {
            &&& e is FailedToObtainAuthType <==> !(data.connector_auth_type is BodyKey)
            &&& e is MissingConnectorTransactionID <==> data.connector_auth_type is BodyKey && !(
            data.request.connector_transaction_id is ConnectorTransactionId)
            &&& e is FailedToObtainAuthType || e is MissingConnectorTransactionID
                || e is RequestEncodingFailed
        },
{
    if transformers::queryable(data) && clock::in_calendar(unix_seconds)
        && data.connector_auth_type->BodyKey_api_key@.len() <= 1000000
        && data.connector_auth_type->BodyKey_key1@.len() <= 1000000
        && data.request.connector_transaction_id->ConnectorTransactionId_0@.len() <= 900000
        && request_id.len() <= 1000000 {
        lemma_short_query(data, unix_seconds, request_id);
    }
}

proof fn lemma_short_query(data: PaymentsSyncRouterData, unix_seconds: int, request_id: Seq<char>)
    requires
        clock::in_calendar(unix_seconds),
        data.connector_auth_type->BodyKey_api_key@.len() <= 1000000,
        data.connector_auth_type->BodyKey_key1@.len() <= 1000000,
        data.request.connector_transaction_id->ConnectorTransactionId_0@.len() <= 900000,
        request_id.len() <= 1000000,
    ensures
        signing::signable_sha512(
            data.connector_auth_type->BodyKey_api_key@,
            transformers::query_message(
                transformers::unsigned_query(data, unix_seconds, request_id),
            ),
        ),
{
    let q = transformers::unsigned_query(data, unix_seconds, request_id);
    reveal_strlit("vnp_Command");
    reveal_strlit("vnp_CreateDate");
    reveal_strlit("vnp_IpAddr");
    reveal_strlit("vnp_OrderInfo");
    reveal_strlit("vnp_RequestId");
    reveal_strlit("vnp_TmnCode");
    reveal_strlit("vnp_TransDate");
    reveal_strlit("vnp_TxnRef");
    reveal_strlit("vnp_Version");
    reveal_strlit("querydr");
    reveal_strlit("127.0.0.1");
    reveal_strlit("Kiem tra GD ");
    reveal_strlit("2.1.0");
    clock::lemma_civil_time(unix_seconds + 25200);
    let t = clock::vietnam_time(unix_seconds);
    text::lemma_zero_padded_reads_back(t.year as int, 4);
    text::lemma_zero_padded_reads_back(t.month as int, 2);
    text::lemma_zero_padded_reads_back(t.day as int, 2);
    text::lemma_zero_padded_reads_back(t.hour as int, 2);
    text::lemma_zero_padded_reads_back(t.minute as int, 2);
    text::lemma_zero_padded_reads_back(t.second as int, 2);
    text::lemma_decimal_length(t.year as int);
    text::lemma_decimal_length(t.month as int);
    text::lemma_decimal_length(t.day as int);
    text::lemma_decimal_length(t.hour as int);
    text::lemma_decimal_length(t.minute as int);
    text::lemma_decimal_length(t.second as int);
    assert(q.create_date.len() <= 200);
    codec::lemma_query_text_length(transformers::query_entries(q), 1000000);
    signing::lemma_signable(
        data.connector_auth_type->BodyKey_api_key@,
        transformers::query_message(q),
    );
}

/// The request for the state of a payment is posted as JSON to the place where VNPay answers, and
/// carries the query that is made at the same time under the same name. It fails as the query
/// does.
pub proof fn lemma_query_posted(
    base_url: Seq<char>,
    data: PaymentsSyncRouterData,
    unix_seconds: int,
    request_id: Seq<char>,
    query: Result<VnpayQueryRequest, ConnectorError>,
    built: Result<Option<Request>, ConnectorError>,
)
    requires
        transformers::query_outcome(data, unix_seconds, request_id, query),
        vnpay::sync_request_outcome(base_url, data, unix_seconds, request_id, built),
    ensures
        built is Ok <==> query is Ok,
        built matches Err(e) ==> e.same(query->Err_0),
        built matches Ok(request) ==> request matches Some(request) && request.method
            == Method::Post && request.url@ == base_url + "merchant_webapi/api/transaction"@
            && request.default_headers && params::entries_of(request.headers@) == seq![
            ("Content-Type"@, "application/json; charset=UTF-8"@),
        ] && (request.body matches Some(RequestContent::Json(sent)) && sent@ == query->Ok_0@),
{
}

/// The body of a request for the state of a payment is the query that is made at the same time
/// under the same name.
pub proof fn lemma_query_body(
    data: PaymentsSyncRouterData,
    unix_seconds: int,
    request_id: Seq<char>,
    query: Result<VnpayQueryRequest, ConnectorError>,
    body: Result<RequestContent, ConnectorError>,
)
    requires
        transformers::query_outcome(data, unix_seconds, request_id, query),
        vnpay::query_body_outcome(data, unix_seconds, request_id, body),
    ensures
        body is Ok <==> query is Ok,
        body matches Err(e) ==> e.same(query->Err_0),
        body matches Ok(content) ==> (content matches RequestContent::Json(sent) && sent@
            == query->Ok_0@),
{
}

/// What VNPay's answer makes of a payment: charged on "00" alone, pending on "07" alone, and
/// failed on every other code. The transaction has VNPay's number, or none, and the order's name
/// as its reference. Nothing but the status and the response changes. An answer that cannot be
/// read is an error.
pub proof fn lemma_answer_taken_in(
    data: PaymentsSyncRouterData,
    answer: Option<VnpayQueryResponse>,
    r: Result<PaymentsSyncRouterData, ConnectorError>,
)
    requires
        vnpay::sync_outcome(data, answer, r),
    ensures
        answer is None ==> r is Err && r->Err_0 is ResponseDeserializationFailed,
        answer matches Some(answer) ==> r is Ok && {
            let synced = r->Ok_0;
            &&& synced == (PaymentsSyncRouterData {
                status: synced.status,
                response: synced.response,
                ..data
            })
            &&& synced.status == AttemptStatus::Charged <==> answer.response_code@ == "00"@
            &&& synced.status == AttemptStatus::Pending <==> answer.response_code@ == "07"@
            &&& synced.status == AttemptStatus::Failure <==> answer.response_code@ != "00"@
                && answer.response_code@ != "07"@
            &&& synced.response matches Ok(
                PaymentsResponseData::TransactionResponse {
                    resource_id: ResponseId::ConnectorTransactionId(id),
                    redirection_data: None,
                    mandate_reference: None,
                    connector_metadata: None,
                    network_txn_id: None,
                    connector_response_reference_id,
                    incremental_authorization_allowed: None,
                    authentication_data: None,
                    charges: None,
                },
            )
            &&& answer.transaction_no matches Some(number) ==> id@ == number@
            &&& answer.transaction_no is None ==> id@.len() == 0
            &&& connector_response_reference_id == answer.txn_ref
        },
{
    if answer is Some {
        lemma_response_codes(answer->0.response_code@);
    }
}

// ---- response codes ----

/// What a response code means: "00" alone is a charge, "07" alone is pending, "24" alone voids a
/// payment in a report, and every other code is a failure.
pub proof fn lemma_response_codes(code: Seq<char>)
    ensures
        transformers::query_status(code) == AttemptStatus::Charged <==> code == "00"@,
        transformers::query_status(code) == AttemptStatus::Pending <==> code == "07"@,
        transformers::query_status(code) == AttemptStatus::Failure <==> code != "00"@ && code
            != "07"@,
        transformers::ipn_status(code) == AttemptStatus::Charged <==> code == "00"@,
        transformers::ipn_status(code) == AttemptStatus::Pending <==> code == "07"@,
        transformers::ipn_status(code) == AttemptStatus::Voided <==> code == "24"@,
        transformers::ipn_status(code) == AttemptStatus::Failure <==> code != "00"@ && code
            != "07"@ && code != "24"@,
{
    lemma_codes_differ();
}

proof fn lemma_codes_differ()
    ensures
        "00"@ != "07"@,
        "00"@ != "24"@,
        "07"@ != "24"@,
{
    reveal_strlit("00");
    reveal_strlit("07");
    reveal_strlit("24");
    assert("00"@[1] != "07"@[1]);
    assert("00"@[0] != "24"@[0]);
    assert("07"@[0] != "24"@[0]);
}

/// A notification reports success exactly where its response code is "00", cancellation exactly
/// where it is "24", and failure with every other code and without one. Nothing else in the
/// notification matters.
pub proof fn lemma_event_by_code(entries: Seq<Entry>)
    ensures
        vnpay::webhook_event(entries) == IncomingWebhookEvent::PaymentIntentSuccess
            <==> params::lookup(entries, "vnp_ResponseCode"@) == Some("00"@),
        vnpay::webhook_event(entries) == IncomingWebhookEvent::PaymentIntentCancelled
            <==> params::lookup(entries, "vnp_ResponseCode"@) == Some("24"@),
        vnpay::webhook_event(entries) == IncomingWebhookEvent::PaymentIntentFailure
            <==> params::lookup(entries, "vnp_ResponseCode"@) != Some("00"@) && params::lookup(
            entries,
            "vnp_ResponseCode"@,
        ) != Some("24"@),
{
    lemma_codes_differ();
}

// ---- notifications ----

/// A notification is about the payment that `vnp_TxnRef` names, whatever else it holds. Without
/// that name it is about none.
pub proof fn lemma_reference_by_name(
    entries: Seq<Entry>,
    r: Result<ObjectReferenceId, ConnectorError>,
)
    requires
        vnpay::reference_outcome(entries, r),
    ensures
        params::lookup(entries, "vnp_TxnRef"@) matches Some(name) ==> (r matches Ok(
            ObjectReferenceId::PaymentId(PaymentIdType::ConnectorTransactionId(id)),
        ) && id@ == name),
        params::lookup(entries, "vnp_TxnRef"@) is None ==> (r matches Err(e)
            && e is WebhookReferenceIdNotFound),
        vnpay::webhook_reference(entries) == params::lookup(entries, "vnp_TxnRef"@),
{
}

/// Two notifications that agree on `vnp_TxnRef` are about the same payment.
pub proof fn lemma_same_name_same_payment(
    a: Seq<Entry>,
    b: Seq<Entry>,
    first: Result<ObjectReferenceId, ConnectorError>,
    second: Result<ObjectReferenceId, ConnectorError>,
)
    requires
        params::lookup(a, "vnp_TxnRef"@) == params::lookup(b, "vnp_TxnRef"@),
        vnpay::reference_outcome(a, first),
        vnpay::reference_outcome(b, second),
    ensures
        first is Ok <==> second is Ok,
        first matches Ok(ObjectReferenceId::PaymentId(PaymentIdType::ConnectorTransactionId(x)))
            ==> (second matches Ok(
            ObjectReferenceId::PaymentId(PaymentIdType::ConnectorTransactionId(y)),
        ) && x@ == y@),
        first matches Err(e) ==> e.same(second->Err_0),
{
}

/// A notification is signed by what `vnp_SecureHash` holds, whatever else it holds: where that is
/// the hexadecimal text of some bytes, the signature is these bytes. Without it, and where it is
/// no hexadecimal text, there is none.
pub proof fn lemma_signature_by_name(
    entries: Seq<Entry>,
    bytes: Seq<u8>,
    r: Result<Vec<u8>, ConnectorError>,
)
    requires
        vnpay::signature_outcome(entries, r),
    ensures
        params::lookup(entries, "vnp_SecureHash"@) == Some(codec::hex_text(bytes)) ==> (
        r matches Ok(signature) && signature@ == bytes),
        params::lookup(entries, "vnp_SecureHash"@) matches Some(hash) ==> (r is Ok
            <==> codec::hex_bytes(hash) is Some),
        params::lookup(entries, "vnp_SecureHash"@) is None ==> r is Err,
        r matches Err(e) ==> e is WebhookSignatureNotFound,
{
    codec::lemma_hex_round_trip(bytes);
}

/// The text that the signature of a notification covers is the query string of the parameters in
/// the order of their names, each with its last value, and none left out but `vnp_SecureHash` and
/// `vnp_SecureHashType`.
pub proof fn lemma_message_covers_all(entries: Seq<Entry>, covered: Seq<Entry>)
    requires
        params::sorted(covered),
        params::lookup(covered, "vnp_SecureHash"@) is None,
        params::lookup(covered, "vnp_SecureHashType"@) is None,
        forall|key: Seq<char>|
            key != "vnp_SecureHash"@ && key != "vnp_SecureHashType"@ ==> #[trigger] params::lookup(
                covered,
                key,
            ) == params::lookup(entries, key),
    ensures
        vnpay::webhook_message(entries) == codec::query_text(covered),
{
    let collected = params::sorted_entries(entries);
    let left = params::without(collected, "vnp_SecureHash"@, "vnp_SecureHashType"@);
    params::lemma_sorted_entries(entries);
    params::lemma_without(collected, "vnp_SecureHash"@, "vnp_SecureHashType"@);
    assert forall|key: Seq<char>| #[trigger]
        params::lookup(left, key) == params::lookup(covered, key) by {
        if key != "vnp_SecureHash"@ && key != "vnp_SecureHashType"@ {
            assert(params::lookup(covered, key) == params::lookup(entries, key));
            assert(params::lookup(collected, key) == params::lookup(entries, key));
        }
    }
    params::lemma_sorted_unique(left, covered);
}

// ---- errors ----

/// An answer that is an error is reported with its status code and, where it is a text in UTF-8,
/// with that text as the reason. Nothing else is said of it.
pub proof fn lemma_error_reported(res: Response, error: ErrorResponse, text: Seq<char>)
    requires
        vnpay::error_outcome(res, error),
    ensures
        res.response@ == encode_utf8(text) ==> (error.reason matches Some(reason) && reason@
            == text),
        !valid_utf8(res.response@) ==> error.reason is None,
        error.status_code == res.status_code,
        error.code@ == "VNPAY_ERROR"@,
        error.message@ == "VNPay error"@,
        error == (ErrorResponse {
            attempt_status: None,
            connector_transaction_id: None,
            connector_response_reference_id: None,
            network_advice_code: None,
            network_decline_code: None,
            network_error_message: None,
            connector_metadata: None,
            ..error
        }),
{
    encode_utf8_valid_utf8(text);
    encode_utf8_decode_utf8(text);
}

} // verus!

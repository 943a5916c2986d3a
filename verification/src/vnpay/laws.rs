//! What holds of VNPay's requests, redirects and notifications taken together.
use vstd::prelude::*;
use vstd::string::*;
use vstd::utf8::*;

use crate::clock;
use crate::clock::CivilTime;
use crate::codec;
use crate::params;
use crate::params::Entry;
use crate::signing;
use crate::text;
use crate::types::{
    AttemptStatus, ConnectorError, IncomingWebhookEvent, PaymentsAuthorizeRouterData,
    PaymentsResponseData, PaymentsSyncRouterData, RedirectForm, Request,
};
use crate::vnpay;
use crate::vnpay::transformers;
use crate::vnpay::transformers::{PaymentFields, VnpayPaymentParams};

verus! {

// ---- signed parameters ----

/// The parameters of a payment are sorted by name, and their names need no encoding.
pub proof fn lemma_payment_entries(p: PaymentFields)
    ensures
        params::sorted(transformers::payment_entries(p)),
        codec::plain_keys(transformers::payment_entries(p)),
{
    transformers::lemma_names_ascend();
    let e = Seq::<Entry>::empty();
    params::lemma_push_sorted(e, "vnp_Amount"@, text::decimal(p.amount_x100));
    let e = e.push(("vnp_Amount"@, text::decimal(p.amount_x100)));
    params::lemma_push_sorted(e, "vnp_Command"@, "pay"@);
    let e = e.push(("vnp_Command"@, "pay"@));
    params::lemma_push_sorted(e, "vnp_CreateDate"@, p.create_date);
    let e = e.push(("vnp_CreateDate"@, p.create_date));
    params::lemma_push_sorted(e, "vnp_CurrCode"@, "VND"@);
    let e = e.push(("vnp_CurrCode"@, "VND"@));
    params::lemma_push_sorted(e, "vnp_IpAddr"@, p.ip_addr);
    let e = e.push(("vnp_IpAddr"@, p.ip_addr));
    params::lemma_push_sorted(e, "vnp_Locale"@, p.locale);
    let e = e.push(("vnp_Locale"@, p.locale));
    params::lemma_push_sorted(e, "vnp_OrderInfo"@, p.order_info);
    let e = e.push(("vnp_OrderInfo"@, p.order_info));
    params::lemma_push_sorted(e, "vnp_OrderType"@, "other"@);
    let e = e.push(("vnp_OrderType"@, "other"@));
    params::lemma_push_sorted(e, "vnp_ReturnUrl"@, p.return_url);
    let e = e.push(("vnp_ReturnUrl"@, p.return_url));
    params::lemma_push_sorted(e, "vnp_TmnCode"@, p.tmn_code);
    let e = e.push(("vnp_TmnCode"@, p.tmn_code));
    params::lemma_push_sorted(e, "vnp_TxnRef"@, p.txn_ref);
    let e = e.push(("vnp_TxnRef"@, p.txn_ref));
    params::lemma_push_sorted(e, "vnp_Version"@, "2.1.0"@);
    let e = e.push(("vnp_Version"@, "2.1.0"@));
    assert(e =~= transformers::payment_entries(p));
    lemma_plain_names();
}

/// The names that VNPay gives to the parameters of a payment need no encoding.
proof fn lemma_plain_names()
    ensures
        codec::plain_key("vnp_Amount"@),
        codec::plain_key("vnp_Command"@),
        codec::plain_key("vnp_CreateDate"@),
        codec::plain_key("vnp_CurrCode"@),
        codec::plain_key("vnp_IpAddr"@),
        codec::plain_key("vnp_Locale"@),
        codec::plain_key("vnp_OrderInfo"@),
        codec::plain_key("vnp_OrderType"@),
        codec::plain_key("vnp_ReturnUrl"@),
        codec::plain_key("vnp_SecureHash"@),
        codec::plain_key("vnp_TmnCode"@),
        codec::plain_key("vnp_TxnRef"@),
        codec::plain_key("vnp_Version"@),
{
    reveal_strlit("vnp_Amount");
    reveal_strlit("vnp_Command");
    reveal_strlit("vnp_CreateDate");
    reveal_strlit("vnp_CurrCode");
    reveal_strlit("vnp_IpAddr");
    reveal_strlit("vnp_Locale");
    reveal_strlit("vnp_OrderInfo");
    reveal_strlit("vnp_OrderType");
    reveal_strlit("vnp_ReturnUrl");
    reveal_strlit("vnp_SecureHash");
    reveal_strlit("vnp_TmnCode");
    reveal_strlit("vnp_TxnRef");
    reveal_strlit("vnp_Version");
}

/// The signature is one more parameter of a payment: the signed parameters are the unsigned
/// ones with `vnp_SecureHash` set, and taking it out gives the unsigned ones back.
pub proof fn lemma_signed_payment_entries(p: PaymentFields, signature: Seq<char>)
    ensures
        transformers::signed_payment_entries(p, signature) == params::insert_entry(
            transformers::payment_entries(p),
            "vnp_SecureHash"@,
            signature,
        ),
        params::sorted(transformers::signed_payment_entries(p, signature)),
        codec::plain_keys(transformers::signed_payment_entries(p, signature)),
        params::without(
            transformers::signed_payment_entries(p, signature),
            "vnp_SecureHash"@,
            "vnp_SecureHashType"@,
        ) == transformers::payment_entries(p),
{
    lemma_payment_entries(p);
    lemma_no_hash(p);
    lemma_signature_position(p, signature);
    let unsigned = transformers::payment_entries(p);
    let signed = transformers::signed_payment_entries(p, signature);
    lemma_hash_inserted(unsigned, signed, signature);
    lemma_hash_removed(unsigned, signed, signature);
}

/// Setting the signature among sorted parameters.
proof fn lemma_hash_inserted(unsigned: Seq<Entry>, signed: Seq<Entry>, signature: Seq<char>)
    requires
        params::sorted(unsigned),
        signed == params::insert_entry(unsigned, "vnp_SecureHash"@, signature),
    ensures
        params::sorted(signed),
        params::lookup(signed, "vnp_SecureHash"@) == Some(signature),
        forall|key: Seq<char>|
            key != "vnp_SecureHash"@ ==> #[trigger] params::lookup(signed, key) == params::lookup(
                unsigned,
                key,
            ),
{
    params::lemma_insert(unsigned, "vnp_SecureHash"@, signature);
}

/// Taking the signature out again.
proof fn lemma_hash_removed(unsigned: Seq<Entry>, signed: Seq<Entry>, signature: Seq<char>)
    requires
        params::sorted(unsigned),
        params::lookup(unsigned, "vnp_SecureHash"@) is None,
        params::lookup(unsigned, "vnp_SecureHashType"@) is None,
        signed == params::insert_entry(unsigned, "vnp_SecureHash"@, signature),
    ensures
        params::without(signed, "vnp_SecureHash"@, "vnp_SecureHashType"@) == unsigned,
{
    params::lemma_insert_without(
        unsigned,
        "vnp_SecureHash"@,
        signature,
        "vnp_SecureHashType"@,
    );
}

/// Where the signature stands among the parameters of a payment.
proof fn lemma_signature_position(p: PaymentFields, signature: Seq<char>)
    ensures
        transformers::signed_payment_entries(p, signature) == params::insert_entry(
            transformers::payment_entries(p),
            "vnp_SecureHash"@,
            signature,
        ),
        codec::plain_keys(transformers::signed_payment_entries(p, signature)),
{
    let unsigned = transformers::payment_entries(p);
    let signed = transformers::signed_payment_entries(p, signature);
    assert(codec::plain_keys(signed)) by {
        lemma_plain_names();
    }
    assert(signed == params::insert_entry(unsigned, "vnp_SecureHash"@, signature)) by {
        lemma_payment_entries(p);
        transformers::lemma_names_ascend();
        params::lemma_insert_between(unsigned, "vnp_SecureHash"@, signature, 9);
        assert(signed =~= unsigned.take(9) + seq![("vnp_SecureHash"@, signature)] + unsigned.skip(
            9,
        ));
    }
}

/// The parameters of a payment hold no signature before they are signed.
proof fn lemma_no_hash(p: PaymentFields)
    ensures
        params::lookup(transformers::payment_entries(p), "vnp_SecureHash"@) is None,
        params::lookup(transformers::payment_entries(p), "vnp_SecureHashType"@) is None,
{
    let unsigned = transformers::payment_entries(p);
    lemma_payment_entries(p);
    transformers::lemma_names_ascend();
    assert forall|i: int| 0 <= i < unsigned.len() implies (#[trigger] unsigned[i]).0
        != "vnp_SecureHash"@ && unsigned[i].0 != "vnp_SecureHashType"@ by {
        params::lemma_text_less_irreflexive(unsigned[i].0);
        params::lemma_text_less_transitive(
            unsigned[8].0,
            "vnp_SecureHash"@,
            "vnp_SecureHashType"@,
        );
        if i < 8 {
            assert(params::text_less(unsigned[i].0, unsigned[8].0));
            params::lemma_text_less_transitive(
                unsigned[i].0,
                unsigned[8].0,
                "vnp_SecureHash"@,
            );
            params::lemma_text_less_transitive(
                unsigned[i].0,
                unsigned[8].0,
                "vnp_SecureHashType"@,
            );
        } else if i > 9 {
            assert(params::text_less(unsigned[9].0, unsigned[i].0));
            params::lemma_text_less_transitive(
                "vnp_SecureHash"@,
                unsigned[9].0,
                unsigned[i].0,
            );
            params::lemma_text_less_transitive(
                "vnp_SecureHashType"@,
                unsigned[9].0,
                unsigned[i].0,
            );
        }
    }
    params::lemma_lookup_found(unsigned, "vnp_SecureHash"@);
    params::lemma_lookup_found(unsigned, "vnp_SecureHashType"@);
}

/// A request for the state of a payment is signed for exactly the parameters that it holds,
/// which are sorted by name.
pub proof fn lemma_query_signature(
    data: PaymentsSyncRouterData,
    unix_seconds: int,
    request_id: Seq<char>,
)
    ensures
        transformers::query_fields(data, unix_seconds, request_id).secure_hash
            == signing::signature_sha512(
            data.connector_auth_type->BodyKey_api_key@,
            transformers::query_message(
                transformers::query_fields(data, unix_seconds, request_id),
            ),
        ),
        params::sorted(
            transformers::query_entries(
                transformers::query_fields(data, unix_seconds, request_id),
            ),
        ),
{
    let q = transformers::query_fields(data, unix_seconds, request_id);
    assert(transformers::query_entries(q) =~= transformers::query_entries(
        transformers::unsigned_query(data, unix_seconds, request_id),
    ));
    transformers::lemma_names_ascend();
    let e = Seq::<Entry>::empty();
    params::lemma_push_sorted(e, "vnp_Command"@, q.command);
    let e = e.push(("vnp_Command"@, q.command));
    params::lemma_push_sorted(e, "vnp_CreateDate"@, q.create_date);
    let e = e.push(("vnp_CreateDate"@, q.create_date));
    params::lemma_push_sorted(e, "vnp_IpAddr"@, q.ip_addr);
    let e = e.push(("vnp_IpAddr"@, q.ip_addr));
    params::lemma_push_sorted(e, "vnp_OrderInfo"@, q.order_info);
    let e = e.push(("vnp_OrderInfo"@, q.order_info));
    params::lemma_push_sorted(e, "vnp_RequestId"@, q.request_id);
    let e = e.push(("vnp_RequestId"@, q.request_id));
    params::lemma_push_sorted(e, "vnp_TmnCode"@, q.tmn_code);
    let e = e.push(("vnp_TmnCode"@, q.tmn_code));
    params::lemma_push_sorted(e, "vnp_TransDate"@, q.trans_date);
    let e = e.push(("vnp_TransDate"@, q.trans_date));
    params::lemma_push_sorted(e, "vnp_TxnRef"@, q.txn_ref);
    let e = e.push(("vnp_TxnRef"@, q.txn_ref));
    params::lemma_push_sorted(e, "vnp_Version"@, q.version);
    let e = e.push(("vnp_Version"@, q.version));
    assert(e =~= transformers::query_entries(q));
}

/// Whether the texts of a payment have at most a million characters each.
pub open spec fn short_payment(p: PaymentFields) -> bool {
    &&& p.tmn_code.len() <= 1000000
    &&& p.txn_ref.len() <= 1000000
    &&& p.order_info.len() <= 1000000
    &&& p.return_url.len() <= 1000000
    &&& p.ip_addr.len() <= 1000000
    &&& p.create_date.len() <= 1000000
    &&& p.locale.len() <= 1000000
    &&& i64::MIN <= p.amount_x100 <= i64::MAX
}

/// Every payment of ordinary length can be signed.
pub proof fn lemma_short_payment_is_signable(secret: Seq<char>, p: PaymentFields)
    requires
        short_payment(p),
        secret.len() <= 1000000,
    ensures
        signing::signable_sha512(secret, transformers::payment_message(p)),
{
    let entries = transformers::payment_entries(p);
    text::lemma_decimal_length(p.amount_x100);
    reveal_strlit("vnp_Amount");
    reveal_strlit("vnp_Command");
    reveal_strlit("vnp_CreateDate");
    reveal_strlit("vnp_CurrCode");
    reveal_strlit("vnp_IpAddr");
    reveal_strlit("vnp_Locale");
    reveal_strlit("vnp_OrderInfo");
    reveal_strlit("vnp_OrderType");
    reveal_strlit("vnp_ReturnUrl");
    reveal_strlit("vnp_TmnCode");
    reveal_strlit("vnp_TxnRef");
    reveal_strlit("vnp_Version");
    reveal_strlit("pay");
    reveal_strlit("VND");
    reveal_strlit("other");
    reveal_strlit("2.1.0");
    codec::lemma_query_text_length(entries, 1000000);
    signing::lemma_signable(secret, transformers::payment_message(p));
}

// ---- notifications ----

/// Whether the signature of a notification is the one that its parameters have under a secret.
pub open spec fn verifies(secret: Seq<char>, entries: Seq<Entry>) -> bool {
    vnpay::webhook_signature(entries) == Some(
        signing::hmac_sha512(
            encode_utf8(secret),
            encode_utf8(vnpay::webhook_message(entries)),
        ),
    )
}

/// A notification that holds signed parameters and their signature verifies, in whatever order
/// it holds them and whether or not it names the kind of the signature: what is checked is the
/// text that was signed.
pub proof fn lemma_notification_verifies(
    secret: Seq<char>,
    signed: Seq<Entry>,
    received: Seq<Entry>,
)
    requires
        params::sorted(signed),
        params::lookup(signed, "vnp_SecureHash"@) is None,
        params::lookup(signed, "vnp_SecureHashType"@) is None,
        params::lookup(received, "vnp_SecureHash"@) == Some(
            signing::signature_sha512(secret, codec::query_text(signed)),
        ),
        forall|key: Seq<char>|
            key != "vnp_SecureHash"@ && key != "vnp_SecureHashType"@ ==> #[trigger] params::lookup(
                received,
                key,
            ) == params::lookup(signed, key),
    ensures
        vnpay::webhook_message(received) == codec::query_text(signed),
        verifies(secret, received),
{
    let collected = params::sorted_entries(received);
    let left = params::without(collected, "vnp_SecureHash"@, "vnp_SecureHashType"@);
    params::lemma_sorted_entries(received);
    params::lemma_without(collected, "vnp_SecureHash"@, "vnp_SecureHashType"@);
    assert forall|key: Seq<char>| #[trigger]
        params::lookup(left, key) == params::lookup(signed, key) by {
        if key != "vnp_SecureHash"@ && key != "vnp_SecureHashType"@ {
            assert(params::lookup(received, key) == params::lookup(signed, key));
            assert(params::lookup(collected, key) == params::lookup(received, key));
        }
    }
    params::lemma_sorted_unique(left, signed);
    codec::lemma_hex_round_trip(
        signing::hmac_sha512(encode_utf8(secret), encode_utf8(codec::query_text(signed))),
    );
}

/// The parameters of a payment verify when they come back as they were sent, and name the
/// order that the payment was for.
pub proof fn lemma_payment_verifies(secret: Seq<char>, p: PaymentFields)
    ensures
        ({
            let signature = signing::signature_sha512(secret, transformers::payment_message(p));
            let sent = transformers::signed_payment_entries(p, signature);
            &&& vnpay::webhook_message(sent) == transformers::payment_message(p)
            &&& verifies(secret, sent)
            &&& vnpay::webhook_reference(sent) == Some(p.txn_ref)
        }),
{
    let signature = signing::signature_sha512(secret, transformers::payment_message(p));
    let sent = transformers::signed_payment_entries(p, signature);
    lemma_payment_entries(p);
    lemma_no_hash(p);
    lemma_signature_position(p, signature);
    lemma_signed_verifies(secret, transformers::payment_entries(p), sent);
    lemma_order_named(p, signature);
}

/// Sorted parameters verify once their signature is among them.
proof fn lemma_signed_verifies(secret: Seq<char>, unsigned: Seq<Entry>, sent: Seq<Entry>)
    requires
        params::sorted(unsigned),
        params::lookup(unsigned, "vnp_SecureHash"@) is None,
        params::lookup(unsigned, "vnp_SecureHashType"@) is None,
        sent == params::insert_entry(
            unsigned,
            "vnp_SecureHash"@,
            signing::signature_sha512(secret, codec::query_text(unsigned)),
        ),
    ensures
        vnpay::webhook_message(sent) == codec::query_text(unsigned),
        verifies(secret, sent),
{
    let signature = signing::signature_sha512(secret, codec::query_text(unsigned));
    lemma_hash_inserted(unsigned, sent, signature);
    lemma_notification_verifies(secret, unsigned, sent);
}

/// The signed parameters of a payment name its order.
proof fn lemma_order_named(p: PaymentFields, signature: Seq<char>)
    ensures
        params::lookup(transformers::signed_payment_entries(p, signature), "vnp_TxnRef"@) == Some(
            p.txn_ref,
        ),
{
    let signed = transformers::signed_payment_entries(p, signature);
    assert(signed[11] == ("vnp_TxnRef"@, p.txn_ref));
    assert(params::sorted(signed)) by {
        lemma_signed_payment_entries(p, signature);
    }
    params::lemma_lookup_sorted(signed, 11);
}

/// Two notifications that agree on every parameter are the same to the connector, in whatever
/// order they hold them.
pub proof fn lemma_order_is_irrelevant(a: Seq<Entry>, b: Seq<Entry>)
    requires
        forall|key: Seq<char>| #[trigger] params::lookup(a, key) == params::lookup(b, key),
    ensures
        vnpay::webhook_signature(a) == vnpay::webhook_signature(b),
        vnpay::webhook_message(a) == vnpay::webhook_message(b),
        vnpay::webhook_reference(a) == vnpay::webhook_reference(b),
        vnpay::webhook_event(a) == vnpay::webhook_event(b),
{
    params::lemma_sorted_entries(a);
    params::lemma_sorted_entries(b);
    assert forall|key: Seq<char>| #[trigger]
        params::lookup(params::sorted_entries(a), key) == params::lookup(
            params::sorted_entries(b),
            key,
        ) by {
        assert(params::lookup(a, key) == params::lookup(b, key));
    }
    params::lemma_sorted_unique(params::sorted_entries(a), params::sorted_entries(b));
    assert(params::lookup(a, "vnp_SecureHash"@) == params::lookup(b, "vnp_SecureHash"@));
    assert(params::lookup(a, "vnp_TxnRef"@) == params::lookup(b, "vnp_TxnRef"@));
    assert(params::lookup(a, "vnp_ResponseCode"@) == params::lookup(b, "vnp_ResponseCode"@));
}

/// The text that the signature of a notification covers determines all its parameters but
/// those that hold the signature and its kind: no parameter can change while the text stays
/// the same. The names of the parameters need no encoding.
pub proof fn lemma_message_determines_parameters(a: Seq<Entry>, b: Seq<Entry>, key: Seq<char>)
    requires
        codec::plain_keys(a),
        codec::plain_keys(b),
        vnpay::webhook_message(a) == vnpay::webhook_message(b),
        key != "vnp_SecureHash"@,
        key != "vnp_SecureHashType"@,
    ensures
        params::lookup(a, key) == params::lookup(b, key),
{
    let left = params::without(
        params::sorted_entries(a),
        "vnp_SecureHash"@,
        "vnp_SecureHashType"@,
    );
    let right = params::without(
        params::sorted_entries(b),
        "vnp_SecureHash"@,
        "vnp_SecureHashType"@,
    );
    params::lemma_sorted_entries(a);
    params::lemma_sorted_entries(b);
    params::lemma_without(params::sorted_entries(a), "vnp_SecureHash"@, "vnp_SecureHashType"@);
    params::lemma_without(params::sorted_entries(b), "vnp_SecureHash"@, "vnp_SecureHashType"@);
    lemma_plain_message(a);
    lemma_plain_message(b);
    codec::lemma_query_text_injective(left, right);
    assert(params::lookup(left, key) == params::lookup(params::sorted_entries(a), key));
    assert(params::lookup(right, key) == params::lookup(params::sorted_entries(b), key));
}

/// What is left of parameters whose names need no encoding are such parameters.
proof fn lemma_plain_message(a: Seq<Entry>)
    requires
        codec::plain_keys(a),
    ensures
        codec::plain_keys(
            params::without(
                params::sorted_entries(a),
                "vnp_SecureHash"@,
                "vnp_SecureHashType"@,
            ),
        ),
{
    let left = params::without(
        params::sorted_entries(a),
        "vnp_SecureHash"@,
        "vnp_SecureHashType"@,
    );
    params::lemma_sorted_entries(a);
    params::lemma_without(params::sorted_entries(a), "vnp_SecureHash"@, "vnp_SecureHashType"@);
    assert forall|i: int| 0 <= i < left.len() implies codec::plain_key(#[trigger] left[i].0) by {
        let key = left[i].0;
        params::lemma_lookup_sorted(left, i);
        assert(params::lookup(left, key) is Some);
        assert(params::lookup(params::sorted_entries(a), key) is Some);
        assert(params::lookup(a, key) is Some);
        params::lemma_lookup_found(a, key);
        let entry = (key, params::lookup(a, key)->0);
        let k = choose|k: int| 0 <= k < a.len() && a[k] == entry;
        assert(a[k].0 == key);
    }
}

// ---- what is made of a response code ----

/// A report and an answer with one response code mean the same for the payment, but for the
/// code of a payer who gave up: a report of it voids the payment, an answer fails it.
pub proof fn lemma_report_and_answer(code: Seq<char>)
    ensures
        code != "24"@ ==> transformers::ipn_status(code) == transformers::query_status(code),
        code == "24"@ ==> transformers::ipn_status(code) == AttemptStatus::Voided
            && transformers::query_status(code) == AttemptStatus::Failure,
{
    reveal_strlit("00");
    reveal_strlit("07");
    reveal_strlit("24");
    assert("00"@[0] != "24"@[0]);
    assert("07"@[0] != "24"@[0]);
}

/// The event of a notification fits what its response code means for the payment: success goes
/// with a charge, cancellation with a voided payment, and failure with the rest.
pub proof fn lemma_event_fits_status(entries: Seq<Entry>, code: Seq<char>)
    requires
        params::lookup(entries, "vnp_ResponseCode"@) == Some(code),
    ensures
        vnpay::webhook_event(entries) == IncomingWebhookEvent::PaymentIntentSuccess
            <==> transformers::ipn_status(code) == AttemptStatus::Charged,
        vnpay::webhook_event(entries) == IncomingWebhookEvent::PaymentIntentCancelled
            <==> transformers::ipn_status(code) == AttemptStatus::Voided,
        vnpay::webhook_event(entries) == IncomingWebhookEvent::PaymentIntentFailure
            <==> transformers::ipn_status(code) == AttemptStatus::Pending
            || transformers::ipn_status(code) == AttemptStatus::Failure,
{
    reveal_strlit("00");
    reveal_strlit("07");
    reveal_strlit("24");
    assert("00"@[0] != "24"@[0]);
    assert("07"@[0] != "24"@[0]);
    assert("00"@[1] != "07"@[1]);
}

// ---- redirects ----

/// The request that is built for a payment and the form that its payer is sent with are of one
/// mind: both or neither come about, and the query of the request's URL is the fields of the
/// form. The URL goes to the page at the connector's base URL, the form to the page where the
/// merchant's settings say.
pub proof fn lemma_request_and_form_agree(
    base_url: Seq<char>,
    data: PaymentsAuthorizeRouterData,
    unix_seconds: int,
    built: Result<Option<Request>, ConnectorError>,
    answered: Result<PaymentsAuthorizeRouterData, ConnectorError>,
)
    requires
        vnpay::authorize_request_outcome(base_url, data, unix_seconds, built),
        vnpay::redirection_outcome(data, unix_seconds, answered),
    ensures
        built is Ok <==> answered is Ok,
        built matches Ok(request) ==> answered->Ok_0.response matches Ok(
            PaymentsResponseData::TransactionResponse {
                redirection_data: Some(RedirectForm::Form { endpoint, method, form_fields }),
                ..
            },
        ) && method == request->0.method && request->0.url@ == transformers::payment_page(base_url)
            + seq!['?'] + codec::query_text(form_fields.entries()) && endpoint@
            == transformers::payment_page(vnpay::payment_base_url(data.connector_meta_data)),
        built matches Err(e) ==> e.same(answered->Err_0),
{
}

/// The signing secret does not reach the parameters of a payment: two payments that differ in
/// nothing else give the same parameters, or the same error, at one reading of the clock.
pub proof fn lemma_secret_stays_out_of_parameters(
    a: PaymentsAuthorizeRouterData,
    b: PaymentsAuthorizeRouterData,
    amount: int,
    unix_seconds: int,
    first: Result<VnpayPaymentParams, ConnectorError>,
    second: Result<VnpayPaymentParams, ConnectorError>,
)
    requires
        a.connector_auth_type is BodyKey,
        b.connector_auth_type is BodyKey,
        a.connector_auth_type->BodyKey_key1@ == b.connector_auth_type->BodyKey_key1@,
        a.connector_request_reference_id == b.connector_request_reference_id,
        a.request == b.request,
        transformers::payment_outcome(a, amount, unix_seconds, first),
        transformers::payment_outcome(b, amount, unix_seconds, second),
    ensures
        first is Ok <==> second is Ok,
        first matches Ok(params) ==> params@ == second->Ok_0@,
        first matches Err(e) ==> e.same(second->Err_0),
{
}

/// Whether an answer says nothing but to which form the payer is sent.
pub open spec fn only_redirects(answer: PaymentsAuthorizeRouterData) -> bool {
    &&& answer.response matches Ok(response)
    &&& response.plain()
    &&& response matches PaymentsResponseData::TransactionResponse {
        resource_id,
        redirection_data,
        connector_metadata,
        connector_response_reference_id,
        ..
    }
    &&& resource_id is NoResponseId
    &&& redirection_data matches Some(RedirectForm::Form { .. })
    &&& connector_metadata is None
    &&& connector_response_reference_id is None
}

/// Whether two answers send the payer to the same form.
pub open spec fn same_form(a: PaymentsAuthorizeRouterData, b: PaymentsAuthorizeRouterData) -> bool {
    &&& a.response matches Ok(
        PaymentsResponseData::TransactionResponse {
            redirection_data: Some(
                RedirectForm::Form { endpoint: page, method: how, form_fields: fields },
            ),
            ..
        },
    )
    &&& b.response matches Ok(
        PaymentsResponseData::TransactionResponse {
            redirection_data: Some(RedirectForm::Form { endpoint, method, form_fields }),
            ..
        },
    )
    &&& page@ == endpoint@
    &&& how == method
    &&& fields.entries() == form_fields.entries()
}

/// A payment is answered by what is asked and by the clock alone: at one reading of the clock
/// any two answers to it are the same. An answer changes nothing but the status and the
/// response, which says nothing but to which form the payer is sent. Wherever the parameters can
/// be signed, an error is the one that putting the payment into parameters gives.
pub proof fn lemma_one_answer(
    data: PaymentsAuthorizeRouterData,
    unix_seconds: int,
    first: Result<PaymentsAuthorizeRouterData, ConnectorError>,
    second: Result<PaymentsAuthorizeRouterData, ConnectorError>,
)
    requires
        vnpay::redirection_outcome(data, unix_seconds, first),
        vnpay::redirection_outcome(data, unix_seconds, second),
    ensures
        first is Ok <==> second is Ok,
        first matches Ok(answer) ==> {
            &&& answer.same_request(data)
            &&& answer.status == AttemptStatus::AuthenticationPending
            &&& only_redirects(answer)
            &&& answer.same_request(second->Ok_0)
            &&& answer.status == second->Ok_0.status
            &&& only_redirects(second->Ok_0)
            &&& same_form(answer, second->Ok_0)
        },
        first matches Err(e) ==> e.same(second->Err_0),
        first matches Err(e) ==> (signing::signable_sha512(
            data.connector_auth_type->BodyKey_api_key@,
            transformers::payment_message(
                transformers::payment_fields(data, data.request.amount as int, unix_seconds),
            ),
        ) ==> transformers::payment_outcome(data, data.request.amount as int, unix_seconds, Err(e))),
{
}

// ---- dates ----

/// A date of the years 0 to 9999 is written with fourteen digits: four for the year and two for
/// each of the rest.
pub proof fn lemma_datetime_digits(t: CivilTime)
    requires
        t.valid(),
        0 <= t.year <= 9999,
    ensures
        transformers::datetime_text(t) == seq![
            text::digit_char(t.year as int / 1000),
            text::digit_char(t.year as int / 100 % 10),
            text::digit_char(t.year as int / 10 % 10),
            text::digit_char(t.year as int % 10),
            text::digit_char(t.month as int / 10),
            text::digit_char(t.month as int % 10),
            text::digit_char(t.day as int / 10),
            text::digit_char(t.day as int % 10),
            text::digit_char(t.hour as int / 10),
            text::digit_char(t.hour as int % 10),
            text::digit_char(t.minute as int / 10),
            text::digit_char(t.minute as int % 10),
            text::digit_char(t.second as int / 10),
            text::digit_char(t.second as int % 10),
        ],
{
    text::lemma_four_digits(t.year as int);
    text::lemma_two_digits(t.month as int);
    text::lemma_two_digits(t.day as int);
    text::lemma_two_digits(t.hour as int);
    text::lemma_two_digits(t.minute as int);
    text::lemma_two_digits(t.second as int);
}

/// Where the digits of a date stand.
proof fn lemma_datetime_parts(t: CivilTime)
    requires
        t.valid(),
        0 <= t.year <= 9999,
    ensures
        ({
            let x = transformers::datetime_text(t);
            &&& x.len() == 14
            &&& x[0] == text::digit_char(t.year as int / 1000)
            &&& x[1] == text::digit_char(t.year as int / 100 % 10)
            &&& x[2] == text::digit_char(t.year as int / 10 % 10)
            &&& x[3] == text::digit_char(t.year as int % 10)
            &&& x[4] == text::digit_char(t.month as int / 10)
            &&& x[5] == text::digit_char(t.month as int % 10)
            &&& x[6] == text::digit_char(t.day as int / 10)
            &&& x[7] == text::digit_char(t.day as int % 10)
            &&& x[8] == text::digit_char(t.hour as int / 10)
            &&& x[9] == text::digit_char(t.hour as int % 10)
            &&& x[10] == text::digit_char(t.minute as int / 10)
            &&& x[11] == text::digit_char(t.minute as int % 10)
            &&& x[12] == text::digit_char(t.second as int / 10)
            &&& x[13] == text::digit_char(t.second as int % 10)
        }),
{
    lemma_datetime_digits(t);
}

/// No two dates of the years 0 to 9999 are written alike.
pub proof fn lemma_datetime_injective(a: CivilTime, b: CivilTime)
    requires
        a.valid(),
        b.valid(),
        0 <= a.year <= 9999,
        0 <= b.year <= 9999,
        transformers::datetime_text(a) == transformers::datetime_text(b),
    ensures
        a == b,
{
    lemma_datetime_parts(a);
    lemma_datetime_parts(b);
    let x = transformers::datetime_text(a);
    let y = transformers::datetime_text(b);
    lemma_same_four_digits(a.year as int, b.year as int, x, y);
    lemma_same_two_digits(a.month as int, b.month as int, x, y, 4);
    lemma_same_two_digits(a.day as int, b.day as int, x, y, 6);
    lemma_same_two_digits(a.hour as int, b.hour as int, x, y, 8);
    lemma_same_two_digits(a.minute as int, b.minute as int, x, y, 10);
    lemma_same_two_digits(a.second as int, b.second as int, x, y, 12);
}

/// Dates of the years 0 to 9999 are written in the order of time: the text of an earlier one
/// comes before that of a later one.
pub proof fn lemma_datetime_ordered(a: CivilTime, b: CivilTime)
    requires
        a.valid(),
        b.valid(),
        0 <= a.year <= 9999,
        0 <= b.year <= 9999,
        a.seconds() < b.seconds(),
    ensures
        params::text_less(transformers::datetime_text(a), transformers::datetime_text(b)),
{
    clock::lemma_earlier(a, b);
    lemma_datetime_parts(a);
    lemma_datetime_parts(b);
    let x = transformers::datetime_text(a);
    let y = transformers::datetime_text(b);
    if a.year != b.year {
        lemma_four_digits_less(a.year as int, b.year as int, x, y);
    } else if a.month != b.month {
        lemma_two_digits_less(a.month as int, b.month as int, x, y, 4);
    } else if a.day != b.day {
        lemma_two_digits_less(a.day as int, b.day as int, x, y, 6);
    } else if a.hour != b.hour {
        lemma_two_digits_less(a.hour as int, b.hour as int, x, y, 8);
    } else if a.minute != b.minute {
        lemma_two_digits_less(a.minute as int, b.minute as int, x, y, 10);
    } else {
        lemma_two_digits_less(a.second as int, b.second as int, x, y, 12);
    }
}

/// The dates that are written at two points in time keep their order, from the year 0 on.
pub proof fn lemma_dates_keep_order(first: int, second: int)
    requires
        clock::in_calendar(first),
        clock::in_calendar(second),
        first < second,
        clock::vietnam_time(first).year >= 0,
    ensures
        params::text_less(
            transformers::datetime_text(clock::vietnam_time(first)),
            transformers::datetime_text(clock::vietnam_time(second)),
        ),
{
    clock::lemma_civil_time(first + 25200);
    clock::lemma_civil_time(second + 25200);
    clock::lemma_earlier(clock::vietnam_time(first), clock::vietnam_time(second));
    lemma_datetime_ordered(clock::vietnam_time(first), clock::vietnam_time(second));
}

/// Texts that differ first in a number of two digits are ordered as the numbers are.
proof fn lemma_two_digits_less(m: int, n: int, x: Seq<char>, y: Seq<char>, i: int)
    requires
        0 <= m < n < 100,
        0 <= i < x.len() - 1,
        x.len() == y.len(),
        forall|k: int| 0 <= k < i ==> x[k] == y[k],
        x[i] == text::digit_char(m / 10),
        x[i + 1] == text::digit_char(m % 10),
        y[i] == text::digit_char(n / 10),
        y[i + 1] == text::digit_char(n % 10),
    ensures
        params::text_less(x, y),
{
    if m / 10 < n / 10 {
        assert(params::before_at(x, y, i));
    } else {
        assert(m / 10 == n / 10);
        assert(params::before_at(x, y, i + 1));
    }
}

/// Texts that start with numbers of four digits are ordered as the numbers are.
proof fn lemma_four_digits_less(m: int, n: int, x: Seq<char>, y: Seq<char>)
    requires
        0 <= m < n < 10000,
        x.len() >= 4,
        x.len() == y.len(),
        x[0] == text::digit_char(m / 1000),
        x[1] == text::digit_char(m / 100 % 10),
        x[2] == text::digit_char(m / 10 % 10),
        x[3] == text::digit_char(m % 10),
        y[0] == text::digit_char(n / 1000),
        y[1] == text::digit_char(n / 100 % 10),
        y[2] == text::digit_char(n / 10 % 10),
        y[3] == text::digit_char(n % 10),
    ensures
        params::text_less(x, y),
{
    lemma_four_digit_sum(m);
    lemma_four_digit_sum(n);
    if m / 1000 != n / 1000 {
        assert(m / 1000 < n / 1000);
        assert(params::before_at(x, y, 0));
    } else if m / 100 % 10 != n / 100 % 10 {
        assert(m / 100 % 10 < n / 100 % 10);
        assert(params::before_at(x, y, 1));
    } else if m / 10 % 10 != n / 10 % 10 {
        assert(m / 10 % 10 < n / 10 % 10);
        assert(params::before_at(x, y, 2));
    } else {
        assert(params::before_at(x, y, 3));
    }
}

/// Numbers below a hundred whose digits agree are the same.
proof fn lemma_same_two_digits(m: int, n: int, x: Seq<char>, y: Seq<char>, i: int)
    requires
        0 <= m < 100,
        0 <= n < 100,
        x == y,
        x[i] == text::digit_char(m / 10),
        x[i + 1] == text::digit_char(m % 10),
        y[i] == text::digit_char(n / 10),
        y[i + 1] == text::digit_char(n % 10),
    ensures
        m == n,
{
}

/// Numbers below ten thousand whose digits agree are the same.
proof fn lemma_same_four_digits(m: int, n: int, x: Seq<char>, y: Seq<char>)
    requires
        0 <= m < 10000,
        0 <= n < 10000,
        x == y,
        x[0] == text::digit_char(m / 1000),
        x[1] == text::digit_char(m / 100 % 10),
        x[2] == text::digit_char(m / 10 % 10),
        x[3] == text::digit_char(m % 10),
        y[0] == text::digit_char(n / 1000),
        y[1] == text::digit_char(n / 100 % 10),
        y[2] == text::digit_char(n / 10 % 10),
        y[3] == text::digit_char(n % 10),
    ensures
        m == n,
{
    lemma_same_digit(m / 1000, n / 1000);
    lemma_same_digit(m / 100 % 10, n / 100 % 10);
    lemma_same_digit(m / 10 % 10, n / 10 % 10);
    lemma_same_digit(m % 10, n % 10);
    lemma_four_digit_sum(m);
    lemma_four_digit_sum(n);
}

proof fn lemma_four_digit_sum(n: int)
    ensures
        n == 1000 * (n / 1000) + 100 * (n / 100 % 10) + 10 * (n / 10 % 10) + n % 10,
{
    assert(n / 10 / 10 == n / 100);
    assert(n / 100 / 10 == n / 1000);
}

/// A digit is determined by its character.
proof fn lemma_same_digit(d: int, e: int)
    requires
        0 <= d < 10,
        0 <= e < 10,
        text::digit_char(d) == text::digit_char(e),
    ensures
        d == e,
{
}

} // verus!

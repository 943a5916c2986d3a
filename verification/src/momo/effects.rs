//! What each of MoMo's operations gives, said of what goes in and what comes out.
use vstd::prelude::*;
use vstd::string::*;
use vstd::utf8::*;

use crate::codec;
use crate::json;
use crate::momo::transformers;
use crate::momo::transformers::{
    MomoAuthType, MomoCreatePaymentRequest, MomoCreatePaymentResponse, MomoQueryRequest,
    MomoQueryResponse, MomoRefundQueryRequest, MomoRefundRequest, MomoRefundResponse,
    MomoRequestType, MomoRouterData,
};
use crate::signing;
use crate::text;
use crate::types::{
    AttemptStatus, ConnectorAuthType, ConnectorError, ErrorResponse, Execute, IncomingWebhookEvent,
    Method, MinorUnit, PaymentsAuthorizeRouterData, PaymentsResponseData, PaymentsSyncRouterData,
    RSync, RedirectForm, RefundStatus, RefundSyncRouterData, RefundsRouterData, ResponseId,
    RouterData,
};

verus! {

/// Credentials are three keys: the partner's code, the access key and the secret that signs.
pub proof fn lemma_credentials(auth: ConnectorAuthType)
    ensures
        match <MomoAuthType as vstd::std_specs::convert::TryFromSpec<
            &ConnectorAuthType,
        >>::try_from_spec(&auth) {
            Ok(taken) => auth is SignatureKey && taken.partner_code == auth->SignatureKey_api_key
                && taken.access_key == auth->SignatureKey_key1 && taken.secret_key
                == auth->SignatureKey_api_secret,
            Err(e) => !(auth is SignatureKey) && e is FailedToObtainAuthType,
        },
{
}

/// A request keeps the amount and the data that it was made of.
pub proof fn lemma_router_data<T>(amount: MinorUnit, data: T)
    ensures
        <MomoRouterData<T> as vstd::std_specs::convert::FromSpec<(MinorUnit, T)>>::from_spec(
            (amount, data),
        ) == (MomoRouterData { amount, router_data: data }),
{
}

// ---- starting a payment ----

/// What is paid for is the first article of the order, whenever the order lists any, however many
/// it lists. It is "Payment" only where the list is absent or empty.
pub proof fn lemma_first_article_is_named(
    data: PaymentsAuthorizeRouterData,
    amount: i64,
    request: MomoCreatePaymentRequest,
)
    requires
        transformers::create_outcome(data, amount, Ok(request)),
    ensures
        data.request.order_details matches Some(articles) ==> (articles@.len() >= 1
            ==> request.order_info@ == articles@[0].product_name@),
        data.request.order_details matches Some(articles) ==> (articles@.len() == 0
            ==> request.order_info@ == "Payment"@),
        data.request.order_details is None ==> request.order_info@ == "Payment"@,
{
}

/// What a request that starts a payment says: the partner, the attempt under which it is made,
/// where to report and where to send the payer back to, and the amount as it is.
pub proof fn lemma_create_says(
    data: PaymentsAuthorizeRouterData,
    amount: i64,
    request: MomoCreatePaymentRequest,
)
    requires
        transformers::create_outcome(data, amount, Ok(request)),
    ensures
        data.connector_auth_type matches ConnectorAuthType::SignatureKey { api_key, .. }
            && request.partner_code@ == api_key@,
        request.request_type == MomoRequestType::CaptureWallet,
        request.order_id@ == data.attempt_id@,
        request.request_id@ == data.attempt_id@,
        request.amount == amount,
        data.request.webhook_url matches Some(url) && request.ipn_url@ == url@,
        data.request.router_return_url matches Some(url) && request.redirect_url@ == url@,
        request.extra_data@.len() == 0,
        request.lang@ == "vi"@,
        request.signature@ == codec::hex_text(
            signing::hmac_sha256(
                encode_utf8(data.connector_auth_type->SignatureKey_api_secret@),
                encode_utf8(
                    "accessKey="@ + data.connector_auth_type->SignatureKey_key1@ + "&amount="@
                        + text::decimal(request.amount as int) + "&extraData="@
                        + request.extra_data@ + "&ipnUrl="@ + request.ipn_url@ + "&orderId="@
                        + request.order_id@ + "&orderInfo="@ + request.order_info@
                        + "&partnerCode="@ + request.partner_code@ + "&redirectUrl="@
                        + request.redirect_url@ + "&requestId="@ + request.request_id@
                        + "&requestType=captureWallet"@,
                ),
            ),
        ),
{
}

/// When a payment is put into a request, and which error comes otherwise: first the credentials
/// are looked at, then the place to report to, then the place to send the payer back to. Then a
/// request fails only where it is too long to be signed.
pub proof fn lemma_create_accepted(
    data: PaymentsAuthorizeRouterData,
    amount: i64,
    r: Result<MomoCreatePaymentRequest, ConnectorError>,
)
    requires
        transformers::create_outcome(data, amount, r),
    ensures
        r is Ok ==> data.connector_auth_type is SignatureKey && data.request.webhook_url is Some
            && data.request.router_return_url is Some,
        data.connector_auth_type is SignatureKey && data.request.webhook_url is Some
            && data.request.router_return_url is Some
            && data.connector_auth_type->SignatureKey_api_secret@.len() <= 1000000
            && data.connector_auth_type->SignatureKey_api_key@.len() <= 1000000
            && data.connector_auth_type->SignatureKey_key1@.len() <= 1000000
            && data.attempt_id@.len() <= 1000000 && data.request.webhook_url->0@.len() <= 1000000
            && data.request.router_return_url->0@.len() <= 1000000 && (
        data.request.order_details matches Some(articles) ==> (articles@.len() >= 1
            ==> articles@[0].product_name@.len() <= 1000000)) ==> r is Ok,
        r matches Err(e) ==> {
            &&& e is FailedToObtainAuthType <==> !(data.connector_auth_type is SignatureKey)
            &&& e is MissingRequiredField <==> data.connector_auth_type is SignatureKey && (
            data.request.webhook_url is None || data.request.router_return_url is None)
            &&& e matches ConnectorError::MissingRequiredField { field_name } ==> field_name@
                == if data.request.webhook_url is None {
                "webhook_url"@
            } else {
                "return_url"@
            }
            &&& e is FailedToObtainAuthType || e is MissingRequiredField
                || e is RequestEncodingFailed
        },
{
    text::lemma_decimal_length(amount as int);
    reveal_strlit("Payment");
    reveal_strlit("accessKey=");
    reveal_strlit("&amount=");
    reveal_strlit("&extraData=");
    reveal_strlit("&ipnUrl=");
    reveal_strlit("&orderId=");
    reveal_strlit("&orderInfo=");
    reveal_strlit("&partnerCode=");
    reveal_strlit("&redirectUrl=");
    reveal_strlit("&requestId=");
    reveal_strlit("&requestType=captureWallet");
    let message = transformers::payment_message(data, amount);
    if message.len() <= 100000000 && data.connector_auth_type->SignatureKey_api_secret@.len()
        <= 1000000 {
        signing::lemma_signable(
            data.connector_auth_type->SignatureKey_api_secret@,
            message,
        );
    }
}

/// What MoMo's answer makes of a payment that was started: on the result code 0 alone the payer is
/// sent to the page that the answer names, and on every other code the payment has failed and the
/// code and message are reported as they are. Nothing but the status and the response changes.
pub proof fn lemma_created_taken_in(
    answer: MomoCreatePaymentResponse,
    http_code: u16,
    data: PaymentsAuthorizeRouterData,
    r: Result<PaymentsAuthorizeRouterData, ConnectorError>,
)
    requires
        transformers::created_outcome(answer, http_code, data, r),
    ensures
        answer.result_code != 0 ==> r is Ok,
        r matches Err(e) ==> answer.result_code == 0 && match answer.pay_url {
            None => e matches ConnectorError::MissingRequiredField { field_name } && field_name@
                == "payUrl"@,
            Some(url) => codec::parsed_url(url@) is None && e is ResponseDeserializationFailed,
        },
        answer.result_code == 0 && answer.pay_url is Some && codec::parsed_url(
            answer.pay_url->0@,
        ) is Some ==> r is Ok,
        r matches Ok(after) ==> {
            &&& after == (PaymentsAuthorizeRouterData {
                status: after.status,
                response: after.response,
                ..data
            })
            &&& after.status == AttemptStatus::AuthenticationPending <==> answer.result_code == 0
            &&& after.status == AttemptStatus::Failure <==> answer.result_code != 0
            &&& after.response is Ok <==> answer.result_code == 0
            &&& answer.result_code == 0 ==> (after.response matches Ok(
                PaymentsResponseData::TransactionResponse {
                    resource_id: ResponseId::ConnectorTransactionId(id),
                    redirection_data: Some(RedirectForm::Url { url, method: Method::Get }),
                    mandate_reference: None,
                    connector_metadata: None,
                    network_txn_id: None,
                    connector_response_reference_id: Some(reference),
                    incremental_authorization_allowed: None,
                    authentication_data: None,
                    charges: None,
                },
            ) && id@ == answer.order_id@ && reference@ == answer.order_id@ && answer.pay_url is Some
                && Some(url@) == codec::parsed_url(answer.pay_url->0@))
            &&& after.response matches Err(error) ==> says(
                error,
                answer.result_code,
                answer.message@,
                http_code,
            )
        },
{
    if answer.result_code != 0 && r is Ok {
        let error = r->Ok_0.response->Err_0;
        lemma_failure_said(error, answer.result_code, answer.message, http_code);
    }
}

/// Whether an error gives a result code, in decimal, a message and a status code, and nothing
/// else.
pub open spec fn says(
    error: ErrorResponse,
    result_code: i64,
    message: Seq<char>,
    http_code: u16,
) -> bool {
    &&& text::integer(error.code@) == result_code
    &&& error.code@ == text::decimal(result_code as int)
    &&& error.message@ == message
    &&& error.reason matches Some(reason)
    &&& reason@ == message
    &&& error.status_code == http_code
    &&& error == (ErrorResponse {
        attempt_status: None,
        connector_transaction_id: None,
        connector_response_reference_id: None,
        network_advice_code: None,
        network_decline_code: None,
        network_error_message: None,
        connector_metadata: None,
        ..error
    })
}

proof fn lemma_failure_said(
    error: ErrorResponse,
    result_code: i64,
    message: String,
    http_code: u16,
)
    requires
        transformers::reported_failure(error, result_code, message, http_code),
    ensures
        says(error, result_code, message@, http_code),
{
    text::lemma_decimal_reads_back(result_code as int);
}

// ---- asking for the state of a payment ----

/// What a request for the state of a payment says, and when it is made.
pub proof fn lemma_query_says(
    data: PaymentsSyncRouterData,
    r: Result<MomoQueryRequest, ConnectorError>,
)
    requires
        transformers::query_outcome(data, r),
    ensures
        r matches Ok(request) ==> {
            &&& data.connector_auth_type matches ConnectorAuthType::SignatureKey {
                api_key,
                key1,
                api_secret,
            }
            &&& request.partner_code@ == api_key@
            &&& request.order_id@ == data.attempt_id@
            &&& request.request_id@ == data.attempt_id@
            &&& request.lang@ == "vi"@
            &&& request.signature@ == codec::hex_text(
                signing::hmac_sha256(
                    encode_utf8(api_secret@),
                    encode_utf8(
                        "accessKey="@ + key1@ + "&orderId="@ + data.attempt_id@
                            + "&partnerCode="@ + api_key@ + "&requestId="@ + data.attempt_id@,
                    ),
                ),
            )
        },
        data.connector_auth_type is SignatureKey
            && data.connector_auth_type->SignatureKey_api_secret@.len() <= 1000000
            && data.connector_auth_type->SignatureKey_api_key@.len() <= 1000000
            && data.connector_auth_type->SignatureKey_key1@.len() <= 1000000
            && data.attempt_id@.len() <= 1000000 ==> r is Ok,
        r matches Err(e) ==> {
            &&& e is FailedToObtainAuthType <==> !(data.connector_auth_type is SignatureKey)
            &&& e is FailedToObtainAuthType || e is RequestEncodingFailed
        },
{
    let auth = data.connector_auth_type;
    if auth is SignatureKey {
        lemma_state_message_signable(
            auth->SignatureKey_api_secret@,
            auth->SignatureKey_key1@,
            data.attempt_id@,
            auth->SignatureKey_api_key@,
        );
    }
}

proof fn lemma_state_message_signable(
    secret: Seq<char>,
    access_key: Seq<char>,
    id: Seq<char>,
    partner_code: Seq<char>,
)
    ensures
        secret.len() <= 1000000 && access_key.len() <= 1000000 && id.len() <= 1000000
            && partner_code.len() <= 1000000 ==> signing::signable_sha256(
            secret,
            transformers::state_message(access_key, id, partner_code, id),
        ),
{
    reveal_strlit("accessKey=");
    reveal_strlit("&orderId=");
    reveal_strlit("&partnerCode=");
    reveal_strlit("&requestId=");
    if secret.len() <= 1000000 && access_key.len() <= 1000000 && id.len() <= 1000000
        && partner_code.len() <= 1000000 {
        signing::lemma_signable(
            secret,
            transformers::state_message(access_key, id, partner_code, id),
        );
    }
}

/// What a result code means for a payment: 0 alone is a charge, 9000 alone an authorization, 1000
/// alone that the payer has yet to act, and every other code a failure.
pub proof fn lemma_result_codes(result_code: i64)
    ensures
        transformers::result_status(result_code) == AttemptStatus::Charged <==> result_code == 0,
        transformers::result_status(result_code) == AttemptStatus::Authorized <==> result_code
            == 9000,
        transformers::result_status(result_code) == AttemptStatus::AuthenticationPending
            <==> result_code == 1000,
        transformers::result_status(result_code) == AttemptStatus::Failure <==> result_code != 0
            && result_code != 9000 && result_code != 1000,
{
}

/// What MoMo's answer makes of a payment whose state was asked for. Nothing but the status and the
/// response changes. The transaction has the name of the order, and MoMo's number, unless it is
/// zero, is kept as the one member of the metadata.
pub proof fn lemma_queried_taken_in<F, T>(
    answer: MomoQueryResponse,
    http_code: u16,
    before: RouterData<F, T, PaymentsResponseData>,
    after: RouterData<F, T, PaymentsResponseData>,
)
    requires
        transformers::queried(answer, http_code, before, after),
    ensures
        after == (RouterData { status: after.status, response: after.response, ..before }),
        after.status == AttemptStatus::Charged <==> answer.result_code == 0,
        after.status == AttemptStatus::Authorized <==> answer.result_code == 9000,
        after.status == AttemptStatus::AuthenticationPending <==> answer.result_code == 1000,
        after.status == AttemptStatus::Failure <==> after.response is Err,
        after.response is Ok <==> answer.result_code == 0 || answer.result_code == 9000
            || answer.result_code == 1000,
        after.response matches Ok(response) ==> {
            &&& response matches PaymentsResponseData::TransactionResponse {
                resource_id: ResponseId::ConnectorTransactionId(id),
                redirection_data: None,
                mandate_reference: None,
                connector_metadata,
                network_txn_id: None,
                connector_response_reference_id: Some(reference),
                incremental_authorization_allowed: None,
                authentication_data: None,
                charges: None,
            }
            &&& id@ == answer.order_id@
            &&& reference@ == answer.order_id@
            &&& connector_metadata is Some <==> answer.trans_id is Some && answer.trans_id != Some(
                0i64,
            )
            &&& connector_metadata matches Some(metadata) ==> json::member_names(metadata)
                == set!["trans_id"@] && json::integer_members(metadata) == map![
                "trans_id"@ => answer.trans_id->0
            ]
        },
        after.response matches Err(error) ==> says(
            error,
            answer.result_code,
            answer.message@,
            http_code,
        ),
{
    if after.response is Err {
        lemma_failure_said(after.response->Err_0, answer.result_code, answer.message, http_code);
    }
}

// ---- refunds ----

/// What a request that starts a refund says, and when it is made: for the transaction whose number
/// the metadata hold, under the name of the refund, with the amount as it is and the reason as it
/// is given.
pub proof fn lemma_refund_says<F>(
    data: RefundsRouterData<F>,
    amount: i64,
    r: Result<MomoRefundRequest, ConnectorError>,
)
    requires
        transformers::refund_outcome(data, amount, r),
    ensures
        r matches Ok(request) ==> {
            &&& data.connector_auth_type matches ConnectorAuthType::SignatureKey {
                api_key,
                key1,
                api_secret,
            }
            &&& data.request.connector_metadata matches Some(metadata)
            &&& json::integer_members(metadata).dom().contains("trans_id"@)
            &&& request.trans_id == json::integer_members(metadata)["trans_id"@]
            &&& request.partner_code@ == api_key@
            &&& request.order_id@ == data.request.refund_id@
            &&& request.request_id@ == data.request.refund_id@
            &&& request.amount == amount
            &&& request.lang@ == "vi"@
            &&& data.request.reason matches Some(reason) ==> request.description@ == reason@
            &&& data.request.reason is None ==> request.description@.len() == 0
            &&& request.signature@ == codec::hex_text(
                signing::hmac_sha256(
                    encode_utf8(api_secret@),
                    encode_utf8(
                        "accessKey="@ + key1@ + "&amount="@ + text::decimal(amount as int)
                            + "&description="@ + request.description@ + "&orderId="@
                            + data.request.refund_id@ + "&partnerCode="@ + api_key@
                            + "&requestId="@ + data.request.refund_id@ + "&transId="@
                            + text::decimal(request.trans_id as int),
                    ),
                ),
            )
        },
        data.connector_auth_type is SignatureKey && data.request.connector_metadata is Some
            && json::integer_members(data.request.connector_metadata->0).dom().contains(
            "trans_id"@,
        ) && data.connector_auth_type->SignatureKey_api_secret@.len() <= 1000000
            && data.connector_auth_type->SignatureKey_api_key@.len() <= 1000000
            && data.connector_auth_type->SignatureKey_key1@.len() <= 1000000
            && data.request.refund_id@.len() <= 1000000 && (data.request.reason matches Some(reason)
            ==> reason@.len() <= 1000000) ==> r is Ok,
        r matches Err(e) ==> {
            &&& e is FailedToObtainAuthType <==> !(data.connector_auth_type is SignatureKey)
            &&& e is MissingRequiredField <==> data.connector_auth_type is SignatureKey && (
            data.request.connector_metadata matches Some(metadata) ==> !json::integer_members(
                metadata,
            ).dom().contains("trans_id"@))
            &&& e matches ConnectorError::MissingRequiredField { field_name } ==> field_name@
                == "trans_id"@
            &&& e is FailedToObtainAuthType || e is MissingRequiredField
                || e is RequestEncodingFailed
        },
{
    let auth = data.connector_auth_type;
    let message = transformers::refund_message(data, amount);
    text::lemma_decimal_length(amount as int);
    text::lemma_decimal_length(
        transformers::kept_trans_id(data.request.connector_metadata)->0 as int,
    );
    reveal_strlit("accessKey=");
    reveal_strlit("&amount=");
    reveal_strlit("&description=");
    reveal_strlit("&orderId=");
    reveal_strlit("&partnerCode=");
    reveal_strlit("&requestId=");
    reveal_strlit("&transId=");
    if message.len() <= 100000000 && auth->SignatureKey_api_secret@.len() <= 1000000 {
        signing::lemma_signable(auth->SignatureKey_api_secret@, message);
    }
}

/// A refund that was started has succeeded exactly where MoMo's answer has the result code 0, and
/// has failed with every other code. It has the name that the answer gives. Nothing but the
/// response changes.
pub proof fn lemma_refund_started(
    answer: MomoRefundResponse,
    before: RefundsRouterData<Execute>,
    after: RefundsRouterData<Execute>,
)
    requires
        transformers::refunded(
            answer.order_id,
            transformers::refund_status(answer.result_code),
            before,
            after,
        ),
    ensures
        after == (RouterData { response: after.response, ..before }),
        after.response matches Ok(refund) && refund.connector_refund_id@ == answer.order_id@ && (
        refund.refund_status == RefundStatus::Success <==> answer.result_code == 0) && (
        refund.refund_status == RefundStatus::Failure <==> answer.result_code != 0)
            && refund.refund_status != RefundStatus::Pending,
{
}

/// A refund whose state was asked for has succeeded exactly where MoMo's answer has the result
/// code 0, is pending exactly where it has 1000, and has failed with every other code. It has the
/// name that the answer gives. Nothing but the response changes.
pub proof fn lemma_refund_synced(
    answer: MomoQueryResponse,
    before: RefundsRouterData<RSync>,
    after: RefundsRouterData<RSync>,
)
    requires
        transformers::refunded(
            answer.order_id,
            transformers::refund_sync_status(answer.result_code),
            before,
            after,
        ),
    ensures
        after == (RouterData { response: after.response, ..before }),
        after.response matches Ok(refund) && refund.connector_refund_id@ == answer.order_id@ && (
        refund.refund_status == RefundStatus::Success <==> answer.result_code == 0) && (
        refund.refund_status == RefundStatus::Pending <==> answer.result_code == 1000) && (
        refund.refund_status == RefundStatus::Failure <==> answer.result_code != 0
            && answer.result_code != 1000),
{
}

/// What a request for the state of a refund says, and when it is made.
pub proof fn lemma_refund_query_says(
    data: RefundSyncRouterData,
    r: Result<MomoRefundQueryRequest, ConnectorError>,
)
    requires
        transformers::refund_query_outcome(data, r),
    ensures
        r matches Ok(request) ==> {
            &&& data.connector_auth_type matches ConnectorAuthType::SignatureKey {
                api_key,
                key1,
                api_secret,
            }
            &&& data.request.connector_refund_id matches Some(name)
            &&& request.partner_code@ == api_key@
            &&& request.order_id@ == name@
            &&& request.request_id@ == name@
            &&& request.lang@ == "vi"@
            &&& request.signature@ == codec::hex_text(
                signing::hmac_sha256(
                    encode_utf8(api_secret@),
                    encode_utf8(
                        "accessKey="@ + key1@ + "&orderId="@ + name@ + "&partnerCode="@
                            + api_key@ + "&requestId="@ + name@,
                    ),
                ),
            )
        },
        data.connector_auth_type is SignatureKey && data.request.connector_refund_id is Some
            && data.connector_auth_type->SignatureKey_api_secret@.len() <= 1000000
            && data.connector_auth_type->SignatureKey_api_key@.len() <= 1000000
            && data.connector_auth_type->SignatureKey_key1@.len() <= 1000000
            && data.request.connector_refund_id->0@.len() <= 1000000 ==> r is Ok,
        r matches Err(e) ==> {
            &&& e is FailedToObtainAuthType <==> !(data.connector_auth_type is SignatureKey)
            &&& e is MissingConnectorRefundID <==> data.connector_auth_type is SignatureKey
                && data.request.connector_refund_id is None
            &&& e is FailedToObtainAuthType || e is MissingConnectorRefundID
                || e is RequestEncodingFailed
        },
{
    let auth = data.connector_auth_type;
    if auth is SignatureKey && data.request.connector_refund_id is Some {
        lemma_state_message_signable(
            auth->SignatureKey_api_secret@,
            auth->SignatureKey_key1@,
            data.request.connector_refund_id->0@,
            auth->SignatureKey_api_key@,
        );
    }
}

// ---- reports ----

/// A report tells of success exactly where its result code is 0, of a successful authorization
/// exactly where it is 9000, and of failure with every other code.
pub proof fn lemma_event_by_code(result_code: i64)
    ensures
        transformers::webhook_event(result_code) == IncomingWebhookEvent::PaymentIntentSuccess
            <==> result_code == 0,
        transformers::webhook_event(result_code)
            == IncomingWebhookEvent::PaymentIntentAuthorizationSuccess <==> result_code == 9000,
        transformers::webhook_event(result_code) == IncomingWebhookEvent::PaymentIntentFailure
            <==> result_code != 0 && result_code != 9000,
{
}

} // verus!

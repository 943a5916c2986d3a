//! What holds of MoMo's requests, answers and reports taken together.
use vstd::prelude::*;
use vstd::string::*;

use crate::momo::transformers;
use crate::momo::transformers::{
    MomoCreatePaymentRequest, MomoCreatePaymentResponse, MomoQueryRequest, MomoQueryResponse,
    MomoRefundQueryRequest, MomoRefundRequest,
};
use crate::signing;
use crate::text;
use crate::types::{
    AttemptStatus, ConnectorError, IncomingWebhookEvent, PaymentsAuthorizeRouterData,
    PaymentsResponseData, PaymentsSyncRouterData, RefundStatus, RefundSyncRouterData,
    RefundsRouterData, RouterData,
};

verus! {

// ---- what is signed ----

/// A request that starts a payment is signed for exactly what it says.
pub proof fn lemma_create_signature(
    data: PaymentsAuthorizeRouterData,
    amount: i64,
    request: MomoCreatePaymentRequest,
)
    requires
        transformers::create_outcome(data, amount, Ok(request)),
    ensures
        request.signature@ == signing::signature_sha256(
            data.connector_auth_type->SignatureKey_api_secret@,
            "accessKey="@ + data.connector_auth_type->SignatureKey_key1@ + "&amount="@
                + text::decimal(request.amount as int) + "&extraData="@ + request.extra_data@
                + "&ipnUrl="@ + request.ipn_url@ + "&orderId="@ + request.order_id@
                + "&orderInfo="@ + request.order_info@ + "&partnerCode="@ + request.partner_code@
                + "&redirectUrl="@ + request.redirect_url@ + "&requestId="@ + request.request_id@
                + "&requestType=captureWallet"@,
        ),
{
}

/// A request that asks for the state of a payment is signed for exactly what it says.
pub proof fn lemma_query_signature(data: PaymentsSyncRouterData, request: MomoQueryRequest)
    requires
        transformers::query_outcome(data, Ok(request)),
    ensures
        request.signature@ == signing::signature_sha256(
            data.connector_auth_type->SignatureKey_api_secret@,
            transformers::state_message(
                data.connector_auth_type->SignatureKey_key1@,
                request.order_id@,
                request.partner_code@,
                request.request_id@,
            ),
        ),
{
}

/// A request that starts a refund is signed for exactly what it says.
pub proof fn lemma_refund_signature<F>(
    data: RefundsRouterData<F>,
    amount: i64,
    request: MomoRefundRequest,
)
    requires
        transformers::refund_outcome(data, amount, Ok(request)),
    ensures
        request.signature@ == signing::signature_sha256(
            data.connector_auth_type->SignatureKey_api_secret@,
            "accessKey="@ + data.connector_auth_type->SignatureKey_key1@ + "&amount="@
                + text::decimal(request.amount as int) + "&description="@ + request.description@
                + "&orderId="@ + request.order_id@ + "&partnerCode="@ + request.partner_code@
                + "&requestId="@ + request.request_id@ + "&transId="@ + text::decimal(
                request.trans_id as int,
            ),
        ),
{
}

/// A request that asks for the state of a refund is signed for exactly what it says.
pub proof fn lemma_refund_query_signature(
    data: RefundSyncRouterData,
    request: MomoRefundQueryRequest,
)
    requires
        transformers::refund_query_outcome(data, Ok(request)),
    ensures
        request.signature@ == signing::signature_sha256(
            data.connector_auth_type->SignatureKey_api_secret@,
            transformers::state_message(
                data.connector_auth_type->SignatureKey_key1@,
                request.order_id@,
                request.partner_code@,
                request.request_id@,
            ),
        ),
{
}

// ---- what one request hands on to another ----

/// The state of a payment is asked for under the name under which the payment was started.
pub proof fn lemma_query_names_payment(
    started: PaymentsAuthorizeRouterData,
    amount: i64,
    create: MomoCreatePaymentRequest,
    asked: PaymentsSyncRouterData,
    query: MomoQueryRequest,
)
    requires
        transformers::create_outcome(started, amount, Ok(create)),
        transformers::query_outcome(asked, Ok(query)),
        started.attempt_id@ == asked.attempt_id@,
    ensures
        query.order_id@ == create.order_id@,
        query.request_id@ == create.request_id@,
{
}

/// The number that an answer keeps for a later refund is the one that the refund finds. An
/// answer without a number, or with the number zero, keeps none.
pub proof fn lemma_kept_trans_id(metadata: Option<serde_json::Value>, trans_id: Option<i64>)
    requires
        transformers::keeps_trans_id(metadata, trans_id),
    ensures
        transformers::kept_trans_id(metadata) == if trans_id == Some(0i64) {
            None
        } else {
            trans_id
        },
{
}

/// A refund of a payment whose state was asked for before is made for the transaction that
/// MoMo's answer named. Where the answer named none, the refund is refused.
pub proof fn lemma_refund_of_queried_payment<F, T, G>(
    answer: MomoQueryResponse,
    http_code: u16,
    before: RouterData<F, T, PaymentsResponseData>,
    after: RouterData<F, T, PaymentsResponseData>,
    refund: RefundsRouterData<G>,
    amount: i64,
    r: Result<MomoRefundRequest, ConnectorError>,
)
    requires
        transformers::queried(answer, http_code, before, after),
        after.response is Ok,
        refund.request.connector_metadata
            == after.response->Ok_0->TransactionResponse_connector_metadata,
        refund.connector_auth_type is SignatureKey,
        transformers::refund_outcome(refund, amount, r),
    ensures
        r matches Ok(request) ==> answer.trans_id == Some(request.trans_id) && request.trans_id
            != 0,
        answer.trans_id is None || answer.trans_id == Some(0i64) ==> (r matches Err(
            ConnectorError::MissingRequiredField { field_name },
        ) && field_name@ == "trans_id"@),
        answer.trans_id is Some && answer.trans_id != Some(0i64) && signing::signable_sha256(
            refund.connector_auth_type->SignatureKey_api_secret@,
            transformers::refund_message(refund, amount),
        ) ==> r is Ok,
{
    lemma_kept_trans_id(refund.request.connector_metadata, answer.trans_id);
}

/// The state of a refund is asked for under the name that MoMo gave when it was started.
pub proof fn lemma_refund_query_names_refund<F>(
    order_id: String,
    status: RefundStatus,
    before: RefundsRouterData<F>,
    after: RefundsRouterData<F>,
    asked: RefundSyncRouterData,
    request: MomoRefundQueryRequest,
)
    requires
        transformers::refunded(order_id, status, before, after),
        asked.request.connector_refund_id == Some(after.response->Ok_0.connector_refund_id),
        transformers::refund_query_outcome(asked, Ok(request)),
    ensures
        request.order_id@ == order_id@,
{
}

// ---- what is made of a result code ----

/// A payment whose state was asked for has failed exactly where an error is reported.
pub proof fn lemma_query_failure_is_reported<F, T>(
    answer: MomoQueryResponse,
    http_code: u16,
    before: RouterData<F, T, PaymentsResponseData>,
    after: RouterData<F, T, PaymentsResponseData>,
)
    requires
        transformers::queried(answer, http_code, before, after),
    ensures
        after.response is Err <==> after.status == AttemptStatus::Failure,
{
}

/// A payment that was started has failed exactly where an error is reported.
pub proof fn lemma_create_failure_is_reported(
    answer: MomoCreatePaymentResponse,
    http_code: u16,
    before: PaymentsAuthorizeRouterData,
    after: PaymentsAuthorizeRouterData,
)
    requires
        transformers::created_outcome(answer, http_code, before, Ok(after)),
    ensures
        after.response is Err <==> after.status == AttemptStatus::Failure,
{
}

/// The event of a report fits what its result code means for the payment: success goes with a
/// charge, successful authorization with an authorized payment, and failure with the rest.
pub proof fn lemma_event_fits_status(result_code: i64)
    ensures
        transformers::webhook_event(result_code) == IncomingWebhookEvent::PaymentIntentSuccess
            <==> transformers::result_status(result_code) == AttemptStatus::Charged,
        transformers::webhook_event(result_code)
            == IncomingWebhookEvent::PaymentIntentAuthorizationSuccess
            <==> transformers::result_status(result_code) == AttemptStatus::Authorized,
        transformers::webhook_event(result_code) == IncomingWebhookEvent::PaymentIntentFailure
            <==> transformers::result_status(result_code) == AttemptStatus::AuthenticationPending
            || transformers::result_status(result_code) == AttemptStatus::Failure,
{
}

/// Starting a refund and asking for its state read a result code alike, but for the code of
/// what is under way: an answer to the start of a refund with it is a failure.
pub proof fn lemma_refund_codes(result_code: i64)
    ensures
        result_code != 1000 ==> transformers::refund_status(result_code)
            == transformers::refund_sync_status(result_code),
        result_code == 1000 ==> transformers::refund_status(result_code) == RefundStatus::Failure
            && transformers::refund_sync_status(result_code) == RefundStatus::Pending,
{
}

} // verus!

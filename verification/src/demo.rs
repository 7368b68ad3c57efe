//! Reference service logic for the example server: the greeter and the
//! payment connector build their replies here from plain values, and the
//! example binary wraps these in its transport handlers.

use vstd::prelude::*;

verus! {

/// Wire value of the payment status `SUCCESS`.
pub const PAYMENT_SUCCESS: i32 = 0;

/// Wire value of the payment status `PENDING`.
pub const PAYMENT_PENDING: i32 = 1;

/// Wire value of the payment status `BAD_REQUEST_ERROR`.
pub const PAYMENT_BAD_REQUEST_ERROR: i32 = 21;

/// Wire value of the reply status `SUCCESS`.
pub const REPLY_SUCCESS: i32 = 0;

/// A greeting reply: the message text and the reply status.
#[derive(Clone, Debug, PartialEq, Eq)]
pub struct HelloReply {
    pub message: String,
    pub status: i32,
}

/// Structured error detail attached to a failed payment.
#[derive(Clone, Debug, PartialEq, Eq)]
pub struct ErrorDetail {
    pub code: String,
    pub description: String,
    pub step: String,
    pub reason: String,
    pub source: String,
    pub metadata: Vec<(String, String)>,
}

/// A payment reply, successful or failed.
#[derive(Clone, Debug, PartialEq, Eq)]
pub struct PaymentResponse {
    pub transaction_id: String,
    pub status: i32,
    pub error_code: String,
    pub error_message: String,
    pub redirection_data: String,
    pub network_txn_id: String,
    pub response_ref_id: String,
    pub incremental_authorization_allowed: bool,
    pub raw_connector_response: String,
    pub error_detail: Option<ErrorDetail>,
}

/// The greeting word for each greeting type: formal, casual, friendly, and
/// a default for every other value.
pub open spec fn greeting_spec(greeting_type: i32) -> Seq<char> {
    if greeting_type == 0 {
        "Good day"@
    } else if greeting_type == 1 {
        "Hey"@
    } else if greeting_type == 2 {
        "Hi there"@
    } else {
        "Hello"@
    }
}

/// Pick the greeting word for a greeting type.
pub fn greeting_for(greeting_type: i32) -> (r: &'static str)
    ensures
        r@ == greeting_spec(greeting_type),
{
    if greeting_type == 0 {
        "Good day"
    } else if greeting_type == 1 {
        "Hey"
    } else if greeting_type == 2 {
        "Hi there"
    } else {
        "Hello"
    }
}

/// Build the greeting reply: `{greeting} {name}!` with a success status.
pub fn say_hello_reply(greeting_type: i32, name: &str) -> (r: HelloReply)
    ensures
        r.message@ == greeting_spec(greeting_type) + " "@ + name@ + "!"@,
        r.status == REPLY_SUCCESS,
{
    let mut message = String::new();
    message.append(greeting_for(greeting_type));
    message.append(" ");
    message.append(name);
    message.append("!");
    proof {
        assert(message@ =~= greeting_spec(greeting_type) + " "@ + name@ + "!"@);
    }
    HelloReply { message, status: REPLY_SUCCESS }
}

/// Build the payment reply: a duplicate receipt is rejected with the
/// bad-request status, full error text and structured detail carrying the
/// order id; any other receipt succeeds with a redirect.
pub fn process_payment_reply(order_id: &str, receipt: &str) -> (r: PaymentResponse)
    ensures
        receipt@ == "duplicate_receipt"@ ==> {
            &&& r.transaction_id@ == ""@
            &&& r.status == PAYMENT_BAD_REQUEST_ERROR
            &&& r.error_code@ == "BAD_REQUEST_ERROR"@
            &&& r.error_message@ == "Order receipt should be unique."@
            &&& r.redirection_data@ == ""@
            &&& r.network_txn_id@ == ""@
            &&& r.response_ref_id@ == ""@
            &&& !r.incremental_authorization_allowed
            &&& r.error_detail matches Some(d) && {
                &&& d.code@ == "BAD_REQUEST_ERROR"@
                &&& d.description@ == "Order receipt should be unique."@
                &&& d.step@ == "payment_initiation"@
                &&& d.reason@ == "input_validation_failed"@
                &&& d.source@ == "business"@
                &&& d.metadata@.len() == 1
                &&& d.metadata@[0].0@ == "order_id"@
                &&& d.metadata@[0].1@ == order_id@
            }
        },
        receipt@ != "duplicate_receipt"@ ==> {
            &&& r.transaction_id@ == "txn_123456"@
            &&& r.status == PAYMENT_SUCCESS
            &&& r.error_code@ == ""@
            &&& r.error_message@ == ""@
            &&& r.redirection_data@ == "https://payment.example.com/redirect"@
            &&& r.network_txn_id@ == "net_789"@
            &&& r.response_ref_id@ == "ref_456"@
            &&& r.incremental_authorization_allowed
            &&& r.error_detail is None
        },
{
    proof {
        reveal_strlit("");
        assert(""@ =~= Seq::<char>::empty());
    }
    if crate::strutil::str_eq(receipt, "duplicate_receipt") {
        let mut metadata: Vec<(String, String)> = Vec::new();
        let mut key = String::new();
        key.append("order_id");
        metadata.push((key, order_id.to_owned()));
        PaymentResponse {
            transaction_id: String::new(),
            status: PAYMENT_BAD_REQUEST_ERROR,
            error_code: "BAD_REQUEST_ERROR".to_owned(),
            error_message: "Order receipt should be unique.".to_owned(),
            redirection_data: String::new(),
            network_txn_id: String::new(),
            response_ref_id: String::new(),
            incremental_authorization_allowed: false,
            raw_connector_response:
                "{\"error\":{\"code\":\"BAD_REQUEST_ERROR\",\"description\":\"Order receipt should be unique.\"}}".to_owned(),
            error_detail: Some(
                ErrorDetail {
                    code: "BAD_REQUEST_ERROR".to_owned(),
                    description: "Order receipt should be unique.".to_owned(),
                    step: "payment_initiation".to_owned(),
                    reason: "input_validation_failed".to_owned(),
                    source: "business".to_owned(),
                    metadata,
                },
            ),
        }
    } else {
        PaymentResponse {
            transaction_id: "txn_123456".to_owned(),
            status: PAYMENT_SUCCESS,
            error_code: String::new(),
            error_message: String::new(),
            redirection_data: "https://payment.example.com/redirect".to_owned(),
            network_txn_id: "net_789".to_owned(),
            response_ref_id: "ref_456".to_owned(),
            incremental_authorization_allowed: true,
            raw_connector_response:
                "{\"status\":\"success\",\"transaction_id\":\"txn_123456\"}".to_owned(),
            error_detail: None,
        }
    }
}

/// Build the status-lookup reply: a pending payment snapshot.
pub fn get_payment_status_reply() -> (r: PaymentResponse)
    ensures
        r.transaction_id@ == "txn_123456"@,
        r.status == PAYMENT_PENDING,
        r.error_code@ == ""@,
        r.error_message@ == ""@,
        r.redirection_data@ == ""@,
        r.network_txn_id@ == "net_789"@,
        r.response_ref_id@ == "ref_456"@,
        !r.incremental_authorization_allowed,
        r.error_detail is None,
{
    proof {
        reveal_strlit("");
        assert(""@ =~= Seq::<char>::empty());
    }
    PaymentResponse {
        transaction_id: "txn_123456".to_owned(),
        status: PAYMENT_PENDING,
        error_code: String::new(),
        error_message: String::new(),
        redirection_data: String::new(),
        network_txn_id: "net_789".to_owned(),
        response_ref_id: "ref_456".to_owned(),
        incremental_authorization_allowed: false,
        raw_connector_response: "{\"status\":\"pending\"}".to_owned(),
        error_detail: None,
    }
}

} // verus!

use router_core::domain::{
    Address, AddressDetails, AttemptStatus, BrowserInformation, Card, ConnectorAuthType,
    ConnectorName, Currency, PaymentAddress, PaymentMethodData, PaymentsAuthorizeData,
    PaymentsAuthorizeRouterData, PaymentsResponseData, RefundOutcome, RefundsData,
    RefundsRouterData, ResponseId, TransactionOutcome,
};
use router_core::domain::RefundStatus as DomainRefundStatus;
use router_core::opayo::{
    OpayoPaymentStatus, OpayoPaymentsResponse, OpayoRefundRequest, RefundResponse, RefundStatus,
    RefundsResponseRouterData, ResponseRouterData,
};
use router_core::secret::Secret;

fn authorize_data() -> PaymentsAuthorizeRouterData {
    PaymentsAuthorizeRouterData {
        merchant_id: "merchant_1".to_string(),
        payment_id: "pay_001".to_string(),
        connector: ConnectorName::Opayo,
        description: Some("coffee beans".to_string()),
        return_url: Some("https://merchant.example/return".to_string()),
        address: PaymentAddress {
            billing: Some(Address {
                address: Some(AddressDetails {
                    line1: Some(Secret::new("1 High Street".to_string())),
                    city: Some("London".to_string()),
                    country: Some("GB".to_string()),
                    zip: Some(Secret::new("EC1A 1AA".to_string())),
                    first_name: Some(Secret::new("John".to_string())),
                    last_name: Some(Secret::new("Dough".to_string())),
                }),
            }),
        },
        auth_type: ConnectorAuthType::HeaderKey { api_key: "api-key-123".to_string() },
        request: PaymentsAuthorizeData {
            amount: 100,
            currency: Currency::USD,
            payment_method_data: PaymentMethodData::Card(Card {
                card_number: Secret::new("4242424242424242".to_string()),
                card_exp_month: Secret::new("10".to_string()),
                card_exp_year: Secret::new("2030".to_string()),
                card_holder_name: Secret::new("John Dough".to_string()),
                card_cvc: Secret::new("123".to_string()),
            }),
            browser_info: Some(BrowserInformation {
                ip_address: Some("192.168.1.1".to_string()),
                accept_header: "*/*".to_string(),
                java_script_enabled: true,
                language: "en-GB".to_string(),
                user_agent: "Mozilla/5.0".to_string(),
                screen_width: 480,
            }),
        },
        status: AttemptStatus::Processing,
        response: TransactionOutcome::NotAttempted,
    }
}

fn refund_data() -> RefundsRouterData {
    RefundsRouterData {
        merchant_id: "merchant_1".to_string(),
        payment_id: "pay_001".to_string(),
        connector: ConnectorName::Opayo,
        refund: RefundsData {
            refund_id: "ref_001".to_string(),
            connector_transaction_id: "txn_123".to_string(),
            refund_amount: 100,
            currency: Currency::USD,
            reason: Some("customer asked".to_string()),
        },
        response: RefundOutcome::NotAttempted,
    }
}

#[test]
fn each_wire_payment_status_maps_to_one_domain_status() {
    assert_eq!(
        AttemptStatus::from(OpayoPaymentStatus::Succeeded),
        AttemptStatus::Charged
    );
    assert_eq!(
        AttemptStatus::from(OpayoPaymentStatus::Failed),
        AttemptStatus::Failure
    );
    assert_eq!(
        AttemptStatus::from(OpayoPaymentStatus::Processing),
        AttemptStatus::Authorizing
    );
    // No two wire statuses land on the same domain status.
    assert_ne!(AttemptStatus::Charged, AttemptStatus::Failure);
    assert_ne!(AttemptStatus::Charged, AttemptStatus::Authorizing);
    assert_ne!(AttemptStatus::Failure, AttemptStatus::Authorizing);
}

#[test]
fn each_wire_refund_status_maps_to_one_domain_status() {
    assert_eq!(
        DomainRefundStatus::from(RefundStatus::Succeeded),
        DomainRefundStatus::Success
    );
    assert_eq!(
        DomainRefundStatus::from(RefundStatus::Failed),
        DomainRefundStatus::Failure
    );
    assert_eq!(
        DomainRefundStatus::from(RefundStatus::Processing),
        DomainRefundStatus::Pending
    );
}

#[test]
fn successful_wire_response_round_trips_status_and_reference() {
    let item = ResponseRouterData {
        response: OpayoPaymentsResponse {
            status: OpayoPaymentStatus::Succeeded,
            id: "txn_123".to_string(),
        },
        data: authorize_data(),
        http_code: 200,
    };
    let out = PaymentsAuthorizeRouterData::try_from(item).unwrap();
    assert_eq!(out.status, AttemptStatus::Charged);
    match out.response {
        TransactionOutcome::Completed(PaymentsResponseData::TransactionResponse {
            resource_id,
            redirection_data,
            redirect,
            mandate_reference,
            connector_metadata,
        }) => {
            match resource_id {
                ResponseId::ConnectorTransactionId(id) => assert_eq!(id, "txn_123"),
                ResponseId::NoResponseId => panic!("the wire transaction id must be kept"),
            }
            assert!(redirection_data.is_none());
            assert!(!redirect);
            assert!(mandate_reference.is_none());
            assert!(connector_metadata.is_none());
        }
        _ => panic!("a reduced response must attach a completed outcome"),
    }
    // The rest of the envelope is untouched.
    assert_eq!(out.merchant_id, "merchant_1");
    assert_eq!(out.payment_id, "pay_001");
    assert_eq!(out.connector, ConnectorName::Opayo);
    assert_eq!(out.description.as_deref(), Some("coffee beans"));
}

#[test]
fn failed_wire_response_reduces_to_failure_status() {
    let item = ResponseRouterData {
        response: OpayoPaymentsResponse {
            status: OpayoPaymentStatus::Failed,
            id: "txn_900".to_string(),
        },
        data: authorize_data(),
        http_code: 200,
    };
    let out = PaymentsAuthorizeRouterData::try_from(item).unwrap();
    assert_eq!(out.status, AttemptStatus::Failure);
}

#[test]
fn refund_request_references_original_transaction() {
    let data = refund_data();
    let req = OpayoRefundRequest::try_from(&data).unwrap();
    assert_eq!(req.transaction_type, "Refund");
    assert_eq!(req.vendor_tx_code, "ref_001");
    assert_eq!(req.reference_transaction_id, "txn_123");
    assert_eq!(req.amount, 100);
    assert_eq!(req.description, "customer asked");
}

#[test]
fn refund_request_without_reason_has_empty_description() {
    let mut data = refund_data();
    data.refund.reason = None;
    let req = OpayoRefundRequest::try_from(&data).unwrap();
    assert_eq!(req.description, "");
}

#[test]
fn refund_response_reduces_to_domain_refund_outcome() {
    let item = RefundsResponseRouterData {
        response: RefundResponse {
            status: RefundStatus::Succeeded,
            id: "rf_555".to_string(),
        },
        data: refund_data(),
        http_code: 200,
    };
    let out = RefundsRouterData::try_from(item).unwrap();
    match out.response {
        RefundOutcome::Completed(payload) => {
            assert_eq!(payload.connector_refund_id, "rf_555");
            assert_eq!(payload.refund_status, DomainRefundStatus::Success);
        }
        _ => panic!("a reduced refund response must attach a completed outcome"),
    }
    assert_eq!(out.merchant_id, "merchant_1");
    assert_eq!(out.refund.refund_id, "ref_001");
}

use bytes::Bytes;
use router_core::domain::{
    Address, AddressDetails, AttemptStatus, BrowserInformation, Card, ConnectorAuthType,
    ConnectorName, Currency, Flow, PaymentAddress, PaymentMethodData, PaymentsAuthorizeData,
    PaymentsAuthorizeRouterData, PaymentsResponseData, ResponseId, TransactionOutcome,
};
use router_core::errors::{ApiClientError, ConnectorError};
use router_core::executor::{
    complete_step, execute_connector_processing_step, prepare_step, DispatchMode, ExecutionError,
    HttpMethod, TransportOutcome,
};
use router_core::opayo::{OpayoPaymentStatus, OpayoPaymentsResponse};
use router_core::registry::ConnectorRegistry;
use router_core::secret::Secret;

fn authorize_data() -> PaymentsAuthorizeRouterData {
    PaymentsAuthorizeRouterData {
        merchant_id: "merchant_1".to_string(),
        payment_id: "pay_001".to_string(),
        connector: ConnectorName::Opayo,
        description: Some("coffee beans".to_string()),
        return_url: Some("https://merchant.example/return".to_string()),
        address: PaymentAddress {
            billing: Some(Address {
                address: Some(AddressDetails {
                    line1: Some(Secret::new("1 High Street".to_string())),
                    city: Some("London".to_string()),
                    country: Some("GB".to_string()),
                    zip: Some(Secret::new("EC1A 1AA".to_string())),
                    first_name: Some(Secret::new("John".to_string())),
                    last_name: Some(Secret::new("Dough".to_string())),
                }),
            }),
        },
        auth_type: ConnectorAuthType::HeaderKey { api_key: "api-key-123".to_string() },
        request: PaymentsAuthorizeData {
            amount: 100,
            currency: Currency::USD,
            payment_method_data: PaymentMethodData::Card(Card {
                card_number: Secret::new("4242424242424242".to_string()),
                card_exp_month: Secret::new("10".to_string()),
                card_exp_year: Secret::new("2030".to_string()),
                card_holder_name: Secret::new("John Dough".to_string()),
                card_cvc: Secret::new("123".to_string()),
            }),
            browser_info: Some(BrowserInformation {
                ip_address: Some("192.168.1.1".to_string()),
                accept_header: "*/*".to_string(),
                java_script_enabled: true,
                language: "en-GB".to_string(),
                user_agent: "Mozilla/5.0".to_string(),
                screen_width: 480,
            }),
        },
        status: AttemptStatus::Processing,
        response: TransactionOutcome::NotAttempted,
    }
}

#[test]
fn unregistered_connector_fails_before_any_transport_work() {
    let registry = ConnectorRegistry::new();
    let mut data = authorize_data();
    data.connector = ConnectorName::Authorizedotnet;
    // The preparation phase itself refuses, so no transport request can
    // even be built for the unregistered identifier.
    assert_eq!(
        prepare_step(&registry, Flow::Authorize, &data, DispatchMode::Trigger).err(),
        Some(ExecutionError::Connector(ConnectorError::InvalidConnectorName))
    );
    let r = execute_connector_processing_step(
        &registry,
        Flow::Authorize,
        data,
        DispatchMode::Trigger,
        None,
    );
    assert_eq!(
        r.err(),
        Some(ExecutionError::Connector(ConnectorError::InvalidConnectorName))
    );
}

#[test]
fn prepared_plan_carries_request_url_and_credential() {
    let registry = ConnectorRegistry::new();
    let data = authorize_data();
    let plan = prepare_step(&registry, Flow::Authorize, &data, DispatchMode::Trigger).unwrap();
    assert_eq!(plan.http_method, HttpMethod::Post);
    assert_eq!(plan.url, "https://pi-test.sagepay.com/api/v1/transactions");
    assert_eq!(plan.api_key, "api-key-123");
    assert_eq!(plan.request.amount, 100);
    assert_eq!(plan.request.currency, "USD");
    assert!(plan.dispatch);
    let deferred = prepare_step(&registry, Flow::Authorize, &data, DispatchMode::NoDispatch).unwrap();
    assert!(!deferred.dispatch);
}

#[test]
fn missing_field_aborts_the_step_unmodified() {
    let registry = ConnectorRegistry::new();
    let mut data = authorize_data();
    data.address = PaymentAddress { billing: None };
    let r = execute_connector_processing_step(
        &registry,
        Flow::Authorize,
        data,
        DispatchMode::Trigger,
        None,
    );
    match r {
        Err(ExecutionError::Connector(ConnectorError::MissingRequiredField { field_name })) => {
            assert_eq!(field_name, "billing_address");
        }
        _ => panic!("the connector error must reach the caller unmodified"),
    }
}

#[test]
fn wrong_credential_variant_aborts_with_auth_error() {
    let registry = ConnectorRegistry::new();
    let mut data = authorize_data();
    data.auth_type = ConnectorAuthType::BodyKey {
        api_key: "k".to_string(),
        key1: "k1".to_string(),
    };
    let r = execute_connector_processing_step(
        &registry,
        Flow::Authorize,
        data,
        DispatchMode::Trigger,
        None,
    );
    assert_eq!(
        r.err(),
        Some(ExecutionError::Connector(ConnectorError::FailedToObtainAuthType))
    );
}

#[test]
fn http_429_surfaces_too_many_requests_and_leaves_outcome_unset() {
    let registry = ConnectorRegistry::new();
    let data = authorize_data();
    let r = execute_connector_processing_step(
        &registry,
        Flow::Authorize,
        data,
        DispatchMode::Trigger,
        Some(TransportOutcome::Response {
            status_code: 429,
            payload: None,
            body: Bytes::from_static(b"slow down"),
        }),
    );
    // The step fails, so no outcome was ever attached to any envelope.
    assert_eq!(
        r.err(),
        Some(ExecutionError::Transport(ApiClientError::TooManyRequestsReceived))
    );
}

#[test]
fn http_400_preserves_the_raw_body() {
    let data = authorize_data();
    let body = Bytes::from_static(b"{\"errors\":[\"bad card\"]}");
    let r = complete_step(
        data,
        TransportOutcome::Response { status_code: 400, payload: None, body: body.clone() },
    );
    assert_eq!(
        r.err(),
        Some(ExecutionError::Transport(ApiClientError::BadRequestReceived(body)))
    );
}

#[test]
fn transport_failure_propagates_in_kind() {
    let data = authorize_data();
    let r = complete_step(
        data,
        TransportOutcome::Failure(ApiClientError::RequestTimeoutReceived),
    );
    assert_eq!(
        r.err(),
        Some(ExecutionError::Transport(ApiClientError::RequestTimeoutReceived))
    );
}

#[test]
fn undecodable_success_body_is_a_deserialization_error() {
    let data = authorize_data();
    let r = complete_step(
        data,
        TransportOutcome::Response {
            status_code: 200,
            payload: None,
            body: Bytes::from_static(b"not json"),
        },
    );
    assert_eq!(
        r.err(),
        Some(ExecutionError::Connector(ConnectorError::ResponseDeserializationFailed))
    );
}

#[test]
fn successful_step_attaches_the_reduced_outcome() {
    let registry = ConnectorRegistry::new();
    let data = authorize_data();
    let r = execute_connector_processing_step(
        &registry,
        Flow::Authorize,
        data,
        DispatchMode::Trigger,
        Some(TransportOutcome::Response {
            status_code: 201,
            payload: Some(OpayoPaymentsResponse {
                status: OpayoPaymentStatus::Succeeded,
                id: "txn_123".to_string(),
            }),
            body: Bytes::from_static(b"{}"),
        }),
    );
    let out = r.unwrap();
    assert_eq!(out.status, AttemptStatus::Charged);
    match out.response {
        TransactionOutcome::Completed(PaymentsResponseData::TransactionResponse {
            resource_id: ResponseId::ConnectorTransactionId(id),
            ..
        }) => assert_eq!(id, "txn_123"),
        _ => panic!("the completed outcome must carry the wire transaction id"),
    }
}

#[test]
fn deferred_mode_without_response_returns_envelope_untouched() {
    let registry = ConnectorRegistry::new();
    let data = authorize_data();
    let out = execute_connector_processing_step(
        &registry,
        Flow::Authorize,
        data,
        DispatchMode::NoDispatch,
        None,
    )
    .unwrap();
    assert_eq!(out.status, AttemptStatus::Processing);
    assert!(matches!(out.response, TransactionOutcome::NotAttempted));
}

#[test]
fn trigger_mode_without_transport_outcome_is_request_not_sent() {
    let registry = ConnectorRegistry::new();
    let data = authorize_data();
    let r = execute_connector_processing_step(
        &registry,
        Flow::Authorize,
        data,
        DispatchMode::Trigger,
        None,
    );
    assert_eq!(
        r.err(),
        Some(ExecutionError::Transport(ApiClientError::RequestNotSent))
    );
}

#[test]
fn registry_lookup_is_closed_over_names() {
    let registry = ConnectorRegistry::new();
    assert!(registry.lookup(ConnectorName::Opayo, Flow::Authorize).is_ok());
    assert!(matches!(
        registry.lookup(ConnectorName::Authorizedotnet, Flow::Authorize),
        Err(ConnectorError::InvalidConnectorName)
    ));
    assert!(matches!(
        registry.lookup(ConnectorName::Checkout, Flow::ExecuteRefund),
        Err(ConnectorError::InvalidConnectorName)
    ));
}

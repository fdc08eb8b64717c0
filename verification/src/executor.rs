//! Processing-step executor: one flow execution as a state machine. The
//! preparation phase resolves the connector's integration from the registry
//! and builds the transport-ready request; the caller performs the actual
//! transport call (or injects a response in the deferred mode) and hands
//! the outcome back; the completion phase classifies non-success transport
//! statuses and reduces the wire response into the domain envelope. Errors
//! at every stage are lifted into the taxonomy and returned immediately;
//! no partial outcome is ever attached.

use vstd::prelude::*;
use vstd::string::StringExecFns;
use crate::domain::{
    ConnectorAuthTypeView, Flow, PaymentsAuthorizeRouterData, PaymentsResponseData, ResponseId,
    TransactionOutcome,
};
use crate::errors::{api_error_for_status, spec_api_error_for_status, ApiClientError, ConnectorError};
use crate::opayo::{
    connector_error_matches, spec_attempt_status, spec_opayo_request, OpayoAuthType,
    OpayoPaymentsRequest, OpayoPaymentsResponse, ResponseRouterData,
};
use crate::registry::{ConnectorIntegration, ConnectorRegistry};

verus! {

/// Transport method of a built request.
#[derive(Clone, Copy, PartialEq, Eq, Structural, Debug)]
pub enum HttpMethod {
    Get,
    Post,
}

/// Whether a processing step performs a real transport call or runs
/// against an injected response.
#[derive(Clone, Copy, PartialEq, Eq, Structural, Debug)]
pub enum DispatchMode {
    Trigger,
    NoDispatch,
}

/// A transport-ready request: method, URL, credential header value and
/// encoded-body source, plus whether the transport call is to be made.
pub struct StepPlan {
    pub http_method: HttpMethod,
    pub url: String,
    pub api_key: String,
    pub request: OpayoPaymentsRequest,
    pub dispatch: bool,
}

/// What came back from the transport collaborator: a response with its
/// status, raw body and (for success statuses) the decoded wire payload,
/// or a transport-level failure such as a timeout.
#[derive(Debug)]
pub enum TransportOutcome {
    Response { status_code: u16, payload: Option<OpayoPaymentsResponse>, body: bytes::Bytes },
    Failure(ApiClientError),
}

/// An error surfaced by a processing step, in the layer where it was first
/// classified.
#[derive(Debug, PartialEq, Eq)]
pub enum ExecutionError {
    Connector(ConnectorError),
    Transport(ApiClientError),
}

/// Transport statuses counted as success.
pub open spec fn spec_is_success_status(status: u16) -> bool {
    200 <= status < 300
}

/// A domain envelope that the preparation phase accepts: its connector is
/// registered for the flow, Opayo's mandated fields are all present, and
/// the merchant credential is the header-key variant Opayo expects.
pub open spec fn spec_prepared(d: crate::domain::AuthorizeView, flow: Flow) -> bool {
    &&& ConnectorRegistry::spec_registered(d.connector, flow)
    &&& spec_opayo_request(d) is Ok
    &&& d.auth_type matches ConnectorAuthTypeView::HeaderKey { .. }
}

/// What the completion phase owes for a transport outcome: a transport
/// failure is returned in kind; a non-success status is classified into
/// the transport error owed for that status, body preserved; a success
/// status whose body did not decode is a deserialization error; and a
/// decoded response is reduced into the envelope with the mapped status
/// and the wire transaction identifier, everything else unchanged.
pub open spec fn spec_completion(
    data: PaymentsAuthorizeRouterData,
    outcome: TransportOutcome,
    r: Result<PaymentsAuthorizeRouterData, ExecutionError>,
) -> bool {
    match outcome {
        TransportOutcome::Failure(e) => r == Err::<PaymentsAuthorizeRouterData, ExecutionError>(
            ExecutionError::Transport(e),
        ),
        TransportOutcome::Response { status_code, payload, body } => if !spec_is_success_status(
            status_code,
        ) {
            r == Err::<PaymentsAuthorizeRouterData, ExecutionError>(
                ExecutionError::Transport(spec_api_error_for_status(status_code, body)),
            )
        } else {
            match payload {
                None => r == Err::<PaymentsAuthorizeRouterData, ExecutionError>(
                    ExecutionError::Connector(ConnectorError::ResponseDeserializationFailed),
                ),
                Some(resp) => r matches Ok(out) && {
                    &&& out.status == spec_attempt_status(resp.status)
                    &&& out.response == TransactionOutcome::Completed(
                        PaymentsResponseData::TransactionResponse {
                            resource_id: ResponseId::ConnectorTransactionId(resp.id),
                            redirection_data: None,
                            redirect: false,
                            mandate_reference: None,
                            connector_metadata: None,
                        },
                    )
                    &&& out.merchant_id == data.merchant_id
                    &&& out.payment_id == data.payment_id
                    &&& out.connector == data.connector
                    &&& out.description == data.description
                    &&& out.return_url == data.return_url
                    &&& out.address == data.address
                    &&& out.auth_type == data.auth_type
                    &&& out.request == data.request
                },
            }
        },
    }
}

/// Resolves the connector integration and builds the transport-ready
/// request. An unregistered connector aborts before anything else, so no
/// transport call can ever be attempted for it; a missing mandated field
/// aborts with the connector error naming that field; a credential of the
/// wrong variant aborts with the auth-type error. Only a fully prepared
/// envelope yields a plan, and the plan is determined by the envelope.
pub fn prepare_step(
    registry: &ConnectorRegistry,
    flow: Flow,
    data: &PaymentsAuthorizeRouterData,
    mode: DispatchMode,
) -> (r: Result<StepPlan, ExecutionError>)
    requires
        data.spec_well_formed(),
    ensures
        !ConnectorRegistry::spec_registered(data@.connector, flow) ==> r == Err::<
            StepPlan,
            ExecutionError,
        >(ExecutionError::Connector(ConnectorError::InvalidConnectorName)),
        ConnectorRegistry::spec_registered(data@.connector, flow) && spec_opayo_request(data@)
            is Err ==> (r matches Err(ExecutionError::Connector(e)) && connector_error_matches(
            e,
            spec_opayo_request(data@)->Err_0,
        )),
        ConnectorRegistry::spec_registered(data@.connector, flow) && spec_opayo_request(data@)
            is Ok && !(data@.auth_type matches ConnectorAuthTypeView::HeaderKey { .. }) ==> r
            == Err::<StepPlan, ExecutionError>(
            ExecutionError::Connector(ConnectorError::FailedToObtainAuthType),
        ),
        spec_prepared(data@, flow) ==> (r matches Ok(plan) && {
            &&& plan.request@ == spec_opayo_request(data@)->Ok_0
            &&& plan.http_method == HttpMethod::Post
            &&& plan.url@ == "https://pi-test.sagepay.com/api/v1/transactions"@
            &&& (data@.auth_type matches ConnectorAuthTypeView::HeaderKey { api_key }
                ==> plan.api_key@ == api_key)
            &&& plan.dispatch == (mode == DispatchMode::Trigger)
        }),
{
    match registry.lookup(data.connector, flow) {
        Ok(ConnectorIntegration::Opayo) => {},
        Err(e) => {
            return Err(ExecutionError::Connector(e));
        },
    }
    let request = match OpayoPaymentsRequest::try_from(data) {
        Ok(q) => q,
        Err(e) => {
            return Err(ExecutionError::Connector(e));
        },
    };
    let auth = match OpayoAuthType::try_from(&data.auth_type) {
        Ok(a) => a,
        Err(e) => {
            return Err(ExecutionError::Connector(e));
        },
    };
    let dispatch = match mode {
        DispatchMode::Trigger => true,
        DispatchMode::NoDispatch => false,
    };
    Ok(
        StepPlan {
            http_method: HttpMethod::Post,
            url: String::from_str("https://pi-test.sagepay.com/api/v1/transactions"),
            api_key: auth.api_key,
            request: request,
            dispatch: dispatch,
        },
    )
}

/// Classifies the transport outcome and attaches the reduced response to
/// the envelope, exactly as `spec_completion` describes.
pub fn complete_step(data: PaymentsAuthorizeRouterData, outcome: TransportOutcome) -> (r: Result<
    PaymentsAuthorizeRouterData,
    ExecutionError,
>)
    ensures
        spec_completion(data, outcome, r),
{
    match outcome {
        TransportOutcome::Failure(e) => Err(ExecutionError::Transport(e)),
        TransportOutcome::Response { status_code, payload, body } => {
            if !(200 <= status_code && status_code < 300) {
                Err(ExecutionError::Transport(api_error_for_status(status_code, body)))
            } else {
                match payload {
                    None => Err(
                        ExecutionError::Connector(ConnectorError::ResponseDeserializationFailed),
                    ),
                    Some(resp) => {
                        match PaymentsAuthorizeRouterData::try_from(
                            ResponseRouterData { response: resp, data: data, http_code: status_code },
                        ) {
                            Ok(out) => Ok(out),
                            Err(_) => Err(
                                ExecutionError::Connector(ConnectorError::ResponseHandlingFailed),
                            ),
                        }
                    },
                }
            }
        },
    }
}

/// One whole processing step against an injected transport outcome: the
/// preparation phase runs first and aborts on its own errors; with no
/// outcome to reduce, the trigger mode owes the request-not-sent transport
/// error while the deferred mode hands the envelope back untouched; an
/// available outcome is completed as `spec_completion` describes.
pub fn execute_connector_processing_step(
    registry: &ConnectorRegistry,
    flow: Flow,
    data: PaymentsAuthorizeRouterData,
    mode: DispatchMode,
    injected: Option<TransportOutcome>,
) -> (r: Result<PaymentsAuthorizeRouterData, ExecutionError>)
    requires
        data.spec_well_formed(),
    ensures
        !ConnectorRegistry::spec_registered(data@.connector, flow) ==> r == Err::<
            PaymentsAuthorizeRouterData,
            ExecutionError,
        >(ExecutionError::Connector(ConnectorError::InvalidConnectorName)),
        ConnectorRegistry::spec_registered(data@.connector, flow) && spec_opayo_request(data@)
            is Err ==> (r matches Err(ExecutionError::Connector(e)) && connector_error_matches(
            e,
            spec_opayo_request(data@)->Err_0,
        )),
        ConnectorRegistry::spec_registered(data@.connector, flow) && spec_opayo_request(data@)
            is Ok && !(data@.auth_type matches ConnectorAuthTypeView::HeaderKey { .. }) ==> r
            == Err::<PaymentsAuthorizeRouterData, ExecutionError>(
            ExecutionError::Connector(ConnectorError::FailedToObtainAuthType),
        ),
        spec_prepared(data@, flow) && mode == DispatchMode::Trigger && injected is None ==> r
            == Err::<PaymentsAuthorizeRouterData, ExecutionError>(
            ExecutionError::Transport(ApiClientError::RequestNotSent),
        ),
        spec_prepared(data@, flow) && mode == DispatchMode::NoDispatch && injected is None ==> (r
            matches Ok(out) && out == data),
        spec_prepared(data@, flow) && injected is Some ==> spec_completion(data, injected->0, r),
{
    let plan = match prepare_step(registry, flow, &data, mode) {
        Ok(p) => p,
        Err(e) => {
            return Err(e);
        },
    };
    match injected {
        None => {
            if plan.dispatch {
                Err(ExecutionError::Transport(ApiClientError::RequestNotSent))
            } else {
                Ok(data)
            }
        },
        Some(outcome) => complete_step(data, outcome),
    }
}

} // verus!

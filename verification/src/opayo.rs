//! Connector transformer for the Opayo processor: the bidirectional,
//! fallible mapping between the canonical transaction model and Opayo's own
//! wire request/response shapes. Building a wire request validates the
//! presence of every field Opayo mandates and fails closed with the exact
//! missing field's name; reducing a wire response maps Opayo's status
//! vocabulary totally onto the domain attempt status and packages the
//! transaction identifier, so no raw connector status ever crosses the
//! transformer boundary.

use vstd::prelude::*;
use vstd::string::StringExecFns;
use crate::domain::{
    AttemptStatus, AuthorizeView, ConnectorAuthType, ConnectorAuthTypeView, PaymentMethodData,
    PaymentMethodView, PaymentsAuthorizeRouterData, PaymentsResponseData, RefundOutcome,
    RefundsResponseData, RefundsRouterData, ResponseId, TransactionOutcome,
};
use crate::errors::{ConnectorError, ParsingError};
use crate::secret::Secret;

verus! {

/// Opayo's card envelope inside a payment request.
#[derive(Debug, PartialEq, Eq, Default)]
pub struct OpayoCard {
    pub card: OpayoCardSession,
}

/// The session-keyed card reference Opayo expects.
#[derive(Debug, PartialEq, Eq, Default)]
pub struct OpayoCardSession {
    pub merchant_session_key: String,
    pub card_identifier: String,
    pub reusable: bool,
    pub save: bool,
}

/// Billing address in Opayo's field vocabulary.
#[allow(non_snake_case)]
pub struct BillingAddress {
    pub address1: Secret<String>,
    pub city: String,
    pub country: String,
    pub postalCode: Secret<String>,
}

/// Browser context for Opayo's strong customer authentication.
#[allow(non_snake_case)]
#[derive(Debug, PartialEq, Eq, Default)]
pub struct CustomerAuthentication {
    pub notificationURL: String,
    pub browserIP: String,
    pub browserAcceptHeader: String,
    pub browserJavascriptEnabled: bool,
    pub browserLanguage: String,
    pub browserUserAgent: String,
    pub challengeWindowSize: String,
    pub transType: String,
}

/// Stored-credential metadata Opayo accepts on a payment request.
#[allow(non_snake_case)]
#[derive(Debug, PartialEq, Eq, Default)]
pub struct CredentialType {
    pub coUsage: String,
    pub initiatedType: String,
    pub mitType: String,
    pub recurringExpiry: String,
    pub recurringFrequency: String,
    pub purchaseInstalData: String,
}

/// Opayo's payment request shape; produced only by `try_from`, and only
/// when every mandated field is present.
pub struct OpayoPaymentsRequest {
    pub transaction_type: String,
    pub payment_method: OpayoCard,
    pub vendor_tx_code: String,
    pub amount: i64,
    pub currency: String,
    pub description: String,
    pub customer_first_name: Secret<String>,
    pub customer_last_name: Secret<String>,
    pub billing_address: BillingAddress,
    pub apply3_d_secure: String,
    pub strong_customer_authentication: CustomerAuthentication,
    pub credential_type: Option<CredentialType>,
}

pub ghost struct OpayoCardSessionView {
    pub merchant_session_key: Seq<char>,
    pub card_identifier: Seq<char>,
    pub reusable: bool,
    pub save: bool,
}

impl View for OpayoCardSession {
    type V = OpayoCardSessionView;

    open spec fn view(&self) -> OpayoCardSessionView {
        OpayoCardSessionView {
            merchant_session_key: self.merchant_session_key@,
            card_identifier: self.card_identifier@,
            reusable: self.reusable,
            save: self.save,
        }
    }
}

pub ghost struct OpayoCardView {
    pub card: OpayoCardSessionView,
}

impl View for OpayoCard {
    type V = OpayoCardView;

    open spec fn view(&self) -> OpayoCardView {
        OpayoCardView { card: self.card@ }
    }
}

pub ghost struct BillingAddressView {
    pub address1: Seq<char>,
    pub city: Seq<char>,
    pub country: Seq<char>,
    pub postal_code: Seq<char>,
}

impl View for BillingAddress {
    type V = BillingAddressView;

    open spec fn view(&self) -> BillingAddressView {
        BillingAddressView {
            address1: self.address1.deep_view(),
            city: self.city@,
            country: self.country@,
            postal_code: self.postalCode.deep_view(),
        }
    }
}

pub ghost struct CustomerAuthenticationView {
    pub notification_url: Seq<char>,
    pub browser_ip: Seq<char>,
    pub browser_accept_header: Seq<char>,
    pub browser_javascript_enabled: bool,
    pub browser_language: Seq<char>,
    pub browser_user_agent: Seq<char>,
    pub challenge_window_size: Seq<char>,
    pub trans_type: Seq<char>,
}

impl View for CustomerAuthentication {
    type V = CustomerAuthenticationView;

    open spec fn view(&self) -> CustomerAuthenticationView {
        CustomerAuthenticationView {
            notification_url: self.notificationURL@,
            browser_ip: self.browserIP@,
            browser_accept_header: self.browserAcceptHeader@,
            browser_javascript_enabled: self.browserJavascriptEnabled,
            browser_language: self.browserLanguage@,
            browser_user_agent: self.browserUserAgent@,
            challenge_window_size: self.challengeWindowSize@,
            trans_type: self.transType@,
        }
    }
}

pub ghost struct CredentialTypeView {
    pub co_usage: Seq<char>,
    pub initiated_type: Seq<char>,
    pub mit_type: Seq<char>,
    pub recurring_expiry: Seq<char>,
    pub recurring_frequency: Seq<char>,
    pub purchase_instal_data: Seq<char>,
}

impl View for CredentialType {
    type V = CredentialTypeView;

    open spec fn view(&self) -> CredentialTypeView {
        CredentialTypeView {
            co_usage: self.coUsage@,
            initiated_type: self.initiatedType@,
            mit_type: self.mitType@,
            recurring_expiry: self.recurringExpiry@,
            recurring_frequency: self.recurringFrequency@,
            purchase_instal_data: self.purchaseInstalData@,
        }
    }
}

pub ghost struct OpayoPaymentsRequestView {
    pub transaction_type: Seq<char>,
    pub payment_method: OpayoCardView,
    pub vendor_tx_code: Seq<char>,
    pub amount: i64,
    pub currency: Seq<char>,
    pub description: Seq<char>,
    pub customer_first_name: Seq<char>,
    pub customer_last_name: Seq<char>,
    pub billing_address: BillingAddressView,
    pub apply3_d_secure: Seq<char>,
    pub strong_customer_authentication: CustomerAuthenticationView,
    pub credential_type: Option<CredentialTypeView>,
}

impl View for OpayoPaymentsRequest {
    type V = OpayoPaymentsRequestView;

    open spec fn view(&self) -> OpayoPaymentsRequestView {
        OpayoPaymentsRequestView {
            transaction_type: self.transaction_type@,
            payment_method: self.payment_method@,
            vendor_tx_code: self.vendor_tx_code@,
            amount: self.amount,
            currency: self.currency@,
            description: self.description@,
            customer_first_name: self.customer_first_name.deep_view(),
            customer_last_name: self.customer_last_name.deep_view(),
            billing_address: self.billing_address@,
            apply3_d_secure: self.apply3_d_secure@,
            strong_customer_authentication: self.strong_customer_authentication@,
            credential_type: match self.credential_type {
                Some(c) => Some(c@),
                None => None,
            },
        }
    }
}

/// How building an Opayo request can fail: a mandated field was absent, or
/// the payment method is one Opayo's transformer does not implement.
pub ghost enum OpayoRequestError {
    MissingField(Seq<char>),
    NotImplemented(Seq<char>),
}

/// Whether a connector error is the one a request-building failure owes.
pub open spec fn connector_error_matches(e: ConnectorError, v: OpayoRequestError) -> bool {
    match v {
        OpayoRequestError::MissingField(name) => e matches ConnectorError::MissingRequiredField {
            field_name,
        } && field_name@ == name,
        OpayoRequestError::NotImplemented(msg) => e matches ConnectorError::NotImplemented(m)
            && m@ == msg,
    }
}

/// The challenge-window-size bucket for a browser screen width:
/// non-overlapping ranges with closed upper bounds.
pub open spec fn spec_window_size(width: u32) -> Seq<char> {
    if width <= 250 {
        "Small"@
    } else if width <= 390 {
        "Medium"@
    } else if width <= 500 {
        "Large"@
    } else if width <= 600 {
        "ExtraLarge"@
    } else {
        "FullScreen"@
    }
}

/// Buckets a numeric browser screen width into Opayo's fixed
/// challenge-window-size categories.
#[allow(non_snake_case)]
pub fn getWindowSize(width: u32) -> (r: &'static str)
    ensures
        r@ == spec_window_size(width),
{
    if width <= 250 {
        "Small"
    } else if width <= 390 {
        "Medium"
    } else if width <= 500 {
        "Large"
    } else if width <= 600 {
        "ExtraLarge"
    } else {
        "FullScreen"
    }
}

/// The wrapped value when present, the given default otherwise.
#[allow(non_snake_case)]
pub fn fromOption(o: Option<String>, default: String) -> (r: String)
    ensures
        o matches Some(val) ==> r == val,
        o is None ==> r == default,
{
    match o {
        Some(val) => val,
        None => default,
    }
}

/// The exact request `OpayoPaymentsRequest::try_from` owes for a domain
/// input: the first absent mandated field fails the build with that field's
/// name, an unsupported payment method is rejected by name, and a complete
/// input determines every wire field.
pub open spec fn spec_opayo_request(d: AuthorizeView) -> Result<
    OpayoPaymentsRequestView,
    OpayoRequestError,
> {
    match d.description {
        None => Err(OpayoRequestError::MissingField("item.description"@)),
        Some(description) => match d.request.payment_method_data {
            PaymentMethodView::Wallet => Err(
                OpayoRequestError::NotImplemented("Unknown payment method"@),
            ),
            PaymentMethodView::Card(_) => match d.request.browser_info {
                None => Err(OpayoRequestError::MissingField("browser_info"@)),
                Some(bi) => match d.return_url {
                    None => Err(OpayoRequestError::MissingField("notification_url"@)),
                    Some(url) => match d.billing {
                        None => Err(OpayoRequestError::MissingField("billing_address"@)),
                        Some(None) => Err(OpayoRequestError::MissingField("billing_address"@)),
                        Some(Some(a)) => match a.line1 {
                            None => Err(OpayoRequestError::MissingField("address1"@)),
                            Some(line1) => match a.city {
                                None => Err(OpayoRequestError::MissingField("city"@)),
                                Some(city) => match a.country {
                                    None => Err(OpayoRequestError::MissingField("country"@)),
                                    Some(country) => match a.zip {
                                        None => Err(OpayoRequestError::MissingField("zip"@)),
                                        Some(zip) => match bi.ip_address {
                                            None => Err(
                                                OpayoRequestError::MissingField("browserIP"@),
                                            ),
                                            Some(ip) => match a.first_name {
                                                None => Err(
                                                    OpayoRequestError::MissingField(
                                                        "first_name"@,
                                                    ),
                                                ),
                                                Some(first_name) => match a.last_name {
                                                    None => Err(
                                                        OpayoRequestError::MissingField(
                                                            "last_name"@,
                                                        ),
                                                    ),
                                                    Some(last_name) => Ok(
                                                        OpayoPaymentsRequestView {
                                                            transaction_type: "Payment"@,
                                                            payment_method: OpayoCardView {
                                                                card: OpayoCardSessionView {
                                                                    merchant_session_key:
                                                                        "No idea"@,
                                                                    card_identifier: "No idea"@,
                                                                    reusable: false,
                                                                    save: false,
                                                                },
                                                            },
                                                            vendor_tx_code: d.payment_id,
                                                            amount: d.request.amount,
                                                            currency: crate::domain::spec_currency_code(
                                                                d.request.currency,
                                                            ),
                                                            description: description,
                                                            customer_first_name: first_name,
                                                            customer_last_name: last_name,
                                                            billing_address: BillingAddressView {
                                                                address1: line1,
                                                                city: city,
                                                                country: country,
                                                                postal_code: zip,
                                                            },
                                                            apply3_d_secure: "UseMSPSetting"@,
                                                            strong_customer_authentication:
                                                                CustomerAuthenticationView {
                                                                notification_url: url,
                                                                browser_ip: ip,
                                                                browser_accept_header:
                                                                    bi.accept_header,
                                                                browser_javascript_enabled:
                                                                    bi.java_script_enabled,
                                                                browser_language: bi.language,
                                                                browser_user_agent: bi.user_agent,
                                                                challenge_window_size:
                                                                    spec_window_size(
                                                                    bi.screen_width,
                                                                ),
                                                                trans_type:
                                                                    "GoodsAndServicePurchase"@,
                                                            },
                                                            credential_type: None,
                                                        },
                                                    ),
                                                },
                                            },
                                        },
                                    },
                                },
                            },
                        },
                    },
                },
            },
        },
    }
}

impl OpayoPaymentsRequest {
    /// Builds Opayo's wire request from the domain envelope, failing closed
    /// with the exact name of the first absent mandated field and producing
    /// no partial request; a complete input yields precisely the request
    /// `spec_opayo_request` describes.
    pub fn try_from(item: &PaymentsAuthorizeRouterData) -> (r: Result<
        OpayoPaymentsRequest,
        ConnectorError,
    >)
        requires
            item.spec_well_formed(),
        ensures
            r is Ok <==> spec_opayo_request(item@) is Ok,
            r matches Ok(req) ==> Ok::<OpayoPaymentsRequestView, OpayoRequestError>(req@)
                == spec_opayo_request(item@),
            r matches Err(e) ==> (spec_opayo_request(item@) matches Err(ev)
                && connector_error_matches(e, ev)),
    {
        let amount = item.request.amount;
        let currency = String::from_str(item.request.currency.code());
        let description = match &item.description {
            Some(d) => d.clone(),
            None => {
                return Err(
                    ConnectorError::MissingRequiredField {
                        field_name: String::from_str("item.description"),
                    },
                );
            },
        };
        let vendor_tx_code = item.payment_id.clone();
        let payment_method = match &item.request.payment_method_data {
            PaymentMethodData::Card(_) => OpayoCard {
                card: OpayoCardSession {
                    merchant_session_key: String::from_str("No idea"),
                    card_identifier: String::from_str("No idea"),
                    reusable: false,
                    save: false,
                },
            },
            PaymentMethodData::Wallet => {
                return Err(
                    ConnectorError::NotImplemented(String::from_str("Unknown payment method")),
                );
            },
        };
        let browser_info = match &item.request.browser_info {
            Some(b) => b,
            None => {
                return Err(
                    ConnectorError::MissingRequiredField {
                        field_name: String::from_str("browser_info"),
                    },
                );
            },
        };
        let notification_url = match &item.return_url {
            Some(u) => u.clone(),
            None => {
                return Err(
                    ConnectorError::MissingRequiredField {
                        field_name: String::from_str("notification_url"),
                    },
                );
            },
        };
        let address = match &item.address.billing {
            Some(a) => a,
            None => {
                return Err(
                    ConnectorError::MissingRequiredField {
                        field_name: String::from_str("billing_address"),
                    },
                );
            },
        };
        let actual_address = match &address.address {
            Some(a) => a,
            None => {
                return Err(
                    ConnectorError::MissingRequiredField {
                        field_name: String::from_str("billing_address"),
                    },
                );
            },
        };
        let address1 = match &actual_address.line1 {
            Some(s) => Secret::new(s.expose().clone()),
            None => {
                return Err(
                    ConnectorError::MissingRequiredField {
                        field_name: String::from_str("address1"),
                    },
                );
            },
        };
        let city = match &actual_address.city {
            Some(s) => s.clone(),
            None => {
                return Err(
                    ConnectorError::MissingRequiredField { field_name: String::from_str("city") },
                );
            },
        };
        let country = match &actual_address.country {
            Some(s) => s.clone(),
            None => {
                return Err(
                    ConnectorError::MissingRequiredField {
                        field_name: String::from_str("country"),
                    },
                );
            },
        };
        let zip = match &actual_address.zip {
            Some(s) => Secret::new(s.expose().clone()),
            None => {
                return Err(
                    ConnectorError::MissingRequiredField { field_name: String::from_str("zip") },
                );
            },
        };
        let billing_address = BillingAddress {
            address1: address1,
            city: city,
            country: country,
            postalCode: zip,
        };
        let ip_addr = match &browser_info.ip_address {
            Some(s) => s.clone(),
            None => {
                return Err(
                    ConnectorError::MissingRequiredField {
                        field_name: String::from_str("browserIP"),
                    },
                );
            },
        };
        let strong_customer_authentication = CustomerAuthentication {
            notificationURL: notification_url,
            browserIP: ip_addr,
            browserAcceptHeader: browser_info.accept_header.clone(),
            browserJavascriptEnabled: browser_info.java_script_enabled,
            browserLanguage: browser_info.language.clone(),
            browserUserAgent: browser_info.user_agent.clone(),
            challengeWindowSize: String::from_str(getWindowSize(browser_info.screen_width)),
            transType: String::from_str("GoodsAndServicePurchase"),
        };
        let customer_first_name = match &actual_address.first_name {
            Some(s) => Secret::new(s.expose().clone()),
            None => {
                return Err(
                    ConnectorError::MissingRequiredField {
                        field_name: String::from_str("first_name"),
                    },
                );
            },
        };
        let customer_last_name = match &actual_address.last_name {
            Some(s) => Secret::new(s.expose().clone()),
            None => {
                return Err(
                    ConnectorError::MissingRequiredField {
                        field_name: String::from_str("last_name"),
                    },
                );
            },
        };
        Ok(
            OpayoPaymentsRequest {
                transaction_type: String::from_str("Payment"),
                payment_method: payment_method,
                vendor_tx_code: vendor_tx_code,
                amount: amount,
                currency: currency,
                description: description,
                customer_first_name: customer_first_name,
                customer_last_name: customer_last_name,
                billing_address: billing_address,
                apply3_d_secure: String::from_str("UseMSPSetting"),
                strong_customer_authentication: strong_customer_authentication,
                credential_type: None,
            },
        )
    }
}

/// Opayo's credential for transport: the API key taken from a header-key
/// merchant credential.
pub struct OpayoAuthType {
    pub api_key: String,
}

impl OpayoAuthType {
    /// Extracts the API key Opayo's transport needs, or fails when the
    /// configured credential variant is not the header-key one.
    pub fn try_from(auth_type: &ConnectorAuthType) -> (r: Result<OpayoAuthType, ConnectorError>)
        ensures
            auth_type@ matches ConnectorAuthTypeView::HeaderKey { api_key } ==> (r matches Ok(a)
                && a.api_key@ == api_key),
            !(auth_type@ matches ConnectorAuthTypeView::HeaderKey { .. }) ==> r == Err::<
                OpayoAuthType,
                ConnectorError,
            >(ConnectorError::FailedToObtainAuthType),
    {
        match auth_type {
            ConnectorAuthType::HeaderKey { api_key } => Ok(
                OpayoAuthType { api_key: api_key.clone() },
            ),
            ConnectorAuthType::BodyKey { .. } => Err(ConnectorError::FailedToObtainAuthType),
        }
    }
}

/// Opayo's payment status vocabulary.
#[derive(Debug, Clone, Copy, PartialEq, Eq, Structural, Default)]
pub enum OpayoPaymentStatus {
    Succeeded,
    Failed,
    #[default]
    Processing,
}

/// The total mapping from Opayo's payment status vocabulary onto the
/// domain attempt status.
pub open spec fn spec_attempt_status(s: OpayoPaymentStatus) -> AttemptStatus {
    match s {
        OpayoPaymentStatus::Succeeded => AttemptStatus::Charged,
        OpayoPaymentStatus::Failed => AttemptStatus::Failure,
        OpayoPaymentStatus::Processing => AttemptStatus::Authorizing,
    }
}

impl From<OpayoPaymentStatus> for AttemptStatus {
    fn from(item: OpayoPaymentStatus) -> (r: Self) {
        match item {
            OpayoPaymentStatus::Succeeded => AttemptStatus::Charged,
            OpayoPaymentStatus::Failed => AttemptStatus::Failure,
            OpayoPaymentStatus::Processing => AttemptStatus::Authorizing,
        }
    }
}

impl vstd::std_specs::convert::FromSpecImpl<OpayoPaymentStatus> for AttemptStatus {
    open spec fn obeys_from_spec() -> bool {
        true
    }

    open spec fn from_spec(t: OpayoPaymentStatus) -> Self {
        spec_attempt_status(t)
    }
}

/// Law: the domain status mapping is total over Opayo's payment status
/// vocabulary — it is a function, so every wire status yields exactly one
/// domain status — and no domain status is reachable from two different
/// wire statuses.
pub proof fn lemma_payment_status_mapping_total(a: OpayoPaymentStatus, b: OpayoPaymentStatus)
    ensures
        spec_attempt_status(a) == spec_attempt_status(b) <==> a == b,
{
}

/// Opayo's payment response shape.
#[derive(Debug, Clone, PartialEq, Default)]
pub struct OpayoPaymentsResponse {
    pub status: OpayoPaymentStatus,
    pub id: String,
}

/// A wire response paired with the domain envelope it answers, plus the
/// transport status it arrived under.
pub struct ResponseRouterData {
    pub response: OpayoPaymentsResponse,
    pub data: PaymentsAuthorizeRouterData,
    pub http_code: u16,
}

impl PaymentsAuthorizeRouterData {
    /// Reduces Opayo's wire response into the domain envelope: the attempt
    /// status is the total mapping of the wire status, the outcome carries
    /// the wire transaction identifier as the connector reference, and
    /// everything else in the envelope is kept unchanged.
    pub fn try_from(item: ResponseRouterData) -> (r: Result<
        PaymentsAuthorizeRouterData,
        ParsingError,
    >)
        ensures
            r matches Ok(out) && {
                &&& out.status == spec_attempt_status(item.response.status)
                &&& out.response == TransactionOutcome::Completed(
                    PaymentsResponseData::TransactionResponse {
                        resource_id: ResponseId::ConnectorTransactionId(item.response.id),
                        redirection_data: None,
                        redirect: false,
                        mandate_reference: None,
                        connector_metadata: None,
                    },
                )
                &&& out.merchant_id == item.data.merchant_id
                &&& out.payment_id == item.data.payment_id
                &&& out.connector == item.data.connector
                &&& out.description == item.data.description
                &&& out.return_url == item.data.return_url
                &&& out.address == item.data.address
                &&& out.auth_type == item.data.auth_type
                &&& out.request == item.data.request
            },
    {
        let status = AttemptStatus::from(item.response.status);
        Ok(
            PaymentsAuthorizeRouterData {
                status: status,
                response: TransactionOutcome::Completed(
                    PaymentsResponseData::TransactionResponse {
                        resource_id: ResponseId::ConnectorTransactionId(item.response.id),
                        redirection_data: None,
                        redirect: false,
                        mandate_reference: None,
                        connector_metadata: None,
                    },
                ),
                ..item.data
            },
        )
    }
}

/// Opayo's refund request shape.
pub struct OpayoRefundRequest {
    pub transaction_type: String,
    pub vendor_tx_code: String,
    pub reference_transaction_id: String,
    pub amount: i64,
    pub description: String,
}

impl OpayoRefundRequest {
    /// Builds Opayo's refund request from the refund envelope: a refund
    /// transaction referencing the original connector transaction, with the
    /// refund reason as its description when one was given.
    pub fn try_from(item: &RefundsRouterData) -> (r: Result<OpayoRefundRequest, ParsingError>)
        requires
            item.spec_well_formed(),
        ensures
            r matches Ok(req) && {
                &&& req.transaction_type@ == "Refund"@
                &&& req.vendor_tx_code == item.refund.refund_id
                &&& req.reference_transaction_id == item.refund.connector_transaction_id
                &&& req.amount == item.refund.refund_amount
                &&& (item.refund.reason matches Some(v) ==> req.description == v)
                &&& (item.refund.reason is None ==> req.description@ == Seq::<char>::empty())
            },
    {
        let reason = match &item.refund.reason {
            Some(s) => Some(s.clone()),
            None => None,
        };
        let description = fromOption(reason, String::new());
        Ok(
            OpayoRefundRequest {
                transaction_type: String::from_str("Refund"),
                vendor_tx_code: item.refund.refund_id.clone(),
                reference_transaction_id: item.refund.connector_transaction_id.clone(),
                amount: item.refund.refund_amount,
                description: description,
            },
        )
    }
}

/// Opayo's refund status vocabulary.
#[derive(Debug, Clone, Copy, PartialEq, Eq, Structural, Default)]
pub enum RefundStatus {
    Succeeded,
    Failed,
    #[default]
    Processing,
}

/// The total mapping from Opayo's refund status vocabulary onto the domain
/// refund status.
pub open spec fn spec_refund_status(s: RefundStatus) -> crate::domain::RefundStatus {
    match s {
        RefundStatus::Succeeded => crate::domain::RefundStatus::Success,
        RefundStatus::Failed => crate::domain::RefundStatus::Failure,
        RefundStatus::Processing => crate::domain::RefundStatus::Pending,
    }
}

impl From<RefundStatus> for crate::domain::RefundStatus {
    fn from(item: RefundStatus) -> (r: Self) {
        match item {
            RefundStatus::Succeeded => crate::domain::RefundStatus::Success,
            RefundStatus::Failed => crate::domain::RefundStatus::Failure,
            RefundStatus::Processing => crate::domain::RefundStatus::Pending,
        }
    }
}

impl vstd::std_specs::convert::FromSpecImpl<RefundStatus> for crate::domain::RefundStatus {
    open spec fn obeys_from_spec() -> bool {
        true
    }

    open spec fn from_spec(t: RefundStatus) -> Self {
        spec_refund_status(t)
    }
}

/// Law: the domain refund-status mapping is total over Opayo's refund
/// status vocabulary and no domain refund status is reachable from two
/// different wire statuses.
pub proof fn lemma_refund_status_mapping_total(a: RefundStatus, b: RefundStatus)
    ensures
        spec_refund_status(a) == spec_refund_status(b) <==> a == b,
{
}

/// Opayo's refund response shape.
#[derive(Debug, Clone, PartialEq, Default)]
pub struct RefundResponse {
    pub status: RefundStatus,
    pub id: String,
}

/// A refund wire response paired with the refund envelope it answers.
pub struct RefundsResponseRouterData {
    pub response: RefundResponse,
    pub data: RefundsRouterData,
    pub http_code: u16,
}

impl RefundsRouterData {
    /// Reduces Opayo's refund response into the refund envelope: the
    /// outcome carries the wire refund identifier and the total mapping of
    /// the wire refund status; everything else is kept unchanged. The same
    /// reduction serves the refund-execute and the refund-sync flow.
    pub fn try_from(item: RefundsResponseRouterData) -> (r: Result<RefundsRouterData, ParsingError>)
        ensures
            r matches Ok(out) && {
                &&& out.response == RefundOutcome::Completed(
                    RefundsResponseData {
                        connector_refund_id: item.response.id,
                        refund_status: spec_refund_status(item.response.status),
                    },
                )
                &&& out.merchant_id == item.data.merchant_id
                &&& out.payment_id == item.data.payment_id
                &&& out.connector == item.data.connector
                &&& out.refund == item.data.refund
            },
    {
        let refund_status = crate::domain::RefundStatus::from(item.response.status);
        Ok(
            RefundsRouterData {
                response: RefundOutcome::Completed(
                    RefundsResponseData {
                        connector_refund_id: item.response.id,
                        refund_status: refund_status,
                    },
                ),
                ..item.data
            },
        )
    }
}

/// Opayo's error response shape for non-success transport statuses.
#[derive(Debug, PartialEq, Eq, Structural, Default)]
pub struct OpayoErrorResponse {}

/// Whether the domain input carries a card, the one payment method the
/// Opayo transformer implements.
pub open spec fn spec_has_card(d: AuthorizeView) -> bool {
    d.request.payment_method_data matches PaymentMethodView::Card(_)
}

/// The billing address details of a domain input, when both the billing
/// slot and its details are present.
pub open spec fn spec_billing_details(d: AuthorizeView) -> Option<
    crate::domain::AddressDetailsView,
> {
    match d.billing {
        Some(Some(a)) => Some(a),
        _ => None,
    }
}

/// Law: the request build succeeds exactly when every field Opayo
/// mandates is present and the payment method is a card; success is owed
/// on all such inputs, and on no others.
pub proof fn lemma_success_iff_complete(d: AuthorizeView)
    ensures
        spec_opayo_request(d) is Ok <==> {
            &&& d.description is Some
            &&& spec_has_card(d)
            &&& d.request.browser_info is Some
            &&& d.request.browser_info->0.ip_address is Some
            &&& d.return_url is Some
            &&& spec_billing_details(d) is Some
            &&& spec_billing_details(d)->0.line1 is Some
            &&& spec_billing_details(d)->0.city is Some
            &&& spec_billing_details(d)->0.country is Some
            &&& spec_billing_details(d)->0.zip is Some
            &&& spec_billing_details(d)->0.first_name is Some
            &&& spec_billing_details(d)->0.last_name is Some
        },
{
}

/// Law: for every domain input missing a mandated field, the request build
/// fails with exactly that field's name — and, the result being an error,
/// no partial wire request exists. The clauses follow the order in which
/// the build validates.
pub proof fn lemma_missing_required_field(d: AuthorizeView)
    ensures
        d.description is None ==> spec_opayo_request(d) == Err::<
            OpayoPaymentsRequestView,
            OpayoRequestError,
        >(OpayoRequestError::MissingField("item.description"@)),
        (d.description is Some && !spec_has_card(d)) ==> spec_opayo_request(d) == Err::<
            OpayoPaymentsRequestView,
            OpayoRequestError,
        >(OpayoRequestError::NotImplemented("Unknown payment method"@)),
        (d.description is Some && spec_has_card(d) && d.request.browser_info is None)
            ==> spec_opayo_request(d) == Err::<OpayoPaymentsRequestView, OpayoRequestError>(
            OpayoRequestError::MissingField("browser_info"@),
        ),
        (d.description is Some && spec_has_card(d) && d.request.browser_info is Some
            && d.return_url is None) ==> spec_opayo_request(d) == Err::<
            OpayoPaymentsRequestView,
            OpayoRequestError,
        >(OpayoRequestError::MissingField("notification_url"@)),
        (d.description is Some && spec_has_card(d) && d.request.browser_info is Some
            && d.return_url is Some && spec_billing_details(d) is None) ==> spec_opayo_request(d)
            == Err::<OpayoPaymentsRequestView, OpayoRequestError>(
            OpayoRequestError::MissingField("billing_address"@),
        ),
        (d.description is Some && spec_has_card(d) && d.request.browser_info is Some
            && d.return_url is Some && spec_billing_details(d) is Some && spec_billing_details(
            d,
        )->0.line1 is None) ==> spec_opayo_request(d) == Err::<
            OpayoPaymentsRequestView,
            OpayoRequestError,
        >(OpayoRequestError::MissingField("address1"@)),
        (d.description is Some && spec_has_card(d) && d.request.browser_info is Some
            && d.return_url is Some && spec_billing_details(d) is Some && spec_billing_details(
            d,
        )->0.line1 is Some && spec_billing_details(d)->0.city is None) ==> spec_opayo_request(d)
            == Err::<OpayoPaymentsRequestView, OpayoRequestError>(
            OpayoRequestError::MissingField("city"@),
        ),
        (d.description is Some && spec_has_card(d) && d.request.browser_info is Some
            && d.return_url is Some && spec_billing_details(d) is Some && spec_billing_details(
            d,
        )->0.line1 is Some && spec_billing_details(d)->0.city is Some && spec_billing_details(
            d,
        )->0.country is None) ==> spec_opayo_request(d) == Err::<
            OpayoPaymentsRequestView,
            OpayoRequestError,
        >(OpayoRequestError::MissingField("country"@)),
        (d.description is Some && spec_has_card(d) && d.request.browser_info is Some
            && d.return_url is Some && spec_billing_details(d) is Some && spec_billing_details(
            d,
        )->0.line1 is Some && spec_billing_details(d)->0.city is Some && spec_billing_details(
            d,
        )->0.country is Some && spec_billing_details(d)->0.zip is None) ==> spec_opayo_request(d)
            == Err::<OpayoPaymentsRequestView, OpayoRequestError>(
            OpayoRequestError::MissingField("zip"@),
        ),
        (d.description is Some && spec_has_card(d) && d.request.browser_info is Some
            && d.return_url is Some && spec_billing_details(d) is Some && spec_billing_details(
            d,
        )->0.line1 is Some && spec_billing_details(d)->0.city is Some && spec_billing_details(
            d,
        )->0.country is Some && spec_billing_details(d)->0.zip is Some
            && d.request.browser_info->0.ip_address is None) ==> spec_opayo_request(d) == Err::<
            OpayoPaymentsRequestView,
            OpayoRequestError,
        >(OpayoRequestError::MissingField("browserIP"@)),
        (d.description is Some && spec_has_card(d) && d.request.browser_info is Some
            && d.return_url is Some && spec_billing_details(d) is Some && spec_billing_details(
            d,
        )->0.line1 is Some && spec_billing_details(d)->0.city is Some && spec_billing_details(
            d,
        )->0.country is Some && spec_billing_details(d)->0.zip is Some
            && d.request.browser_info->0.ip_address is Some && spec_billing_details(
            d,
        )->0.first_name is None) ==> spec_opayo_request(d) == Err::<
            OpayoPaymentsRequestView,
            OpayoRequestError,
        >(OpayoRequestError::MissingField("first_name"@)),
        (d.description is Some && spec_has_card(d) && d.request.browser_info is Some
            && d.return_url is Some && spec_billing_details(d) is Some && spec_billing_details(
            d,
        )->0.line1 is Some && spec_billing_details(d)->0.city is Some && spec_billing_details(
            d,
        )->0.country is Some && spec_billing_details(d)->0.zip is Some
            && d.request.browser_info->0.ip_address is Some && spec_billing_details(
            d,
        )->0.first_name is Some && spec_billing_details(d)->0.last_name is None)
            ==> spec_opayo_request(d) == Err::<OpayoPaymentsRequestView, OpayoRequestError>(
            OpayoRequestError::MissingField("last_name"@),
        ),
{
}

/// Law: building the wire request is a pure function of the domain input —
/// two builds from the same input yield structurally identical results.
pub proof fn lemma_to_wire_request_deterministic(d1: AuthorizeView, d2: AuthorizeView)
    requires
        d1 == d2,
    ensures
        spec_opayo_request(d1) == spec_opayo_request(d2),
{
}

/// Law: a wire response in Opayo's terminal success state reduces to the
/// domain charged status; by the reduction's contract its outcome carries
/// the wire transaction identifier as the connector reference.
pub proof fn lemma_success_round_trip(resp: OpayoPaymentsResponse)
    requires
        resp.status == OpayoPaymentStatus::Succeeded,
    ensures
        spec_attempt_status(resp.status) == AttemptStatus::Charged,
{
}

} // verus!

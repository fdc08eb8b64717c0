//! Canonical, connector-agnostic transaction model: the envelope every
//! connector transformer translates from and back into. Monetary amounts are
//! integers in minor currency units; sensitive fields are secret-wrapped; the
//! outcome of an attempt is exactly one of not-attempted, completed, or a
//! structured error payload.

use vstd::prelude::*;
use crate::secret::Secret;

verus! {

/// Closed, ISO-4217-like currency enumeration.
#[derive(Clone, Copy, PartialEq, Eq, Structural, Debug)]
pub enum Currency {
    USD,
    EUR,
    GBP,
}

/// The wire spelling of a currency code.
pub open spec fn spec_currency_code(c: Currency) -> Seq<char> {
    match c {
        Currency::USD => "USD"@,
        Currency::EUR => "EUR"@,
        Currency::GBP => "GBP"@,
    }
}

impl Currency {
    /// The three-letter code a connector's wire format carries.
    pub fn code(&self) -> (r: &'static str)
        ensures
            r@ == spec_currency_code(*self),
    {
        match self {
            Currency::USD => "USD",
            Currency::EUR => "EUR",
            Currency::GBP => "GBP",
        }
    }
}

/// Connector-agnostic status of one payment attempt. Every connector's own
/// status vocabulary is mapped onto this set before it leaves the
/// transformer boundary.
#[derive(Clone, Copy, PartialEq, Eq, Structural, Debug)]
pub enum AttemptStatus {
    Processing,
    Authorizing,
    Charged,
    Failure,
}

/// Connector-agnostic status of one refund attempt.
#[derive(Clone, Copy, PartialEq, Eq, Structural, Debug)]
pub enum RefundStatus {
    Success,
    Failure,
    Pending,
}

/// Card details; every field is secret-wrapped and never rendered.
pub struct Card {
    pub card_number: Secret<String>,
    pub card_exp_month: Secret<String>,
    pub card_exp_year: Secret<String>,
    pub card_holder_name: Secret<String>,
    pub card_cvc: Secret<String>,
}

pub ghost struct CardView {
    pub card_number: Seq<char>,
    pub card_exp_month: Seq<char>,
    pub card_exp_year: Seq<char>,
    pub card_holder_name: Seq<char>,
    pub card_cvc: Seq<char>,
}

impl View for Card {
    type V = CardView;

    open spec fn view(&self) -> CardView {
        CardView {
            card_number: self.card_number.deep_view(),
            card_exp_month: self.card_exp_month.deep_view(),
            card_exp_year: self.card_exp_year.deep_view(),
            card_holder_name: self.card_holder_name.deep_view(),
            card_cvc: self.card_cvc.deep_view(),
        }
    }
}

/// Polymorphic payment method; transformers must either handle a variant or
/// reject it with a "not implemented" error, never emit a half-built request.
pub enum PaymentMethodData {
    Card(Card),
    Wallet,
}

pub ghost enum PaymentMethodView {
    Card(CardView),
    Wallet,
}

impl View for PaymentMethodData {
    type V = PaymentMethodView;

    open spec fn view(&self) -> PaymentMethodView {
        match self {
            PaymentMethodData::Card(c) => PaymentMethodView::Card(c@),
            PaymentMethodData::Wallet => PaymentMethodView::Wallet,
        }
    }
}

/// Billing address details; absence of any field is representable and
/// distinguishable from "present but empty."
pub struct AddressDetails {
    pub line1: Option<Secret<String>>,
    pub city: Option<String>,
    pub country: Option<String>,
    pub zip: Option<Secret<String>>,
    pub first_name: Option<Secret<String>>,
    pub last_name: Option<Secret<String>>,
}

pub ghost struct AddressDetailsView {
    pub line1: Option<Seq<char>>,
    pub city: Option<Seq<char>>,
    pub country: Option<Seq<char>>,
    pub zip: Option<Seq<char>>,
    pub first_name: Option<Seq<char>>,
    pub last_name: Option<Seq<char>>,
}

impl View for AddressDetails {
    type V = AddressDetailsView;

    open spec fn view(&self) -> AddressDetailsView {
        AddressDetailsView {
            line1: self.line1.deep_view(),
            city: self.city.deep_view(),
            country: self.country.deep_view(),
            zip: self.zip.deep_view(),
            first_name: self.first_name.deep_view(),
            last_name: self.last_name.deep_view(),
        }
    }
}

/// One address slot: the slot itself may be absent, and a present slot may
/// still carry no details.
pub struct Address {
    pub address: Option<AddressDetails>,
}

/// The addresses attached to a payment attempt.
pub struct PaymentAddress {
    pub billing: Option<Address>,
}

impl View for PaymentAddress {
    type V = Option<Option<AddressDetailsView>>;

    open spec fn view(&self) -> Option<Option<AddressDetailsView>> {
        match self.billing {
            Some(a) => Some(
                match a.address {
                    Some(d) => Some(d@),
                    None => None,
                },
            ),
            None => None,
        }
    }
}

/// Browser fingerprint for strong-authentication flows.
pub struct BrowserInformation {
    pub ip_address: Option<String>,
    pub accept_header: String,
    pub java_script_enabled: bool,
    pub language: String,
    pub user_agent: String,
    pub screen_width: u32,
}

pub ghost struct BrowserInformationView {
    pub ip_address: Option<Seq<char>>,
    pub accept_header: Seq<char>,
    pub java_script_enabled: bool,
    pub language: Seq<char>,
    pub user_agent: Seq<char>,
    pub screen_width: u32,
}

impl View for BrowserInformation {
    type V = BrowserInformationView;

    open spec fn view(&self) -> BrowserInformationView {
        BrowserInformationView {
            ip_address: self.ip_address.deep_view(),
            accept_header: self.accept_header@,
            java_script_enabled: self.java_script_enabled,
            language: self.language@,
            user_agent: self.user_agent@,
            screen_width: self.screen_width,
        }
    }
}

/// The merchant's configured credential for a connector; opaque to the
/// executor, consumed only by each connector's auth-type conversion.
pub enum ConnectorAuthType {
    HeaderKey { api_key: String },
    BodyKey { api_key: String, key1: String },
}

pub ghost enum ConnectorAuthTypeView {
    HeaderKey { api_key: Seq<char> },
    BodyKey { api_key: Seq<char>, key1: Seq<char> },
}

impl View for ConnectorAuthType {
    type V = ConnectorAuthTypeView;

    open spec fn view(&self) -> ConnectorAuthTypeView {
        match self {
            ConnectorAuthType::HeaderKey { api_key } => ConnectorAuthTypeView::HeaderKey {
                api_key: api_key@,
            },
            ConnectorAuthType::BodyKey { api_key, key1 } => ConnectorAuthTypeView::BodyKey {
                api_key: api_key@,
                key1: key1@,
            },
        }
    }
}

/// Closed enumeration of the connectors this router knows by name; the
/// registry decides which of them have a registered integration.
#[derive(Clone, Copy, PartialEq, Eq, Structural, Debug)]
pub enum ConnectorName {
    Opayo,
    Authorizedotnet,
    Checkout,
}

/// Zero-data flow marker: which operation is being performed. Used purely
/// as a dispatch key, it carries no state.
#[derive(Clone, Copy, PartialEq, Eq, Structural, Debug)]
pub enum Flow {
    Authorize,
    Capture,
    ExecuteRefund,
    RefundSync,
}

/// The connector-specific parts of an authorize request.
pub struct PaymentsAuthorizeData {
    pub amount: i64,
    pub currency: Currency,
    pub payment_method_data: PaymentMethodData,
    pub browser_info: Option<BrowserInformation>,
}

pub ghost struct PaymentsAuthorizeDataView {
    pub amount: i64,
    pub currency: Currency,
    pub payment_method_data: PaymentMethodView,
    pub browser_info: Option<BrowserInformationView>,
}

impl View for PaymentsAuthorizeData {
    type V = PaymentsAuthorizeDataView;

    open spec fn view(&self) -> PaymentsAuthorizeDataView {
        PaymentsAuthorizeDataView {
            amount: self.amount,
            currency: self.currency,
            payment_method_data: self.payment_method_data@,
            browser_info: match self.browser_info {
                Some(b) => Some(b@),
                None => None,
            },
        }
    }
}

/// The connector's reference for a processed transaction.
pub enum ResponseId {
    ConnectorTransactionId(String),
    NoResponseId,
}

/// Successful response payload attached to the domain model after a
/// completed dispatch.
pub enum PaymentsResponseData {
    TransactionResponse {
        resource_id: ResponseId,
        redirection_data: Option<String>,
        redirect: bool,
        mandate_reference: Option<String>,
        connector_metadata: Option<String>,
    },
}

/// Structured error payload attached when a dispatch completed with a
/// connector-side failure.
pub struct ErrorResponse {
    pub status_code: u16,
    pub code: String,
    pub message: String,
}

/// Outcome of one attempt: never both success and error, and never silently
/// empty once a dispatch attempt has completed.
pub enum TransactionOutcome {
    NotAttempted,
    Completed(PaymentsResponseData),
    Failed(ErrorResponse),
}

/// Canonical envelope for one authorize attempt: identity, money, method,
/// auth, context, and the mutable outcome slot.
pub struct PaymentsAuthorizeRouterData {
    pub merchant_id: String,
    pub payment_id: String,
    pub connector: ConnectorName,
    pub description: Option<String>,
    pub return_url: Option<String>,
    pub address: PaymentAddress,
    pub auth_type: ConnectorAuthType,
    pub request: PaymentsAuthorizeData,
    pub status: AttemptStatus,
    pub response: TransactionOutcome,
}

/// What a connector transformer is allowed to read from the envelope.
pub ghost struct AuthorizeView {
    pub merchant_id: Seq<char>,
    pub payment_id: Seq<char>,
    pub connector: ConnectorName,
    pub description: Option<Seq<char>>,
    pub return_url: Option<Seq<char>>,
    pub billing: Option<Option<AddressDetailsView>>,
    pub auth_type: ConnectorAuthTypeView,
    pub request: PaymentsAuthorizeDataView,
}

impl PaymentsAuthorizeRouterData {
    /// Well-formedness of the envelope: the amount is a positive count of
    /// minor currency units — no flow here defines a zero-amount semantic,
    /// and a negative charge is never meaningful.
    pub open spec fn spec_well_formed(&self) -> bool {
        self.request.amount > 0
    }
}

impl View for PaymentsAuthorizeRouterData {
    type V = AuthorizeView;

    open spec fn view(&self) -> AuthorizeView {
        AuthorizeView {
            merchant_id: self.merchant_id@,
            payment_id: self.payment_id@,
            connector: self.connector,
            description: self.description.deep_view(),
            return_url: self.return_url.deep_view(),
            billing: self.address@,
            auth_type: self.auth_type@,
            request: self.request@,
        }
    }
}

/// The connector-specific parts of a refund request.
pub struct RefundsData {
    pub refund_id: String,
    pub connector_transaction_id: String,
    pub refund_amount: i64,
    pub currency: Currency,
    pub reason: Option<String>,
}

/// Successful refund payload attached after a completed refund dispatch.
pub struct RefundsResponseData {
    pub connector_refund_id: String,
    pub refund_status: RefundStatus,
}

/// Outcome of one refund attempt.
pub enum RefundOutcome {
    NotAttempted,
    Completed(RefundsResponseData),
    Failed(ErrorResponse),
}

/// Canonical envelope for one refund attempt.
pub struct RefundsRouterData {
    pub merchant_id: String,
    pub payment_id: String,
    pub connector: ConnectorName,
    pub refund: RefundsData,
    pub response: RefundOutcome,
}

impl RefundsRouterData {
    /// Well-formedness of the refund envelope: the refunded amount is a
    /// positive count of minor currency units.
    pub open spec fn spec_well_formed(&self) -> bool {
        self.refund.refund_amount > 0
    }
}

} // verus!

//! Connector registry: the read-only lookup from a connector identifier to
//! the integration that speaks that connector's dialect for a given flow.
//! Lookup never silently defaults: an identifier without a registered
//! integration fails with an invalid-connector-name error.

use vstd::prelude::*;
use crate::domain::{ConnectorName, Flow};
use crate::errors::ConnectorError;

verus! {

/// Closed set of connector integrations this router has registered, one
/// tagged variant per connector whose transformer pair exists.
#[derive(Clone, Copy, PartialEq, Eq, Structural, Debug)]
pub enum ConnectorIntegration {
    Opayo,
}

/// The registry context object: built once at initialization, read-only
/// afterwards, and passed by reference into every processing step.
pub struct ConnectorRegistry {}

impl ConnectorRegistry {
    /// Which connector identifiers have a registered integration for a
    /// flow; only Opayo's transformer pair exists here, for every flow.
    pub open spec fn spec_registered(name: ConnectorName, flow: Flow) -> bool {
        name == ConnectorName::Opayo
    }

    /// The single initialization point of the process-wide registry.
    pub fn new() -> (r: ConnectorRegistry) {
        ConnectorRegistry {  }
    }

    /// Resolves a connector identifier to its integration for the flow:
    /// a registered identifier yields its integration, an unregistered one
    /// fails with the invalid-connector-name error, never a default.
    pub fn lookup(&self, name: ConnectorName, flow: Flow) -> (r: Result<
        ConnectorIntegration,
        ConnectorError,
    >)
        ensures
            Self::spec_registered(name, flow) ==> r == Ok::<ConnectorIntegration, ConnectorError>(
                ConnectorIntegration::Opayo,
            ),
            !Self::spec_registered(name, flow) ==> r == Err::<ConnectorIntegration, ConnectorError>(
                ConnectorError::InvalidConnectorName,
            ),
    {
        match name {
            ConnectorName::Opayo => Ok(ConnectorIntegration::Opayo),
            ConnectorName::Authorizedotnet => Err(ConnectorError::InvalidConnectorName),
            ConnectorName::Checkout => Err(ConnectorError::InvalidConnectorName),
        }
    }
}

} // verus!

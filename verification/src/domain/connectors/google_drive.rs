//! The connector for Google Drive. Nothing is fetched from there yet: every operation fails with
//! the same failure, so that the kind of source has a connector all the same.

use vstd::prelude::*;
use crate::clients::AuthClient;
use crate::domain::connectors::session::AccessStep;
use crate::domain::connectors::session::AccessStepView;
use crate::domain::connectors::session::FetchStep;
use crate::domain::connectors::session::FetchStepView;
use crate::domain::models::ConnectorType;
use crate::domain::models::DataSource;
use crate::error::AppError;
use crate::error::ErrorKind;
use crate::error::Failure;

verus! {

/// The connector for Google Drive.
#[derive(Debug)]
pub struct GoogleDriveConnector {
    pub auth_client: AuthClient,
}

/// The failure that every operation of this connector ends in.
pub open spec fn not_implemented() -> Failure {
    Failure { kind: ErrorKind::Internal, message: "Google Drive connector not yet implemented"@ }
}

impl GoogleDriveConnector {
    pub fn new(auth_client: AuthClient) -> (r: Self)
        ensures
            r.auth_client@ == auth_client@,
    {
        GoogleDriveConnector { auth_client }
    }

    /// The kind of source that this connector serves.
    pub fn connector_type(&self) -> (r: ConnectorType)
        ensures
            r == ConnectorType::GoogleDrive,
    {
        ConnectorType::GoogleDrive
    }

    /// Fails: access to a source of this kind cannot be checked yet.
    pub fn validate_access(&self, source: &DataSource, user_id: u128) -> (r: AccessStep)
        ensures
            r@ == AccessStepView::Failed(not_implemented()),
    {
        AccessStep::Failed(
            AppError::Internal(String::from_str("Google Drive connector not yet implemented")),
        )
    }

    /// Fails: nothing can be fetched from a source of this kind yet.
    pub fn fetch_content(&self, source: &DataSource, user_id: u128) -> (r: FetchStep)
        ensures
            r@ == FetchStepView::Failed(not_implemented()),
    {
        FetchStep::Failed(
            AppError::Internal(String::from_str("Google Drive connector not yet implemented")),
        )
    }
}

} // verus!

//! The connector for pages of the web. Nothing is fetched from there yet: every operation
//! fails with the same failure. The wikis are served by this connector until they have
//! one of their own.

use vstd::prelude::*;
use crate::domain::connectors::session::AccessStep;
use crate::domain::connectors::session::AccessStepView;
use crate::domain::connectors::session::FetchStep;
use crate::domain::connectors::session::FetchStepView;
use crate::domain::models::ConnectorType;
use crate::domain::models::DataSource;
use crate::error::AppError;
use crate::error::ErrorKind;
use crate::error::Failure;

verus! {

/// The connector for pages of the web.
#[derive(Debug, Clone, Copy, PartialEq, Eq, Structural)]
pub struct UrlScraperConnector {}

impl Default for UrlScraperConnector {
    fn default() -> (r: Self)
        ensures
            r == (UrlScraperConnector {  }),
    {
        UrlScraperConnector {  }
    }
}

/// The failure that every operation of this connector ends in.
pub open spec fn not_implemented() -> Failure {
    Failure { kind: ErrorKind::Internal, message: "URL scraper connector not yet implemented"@ }
}

impl UrlScraperConnector {
    pub fn new() -> (r: Self)
        ensures
            r == (UrlScraperConnector {  }),
    {
        UrlScraperConnector {  }
    }

    /// The kind of source that this connector serves.
    pub fn connector_type(&self) -> (r: ConnectorType)
        ensures
            r == ConnectorType::UrlScraper,
    {
        ConnectorType::UrlScraper
    }

    /// Fails: access to a source of this kind cannot be checked yet.
    pub fn validate_access(&self, source: &DataSource, user_id: u128) -> (r: AccessStep)
        ensures
            r@ == AccessStepView::Failed(not_implemented()),
    {
        AccessStep::Failed(
            AppError::Internal(String::from_str("URL scraper connector not yet implemented")),
        )
    }

    /// Fails: nothing can be fetched from a source of this kind yet.
    pub fn fetch_content(&self, source: &DataSource, user_id: u128) -> (r: FetchStep)
        ensures
            r@ == FetchStepView::Failed(not_implemented()),
    {
        FetchStep::Failed(
            AppError::Internal(String::from_str("URL scraper connector not yet implemented")),
        )
    }
}

} // verus!

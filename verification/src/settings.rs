//! Application settings as plain values.
//!
//! Loading and parsing the configuration file is the surrounding
//! process's business; the settings themselves are held here so that the
//! core can be handed service endpoints and database parameters as
//! ordinary data.

pub mod template;

use vstd::prelude::*;

verus! {

/// Configuration of one remote service endpoint.
pub struct RemoteServiceConfig {
    pub url: String,
    pub connection_timeout: Option<i32>,
    pub request_timeout: Option<i32>,
}

impl RemoteServiceConfig {
    /// Creates a remote service configuration.
    pub fn new(url: String, connection_timeout: Option<i32>, request_timeout: Option<i32>) -> (r:
        RemoteServiceConfig)
        ensures
            r.url@ == url@,
            r.connection_timeout == connection_timeout,
            r.request_timeout == request_timeout,
    {
        RemoteServiceConfig { url, connection_timeout, request_timeout }
    }

    /// Returns the service's URL.
    pub fn url(&self) -> (r: &str)
        ensures
            r@ == self.url@,
    {
        self.url.as_str()
    }

    /// Returns the preferred connection timeout, in seconds.
    pub fn connection_timeout(&self) -> (r: Option<i32>)
        ensures
            r == self.connection_timeout,
    {
        self.connection_timeout
    }

    /// Returns the preferred request timeout, in seconds.
    pub fn request_timeout(&self) -> (r: Option<i32>)
        ensures
            r == self.request_timeout,
    {
        self.request_timeout
    }
}

/// Database configuration.
pub struct Db {
    pub url: String,
    pub max_connections: u32,
    pub connection_timeout: u64,
}

impl Db {
    /// Creates a database configuration; the timeout is in seconds.
    pub fn new(url: String, max_connections: u32, connection_timeout: u64) -> (r: Db)
        ensures
            r.url@ == url@,
            r.max_connections == max_connections,
            r.connection_timeout == connection_timeout,
    {
        Db { url, max_connections, connection_timeout }
    }

    /// Returns the database connection URL.
    pub fn url(&self) -> (r: &str)
        ensures
            r@ == self.url@,
    {
        self.url.as_str()
    }

    /// Returns the maximum number of database connections.
    pub fn max_connections(&self) -> (r: u32)
        ensures
            r == self.max_connections,
    {
        self.max_connections
    }

    /// Returns the database connection timeout, in seconds.
    pub fn connection_timeout(&self) -> (r: u64)
        ensures
            r == self.connection_timeout,
    {
        self.connection_timeout
    }
}

/// Configuration of the three remote services.
pub struct Service {
    pub indexer: RemoteServiceConfig,
    pub import: RemoteServiceConfig,
    pub scraper: RemoteServiceConfig,
}

impl Service {
    /// Creates the service configuration set.
    pub fn new(
        indexer: RemoteServiceConfig,
        import: RemoteServiceConfig,
        scraper: RemoteServiceConfig,
    ) -> (r: Service)
        ensures
            r.indexer == indexer,
            r.import == import,
            r.scraper == scraper,
    {
        Service { indexer, import, scraper }
    }

    /// Returns the configuration of the indexer service.
    pub fn indexer(&self) -> (r: &RemoteServiceConfig)
        ensures
            r == self.indexer,
    {
        &self.indexer
    }

    /// Returns the configuration of the importer service.
    pub fn import(&self) -> (r: &RemoteServiceConfig)
        ensures
            r == self.import,
    {
        &self.import
    }

    /// Returns the configuration of the scraper service.
    pub fn scraper(&self) -> (r: &RemoteServiceConfig)
        ensures
            r == self.scraper,
    {
        &self.scraper
    }
}

/// Application settings.
pub struct Settings {
    pub services: Service,
    pub db: Db,
}

impl Settings {
    /// Creates settings from their parts.
    pub fn new(services: Service, db: Db) -> (r: Settings)
        ensures
            r.services == services,
            r.db == db,
    {
        Settings { services, db }
    }

    /// Returns the remote-service configuration.
    pub fn services(&self) -> (r: &Service)
        ensures
            r == self.services,
    {
        &self.services
    }

    /// Returns the database configuration.
    pub fn db(&self) -> (r: &Db)
        ensures
            r == self.db,
    {
        &self.db
    }
}

} // verus!

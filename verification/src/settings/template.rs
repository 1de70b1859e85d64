//! The configuration-file template and its substitution values.
//!
//! The configuration file is a template; values that vary between
//! deployments are substituted into it before it is parsed.  Reading the
//! file, gathering substitutions from the process environment and
//! rendering the template are the surrounding process's business; the
//! template's description is held here as plain data.

use vstd::prelude::*;

verus! {

/// Data to be substituted into a configuration-file template.
pub struct Env {
    /// Database values, when present.
    pub db: Option<Db>,
    /// Service URL values, when present.
    pub service_urls: Option<ServiceUrl>,
}

impl Env {
    /// Creates a substitution set from its parts.
    pub fn new(db: Option<Db>, service_urls: Option<ServiceUrl>) -> (r: Env)
        ensures
            r.db == db,
            r.service_urls == service_urls,
    {
        Env { db, service_urls }
    }

    /// Creates an empty substitution set: nothing is substituted.
    pub fn empty() -> (r: Env)
        ensures
            r.db is None,
            r.service_urls is None,
    {
        Env { db: None, service_urls: None }
    }
}

/// Database substitution values.
pub struct Db {
    /// Database URL.
    pub url: String,
}

impl Db {
    /// Creates database substitution values.
    pub fn new(url: String) -> (r: Db)
        ensures
            r.url@ == url@,
    {
        Db { url }
    }
}

/// Remote-service substitution values.
pub struct ServiceUrl {
    /// Indexer service URL.
    pub indexer: String,
    /// Importer service URL.
    pub import: String,
    /// Scraper service URL.
    pub scraper: String,
}

impl ServiceUrl {
    /// Creates service substitution values.
    pub fn new(indexer: String, import: String, scraper: String) -> (r: ServiceUrl)
        ensures
            r.indexer@ == indexer@,
            r.import@ == import@,
            r.scraper@ == scraper@,
    {
        ServiceUrl { indexer, import, scraper }
    }
}

/// A configuration-file template: where the file lives, and the values to
/// substitute into it.
pub struct TemplateConfig {
    /// Path of the configuration file.
    pub path: String,
    /// Values to substitute.
    pub env: Env,
}

impl TemplateConfig {
    /// Creates a template description with no substitutions.  A caller
    /// that gathered substitution values builds one through
    /// [`TemplateConfig::with_env`] instead.
    pub fn new(path: String) -> (r: TemplateConfig)
        ensures
            r.path@ == path@,
            r.env.db is None,
            r.env.service_urls is None,
    {
        TemplateConfig::with_env(path, Env::empty())
    }

    /// Creates a template description with the given substitutions.
    pub fn with_env(path: String, env: Env) -> (r: TemplateConfig)
        ensures
            r.path@ == path@,
            r.env == env,
    {
        TemplateConfig { path, env }
    }
}

} // verus!

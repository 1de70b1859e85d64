//! Tests of the settings values and the translation functions.

use satelit_scheduler::db::entity::Source;
use satelit_scheduler::plan::import::map_source;
use satelit_scheduler::proto::data;
use satelit_scheduler::settings::template::{Db as TemplateDb, Env, ServiceUrl, TemplateConfig};
use satelit_scheduler::settings::{Db, RemoteServiceConfig, Service, Settings};

fn sample_settings() -> Settings {
    Settings::new(
        Service::new(
            RemoteServiceConfig::new(String::from("http://indexer"), Some(5), Some(30)),
            RemoteServiceConfig::new(String::from("http://importer"), None, None),
            RemoteServiceConfig::new(String::from("http://scraper"), None, Some(60)),
        ),
        Db::new(String::from("postgres://localhost/catalog"), 8, 15),
    )
}

#[test]
fn test_parsing() {
    // if every value comes back as it went in then everything is good
    let settings = sample_settings();
    assert_eq!(settings.services().indexer().url(), "http://indexer");
    assert_eq!(settings.services().import().url(), "http://importer");
    assert_eq!(settings.services().scraper().url(), "http://scraper");
    assert_eq!(settings.services().indexer().connection_timeout(), Some(5));
    assert_eq!(settings.services().indexer().request_timeout(), Some(30));
    assert_eq!(settings.services().import().connection_timeout(), None);
    assert_eq!(settings.services().scraper().request_timeout(), Some(60));
    assert_eq!(settings.db().url(), "postgres://localhost/catalog");
    assert_eq!(settings.db().max_connections(), 8);
    assert_eq!(settings.db().connection_timeout(), 15);
}

#[test]
fn template_without_env_substitutes_nothing() {
    let template = TemplateConfig::new(String::from("config/default.toml"));
    assert_eq!(template.path, "config/default.toml");
    assert!(template.env.db.is_none());
    assert!(template.env.service_urls.is_none());
}

#[test]
fn template_with_env_keeps_values() {
    let env = Env::new(
        Some(TemplateDb::new(String::from("postgres://db"))),
        Some(ServiceUrl::new(
            String::from("http://a"),
            String::from("http://b"),
            String::from("http://c"),
        )),
    );
    let template = TemplateConfig::with_env(String::from("config/default.toml"), env);
    assert_eq!(template.env.db.as_ref().expect("db values").url, "postgres://db");
    let urls = template.env.service_urls.as_ref().expect("service urls");
    assert_eq!(urls.indexer, "http://a");
    assert_eq!(urls.import, "http://b");
    assert_eq!(urls.scraper, "http://c");
}

#[test]
fn source_tag_mapping() {
    assert_eq!(Source::from_tag("anidb"), Some(Source::Anidb));
    assert_eq!(Source::from_tag("vndb"), None);
    assert_eq!(Source::from_tag(""), None);
    assert_eq!(Source::from_tag("Anidb"), None, "tags are case-sensitive");
}

#[test]
fn source_wire_mapping() {
    assert_eq!(map_source(Source::Anidb), data::Source::Anidb);
    assert_eq!(map_source(Source::Anidb).wire_value(), 1);
    assert_eq!(data::Source::Unknown.wire_value(), 0);
}

use release_query::config::Config;
use release_query::db::get_connection;

#[test]
fn it_works() {
    let result = get_connection("sqlite://actions.db");
    assert_eq!(result, "");
}

#[test]
fn config_holds_what_it_is_given() {
    let config =
        Config::new("sqlite://actions.db".to_string(), "secret".to_string(), "cloud".to_string());
    assert_eq!(config.database_url, "sqlite://actions.db");
    assert_eq!(config.es_password, "secret");
    assert_eq!(config.es_cloud_id, "cloud");
}

use btcdb::config::{get_config, get_rpcconfig, get_sqlconfig, layer_setting, RPCConfig, SQLConfig};

#[test]
fn test_config() {
    let config = get_config("").unwrap();
    println!("{:?}", config);
    assert_eq!(config.sql.host, "localhost");
    assert_eq!(config.rpc.url, "http://localhost:8332");
}

#[test]
fn test_sqlconfig_default() {
    let sql_config = SQLConfig::default();
    assert_eq!(sql_config.host, "localhost");
    assert_eq!(sql_config.dbname, "bitcoin");
    assert_eq!(sql_config.schema, "public");
    assert_eq!(sql_config.username, "rpc");
    assert_eq!(sql_config.password, "YOURPASSWORD");
}

#[test]
fn test_rpcconfig_default() {
    let rpc_config = RPCConfig::default();
    assert_eq!(rpc_config.url, "http://localhost:8332");
    assert_eq!(rpc_config.username, "YOURUSERNAME");
    assert_eq!(rpc_config.password, "YOURPASSWORD");
}

#[test]
fn test_sqlconfig_figment() {
    let sql_config: SQLConfig = SQLConfig::figment("").unwrap();
    assert_eq!(sql_config.host, "localhost");
    assert_eq!(sql_config.dbname, "bitcoin");
    assert_eq!(sql_config.schema, "public");
    assert_eq!(sql_config.username, "rpc");
    assert_eq!(sql_config.password, "YOURPASSWORD");
}

#[test]
fn file_values_override_defaults() {
    let text = "[sql]\nhost = \"db.example.org\"\npassword = \"s3cret\"\n\n[rpc]\nurl = \"http://node:8332\"\n";
    let sql = get_sqlconfig(text).unwrap();
    assert_eq!(sql.host, "db.example.org");
    assert_eq!(sql.password, "s3cret");
    assert_eq!(sql.dbname, "bitcoin");
    assert_eq!(sql.schema, "public");
    assert_eq!(sql.username, "rpc");
    let rpc = get_rpcconfig(text).unwrap();
    assert_eq!(rpc.url, "http://node:8332");
    assert_eq!(rpc.username, "YOURUSERNAME");
    assert_eq!(rpc.password, "YOURPASSWORD");
}

#[test]
fn sections_do_not_leak_into_each_other() {
    let text = "[rpc]\nusername = \"alice\"\n";
    let config = get_config(text).unwrap();
    assert_eq!(config.rpc.username, "alice");
    assert_eq!(config.sql.username, "rpc");
}

#[test]
fn top_level_keys_are_ignored() {
    let text = "host = \"elsewhere\"\n";
    let sql = SQLConfig::figment(text).unwrap();
    assert_eq!(sql.host, "localhost");
}

#[test]
fn non_string_value_is_refused() {
    let text = "[sql]\nhost = 5432\n";
    let err = SQLConfig::figment(text).unwrap_err();
    assert_eq!(err.table, "sql");
    assert_eq!(err.key, "host");
    assert!(get_config(text).is_err());
    assert!(get_rpcconfig(text).is_ok());
}

#[test]
fn malformed_file_is_refused() {
    let text = "[sql\nhost = ";
    assert!(SQLConfig::figment(text).is_err());
    assert!(RPCConfig::figment(text).is_err());
    assert!(get_config(text).is_err());
}

#[test]
fn defaults_match_empty_file() {
    let sql = SQLConfig::default();
    let rpc = RPCConfig::default();
    let from_empty = get_config("").unwrap();
    assert_eq!(sql.host, from_empty.sql.host);
    assert_eq!(sql.dbname, from_empty.sql.dbname);
    assert_eq!(rpc.url, from_empty.rpc.url);
    assert_eq!(rpc.password, from_empty.rpc.password);
}

#[test]
fn layering_one_entry() {
    assert_eq!(layer_setting(Ok(Some("db".to_string())), "sql", "host", "localhost").unwrap(), "db");
    assert_eq!(layer_setting(Ok(None), "sql", "host", "localhost").unwrap(), "localhost");
    let err = layer_setting(Err(()), "rpc", "url", "http://localhost:8332").unwrap_err();
    assert_eq!(err.table, "rpc");
    assert_eq!(err.key, "url");
}

#[test]
fn display_strings() {
    let sql = SQLConfig::default();
    assert_eq!(
        sql.to_display_string(),
        "  host: localhost\n  dbname: bitcoin\n  schema: public\n  username: rpc\n  password: YOURPASSWORD"
    );
    let rpc = RPCConfig::default();
    assert_eq!(
        rpc.to_display_string(),
        "  url: http://localhost:8332\n  username: YOURUSERNAME\n  password: YOURPASSWORD"
    );
}

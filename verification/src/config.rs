use vstd::prelude::*;
use figment::providers::Format;

verus! {

/// What the TOML document `text` holds at `table.key`: `Ok(Some(s))` for a
/// string `s`, `Ok(None)` where the document parses but has no such entry
/// (or `table` is not a table), `Err(())` where the document does not parse
/// or the entry is not a string.
pub uninterp spec fn toml_string_entry(text: Seq<char>, table: Seq<char>, key: Seq<char>) -> Result<Option<Seq<char>>, ()>;

/// An entry lookup result, with the string taken by its view.
pub open spec fn entry_view(entry: Result<Option<String>, ()>) -> Result<Option<Seq<char>>, ()> {
    match entry {
        Ok(Some(s)) => Ok(Some(s@)),
        Ok(None) => Ok(None),
        Err(()) => Err(()),
    }
}

/// Reads `table.key` from the TOML document `text` with figment
/// (`Figment::from(Toml::string(text)).focus(table).find_value(key)`).
/// The contract claims that the outcome is the named function of the three
/// strings, and that an empty document has no entry under a key that is not
/// empty and does not start with a dot (figment reads such a key as a path
/// into nested tables, and an empty first segment as the table itself); it
/// claims nothing about which documents parse.
#[verifier::external_body]
fn toml_table_entry(text: &str, table: &str, key: &str) -> (entry: Result<Option<String>, ()>)
    ensures
        entry_view(entry) == toml_string_entry(text@, table@, key@),
        text@.len() == 0 && key@.len() > 0 && key@[0] != '.' ==> entry matches Ok(None),
{
    match figment::Figment::from(figment::providers::Toml::string(text)).focus(table).find_value(key) {
        Ok(figment::value::Value::String(_, s)) => Ok(Some(s)),
        Ok(_) => Err(()),
        Err(e) => if e.missing() { Ok(None) } else { Err(()) },
    }
}

/// The value of one setting once the configuration file is layered over the
/// built-in default: the file's string wins, a missing entry keeps the
/// default, and an unusable file or entry gives `None`.
pub open spec fn setting(text: Seq<char>, table: Seq<char>, key: Seq<char>, default: Seq<char>) -> Option<Seq<char>> {
    match toml_string_entry(text, table, key) {
        Ok(Some(s)) => Some(s),
        Ok(None) => Some(default),
        Err(_) => None,
    }
}

/// A setting of the configuration file that cannot be used: the file does
/// not parse, or the value at `table.key` is not a string.
#[derive(Debug)]
pub struct ConfigError {
    pub table: String,
    pub key: String,
}

/// Lays the entry found for `table.key` in the configuration file over the
/// built-in `default`: a string entry wins, a missing entry keeps the
/// default, and an unusable file or entry is an error naming `table.key`.
pub fn layer_setting(entry: Result<Option<String>, ()>, table: &str, key: &str, default: &str) -> (value: Result<String, ConfigError>)
    ensures
        match entry_view(entry) {
            Ok(Some(s)) => value matches Ok(v) && v@ == s,
            Ok(None) => value matches Ok(v) && v@ == default@,
            Err(()) => value matches Err(e) && e.table@ == table@ && e.key@ == key@,
        },
{
    match entry {
        Ok(Some(s)) => Ok(s),
        Ok(None) => Ok(String::from_str(default)),
        Err(()) => Err(ConfigError { table: String::from_str(table), key: String::from_str(key) }),
    }
}

fn layered_setting(text: &str, table: &str, key: &str, default: &str) -> (value: Result<String, ConfigError>)
    requires
        key@.len() > 0,
        key@[0] != '.',
    ensures
        match value {
            Ok(s) => setting(text@, table@, key@, default@) == Some(s@),
            Err(e) => {
                &&& setting(text@, table@, key@, default@) is None
                &&& e.table@ == table@
                &&& e.key@ == key@
            },
        },
        text@.len() == 0 ==> (value matches Ok(s) && s@ == default@),
{
    let entry = toml_table_entry(text, table, key);
    layer_setting(entry, table, key, default)
}

/// The settings of the SQL data store, as values.
pub struct SqlSettings {
    pub host: Seq<char>,
    pub dbname: Seq<char>,
    pub schema: Seq<char>,
    pub username: Seq<char>,
    pub password: Seq<char>,
}

/// The settings of the Bitcoin RPC server, as values.
pub struct RpcSettings {
    pub url: Seq<char>,
    pub username: Seq<char>,
    pub password: Seq<char>,
}

/// The built-in SQL settings.
pub open spec fn default_sql_settings() -> SqlSettings {
    SqlSettings {
        host: "localhost"@,
        dbname: "bitcoin"@,
        schema: "public"@,
        username: "rpc"@,
        password: "YOURPASSWORD"@,
    }
}

/// The built-in RPC settings.
pub open spec fn default_rpc_settings() -> RpcSettings {
    RpcSettings {
        url: "http://localhost:8332"@,
        username: "YOURUSERNAME"@,
        password: "YOURPASSWORD"@,
    }
}

/// The SQL settings once the `[sql]` table of the configuration file `text`
/// is layered over the defaults; `None` where a setting is unusable.
pub open spec fn sql_settings(text: Seq<char>) -> Option<SqlSettings> {
    let d = default_sql_settings();
    let host = setting(text, "sql"@, "host"@, d.host);
    let dbname = setting(text, "sql"@, "dbname"@, d.dbname);
    let schema = setting(text, "sql"@, "schema"@, d.schema);
    let username = setting(text, "sql"@, "username"@, d.username);
    let password = setting(text, "sql"@, "password"@, d.password);
    if host is Some && dbname is Some && schema is Some && username is Some && password is Some {
        Some(SqlSettings {
            host: host->0,
            dbname: dbname->0,
            schema: schema->0,
            username: username->0,
            password: password->0,
        })
    } else {
        None
    }
}

/// The RPC settings once the `[rpc]` table of the configuration file `text`
/// is layered over the defaults; `None` where a setting is unusable.
pub open spec fn rpc_settings(text: Seq<char>) -> Option<RpcSettings> {
    let d = default_rpc_settings();
    let url = setting(text, "rpc"@, "url"@, d.url);
    let username = setting(text, "rpc"@, "username"@, d.username);
    let password = setting(text, "rpc"@, "password"@, d.password);
    if url is Some && username is Some && password is Some {
        Some(RpcSettings { url: url->0, username: username->0, password: password->0 })
    } else {
        None
    }
}

/// Configuration items for the local SQL data store.
#[derive(Debug)]
pub struct SQLConfig {
    pub host: String,
    pub dbname: String,
    pub schema: String,
    pub username: String,
    pub password: String,
}

impl View for SQLConfig {
    type V = SqlSettings;

    open spec fn view(&self) -> SqlSettings {
        SqlSettings {
            host: self.host@,
            dbname: self.dbname@,
            schema: self.schema@,
            username: self.username@,
            password: self.password@,
        }
    }
}

impl Default for SQLConfig {
    fn default() -> (c: Self)
        ensures
            c@ == default_sql_settings(),
    {
        SQLConfig {
            host: String::from_str("localhost"),
            dbname: String::from_str("bitcoin"),
            schema: String::from_str("public"),
            username: String::from_str("rpc"),
            password: String::from_str("YOURPASSWORD"),
        }
    }
}

impl SQLConfig {
    /// The SQL configuration: the `[sql]` table of the configuration file
    /// `config_text` layered over the defaults, then extracted. An empty text
    /// (no configuration file) gives the defaults.
    pub fn figment(config_text: &str) -> (c: Result<SQLConfig, ConfigError>)
        ensures
            match c {
                Ok(c) => sql_settings(config_text@) == Some(c@),
                Err(e) => {
                    &&& sql_settings(config_text@) is None
                    &&& e.table@ == "sql"@
                    &&& toml_string_entry(config_text@, "sql"@, e.key@) is Err
                },
            },
            config_text@.len() == 0 ==> (c matches Ok(cfg) && cfg@ == default_sql_settings()),
    {
        proof {
            reveal_strlit("host");
            reveal_strlit("dbname");
            reveal_strlit("schema");
            reveal_strlit("username");
            reveal_strlit("password");
        }
        let host = layered_setting(config_text, "sql", "host", "localhost")?;
        let dbname = layered_setting(config_text, "sql", "dbname", "bitcoin")?;
        let schema = layered_setting(config_text, "sql", "schema", "public")?;
        let username = layered_setting(config_text, "sql", "username", "rpc")?;
        let password = layered_setting(config_text, "sql", "password", "YOURPASSWORD")?;
        Ok(SQLConfig { host, dbname, schema, username, password })
    }

    /// The configuration as shown to a user, one indented `name: value` line
    /// per setting.
    pub fn to_display_string(&self) -> (s: String)
        ensures
            s@ == "  host: "@ + self.host@ + "\n  dbname: "@ + self.dbname@ + "\n  schema: "@
                + self.schema@ + "\n  username: "@ + self.username@ + "\n  password: "@
                + self.password@,
    {
        let mut s = String::from_str("  host: ");
        s.append(self.host.as_str());
        s.append("\n  dbname: ");
        s.append(self.dbname.as_str());
        s.append("\n  schema: ");
        s.append(self.schema.as_str());
        s.append("\n  username: ");
        s.append(self.username.as_str());
        s.append("\n  password: ");
        s.append(self.password.as_str());
        s
    }
}

/// Configuration items for Bitcoin RPC.
#[derive(Debug)]
pub struct RPCConfig {
    pub url: String,
    pub username: String,
    pub password: String,
}

impl View for RPCConfig {
    type V = RpcSettings;

    open spec fn view(&self) -> RpcSettings {
        RpcSettings { url: self.url@, username: self.username@, password: self.password@ }
    }
}

impl Default for RPCConfig {
    fn default() -> (c: Self)
        ensures
            c@ == default_rpc_settings(),
    {
        RPCConfig {
            url: String::from_str("http://localhost:8332"),
            username: String::from_str("YOURUSERNAME"),
            password: String::from_str("YOURPASSWORD"),
        }
    }
}

impl RPCConfig {
    /// The RPC configuration: the `[rpc]` table of the configuration file
    /// `config_text` layered over the defaults, then extracted. An empty text
    /// (no configuration file) gives the defaults.
    pub fn figment(config_text: &str) -> (c: Result<RPCConfig, ConfigError>)
        ensures
            match c {
                Ok(c) => rpc_settings(config_text@) == Some(c@),
                Err(e) => {
                    &&& rpc_settings(config_text@) is None
                    &&& e.table@ == "rpc"@
                    &&& toml_string_entry(config_text@, "rpc"@, e.key@) is Err
                },
            },
            config_text@.len() == 0 ==> (c matches Ok(cfg) && cfg@ == default_rpc_settings()),
    {
        proof {
            reveal_strlit("url");
            reveal_strlit("username");
            reveal_strlit("password");
        }
        let url = layered_setting(config_text, "rpc", "url", "http://localhost:8332")?;
        let username = layered_setting(config_text, "rpc", "username", "YOURUSERNAME")?;
        let password = layered_setting(config_text, "rpc", "password", "YOURPASSWORD")?;
        Ok(RPCConfig { url, username, password })
    }

    /// The configuration as shown to a user, one indented `name: value` line
    /// per setting.
    pub fn to_display_string(&self) -> (s: String)
        ensures
            s@ == "  url: "@ + self.url@ + "\n  username: "@ + self.username@ + "\n  password: "@
                + self.password@,
    {
        let mut s = String::from_str("  url: ");
        s.append(self.url.as_str());
        s.append("\n  username: ");
        s.append(self.username.as_str());
        s.append("\n  password: ");
        s.append(self.password.as_str());
        s
    }
}


/// The complete configuration: SQL data store and Bitcoin RPC server.
#[derive(Debug)]
pub struct Config {
    pub sql: SQLConfig,
    pub rpc: RPCConfig,
}

/// Returns the complete configuration from the configuration file `config_text`
/// (empty where there is no file): both sections layered over their defaults.
pub fn get_config(config_text: &str) -> (c: Result<Config, ConfigError>)
    ensures
        c is Ok <==> (sql_settings(config_text@) is Some && rpc_settings(config_text@) is Some),
        c matches Ok(cfg) ==> {
            &&& sql_settings(config_text@) == Some(cfg.sql@)
            &&& rpc_settings(config_text@) == Some(cfg.rpc@)
        },
        c matches Err(e) ==> toml_string_entry(config_text@, e.table@, e.key@) is Err,
        config_text@.len() == 0 ==> (c matches Ok(cfg) && cfg.sql@ == default_sql_settings()
            && cfg.rpc@ == default_rpc_settings()),
{
    let sql = get_sqlconfig(config_text)?;
    let rpc = get_rpcconfig(config_text)?;
    Ok(Config { sql, rpc })
}

/// Returns the sql configuration from the configuration file `config_text`.
pub fn get_sqlconfig(config_text: &str) -> (c: Result<SQLConfig, ConfigError>)
    ensures
        c is Ok <==> sql_settings(config_text@) is Some,
        c matches Ok(cfg) ==> sql_settings(config_text@) == Some(cfg@),
        c matches Err(e) ==> e.table@ == "sql"@ && toml_string_entry(config_text@, "sql"@, e.key@) is Err,
        config_text@.len() == 0 ==> (c matches Ok(cfg) && cfg@ == default_sql_settings()),
{
    SQLConfig::figment(config_text)
}

/// Returns the Bitcoin RPC server configuration from the configuration file `config_text`.
pub fn get_rpcconfig(config_text: &str) -> (c: Result<RPCConfig, ConfigError>)
    ensures
        c is Ok <==> rpc_settings(config_text@) is Some,
        c matches Ok(cfg) ==> rpc_settings(config_text@) == Some(cfg@),
        c matches Err(e) ==> e.table@ == "rpc"@ && toml_string_entry(config_text@, "rpc"@, e.key@) is Err,
        config_text@.len() == 0 ==> (c matches Ok(cfg) && cfg@ == default_rpc_settings()),
{
    RPCConfig::figment(config_text)
}

/// A string entry of the file's table replaces the built-in value of that
/// setting; a missing entry leaves the built-in value.
pub proof fn lemma_file_overrides_default(text: Seq<char>, table: Seq<char>, key: Seq<char>, default: Seq<char>)
    ensures
        toml_string_entry(text, table, key) matches Ok(Some(s)) ==> setting(text, table, key, default) == Some(s),
        toml_string_entry(text, table, key) == Ok::<Option<Seq<char>>, ()>(None)
            ==> setting(text, table, key, default) == Some(default),
        toml_string_entry(text, table, key) is Err ==> setting(text, table, key, default) is None,
{
}

/// Each SQL setting is read from its own key of the file's `[sql]` table: a
/// string there becomes that setting, a missing key leaves its built-in value,
/// an unusable one makes loading fail; and loading succeeds whenever every
/// key is usable.
pub proof fn lemma_sql_fields_follow_their_keys(text: Seq<char>)
    ensures
        sql_settings(text) is Some ==> (toml_string_entry(text, "sql"@, "host"@) matches Ok(Some(v)) ==> sql_settings(text)->0.host == v),
        sql_settings(text) is Some ==> (toml_string_entry(text, "sql"@, "host"@) == Ok::<Option<Seq<char>>, ()>(None) ==> sql_settings(text)->0.host == "localhost"@),
        toml_string_entry(text, "sql"@, "host"@) is Err ==> sql_settings(text) is None,
        sql_settings(text) is Some ==> (toml_string_entry(text, "sql"@, "dbname"@) matches Ok(Some(v)) ==> sql_settings(text)->0.dbname == v),
        sql_settings(text) is Some ==> (toml_string_entry(text, "sql"@, "dbname"@) == Ok::<Option<Seq<char>>, ()>(None) ==> sql_settings(text)->0.dbname == "bitcoin"@),
        toml_string_entry(text, "sql"@, "dbname"@) is Err ==> sql_settings(text) is None,
        sql_settings(text) is Some ==> (toml_string_entry(text, "sql"@, "schema"@) matches Ok(Some(v)) ==> sql_settings(text)->0.schema == v),
        sql_settings(text) is Some ==> (toml_string_entry(text, "sql"@, "schema"@) == Ok::<Option<Seq<char>>, ()>(None) ==> sql_settings(text)->0.schema == "public"@),
        toml_string_entry(text, "sql"@, "schema"@) is Err ==> sql_settings(text) is None,
        sql_settings(text) is Some ==> (toml_string_entry(text, "sql"@, "username"@) matches Ok(Some(v)) ==> sql_settings(text)->0.username == v),
        sql_settings(text) is Some ==> (toml_string_entry(text, "sql"@, "username"@) == Ok::<Option<Seq<char>>, ()>(None) ==> sql_settings(text)->0.username == "rpc"@),
        toml_string_entry(text, "sql"@, "username"@) is Err ==> sql_settings(text) is None,
        sql_settings(text) is Some ==> (toml_string_entry(text, "sql"@, "password"@) matches Ok(Some(v)) ==> sql_settings(text)->0.password == v),
        sql_settings(text) is Some ==> (toml_string_entry(text, "sql"@, "password"@) == Ok::<Option<Seq<char>>, ()>(None) ==> sql_settings(text)->0.password == "YOURPASSWORD"@),
        toml_string_entry(text, "sql"@, "password"@) is Err ==> sql_settings(text) is None,
        (toml_string_entry(text, "sql"@, "host"@) is Ok && toml_string_entry(text, "sql"@, "dbname"@) is Ok && toml_string_entry(text, "sql"@, "schema"@) is Ok && toml_string_entry(text, "sql"@, "username"@) is Ok && toml_string_entry(text, "sql"@, "password"@) is Ok) ==> sql_settings(text) is Some,
{
}

/// Each RPC setting is read from its own key of the file's `[rpc]` table: a
/// string there becomes that setting, a missing key leaves its built-in value,
/// an unusable one makes loading fail; and loading succeeds whenever every
/// key is usable.
pub proof fn lemma_rpc_fields_follow_their_keys(text: Seq<char>)
    ensures
        rpc_settings(text) is Some ==> (toml_string_entry(text, "rpc"@, "url"@) matches Ok(Some(v)) ==> rpc_settings(text)->0.url == v),
        rpc_settings(text) is Some ==> (toml_string_entry(text, "rpc"@, "url"@) == Ok::<Option<Seq<char>>, ()>(None) ==> rpc_settings(text)->0.url == "http://localhost:8332"@),
        toml_string_entry(text, "rpc"@, "url"@) is Err ==> rpc_settings(text) is None,
        rpc_settings(text) is Some ==> (toml_string_entry(text, "rpc"@, "username"@) matches Ok(Some(v)) ==> rpc_settings(text)->0.username == v),
        rpc_settings(text) is Some ==> (toml_string_entry(text, "rpc"@, "username"@) == Ok::<Option<Seq<char>>, ()>(None) ==> rpc_settings(text)->0.username == "YOURUSERNAME"@),
        toml_string_entry(text, "rpc"@, "username"@) is Err ==> rpc_settings(text) is None,
        rpc_settings(text) is Some ==> (toml_string_entry(text, "rpc"@, "password"@) matches Ok(Some(v)) ==> rpc_settings(text)->0.password == v),
        rpc_settings(text) is Some ==> (toml_string_entry(text, "rpc"@, "password"@) == Ok::<Option<Seq<char>>, ()>(None) ==> rpc_settings(text)->0.password == "YOURPASSWORD"@),
        toml_string_entry(text, "rpc"@, "password"@) is Err ==> rpc_settings(text) is None,
        (toml_string_entry(text, "rpc"@, "url"@) is Ok && toml_string_entry(text, "rpc"@, "username"@) is Ok && toml_string_entry(text, "rpc"@, "password"@) is Ok) ==> rpc_settings(text) is Some,
{
}

} // verus!

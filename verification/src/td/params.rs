//! The `setTdlibParameters` request that starts a TDLib client.
use vstd::prelude::*;
use crate::error::BotError;
use crate::json::{json_quoted, json_string};
use crate::text::{i64_to_decimal, int_decimal, parse_i32, parse_integer};

verus! {

/// The parameters of a TDLib client.
#[derive(Debug)]
pub struct TDLibParams {
    pub use_test_dc: bool,
    pub database_directory: Option<String>,
    pub files_directory: Option<String>,
    pub use_file_database: bool,
    pub use_chat_info_database: bool,
    pub use_message_database: bool,
    pub use_secret_chats: bool,
    pub api_id: i32,
    pub api_hash: String,
    pub system_language_code: String,
    pub device_model: String,
    pub system_version: Option<String>,
    pub application_version: String,
    pub enable_storage_optimizer: bool,
    pub ignore_file_names: bool,
}

/// A JSON boolean.
pub open spec fn json_bool(b: bool) -> Seq<char> {
    if b {
        "true"@
    } else {
        "false"@
    }
}

/// A JSON string or null.
pub open spec fn json_opt_string(s: Option<String>) -> Seq<char> {
    match s {
        Some(t) => json_quoted(t@),
        None => "null"@,
    }
}

/// The `setTdlibParameters` request: the parameters' members and its
/// `@type`, in the sorted order of a `serde_json` map.
pub open spec fn tdlib_params_json(p: TDLibParams) -> Seq<char> {
    "{\"@type\":\"setTdlibParameters\",\"api_hash\":"@ + json_quoted(p.api_hash@) + ",\"api_id\":"@
        + int_decimal(p.api_id as int) + ",\"application_version\":"@ + json_quoted(
        p.application_version@,
    ) + ",\"database_directory\":"@ + json_opt_string(p.database_directory)
        + ",\"device_model\":"@ + json_quoted(p.device_model@) + ",\"enable_storage_optimizer\":"@
        + json_bool(p.enable_storage_optimizer) + ",\"files_directory\":"@ + json_opt_string(
        p.files_directory,
    ) + ",\"ignore_file_names\":"@ + json_bool(p.ignore_file_names)
        + ",\"system_language_code\":"@ + json_quoted(p.system_language_code@)
        + ",\"system_version\":"@ + json_opt_string(p.system_version)
        + ",\"use_chat_info_database\":"@ + json_bool(p.use_chat_info_database)
        + ",\"use_file_database\":"@ + json_bool(p.use_file_database)
        + ",\"use_message_database\":"@ + json_bool(p.use_message_database)
        + ",\"use_secret_chats\":"@ + json_bool(p.use_secret_chats) + ",\"use_test_dc\":"@
        + json_bool(p.use_test_dc) + "}"@
}

fn push_bool(out: &mut String, b: bool)
    ensures
        final(out)@ == old(out)@ + json_bool(b),
{
    if b {
        out.append("true");
    } else {
        out.append("false");
    }
}

fn push_opt_string(out: &mut String, s: &Option<String>)
    ensures
        final(out)@ == old(out)@ + json_opt_string(*s),
{
    match s {
        Some(t) => out.append(json_string(t.as_str()).as_str()),
        None => out.append("null"),
    }
}

impl TDLibParams {
    /// The `setTdlibParameters` request text.
    pub fn to_json(&self) -> (r: String)
        ensures
            r@ == tdlib_params_json(*self),
    {
        let mut out = String::from_str("{\"@type\":\"setTdlibParameters\",\"api_hash\":");
        out.append(json_string(self.api_hash.as_str()).as_str());
        out.append(",\"api_id\":");
        out.append(i64_to_decimal(self.api_id as i64).as_str());
        out.append(",\"application_version\":");
        out.append(json_string(self.application_version.as_str()).as_str());
        out.append(",\"database_directory\":");
        push_opt_string(&mut out, &self.database_directory);
        out.append(",\"device_model\":");
        out.append(json_string(self.device_model.as_str()).as_str());
        out.append(",\"enable_storage_optimizer\":");
        push_bool(&mut out, self.enable_storage_optimizer);
        out.append(",\"files_directory\":");
        push_opt_string(&mut out, &self.files_directory);
        out.append(",\"ignore_file_names\":");
        push_bool(&mut out, self.ignore_file_names);
        out.append(",\"system_language_code\":");
        out.append(json_string(self.system_language_code.as_str()).as_str());
        out.append(",\"system_version\":");
        push_opt_string(&mut out, &self.system_version);
        out.append(",\"use_chat_info_database\":");
        push_bool(&mut out, self.use_chat_info_database);
        out.append(",\"use_file_database\":");
        push_bool(&mut out, self.use_file_database);
        out.append(",\"use_message_database\":");
        push_bool(&mut out, self.use_message_database);
        out.append(",\"use_secret_chats\":");
        push_bool(&mut out, self.use_secret_chats);
        out.append(",\"use_test_dc\":");
        push_bool(&mut out, self.use_test_dc);
        out.append("}");
        out
    }
}

/// Whether `p` are the bot's client parameters for the project root, API
/// hash and API id: the database under the project's TDLib artefacts, chat
/// and message databases on, English, "MacBook Pro", version 0.1.0.
pub open spec fn is_bot_params(p: TDLibParams, root: Seq<char>, api_hash: Seq<char>, api_id: int) -> bool {
    &&& !p.use_test_dc
    &&& p.database_directory matches Some(d) && d@ == root + "/td/tdlib_artefacts"@
    &&& p.files_directory is None
    &&& !p.use_file_database
    &&& p.use_chat_info_database
    &&& p.use_message_database
    &&& !p.use_secret_chats
    &&& p.api_id == api_id
    &&& p.api_hash@ == api_hash
    &&& p.system_language_code@ == "en"@
    &&& p.device_model@ == "MacBook Pro"@
    &&& p.system_version is None
    &&& p.application_version@ == "0.1.0"@
    &&& !p.enable_storage_optimizer
    &&& !p.ignore_file_names
}

/// The bot's client parameters, given the project root and the API hash
/// and id (as text); an error where the id is not an `i32`.
pub fn tdlib_params(root: &str, tg_hash: String, tg_id: &str) -> (r: Result<TDLibParams, BotError>)
    ensures
        match parse_integer(tg_id@, true, i32::MIN as int, i32::MAX as int) {
            Some(id) => r matches Ok(p) && is_bot_params(p, root@, tg_hash@, id),
            None => r == Err::<TDLibParams, BotError>(BotError::InvalidInteger),
        },
{
    let mut artefacts_dir = String::from_str(root);
    artefacts_dir.append("/td/tdlib_artefacts");
    let tg_id = match parse_i32(tg_id) {
        Some(id) => id,
        None => {
            return Err(BotError::InvalidInteger);
        },
    };
    Ok(
        TDLibParams {
            use_test_dc: false,
            database_directory: Some(artefacts_dir),
            files_directory: None,
            use_file_database: false,
            use_chat_info_database: true,
            use_message_database: true,
            use_secret_chats: false,
            api_id: tg_id,
            api_hash: tg_hash,
            system_language_code: String::from_str("en"),
            device_model: String::from_str("MacBook Pro"),
            system_version: None,
            application_version: String::from_str("0.1.0"),
            enable_storage_optimizer: false,
            ignore_file_names: false,
        },
    )
}

/// The request that starts the bot's client; an error where the API id
/// is not an `i32`.
pub fn init_tdlib_params(root: &str, tg_hash: String, tg_id: &str) -> (r: Result<String, BotError>)
    ensures
        match parse_integer(tg_id@, true, i32::MIN as int, i32::MAX as int) {
            Some(id) => r matches Ok(text) && exists|p: TDLibParams|
                is_bot_params(p, root@, tg_hash@, id) && text@ == tdlib_params_json(p),
            None => r == Err::<String, BotError>(BotError::InvalidInteger),
        },
{
    match tdlib_params(root, tg_hash, tg_id) {
        Ok(params) => Ok(params.to_json()),
        Err(e) => Err(e),
    }
}

} // verus!

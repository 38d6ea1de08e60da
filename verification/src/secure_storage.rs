use crate::text::{chars_of, string_of, strip_bounds, trim, CharClass};
use vstd::prelude::*;
use vstd::string::*;

verus! {

/// Why the credential store did not do what it was asked. Each text is the store's own
/// description of the error.
#[derive(Debug)]
pub enum StoreError {
    /// The store could not be reached at all.
    Unavailable(String),
    /// The store holds no entry for the key.
    NoEntry(String),
    /// Anything else.
    Failed(String),
}

impl StoreError {
    /// The store's description of the error.
    pub open spec fn detail(self) -> Seq<char> {
        match self {
            StoreError::Unavailable(text) => text@,
            StoreError::NoEntry(text) => text@,
            StoreError::Failed(text) => text@,
        }
    }
}

/// The message for a key that is empty once trimmed.
pub open spec fn empty_key_message() -> Seq<char> {
    "API Key 不能为空"@
}

/// How the message for a store that cannot be reached begins.
pub open spec fn unavailable_prefix() -> Seq<char> {
    "Keychain 初始化失败: "@
}

/// How the message for a key that could not be saved begins.
pub open spec fn save_failure_prefix() -> Seq<char> {
    "保存 API Key 失败: "@
}

/// How the message for a key that could not be read begins.
pub open spec fn read_failure_prefix() -> Seq<char> {
    "读取 API Key 失败: "@
}

/// How the message for a key that could not be deleted begins.
pub open spec fn delete_failure_prefix() -> Seq<char> {
    "删除 API Key 失败: "@
}

/// The message for an error of the store: for a store out of reach it says so, for any
/// other error it begins with `prefix`.
pub open spec fn store_failure_text(prefix: Seq<char>, error: StoreError) -> Seq<char> {
    match error {
        StoreError::Unavailable(text) => unavailable_prefix() + text@,
        _ => prefix + error.detail(),
    }
}

/// Writes the message for an error of the store.
fn describe_store_failure(prefix: &str, error: &StoreError) -> (message: String)
    ensures
        message@ == store_failure_text(prefix@, *error),
{
    match error {
        StoreError::Unavailable(text) => {
            let mut message = String::from_str("Keychain 初始化失败: ");
            message.append(text.as_str());
            message
        },
        StoreError::NoEntry(text) => {
            let mut message = String::from_str(prefix);
            message.append(text.as_str());
            message
        },
        StoreError::Failed(text) => {
            let mut message = String::from_str(prefix);
            message.append(text.as_str());
            message
        },
    }
}

/// Checks a key before it is stored: the key is trimmed, and an empty one is refused.
/// On success the result is the secret to store.
pub fn set_api_key(api_key: &str) -> (checked: Result<String, String>)
    ensures
        match checked {
            Ok(secret) => trim(api_key@).len() > 0 && secret@ == trim(api_key@),
            Err(message) => trim(api_key@).len() == 0 && message@ == empty_key_message(),
        },
{
    let chars = chars_of(api_key);
    assert(chars@.subrange(0, chars@.len() as int) =~= api_key@);
    let (lo, hi) = strip_bounds(&chars, 0, chars.len(), CharClass::Whitespace);
    if lo == hi {
        Err(String::from_str("API Key 不能为空"))
    } else {
        Ok(string_of(&chars, lo, hi))
    }
}

/// What the caller learns of a key that the store was asked to save: any error fails.
pub fn save_api_key(answer: Result<(), StoreError>) -> (saved: Result<(), String>)
    ensures
        match answer {
            Ok(_) => saved.is_ok(),
            Err(error) => saved matches Err(message) && message@ == store_failure_text(
                save_failure_prefix(),
                error,
            ),
        },
{
    match answer {
        Ok(_) => Ok(()),
        Err(error) => Err(describe_store_failure("保存 API Key 失败: ", &error)),
    }
}

/// What the caller learns of a key that the store was asked for: a store without an entry
/// has no key, which is no error.
pub fn get_api_key(answer: Result<String, StoreError>) -> (key: Result<Option<String>, String>)
    ensures
        match answer {
            Ok(secret) => key == Ok::<Option<String>, String>(Some(secret)),
            Err(StoreError::NoEntry(_)) => key == Ok::<Option<String>, String>(None),
            Err(error) => key matches Err(message) && message@ == store_failure_text(
                read_failure_prefix(),
                error,
            ),
        },
{
    match answer {
        Ok(secret) => Ok(Some(secret)),
        Err(StoreError::NoEntry(_)) => Ok(None),
        Err(error) => Err(describe_store_failure("读取 API Key 失败: ", &error)),
    }
}

/// What the caller learns of a key that the store was asked to delete: deleting a key that
/// is not there succeeds.
pub fn delete_api_key(answer: Result<(), StoreError>) -> (deleted: Result<(), String>)
    ensures
        match answer {
            Ok(_) => deleted.is_ok(),
            Err(StoreError::NoEntry(_)) => deleted.is_ok(),
            Err(error) => deleted matches Err(message) && message@ == store_failure_text(
                delete_failure_prefix(),
                error,
            ),
        },
{
    match answer {
        Ok(_) => Ok(()),
        Err(StoreError::NoEntry(_)) => Ok(()),
        Err(error) => Err(describe_store_failure("删除 API Key 失败: ", &error)),
    }
}

} // verus!

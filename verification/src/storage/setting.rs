//! The choice of storage from its setting `PROVIDER:PATH`, such as
//! `JSON:./data/snippets.json` or `SQLITE:./data/snippets.db`.

use vstd::prelude::*;

verus! {

/// Which storage to open, with the path of its file.
#[derive(Debug)]
pub enum StorageTarget {
    /// A JSON file storage at the path.
    Json(String),
    /// An SQLite database at the path.
    Sqlite(String),
}

/// Why the storage setting names no storage.
#[derive(Debug)]
pub enum StorageSettingError {
    /// There is no setting.
    NotSet,
    /// The setting holds no `:` between provider and path.
    MissingSeparator,
    /// The provider, trimmed and upper-cased, is neither `JSON` nor `SQLITE`.
    UnknownProvider(String),
}

/// What `str::trim` gives for a string: the string without its leading and
/// trailing white space.
pub uninterp spec fn trimmed(s: Seq<char>) -> Seq<char>;

/// What `str::to_uppercase` gives for a string: its upper-case equivalent.
pub uninterp spec fn uppercased(s: Seq<char>) -> Seq<char>;

/// `str::split_once` with `':'` as the delimiter: the part before the first
/// `':'` and the part after it, or `None` when there is no `':'`.
#[verifier::external_body]
fn split_at_first_colon(s: &str) -> (r: Option<(&str, &str)>)
    ensures
        match r {
            Some((a, b)) => s@ == a@ + seq![':'] + b@ && !a@.contains(':'),
            None => !s@.contains(':'),
        },
{
    s.split_once(':')
}

/// `str::trim`: the string without leading and trailing white space. The
/// contract names the result; which characters count as white space is left
/// unsaid.
#[verifier::external_body]
fn trim_white_space(s: &str) -> (r: &str)
    ensures
        r@ == trimmed(s@),
{
    s.trim()
}

/// `str::to_uppercase`: the upper-case equivalent of the string. The
/// contract names the result; the Unicode case mapping is left unsaid.
#[verifier::external_body]
fn to_upper_case(s: &str) -> (r: String)
    ensures
        r@ == uppercased(s@),
{
    s.to_uppercase()
}

/// The provider name of the JSON file storage.
pub open spec fn json_name() -> Seq<char> {
    seq!['J', 'S', 'O', 'N']
}

/// The provider name of the SQLite storage.
pub open spec fn sqlite_name() -> Seq<char> {
    seq!['S', 'Q', 'L', 'I', 'T', 'E']
}

/// `r` is the outcome for the (trimmed, upper-cased) provider name
/// `provider` and the path `path`.
pub open spec fn chosen_for(
    r: Result<StorageTarget, StorageSettingError>,
    provider: Seq<char>,
    path: Seq<char>,
) -> bool {
    match r {
        Ok(StorageTarget::Json(p)) => provider == json_name() && p@ == path,
        Ok(StorageTarget::Sqlite(p)) => provider == sqlite_name() && p@ == path,
        Err(StorageSettingError::UnknownProvider(name)) => provider != json_name() && provider
            != sqlite_name() && name@ == provider,
        Err(_) => false,
    }
}

/// Chooses the storage for a provider name that is already trimmed and
/// upper-cased: `JSON` and `SQLITE` name the two storages, anything else is
/// an unknown provider.
pub fn target_for_provider(provider: String, path: &str) -> (r: Result<
    StorageTarget,
    StorageSettingError,
>)
    ensures
        chosen_for(r, provider@, path@),
{
    let json = "JSON".to_owned();
    let sqlite = "SQLITE".to_owned();
    proof {
        reveal_strlit("JSON");
        reveal_strlit("SQLITE");
        assert(json@ =~= json_name());
        assert(sqlite@ =~= sqlite_name());
    }
    if provider == json {
        Ok(StorageTarget::Json(path.to_owned()))
    } else if provider == sqlite {
        Ok(StorageTarget::Sqlite(path.to_owned()))
    } else {
        Err(StorageSettingError::UnknownProvider(provider))
    }
}

/// Chooses the storage from the setting `PROVIDER:PATH`: the setting is split
/// at its first `:`; the provider, with white space trimmed and upper-cased,
/// is `JSON` or `SQLITE`; the path is the rest of the setting, as it stands.
pub fn storage_target_from_setting(setting: Option<String>) -> (r: Result<
    StorageTarget,
    StorageSettingError,
>)
    ensures
        match setting {
            None => r matches Err(StorageSettingError::NotSet),
            Some(s) => if s@.contains(':') {
                exists|a: Seq<char>, b: Seq<char>|
                    s@ == a + seq![':'] + b && !a.contains(':') && chosen_for(
                        r,
                        uppercased(trimmed(a)),
                        b,
                    )
            } else {
                r matches Err(StorageSettingError::MissingSeparator)
            },
        },
{
    match setting {
        None => Err(StorageSettingError::NotSet),
        Some(s) => match split_at_first_colon(s.as_str()) {
            None => Err(StorageSettingError::MissingSeparator),
            Some((provider, path)) => {
                let name = to_upper_case(trim_white_space(provider));
                let r = target_for_provider(name, path);
                proof {
                    assert(s@.contains(':')) by {
                        assert(s@[provider@.len() as int] == ':');
                    }
                }
                r
            },
        },
    }
}

} // verus!

//! Where a fetch gets its author and its credential from.

use crate::error::{ConfigKey, FetchError, FetchErrorView};
use vstd::prelude::*;

verus! {

/// The name under which the author's identifier is configured.
pub const AUTHOR_ID_NAME: &'static str = "GOOGLE_SCHOLAR_ID";

/// The name under which the credential is configured.
pub const API_KEY_NAME: &'static str = "SERP_API_KEY";

/// Named configuration values, as pairs of name and value.
pub open spec fn setting_views(settings: Seq<(String, String)>) -> Seq<(Seq<char>, Seq<char>)> {
    settings.map_values(|pair: (String, String)| (pair.0@, pair.1@))
}

/// The value of the first setting named `name`.
pub open spec fn named_value(settings: Seq<(Seq<char>, Seq<char>)>, name: Seq<char>) -> Option<
    Seq<char>,
>
    decreases settings.len(),
{
    if settings.len() == 0 {
        None
    } else if settings[0].0 == name {
        Some(settings[0].1)
    } else {
        named_value(settings.drop_first(), name)
    }
}

/// Looks up the first setting named `name`.
pub fn lookup(settings: &Vec<(String, String)>, name: &str) -> (value: Option<String>)
    ensures
        match value {
            Some(text) => named_value(setting_views(settings@), name@) == Some(text@),
            None => named_value(setting_views(settings@), name@) is None,
        },
{
    let wanted = name.to_owned();
    let ghost all = setting_views(settings@);
    let mut i: usize = 0;
    assert(all.skip(0) == all);
    while i < settings.len()
        invariant
            i <= settings.len(),
            wanted@ == name@,
            all == setting_views(settings@),
            named_value(all, name@) == named_value(all.skip(i as int), name@),
        decreases settings.len() - i,
    {
        let ghost rest = all.skip(i as int);
        assert(rest[0] == all[i as int]);
        assert(rest.drop_first() == all.skip(i + 1));
        if settings[i].0 == wanted {
            return Some(settings[i].1.clone());
        }
        i = i + 1;
    }
    assert(all.skip(i as int).len() == 0);
    None
}

/// What a fetch needs to know before its first request.
#[derive(Clone, Debug, PartialEq, Eq)]
pub struct FetchConfig {
    pub author_id: String,
    pub api_key: String,
}

pub struct ConfigView {
    pub author_id: Seq<char>,
    pub api_key: Seq<char>,
}

impl View for FetchConfig {
    type V = ConfigView;

    open spec fn view(&self) -> ConfigView {
        ConfigView { author_id: self.author_id@, api_key: self.api_key@ }
    }
}

/// The configuration that the settings give. An author named by the caller
/// stands before the configured one; the credential is always required. The
/// author is looked for first.
pub open spec fn resolved(
    explicit_author: Option<Seq<char>>,
    settings: Seq<(Seq<char>, Seq<char>)>,
) -> Result<ConfigView, FetchErrorView> {
    let author = match explicit_author {
        Some(id) => Some(id),
        None => named_value(settings, AUTHOR_ID_NAME@),
    };
    match author {
        None => Err(FetchErrorView::Configuration(ConfigKey::AuthorId)),
        Some(author_id) => match named_value(settings, API_KEY_NAME@) {
            None => Err(FetchErrorView::Configuration(ConfigKey::ApiKey)),
            Some(api_key) => Ok(ConfigView { author_id, api_key }),
        },
    }
}

/// The author is looked for before the credential: without an author, named
/// by the caller or configured, the configuration fails for the want of the
/// author, whether or not a credential is there.
pub proof fn law_author_is_required_first(settings: Seq<(Seq<char>, Seq<char>)>)
    requires
        named_value(settings, AUTHOR_ID_NAME@) is None,
    ensures
        resolved(None, settings) == Err::<ConfigView, FetchErrorView>(
            FetchErrorView::Configuration(ConfigKey::AuthorId),
        ),
{
}

/// The credential is always required: without it no configuration is given.
pub proof fn law_credential_is_required(
    explicit_author: Option<Seq<char>>,
    settings: Seq<(Seq<char>, Seq<char>)>,
)
    requires
        named_value(settings, API_KEY_NAME@) is None,
    ensures
        resolved(explicit_author, settings) is Err,
{
}

/// Resolves the author and the credential of a fetch.
pub fn resolve_config(explicit_author: Option<String>, settings: &Vec<(String, String)>) -> (config:
    Result<FetchConfig, FetchError>)
    ensures
        match config {
            Ok(c) => resolved(crate::model::text_of(explicit_author), setting_views(settings@))
                == Ok::<ConfigView, FetchErrorView>(c@),
            Err(e) => resolved(crate::model::text_of(explicit_author), setting_views(settings@))
                == Err::<ConfigView, FetchErrorView>(e@),
        },
{
    let author = match explicit_author {
        Some(id) => Some(id),
        None => lookup(settings, AUTHOR_ID_NAME),
    };
    match author {
        None => Err(FetchError::Configuration(ConfigKey::AuthorId)),
        Some(author_id) => match lookup(settings, API_KEY_NAME) {
            None => Err(FetchError::Configuration(ConfigKey::ApiKey)),
            Some(api_key) => Ok(FetchConfig { author_id, api_key }),
        },
    }
}

} // verus!

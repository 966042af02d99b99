//! The configuration of the two remote services, checked once at startup.

use vstd::prelude::*;

verus! {

/// Where and how to reach the commerce platform.
#[derive(Debug, Clone)]
pub struct ShopifyConfig {
    pub access_token: String,
    pub shop_url: String,
}

/// Where and how to reach the content API.
#[derive(Debug, Clone)]
pub struct StrapiConfig {
    pub base_url: String,
    pub auth_token: String,
}

/// The configuration keys, in the order in which they are checked.
#[derive(Debug, Clone, Copy, PartialEq, Eq, Structural)]
pub enum ConfigKey {
    StrapiBaseUrl,
    StrapiToken,
    ShopAccessToken,
    ShopBaseUrl,
}

/// Why the configuration cannot be used.
#[derive(Debug, Clone, Copy, PartialEq, Eq, Structural)]
pub enum ConfigError {
    Missing(ConfigKey),
}

pub open spec fn key_name(k: ConfigKey) -> Seq<char> {
    match k {
        ConfigKey::StrapiBaseUrl => "STRAPI_BASE_URL"@,
        ConfigKey::StrapiToken => "STRAPI_TOKEN"@,
        ConfigKey::ShopAccessToken => "SHOP_ACCESS_TOKEN"@,
        ConfigKey::ShopBaseUrl => "SHOP_BASE_URL"@,
    }
}

impl ConfigKey {
    /// The name under which the key is looked up.
    pub fn name(&self) -> (r: &'static str)
        ensures
            r@ == key_name(*self),
    {
        match self {
            ConfigKey::StrapiBaseUrl => "STRAPI_BASE_URL",
            ConfigKey::StrapiToken => "STRAPI_TOKEN",
            ConfigKey::ShopAccessToken => "SHOP_ACCESS_TOKEN",
            ConfigKey::ShopBaseUrl => "SHOP_BASE_URL",
        }
    }
}

impl ConfigError {
    /// A one-line description of the error.
    pub fn message(&self) -> (r: String)
        ensures
            r@ == key_name(match *self { ConfigError::Missing(k) => k }) + " not set"@,
    {
        match self {
            ConfigError::Missing(k) => {
                let mut s = String::from_str(k.name());
                s.append(" not set");
                s
            },
        }
    }
}

/// Builds both service configurations from the values found for each key
/// (`None` where a key is absent). The first absent key, in the order
/// content API URL, content API token, platform token, platform URL, is
/// reported; with all four present both configurations hold them unchanged.
pub fn load_configs(
    strapi_base_url: Option<String>,
    strapi_token: Option<String>,
    shop_access_token: Option<String>,
    shop_base_url: Option<String>,
) -> (r: Result<(ShopifyConfig, StrapiConfig), ConfigError>)
    ensures
        strapi_base_url is None ==> r == Err::<(ShopifyConfig, StrapiConfig), ConfigError>(
            ConfigError::Missing(ConfigKey::StrapiBaseUrl),
        ),
        strapi_base_url is Some && strapi_token is None ==> r == Err::<
            (ShopifyConfig, StrapiConfig),
            ConfigError,
        >(ConfigError::Missing(ConfigKey::StrapiToken)),
        strapi_base_url is Some && strapi_token is Some && shop_access_token is None ==> r
            == Err::<(ShopifyConfig, StrapiConfig), ConfigError>(
            ConfigError::Missing(ConfigKey::ShopAccessToken),
        ),
        strapi_base_url is Some && strapi_token is Some && shop_access_token is Some
            && shop_base_url is None ==> r == Err::<(ShopifyConfig, StrapiConfig), ConfigError>(
            ConfigError::Missing(ConfigKey::ShopBaseUrl),
        ),
        r is Ok <==> (strapi_base_url is Some && strapi_token is Some && shop_access_token is Some
            && shop_base_url is Some),
        r is Ok ==> ({
            let (shop, strapi) = r->Ok_0;
            &&& strapi.base_url == strapi_base_url->Some_0
            &&& strapi.auth_token == strapi_token->Some_0
            &&& shop.access_token == shop_access_token->Some_0
            &&& shop.shop_url == shop_base_url->Some_0
        }),
{
    let base_url = match strapi_base_url {
        Some(v) => v,
        None => { return Err(ConfigError::Missing(ConfigKey::StrapiBaseUrl)); },
    };
    let auth_token = match strapi_token {
        Some(v) => v,
        None => { return Err(ConfigError::Missing(ConfigKey::StrapiToken)); },
    };
    let access_token = match shop_access_token {
        Some(v) => v,
        None => { return Err(ConfigError::Missing(ConfigKey::ShopAccessToken)); },
    };
    let shop_url = match shop_base_url {
        Some(v) => v,
        None => { return Err(ConfigError::Missing(ConfigKey::ShopBaseUrl)); },
    };
    Ok((ShopifyConfig { access_token, shop_url }, StrapiConfig { base_url, auth_token }))
}

} // verus!

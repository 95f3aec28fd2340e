//! The configuration of the service: what is read from the secret store at
//! start, and what stands in for a secret that is not there.

use vstd::prelude::*;
use vstd::string::StringExecFns;

verus! {

pub const STRIPE_KEY: &'static str = "STRIPE_KEY";

pub const STRIPE_SUB_PRICE: &'static str = "STRIPE_SUB_PRICE";

pub const MAILGUN_KEY: &'static str = "MAILGUN_KEY";

pub const MAILGUN_URL: &'static str = "MAILGUN_URL";

pub const DOMAIN_URL: &'static str = "DOMAIN_URL";

pub const SUPABASE_DB_URL: &'static str = "SUPABASE_DB_URL";

pub const SUPABASE_STORAGE_URL: &'static str = "SUPABASE_STORAGE_URL";

pub const SUPABASE_API_KEY: &'static str = "SUPABASE_API_KEY";

/// What stands in for a key of a provider that is not set.
pub const UNSET: &'static str = "None";

/// The domain of a service that runs on the developer's machine.
pub const LOCAL_DOMAIN: &'static str = "http://127.0.0.1:8000";

/// What the secret store holds under each of the names above.
#[derive(Clone, Debug, PartialEq, Eq)]
pub struct StoredSecrets {
    pub stripe_key: Option<String>,
    pub stripe_sub_price: Option<String>,
    pub mailgun_key: Option<String>,
    pub mailgun_url: Option<String>,
    pub domain: Option<String>,
    pub supabase_url: Option<String>,
    pub supabase_storage_url: Option<String>,
    pub supabase_api_key: Option<String>,
}

/// The configuration that the service runs with.
#[derive(Clone, Debug, PartialEq, Eq)]
pub struct Secrets {
    pub stripe_key: String,
    pub stripe_sub_price: String,
    pub mailgun_key: String,
    pub mailgun_url: String,
    pub domain: String,
    pub supabase_url: String,
    pub supabase_storage_url: String,
    pub supabase_api_key: String,
}

/// The text of a secret, or `fallback` where it is not set.
pub open spec fn text_or(secret: Option<String>, fallback: Seq<char>) -> Seq<char> {
    match secret {
        Some(text) => text@,
        None => fallback,
    }
}

fn or_text(secret: Option<String>, fallback: &str) -> (text: String)
    ensures
        text@ == text_or(secret, fallback@),
{
    match secret {
        Some(text) => text,
        None => String::from_str(fallback),
    }
}

/// Makes the configuration from what the store holds. The URL of the
/// second database has to be set. Every other secret may be missing: the
/// keys of the payment and mail providers then read `None`, the domain is
/// the local one, and the storage URL and key are empty.
pub fn grab_secrets(found: StoredSecrets) -> (secrets: Secrets)
    requires
        found.supabase_url is Some,
    ensures
        secrets.stripe_key@ == text_or(found.stripe_key, UNSET@),
        secrets.stripe_sub_price@ == text_or(found.stripe_sub_price, UNSET@),
        secrets.mailgun_key@ == text_or(found.mailgun_key, UNSET@),
        secrets.mailgun_url@ == text_or(found.mailgun_url, UNSET@),
        secrets.domain@ == text_or(found.domain, LOCAL_DOMAIN@),
        secrets.supabase_url@ == found.supabase_url->0@,
        secrets.supabase_storage_url@ == text_or(found.supabase_storage_url, Seq::empty()),
        secrets.supabase_api_key@ == text_or(found.supabase_api_key, Seq::empty()),
{
    Secrets {
        stripe_key: or_text(found.stripe_key, UNSET),
        stripe_sub_price: or_text(found.stripe_sub_price, UNSET),
        mailgun_key: or_text(found.mailgun_key, UNSET),
        mailgun_url: or_text(found.mailgun_url, UNSET),
        domain: or_text(found.domain, LOCAL_DOMAIN),
        supabase_url: found.supabase_url.unwrap(),
        supabase_storage_url: match found.supabase_storage_url {
            Some(text) => text,
            None => String::new(),
        },
        supabase_api_key: match found.supabase_api_key {
            Some(text) => text,
            None => String::new(),
        },
    }
}

} // verus!

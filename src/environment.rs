use vstd::prelude::*;
use crate::text::text_equals;

verus! {

/// The deployment that the shell points at.
#[derive(Clone, Copy, Debug, PartialEq, Eq, Structural)]
pub enum Environment {
    Development,
    Staging,
    Production,
}

pub open spec fn environment_named(name: Seq<char>) -> Option<Environment> {
    if name == "development"@ || name == "dev"@ {
        Some(Environment::Development)
    } else if name == "staging"@ {
        Some(Environment::Staging)
    } else if name == "production"@ || name == "prod"@ {
        Some(Environment::Production)
    } else {
        None
    }
}

pub open spec fn base_url_of(e: Environment) -> Seq<char> {
    match e {
        Environment::Development => "http://localhost:3001"@,
        Environment::Staging => "https://beta.midday.ai"@,
        Environment::Production => "https://app.midday.ai"@,
    }
}

/// The base URL for the deployment named `name`, and whether the name was
/// recognised; an unknown name falls back to development, which the caller
/// should warn about.
pub open spec fn app_url_for_name(name: Seq<char>) -> (Seq<char>, bool) {
    match environment_named(name) {
        Some(e) => (base_url_of(e), true),
        None => (base_url_of(Environment::Development), false),
    }
}

impl Environment {
    /// The deployment a name selects: `development` or `dev`, `staging`,
    /// `production` or `prod`.
    pub fn from_name(name: &str) -> (r: Option<Environment>)
        ensures
            r == environment_named(name@),
    {
        if text_equals(name, "development") || text_equals(name, "dev") {
            Some(Environment::Development)
        } else if text_equals(name, "staging") {
            Some(Environment::Staging)
        } else if text_equals(name, "production") || text_equals(name, "prod") {
            Some(Environment::Production)
        } else {
            None
        }
    }

    /// Where the hosted web application of this deployment lives.
    pub fn base_url(self) -> (r: &'static str)
        ensures
            r@ == base_url_of(self),
    {
        match self {
            Environment::Development => "http://localhost:3001",
            Environment::Staging => "https://beta.midday.ai",
            Environment::Production => "https://app.midday.ai",
        }
    }
}

/// The base URL for the deployment named `name`, with whether the name was
/// recognised (an unknown one gives the development URL).
pub fn app_url_for(name: &str) -> (r: (&'static str, bool))
    ensures
        (r.0@, r.1) == app_url_for_name(name@),
{
    match Environment::from_name(name) {
        Some(e) => (e.base_url(), true),
        None => (Environment::Development.base_url(), false),
    }
}

} // verus!

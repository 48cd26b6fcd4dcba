//! The relay's configuration: where the server listens and which providers it
//! knows.

use crate::text::same_text;
use vstd::prelude::*;
use vstd::string::*;

verus! {

/// The relay's whole configuration. It is made once and only read afterwards.
#[derive(Debug, Clone)]
pub struct Config {
    pub server: ServerConfig,
    pub providers: Vec<ProviderConfig>,
}

/// Where the server listens and how much it logs.
#[derive(Debug, Clone)]
pub struct ServerConfig {
    pub host: String,
    pub port: u16,
    pub log_level: String,
}

/// The address the server binds to when none is configured.
pub fn default_host() -> (host: String)
    ensures
        host@ == "0.0.0.0"@,
{
    String::from_str("0.0.0.0")
}

/// The port the server binds to when none is configured.
pub fn default_port() -> (port: u16)
    ensures
        port == 3000,
{
    3000
}

/// The log level used when none is configured.
pub fn default_log_level() -> (level: String)
    ensures
        level@ == "info"@,
{
    String::from_str("info")
}

impl Default for ServerConfig {
    fn default() -> (server: Self)
        ensures
            server.host@ == "0.0.0.0"@,
            server.port == 3000,
            server.log_level@ == "info"@,
    {
        ServerConfig { host: default_host(), port: default_port(), log_level: default_log_level() }
    }
}

/// One configured backend: the name requests address it by, the kind of
/// backend, the secret a caller must show (if any), and the credentials for
/// the backend's API.
#[derive(Debug, Clone)]
pub struct ProviderConfig {
    pub name: String,
    pub provider_type: String,
    pub key: Option<String>,
    pub api_key: String,
    pub zone_id: String,
}

/// The position of the first provider called `name`, or the number of
/// providers if none is called so.
pub open spec fn first_named(providers: Seq<ProviderConfig>, name: Seq<char>) -> int
    decreases providers.len(),
{
    if providers.len() == 0 {
        0
    } else if providers[0].name@ == name {
        0
    } else {
        1 + first_named(providers.drop_first(), name)
    }
}

/// `first_named` is the least position whose provider has the name.
pub proof fn lemma_first_named(providers: Seq<ProviderConfig>, name: Seq<char>)
    ensures
        0 <= first_named(providers, name) <= providers.len(),
        first_named(providers, name) < providers.len() ==> providers[first_named(
            providers,
            name,
        )].name@ == name,
        forall|i: int|
            0 <= i < first_named(providers, name) ==> (#[trigger] providers[i]).name@ != name,
    decreases providers.len(),
{
    if providers.len() > 0 && providers[0].name@ != name {
        let rest = providers.drop_first();
        lemma_first_named(rest, name);
        assert forall|i: int| 0 <= i < first_named(providers, name) implies (
        #[trigger] providers[i]).name@ != name by {
            if i > 0 {
                assert(providers[i] == rest[i - 1]);
            }
        }
    }
}

impl Config {
    /// The provider that a request for `name` goes to: the first configured
    /// one with exactly that name, if there is one.
    pub open spec fn provider_named(&self, name: Seq<char>) -> Option<ProviderConfig> {
        let at = first_named(self.providers@, name);
        if at < self.providers@.len() {
            Some(self.providers@[at])
        } else {
            None
        }
    }

    /// Looks a provider up by its name.
    pub fn get_provider(&self, name: &str) -> (found: Option<&ProviderConfig>)
        ensures
            match found {
                Some(provider) => self.provider_named(name@) == Some(*provider),
                None => self.provider_named(name@).is_none(),
            },
    {
        let mut at: usize = 0;
        while at < self.providers.len()
            invariant
                at <= self.providers.len(),
                forall|i: int| 0 <= i < at ==> (#[trigger] self.providers@[i]).name@ != name@,
            decreases self.providers.len() - at,
        {
            if same_text(self.providers[at].name.as_str(), name) {
                proof {
                    lemma_first_named(self.providers@, name@);
                }
                return Some(&self.providers[at]);
            }
            at += 1;
        }
        proof {
            lemma_first_named(self.providers@, name@);
        }
        None
    }
}

/// No two providers have the same name.
pub open spec fn names_distinct(providers: Seq<ProviderConfig>) -> bool {
    forall|i: int, j: int|
        0 <= i < j < providers.len() ==> (#[trigger] providers[i]).name@ != (
        #[trigger] providers[j]).name@
}

/// A lookup by name gives a configured provider of that name, and gives
/// none only where no provider has the name.
pub proof fn law_provider_named(config: Config, name: Seq<char>)
    ensures
        match config.provider_named(name) {
            Some(provider) => provider.name@ == name && config.providers@.contains(provider),
            None => forall|i: int|
                0 <= i < config.providers@.len() ==> (#[trigger] config.providers@[i]).name@
                    != name,
        },
{
    lemma_first_named(config.providers@, name);
}

/// Where no two providers have the same name, a lookup by a provider's name
/// gives that provider.
pub proof fn law_unique_name_finds_its_provider(config: Config, at: int)
    requires
        names_distinct(config.providers@),
        0 <= at < config.providers@.len(),
    ensures
        config.provider_named(config.providers@[at].name@) == Some(config.providers@[at]),
{
    let name = config.providers@[at].name@;
    lemma_first_named(config.providers@, name);
    let first = first_named(config.providers@, name);
    if first > at {
        assert(config.providers@[at].name@ != name);
    }
    if first < at {
        assert(config.providers@[first].name@ != config.providers@[at].name@);
    }
}

} // verus!

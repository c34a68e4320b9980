//! Where the pool takes its price from.

use vstd::prelude::*;

verus! {

/// Which price source a pool is set up with.
#[derive(Debug, PartialEq, Eq, Hash)]
pub enum OracleConfig {
    BitMex,
    /// A server at the given URL.
    Mock(String),
    /// A file at the given path.
    File(String),
}

/// A price source, ready to be asked.
#[derive(Debug, PartialEq, Eq)]
pub enum OracleClient {
    BitMex,
    Mock { url: String },
    File { path: String },
}

/// The URL that `reqwest::Url::parse` reads in `text`, in its serialised form, or `None`
/// where it finds none.
pub uninterp spec fn parsed_url(text: Seq<char>) -> Option<Seq<char>>;

/// Trusted: `reqwest::Url::parse`, which is `url::Url::parse`. The claim is that what it
/// makes of a text, or that it makes nothing of it, depends on the text alone.
#[verifier::external_body]
fn parse_url(text: &str) -> (url: Option<String>)
    ensures
        url is Some <==> parsed_url(text@) is Some,
        url matches Some(u) ==> parsed_url(text@) == Some(u@),
{
    let url = reqwest::Url::parse(text).ok()?;
    Some(String::from(url))
}

impl Clone for OracleConfig {
    fn clone(&self) -> (copy: Self)
        ensures
            copy == *self,
    {
        match self {
            OracleConfig::BitMex => OracleConfig::BitMex,
            OracleConfig::Mock(url) => OracleConfig::Mock(url.clone()),
            OracleConfig::File(path) => OracleConfig::File(path.clone()),
        }
    }
}

impl Default for OracleConfig {
    fn default() -> (config: Self)
        ensures
            config matches OracleConfig::File(path) && path@ == "./misc/offline_oracle"@,
    {
        OracleConfig::File("./misc/offline_oracle".to_string())
    }
}

impl OracleClient {
    /// The price source is the one that `config` asks for.
    pub open spec fn serves(self, config: OracleConfig) -> bool {
        match (config, self) {
            (OracleConfig::BitMex, OracleClient::BitMex) => true,
            (OracleConfig::Mock(text), OracleClient::Mock { url }) => parsed_url(text@) == Some(
                url@,
            ),
            (OracleConfig::File(text), OracleClient::File { path }) => path@ == text@,
            _ => false,
        }
    }
}

impl OracleConfig {
    /// No URL is needed, or the one that is given can be read.
    pub open spec fn has_client(self) -> bool {
        self matches OracleConfig::Mock(text) ==> parsed_url(text@) is Some
    }

    /// The price source, where reading the URL of a `Mock` source gave `parsed`.
    pub fn oracle_client_with(&self, parsed: Option<String>) -> (client: Option<OracleClient>)
        ensures
            match self {
                OracleConfig::BitMex => client == Some(OracleClient::BitMex),
                OracleConfig::Mock(_) => match parsed {
                    Some(url) => client == Some(OracleClient::Mock { url }),
                    None => client is None,
                },
                OracleConfig::File(text) => {
                    client matches Some(OracleClient::File { path }) && path@ == text@
                },
            },
    {
        match self {
            OracleConfig::BitMex => Some(OracleClient::BitMex),
            OracleConfig::Mock(_) => match parsed {
                Some(url) => Some(OracleClient::Mock { url }),
                None => None,
            },
            OracleConfig::File(path) => Some(OracleClient::File { path: path.clone() }),
        }
    }

    /// The price source that is asked for.
    pub fn oracle_client(&self) -> (client: OracleClient)
        requires
            self.has_client(),
        ensures
            client.serves(*self),
    {
        let parsed = match self {
            OracleConfig::Mock(text) => parse_url(text.as_str()),
            _ => None,
        };
        self.oracle_client_with(parsed).unwrap()
    }

    /// Tells whether `oracle_client` can be asked for: a `Mock` source needs a URL that
    /// can be read.
    pub fn can_make_client(&self) -> (can: bool)
        ensures
            can == self.has_client(),
    {
        match self {
            OracleConfig::Mock(text) => parse_url(text.as_str()).is_some(),
            _ => true,
        }
    }

    /// The price source that is asked for, or `None` for a `Mock` source whose URL cannot
    /// be read.
    pub fn try_oracle_client(&self) -> (client: Option<OracleClient>)
        ensures
            client is Some <==> self.has_client(),
            client matches Some(c) ==> c.serves(*self),
    {
        if self.can_make_client() {
            Some(self.oracle_client())
        } else {
            None
        }
    }
}

/// BitMex is asked at BitMex, a server at the URL that was read in the configured text, and a
/// file at the configured path; no other source will do.
pub proof fn law_source_is_the_configured_one(config: OracleConfig, client: OracleClient)
    ensures
        client.serves(config) <==> {
            ||| config is BitMex && client is BitMex
            ||| config matches OracleConfig::Mock(text) && client matches OracleClient::Mock { url }
                && parsed_url(text@) == Some(url@)
            ||| config matches OracleConfig::File(text) && client matches OracleClient::File {
                path,
            } && path@ == text@
        },
{
}

/// A source can be made of every configuration but that of a server whose URL cannot be read.
pub proof fn law_every_source_but_a_bad_url(config: OracleConfig)
    ensures
        config is BitMex ==> config.has_client(),
        config is File ==> config.has_client(),
        config matches OracleConfig::Mock(text) ==> (config.has_client() <==> parsed_url(text@)
            is Some),
{
}

/// Two configurations that one source serves are of the same kind, and name the same file or
/// the same URL.
pub proof fn law_sources_tell_configurations_apart(
    one: OracleConfig,
    other: OracleConfig,
    client: OracleClient,
)
    requires
        client.serves(one),
        client.serves(other),
    ensures
        one is BitMex <==> other is BitMex,
        one matches OracleConfig::File(text) ==> other matches OracleConfig::File(other_text)
            && text@ == other_text@,
        one matches OracleConfig::Mock(text) ==> other matches OracleConfig::Mock(other_text)
            && parsed_url(text@) == parsed_url(other_text@),
{
}

} // verus!

//! The plugin itself: its configuration, its credential, and how it starts.

use vstd::prelude::*;
use vstd::string::*;

use crate::credential::{loaded, CacheLoadError, CredentialCache, CredentialView};
use crate::outside::base64_input_limit;

verus! {

/// What the plugin needs to ask for a new credential. All three are required.
#[derive(Debug, PartialEq, Eq)]
pub struct ConfigData {
    pub client_id: String,
    pub client_secret: String,
    pub refresh_token: String,
}

pub struct ConfigView {
    pub client_id: Seq<char>,
    pub client_secret: Seq<char>,
    pub refresh_token: Seq<char>,
}

impl View for ConfigData {
    type V = ConfigView;

    open spec fn view(&self) -> ConfigView {
        ConfigView {
            client_id: self.client_id@,
            client_secret: self.client_secret@,
            refresh_token: self.refresh_token@,
        }
    }
}

impl ConfigView {
    /// The client's identifier and secret as Basic authentication pairs them.
    pub open spec fn client_pair(self) -> Seq<char> {
        self.client_id + ":"@ + self.client_secret
    }

    /// The pair is short enough to be written in base64.
    pub open spec fn fits(self) -> bool {
        vstd::utf8::encode_utf8(self.client_pair()).len() <= base64_input_limit()
    }
}

/// The entries of a configuration as a host found them: each may be missing.
#[derive(Clone, Debug, PartialEq, Eq)]
pub struct ConfigEntries {
    pub client_id: Option<String>,
    pub client_secret: Option<String>,
    pub refresh_token: Option<String>,
}

/// The three entries of the configuration.
#[derive(Clone, Copy, Debug, PartialEq, Eq, Structural)]
pub enum ConfigField {
    ClientId,
    ClientSecret,
    RefreshToken,
}

/// Why a plugin did not start.
#[derive(Clone, Copy, Debug, PartialEq, Eq, Structural)]
pub enum StartupError {
    /// The host has no configuration for the plugin.
    NoConfig,
    /// The configuration lacks an entry; of several, the first is named.
    MissingField(ConfigField),
    /// Client identifier and secret are too long to be sent.
    CredentialsTooLong,
    /// The persisted credential could not be read back.
    Cache(CacheLoadError),
}

/// The configuration that the entries make, or why they make none.
pub open spec fn configured(config: Option<ConfigEntries>) -> Result<ConfigView, StartupError> {
    match config {
        None => Err(StartupError::NoConfig),
        Some(entries) => {
            if entries.client_id is None {
                Err(StartupError::MissingField(ConfigField::ClientId))
            } else if entries.client_secret is None {
                Err(StartupError::MissingField(ConfigField::ClientSecret))
            } else if entries.refresh_token is None {
                Err(StartupError::MissingField(ConfigField::RefreshToken))
            } else {
                let view = ConfigView {
                    client_id: entries.client_id->0@,
                    client_secret: entries.client_secret->0@,
                    refresh_token: entries.refresh_token->0@,
                };
                if !view.fits() {
                    Err(StartupError::CredentialsTooLong)
                } else {
                    Ok(view)
                }
            }
        },
    }
}

/// What starting with `config` and `persisted` comes to: the configuration
/// is looked at first, the persisted credential after it.
pub open spec fn started(
    config: Option<ConfigEntries>,
    persisted: Option<Seq<char>>,
) -> Result<PluginView, StartupError> {
    match configured(config) {
        Err(error) => Err(error),
        Ok(view) => match loaded(persisted) {
            None => Err(StartupError::Cache(CacheLoadError::Corrupt)),
            Some(credential) => Ok(PluginView { config: view, credential }),
        },
    }
}

/// The name under which this plugin's events are stored.
pub open spec fn plugin_name() -> Seq<char> {
    "timeline_plugin_spotify"@
}

/// One plugin instance: a configuration and the cache of its credential.
#[derive(Debug, PartialEq, Eq)]
pub struct Plugin {
    pub(crate) config: ConfigData,
    pub(crate) cache: CredentialCache,
}

pub struct PluginView {
    pub config: ConfigView,
    pub credential: CredentialView,
}

impl View for Plugin {
    type V = PluginView;

    closed spec fn view(&self) -> PluginView {
        PluginView { config: self.config@, credential: self.cache@ }
    }
}

impl Plugin {
    /// The configuration can be sent: every plugin that `new` made is so and
    /// stays so.
    pub open spec fn wf(&self) -> bool {
        self@.config.fits()
    }

    /// The view is made of the views of the two fields.
    pub(crate) proof fn view_of_fields(&self)
        ensures
            self@ == (PluginView { config: self.config@, credential: self.cache@ }),
    {
    }

    /// Starts a plugin from what the host found: the entries of its
    /// configuration, if any, and the persisted credential, if any.
    pub fn new(config: Option<ConfigEntries>, persisted: Option<&str>) -> (outcome: Result<
        Plugin,
        StartupError,
    >)
        ensures
            match outcome {
                Ok(plugin) => started(config, persisted.deep_view()) == Ok::<
                    PluginView,
                    StartupError,
                >(plugin@) && plugin.wf(),
                Err(error) => started(config, persisted.deep_view()) == Err::<
                    PluginView,
                    StartupError,
                >(error),
            },
    {
        let data = match ConfigData::from_entries(config) {
            Ok(data) => data,
            Err(error) => {
                return Err(error);
            },
        };
        match CredentialCache::load(persisted) {
            Ok(cache) => Ok(Plugin { config: data, cache }),
            Err(error) => Err(StartupError::Cache(error)),
        }
    }

    /// Whether the configuration can be sent. It can, for every plugin that
    /// `new` made.
    pub fn is_well_formed(&self) -> (ok: bool)
        ensures
            ok == self.wf(),
    {
        proof {
            self.view_of_fields();
        }
        self.config.client_pair().as_str().as_bytes().len() <= base64_input_limit_exec()
    }

    /// The name under which this plugin's events are stored.
    pub fn get_type() -> (name: String)
        ensures
            name@ == plugin_name(),
    {
        String::from_str("timeline_plugin_spotify")
    }

    /// The configuration the plugin runs with.
    pub fn config(&self) -> (config: &ConfigData)
        ensures
            config@ == self@.config,
    {
        &self.config
    }

    /// The cache of the plugin's credential.
    pub fn cache(&self) -> (cache: &CredentialCache)
        ensures
            cache@ == self@.credential,
    {
        &self.cache
    }
}

impl ConfigData {
    /// Makes the configuration out of its entries. Every entry is required,
    /// and identifier and secret together must be short enough to be sent.
    pub fn from_entries(config: Option<ConfigEntries>) -> (outcome: Result<
        ConfigData,
        StartupError,
    >)
        ensures
            match outcome {
                Ok(data) => configured(config) == Ok::<ConfigView, StartupError>(data@),
                Err(error) => configured(config) == Err::<ConfigView, StartupError>(error),
            },
    {
        let entries = match config {
            None => {
                return Err(StartupError::NoConfig);
            },
            Some(entries) => entries,
        };
        let client_id = match entries.client_id {
            None => {
                return Err(StartupError::MissingField(ConfigField::ClientId));
            },
            Some(text) => text,
        };
        let client_secret = match entries.client_secret {
            None => {
                return Err(StartupError::MissingField(ConfigField::ClientSecret));
            },
            Some(text) => text,
        };
        let refresh_token = match entries.refresh_token {
            None => {
                return Err(StartupError::MissingField(ConfigField::RefreshToken));
            },
            Some(text) => text,
        };
        let data = ConfigData { client_id, client_secret, refresh_token };
        let pair = data.client_pair();
        if pair.as_str().as_bytes().len() > base64_input_limit_exec() {
            return Err(StartupError::CredentialsTooLong);
        }
        Ok(data)
    }

    /// The client's identifier and secret as Basic authentication pairs them.
    pub fn client_pair(&self) -> (pair: String)
        ensures
            pair@ == self@.client_pair(),
    {
        let mut pair = self.client_id.clone();
        pair.append(":");
        pair.append(self.client_secret.as_str());
        pair
    }
}

/// The longest input that can be written in base64, as a machine number.
pub fn base64_input_limit_exec() -> (limit: usize)
    ensures
        limit == base64_input_limit(),
{
    (isize::MAX as usize / 4) * 3
}

} // verus!

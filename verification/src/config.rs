//! The settings of a running node, put together from the options of its
//! configuration file and of the command line.

use vstd::prelude::*;
use vstd::string::StrSliceExecFns;
use crate::config_option::ConfigOption;

verus! {

pub const DATABASE_DIR_NAME: &'static str = "database";

pub const CONFIG_FILE_NAME: &'static str = "Config.toml";

pub const SIGNING_KEY: &'static str = "signing_key";

/// The chain whose signatures the node uses.
#[derive(Clone, Copy, Debug, PartialEq, Eq, Structural)]
pub enum ChainType {
    Ethereum,
}

/// Why no settings could be put together.
#[derive(Clone, Copy, Debug, PartialEq, Eq, Structural)]
pub enum ConfigError {
    /// An option that the node cannot run without is set nowhere.
    MissingOption,
}

/// The settings of a running node.
#[derive(Debug, PartialEq, Eq)]
pub struct Config {
    pub path: String,
    pub external_rpc_url: String,
    pub internal_rpc_url: String,
    pub cluster_rpc_url: String,
    pub seed_cluster_rpc_url: Option<String>,
    pub signing_key: String,
    pub radius_foundation_address: String,
    pub chain_type: ChainType,
    pub partial_key_generation_cycle: u64,
    pub partial_key_aggregation_cycle: u64,
}

/// Whether `option` sets everything that a node cannot run without.
pub open spec fn complete(option: ConfigOption) -> bool {
    &&& option.path is Some
    &&& option.external_rpc_url is Some
    &&& option.internal_rpc_url is Some
    &&& option.cluster_rpc_url is Some
    &&& option.radius_foundation_address is Some
    &&& option.partial_key_generation_cycle is Some
    &&& option.partial_key_aggregation_cycle is Some
}

/// The settings that `option` and the signing key give.
pub open spec fn settings(option: ConfigOption, signing_key: String) -> Config {
    Config {
        path: option.path.unwrap(),
        external_rpc_url: option.external_rpc_url.unwrap(),
        internal_rpc_url: option.internal_rpc_url.unwrap(),
        cluster_rpc_url: option.cluster_rpc_url.unwrap(),
        seed_cluster_rpc_url: option.seed_cluster_rpc_url,
        signing_key,
        radius_foundation_address: option.radius_foundation_address.unwrap(),
        chain_type: ChainType::Ethereum,
        partial_key_generation_cycle: option.partial_key_generation_cycle.unwrap(),
        partial_key_aggregation_cycle: option.partial_key_aggregation_cycle.unwrap(),
    }
}

/// The path of `name` under `directory`, with `/` as the separator. A `name`
/// that starts at the root stands for itself, as does any `name` under the
/// empty directory; a directory that ends in a separator gets no second one.
pub open spec fn joined(directory: Seq<char>, name: Seq<char>) -> Seq<char> {
    if name.len() > 0 && name[0] == '/' {
        name
    } else if directory.len() == 0 {
        name
    } else if directory.last() == '/' {
        directory + name
    } else {
        directory + "/"@ + name
    }
}

impl ConfigOption {
    /// The directory of the configuration: the one that is set, or else the
    /// default one, which is then set.
    pub fn resolve_path(&mut self) -> (r: String)
        ensures
            old(self).path is Some ==> *final(self) == *old(self) && Some(r) == old(self).path,
            old(self).path is None ==> r@ == crate::config_option::DEFAULT_HOME_PATH@
                && *final(self) == (ConfigOption { path: Some(r), ..*old(self) }),
    {
        match &self.path {
            Some(path) => path.clone(),
            None => {
                let path = crate::config_option::DEFAULT_HOME_PATH.to_string();
                self.path = Some(path.clone());
                path
            },
        }
    }
}

impl Config {
    /// Puts the settings together: the options of the configuration file, each
    /// replaced by the command line's where that sets it, and the signing key.
    /// Fails where an option that the node cannot run without is set by
    /// neither.
    pub fn load(config_option: &ConfigOption, config_file: ConfigOption, signing_key: String) -> (r:
        Result<Config, ConfigError>)
        ensures
            r == (if complete(config_file.merged(*config_option)) {
                Ok::<Config, ConfigError>(
                    settings(config_file.merged(*config_option), signing_key),
                )
            } else {
                Err::<Config, ConfigError>(ConfigError::MissingOption)
            }),
    {
        let merged = config_file.merge(config_option);
        match (
            merged.path,
            merged.external_rpc_url,
            merged.internal_rpc_url,
            merged.cluster_rpc_url,
            merged.radius_foundation_address,
            merged.partial_key_generation_cycle,
            merged.partial_key_aggregation_cycle,
        ) {
            (
                Some(path),
                Some(external_rpc_url),
                Some(internal_rpc_url),
                Some(cluster_rpc_url),
                Some(radius_foundation_address),
                Some(partial_key_generation_cycle),
                Some(partial_key_aggregation_cycle),
            ) => Ok(
                Config {
                    path,
                    external_rpc_url,
                    internal_rpc_url,
                    cluster_rpc_url,
                    seed_cluster_rpc_url: merged.seed_cluster_rpc_url,
                    signing_key,
                    radius_foundation_address,
                    chain_type: ChainType::Ethereum,
                    partial_key_generation_cycle,
                    partial_key_aggregation_cycle,
                },
            ),
            _ => Err(ConfigError::MissingOption),
        }
    }

    /// The path of `name` inside the configuration's directory.
    fn join(&self, name: &str) -> (r: String)
        ensures
            r@ == joined(self.path@, name@),
    {
        let name_len: usize = name.unicode_len();
        let path_len: usize = self.path.as_str().unicode_len();
        if (name_len > 0 && name.get_char(0) == '/') || path_len == 0 {
            let mut out = String::new();
            out.append(name);
            proof {
                assert(out@ =~= name@);
            }
            return out;
        }
        let mut out = self.path.clone();
        if self.path.as_str().get_char(path_len - 1) != '/' {
            out.append("/");
        }
        out.append(name);
        proof {
            assert(out@ =~= joined(self.path@, name@));
        }
        out
    }

    pub fn path(&self) -> (r: &String)
        ensures
            *r == self.path,
    {
        &self.path
    }

    /// The directory of the database, inside the configuration's directory.
    pub fn database_path(&self) -> (r: String)
        ensures
            r@ == joined(self.path@, DATABASE_DIR_NAME@),
    {
        self.join(DATABASE_DIR_NAME)
    }

    pub fn signing_key(&self) -> (r: &String)
        ensures
            *r == self.signing_key,
    {
        &self.signing_key
    }

    pub fn radius_foundation_address(&self) -> (r: &String)
        ensures
            *r == self.radius_foundation_address,
    {
        &self.radius_foundation_address
    }

    pub fn chain_type(&self) -> (r: &ChainType)
        ensures
            *r == self.chain_type,
    {
        &self.chain_type
    }

    pub fn external_rpc_url(&self) -> (r: &String)
        ensures
            *r == self.external_rpc_url,
    {
        &self.external_rpc_url
    }

    pub fn internal_rpc_url(&self) -> (r: &String)
        ensures
            *r == self.internal_rpc_url,
    {
        &self.internal_rpc_url
    }

    pub fn partial_key_generation_cycle(&self) -> (r: u64)
        ensures
            r == self.partial_key_generation_cycle,
    {
        self.partial_key_generation_cycle
    }

    pub fn partial_key_aggregation_cycle(&self) -> (r: u64)
        ensures
            r == self.partial_key_aggregation_cycle,
    {
        self.partial_key_aggregation_cycle
    }

    pub fn cluster_rpc_url(&self) -> (r: &String)
        ensures
            *r == self.cluster_rpc_url,
    {
        &self.cluster_rpc_url
    }

    pub fn seed_cluster_rpc_url(&self) -> (r: &Option<String>)
        ensures
            *r == self.seed_cluster_rpc_url,
    {
        &self.seed_cluster_rpc_url
    }
}

} // verus!

//! The options that a configuration file or the command line may set, and the
//! text of a configuration file that holds them.

use vstd::prelude::*;

verus! {

pub const DEFAULT_HOME_PATH: &'static str = ".radius";

pub const DEFAULT_EXTERNAL_RPC_URL: &'static str = "http://127.0.0.1:3000";

pub const DEFAULT_INTERNAL_RPC_URL: &'static str = "http://127.0.0.1:4000";

pub const DEFAULT_CLUSTER_RPC_URL: &'static str = "http://127.0.0.1:5000";

pub const DEFAULT_SEEDER_RPC_URL: &'static str = "http://127.0.0.1:6000";

pub const DEFAULT_RADIUS_FOUNDATION_ADDRESS: &'static str =
    "0xf39Fd6e51aad88F6F4ce6aB8827279cffFb92266";

pub const DEFAULT_PARTIAL_KEY_GENERATION_CYCLE: u64 = 5;

pub const DEFAULT_PARTIAL_KEY_AGGREGATION_CYCLE: u64 = 4;

/// The text that formatting a string for debugging gives: the string in
/// double quotes, with its special characters escaped.
pub uninterp spec fn debug_text(value: Seq<char>) -> Seq<char>;

/// Formats `value` with `{:?}`, as `core::fmt::Debug` for `str` does. The
/// result is named, not spelled out: it depends on the characters of `value`
/// alone.
#[verifier::external_body]
fn format_debug(value: &String) -> (r: String)
    ensures
        r@ == debug_text(value@),
{
    format!("{:?}", value)
}

/// A copy of an optional text.
pub fn clone_text(value: &Option<String>) -> (r: Option<String>)
    ensures
        r == *value,
{
    match value {
        Some(text) => Some(text.clone()),
        None => None,
    }
}

/// Whether `option` is set to the text `text`.
pub open spec fn is_text(option: Option<String>, text: Seq<char>) -> bool {
    option is Some && option.unwrap()@ == text
}

/// The line that explains the entry below it.
pub open spec fn toml_comment(comment: Seq<char>) -> Seq<char> {
    "# "@ + comment + "\n"@
}

/// The entry for `name`: its value where one was rendered, and where none was,
/// a commented line that shows the entry as unset.
pub open spec fn toml_entry(name: Seq<char>, rendered: Option<Seq<char>>) -> Seq<char> {
    match rendered {
        Some(text) => name + " = "@ + text + "\n\n"@,
        None => "# "@ + name + " = None\n\n"@,
    }
}

/// The entry for `name` with the value as it stands in the options.
pub open spec fn toml_name_value(name: Seq<char>, value: Option<String>) -> Seq<char> {
    match value {
        Some(text) => toml_entry(name, Some(debug_text(text@))),
        None => toml_entry(name, None),
    }
}

/// Appends a comment line.
pub fn set_toml_comment(toml_string: &mut String, comment: &'static str)
    ensures
        final(toml_string)@ == old(toml_string)@ + toml_comment(comment@),
{
    toml_string.append("# ");
    toml_string.append(comment);
    toml_string.append("\n");
    proof {
        assert(final(toml_string)@ =~= old(toml_string)@ + toml_comment(comment@));
    }
}

/// Appends the entry for `name`, given the text of its value.
pub fn set_toml_entry(toml_string: &mut String, name: &'static str, rendered: &Option<String>)
    ensures
        final(toml_string)@ == old(toml_string)@ + toml_entry(
            name@,
            match *rendered {
                Some(text) => Some(text@),
                None => None,
            },
        ),
{
    match rendered {
        Some(text) => {
            toml_string.append(name);
            toml_string.append(" = ");
            toml_string.append(text.as_str());
            toml_string.append("\n\n");
            proof {
                assert(final(toml_string)@ =~= old(toml_string)@ + toml_entry(
                    name@,
                    Some(text@),
                ));
            }
        },
        None => {
            toml_string.append("# ");
            toml_string.append(name);
            toml_string.append(" = None\n\n");
            proof {
                assert(final(toml_string)@ =~= old(toml_string)@ + toml_entry(name@, None));
            }
        },
    }
}

/// Appends the entry for `name` with `value` formatted for debugging.
pub fn set_toml_name_value(toml_string: &mut String, name: &'static str, value: &Option<String>)
    ensures
        final(toml_string)@ == old(toml_string)@ + toml_name_value(name@, *value),
{
    let rendered: Option<String> = match value {
        Some(text) => Some(format_debug(text)),
        None => None,
    };
    set_toml_entry(toml_string, name, &rendered);
}

/// What a configuration file or the command line may set. An option that is
/// `None` was not set there.
#[derive(Debug, PartialEq, Eq)]
pub struct ConfigOption {
    pub path: Option<String>,
    pub external_rpc_url: Option<String>,
    pub internal_rpc_url: Option<String>,
    pub cluster_rpc_url: Option<String>,
    pub seeder_rpc_url: Option<String>,
    pub seed_cluster_rpc_url: Option<String>,
    pub radius_foundation_address: Option<String>,
    pub partial_key_generation_cycle: Option<u64>,
    pub partial_key_aggregation_cycle: Option<u64>,
}

impl Default for ConfigOption {
    fn default() -> (r: Self)
        ensures
            is_text(r.path, DEFAULT_HOME_PATH@),
            is_text(r.external_rpc_url, DEFAULT_EXTERNAL_RPC_URL@),
            is_text(r.internal_rpc_url, DEFAULT_INTERNAL_RPC_URL@),
            is_text(r.cluster_rpc_url, DEFAULT_CLUSTER_RPC_URL@),
            is_text(r.seeder_rpc_url, DEFAULT_SEEDER_RPC_URL@),
            r.seed_cluster_rpc_url is None,
            is_text(r.radius_foundation_address, DEFAULT_RADIUS_FOUNDATION_ADDRESS@),
            r.partial_key_generation_cycle == Some(DEFAULT_PARTIAL_KEY_GENERATION_CYCLE),
            r.partial_key_aggregation_cycle == Some(DEFAULT_PARTIAL_KEY_AGGREGATION_CYCLE),
    {
        ConfigOption {
            path: Some(DEFAULT_HOME_PATH.to_string()),
            external_rpc_url: Some(DEFAULT_EXTERNAL_RPC_URL.to_string()),
            internal_rpc_url: Some(DEFAULT_INTERNAL_RPC_URL.to_string()),
            cluster_rpc_url: Some(DEFAULT_CLUSTER_RPC_URL.to_string()),
            seeder_rpc_url: Some(DEFAULT_SEEDER_RPC_URL.to_string()),
            seed_cluster_rpc_url: None,
            radius_foundation_address: Some(DEFAULT_RADIUS_FOUNDATION_ADDRESS.to_string()),
            partial_key_generation_cycle: Some(DEFAULT_PARTIAL_KEY_GENERATION_CYCLE),
            partial_key_aggregation_cycle: Some(DEFAULT_PARTIAL_KEY_AGGREGATION_CYCLE),
        }
    }
}

impl ConfigOption {
    /// The text of a configuration file with the four endpoints, each under a
    /// line that explains it.
    pub open spec fn toml_text(&self) -> Seq<char> {
        toml_comment("Set external rpc url"@) + toml_name_value(
            "external_rpc_url"@,
            self.external_rpc_url,
        ) + toml_comment("Set internal rpc url"@) + toml_name_value(
            "internal_rpc_url"@,
            self.internal_rpc_url,
        ) + toml_comment("Set cluster rpc url"@) + toml_name_value(
            "cluster_rpc_url"@,
            self.cluster_rpc_url,
        ) + toml_comment("Set seeder rpc url"@) + toml_name_value(
            "seeder_rpc_url"@,
            self.seeder_rpc_url,
        )
    }

    /// The options as the text of a configuration file.
    pub fn get_toml_string(&self) -> (r: String)
        ensures
            r@ == self.toml_text(),
    {
        let mut toml_string = String::new();

        set_toml_comment(&mut toml_string, "Set external rpc url");
        set_toml_name_value(&mut toml_string, "external_rpc_url", &self.external_rpc_url);

        set_toml_comment(&mut toml_string, "Set internal rpc url");
        set_toml_name_value(&mut toml_string, "internal_rpc_url", &self.internal_rpc_url);

        set_toml_comment(&mut toml_string, "Set cluster rpc url");
        set_toml_name_value(&mut toml_string, "cluster_rpc_url", &self.cluster_rpc_url);

        set_toml_comment(&mut toml_string, "Set seeder rpc url");
        set_toml_name_value(&mut toml_string, "seeder_rpc_url", &self.seeder_rpc_url);

        proof {
            assert(toml_string@ =~= self.toml_text());
        }
        toml_string
    }

    /// These options with each one that `other` sets taken from `other`.
    pub open spec fn merged(self, other: ConfigOption) -> ConfigOption {
        ConfigOption {
            path: if other.path is Some { other.path } else { self.path },
            external_rpc_url: if other.external_rpc_url is Some {
                other.external_rpc_url
            } else {
                self.external_rpc_url
            },
            internal_rpc_url: if other.internal_rpc_url is Some {
                other.internal_rpc_url
            } else {
                self.internal_rpc_url
            },
            cluster_rpc_url: if other.cluster_rpc_url is Some {
                other.cluster_rpc_url
            } else {
                self.cluster_rpc_url
            },
            seeder_rpc_url: if other.seeder_rpc_url is Some {
                other.seeder_rpc_url
            } else {
                self.seeder_rpc_url
            },
            seed_cluster_rpc_url: if other.seed_cluster_rpc_url is Some {
                other.seed_cluster_rpc_url
            } else {
                self.seed_cluster_rpc_url
            },
            radius_foundation_address: if other.radius_foundation_address is Some {
                other.radius_foundation_address
            } else {
                self.radius_foundation_address
            },
            partial_key_generation_cycle: if other.partial_key_generation_cycle is Some {
                other.partial_key_generation_cycle
            } else {
                self.partial_key_generation_cycle
            },
            partial_key_aggregation_cycle: if other.partial_key_aggregation_cycle is Some {
                other.partial_key_aggregation_cycle
            } else {
                self.partial_key_aggregation_cycle
            },
        }
    }

    /// Takes from `other` every option that it sets, and keeps the rest.
    pub fn merge(self, other: &ConfigOption) -> (r: Self)
        ensures
            r == self.merged(*other),
    {
        let mut merged = self;
        if other.path.is_some() {
            merged.path = clone_text(&other.path);
        }
        if other.external_rpc_url.is_some() {
            merged.external_rpc_url = clone_text(&other.external_rpc_url);
        }
        if other.internal_rpc_url.is_some() {
            merged.internal_rpc_url = clone_text(&other.internal_rpc_url);
        }
        if other.cluster_rpc_url.is_some() {
            merged.cluster_rpc_url = clone_text(&other.cluster_rpc_url);
        }
        if other.seeder_rpc_url.is_some() {
            merged.seeder_rpc_url = clone_text(&other.seeder_rpc_url);
        }
        if other.seed_cluster_rpc_url.is_some() {
            merged.seed_cluster_rpc_url = clone_text(&other.seed_cluster_rpc_url);
        }
        if other.radius_foundation_address.is_some() {
            merged.radius_foundation_address = clone_text(&other.radius_foundation_address);
        }
        if other.partial_key_generation_cycle.is_some() {
            merged.partial_key_generation_cycle = other.partial_key_generation_cycle;
        }
        if other.partial_key_aggregation_cycle.is_some() {
            merged.partial_key_aggregation_cycle = other.partial_key_aggregation_cycle;
        }
        merged
    }
}

} // verus!

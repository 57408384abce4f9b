use key_generator::config::{ChainType, Config, ConfigError};
use key_generator::config_option::{
    clone_text, set_toml_comment, set_toml_entry, set_toml_name_value, ConfigOption,
};

fn unset() -> ConfigOption {
    ConfigOption {
        path: None,
        external_rpc_url: None,
        internal_rpc_url: None,
        cluster_rpc_url: None,
        seeder_rpc_url: None,
        seed_cluster_rpc_url: None,
        radius_foundation_address: None,
        partial_key_generation_cycle: None,
        partial_key_aggregation_cycle: None,
    }
}

#[test]
fn default_options() {
    let option = ConfigOption::default();
    assert_eq!(option.path, Some(".radius".to_string()));
    assert_eq!(option.external_rpc_url, Some("http://127.0.0.1:3000".to_string()));
    assert_eq!(option.internal_rpc_url, Some("http://127.0.0.1:4000".to_string()));
    assert_eq!(option.cluster_rpc_url, Some("http://127.0.0.1:5000".to_string()));
    assert_eq!(option.seeder_rpc_url, Some("http://127.0.0.1:6000".to_string()));
    assert_eq!(option.seed_cluster_rpc_url, None);
    assert_eq!(
        option.radius_foundation_address,
        Some("0xf39Fd6e51aad88F6F4ce6aB8827279cffFb92266".to_string())
    );
    assert_eq!(option.partial_key_generation_cycle, Some(5));
    assert_eq!(option.partial_key_aggregation_cycle, Some(4));
}

#[test]
fn toml_string_of_default_options() {
    let expected = "# Set external rpc url\n\
                    external_rpc_url = \"http://127.0.0.1:3000\"\n\n\
                    # Set internal rpc url\n\
                    internal_rpc_url = \"http://127.0.0.1:4000\"\n\n\
                    # Set cluster rpc url\n\
                    cluster_rpc_url = \"http://127.0.0.1:5000\"\n\n\
                    # Set seeder rpc url\n\
                    seeder_rpc_url = \"http://127.0.0.1:6000\"\n\n";
    assert_eq!(ConfigOption::default().get_toml_string(), expected);
}

#[test]
fn toml_string_of_unset_options() {
    let expected = "# Set external rpc url\n\
                    # external_rpc_url = None\n\n\
                    # Set internal rpc url\n\
                    # internal_rpc_url = None\n\n\
                    # Set cluster rpc url\n\
                    # cluster_rpc_url = None\n\n\
                    # Set seeder rpc url\n\
                    # seeder_rpc_url = None\n\n";
    assert_eq!(unset().get_toml_string(), expected);
}

#[test]
fn toml_value_is_quoted_and_escaped() {
    let mut text = String::new();
    set_toml_name_value(&mut text, "name", &Some("a\"b\\c".to_string()));
    assert_eq!(text, "name = \"a\\\"b\\\\c\"\n\n");
}

#[test]
fn toml_comment_and_entry() {
    let mut text = String::from("x");
    set_toml_comment(&mut text, "Set it");
    assert_eq!(text, "x# Set it\n");
    set_toml_entry(&mut text, "it", &Some("1".to_string()));
    assert_eq!(text, "x# Set it\nit = 1\n\n");
    set_toml_entry(&mut text, "other", &None);
    assert_eq!(text, "x# Set it\nit = 1\n\n# other = None\n\n");
    assert_eq!(clone_text(&Some("t".to_string())), Some("t".to_string()));
    assert_eq!(clone_text(&None), None);
}

#[test]
fn merge_takes_what_other_sets() {
    let mut other = unset();
    other.external_rpc_url = Some("http://10.0.0.1:3000".to_string());
    other.partial_key_aggregation_cycle = Some(9);
    other.seed_cluster_rpc_url = Some("http://10.0.0.2:5000".to_string());
    let merged = ConfigOption::default().merge(&other);

    let mut expected = ConfigOption::default();
    expected.external_rpc_url = Some("http://10.0.0.1:3000".to_string());
    expected.partial_key_aggregation_cycle = Some(9);
    expected.seed_cluster_rpc_url = Some("http://10.0.0.2:5000".to_string());
    assert_eq!(merged, expected);
}

#[test]
fn merge_with_unset_changes_nothing() {
    assert_eq!(ConfigOption::default().merge(&unset()), ConfigOption::default());
    assert_eq!(unset().merge(&ConfigOption::default()), ConfigOption::default());
    assert_eq!(unset().merge(&unset()), unset());
}

#[test]
fn resolve_path_keeps_or_sets_default() {
    let mut set = unset();
    set.path = Some("/etc/node".to_string());
    assert_eq!(set.resolve_path(), "/etc/node");
    assert_eq!(set.path, Some("/etc/node".to_string()));

    let mut none = unset();
    assert_eq!(none.resolve_path(), ".radius");
    assert_eq!(none.path, Some(".radius".to_string()));
}

#[test]
fn load_merges_file_and_command_line() {
    let mut command_line = unset();
    command_line.path = Some("/etc/node".to_string());
    command_line.cluster_rpc_url = Some("http://10.0.0.1:5000".to_string());
    let config = Config::load(&command_line, ConfigOption::default(), "key".to_string()).unwrap();
    assert_eq!(
        config,
        Config {
            path: "/etc/node".to_string(),
            external_rpc_url: "http://127.0.0.1:3000".to_string(),
            internal_rpc_url: "http://127.0.0.1:4000".to_string(),
            cluster_rpc_url: "http://10.0.0.1:5000".to_string(),
            seed_cluster_rpc_url: None,
            signing_key: "key".to_string(),
            radius_foundation_address: "0xf39Fd6e51aad88F6F4ce6aB8827279cffFb92266".to_string(),
            chain_type: ChainType::Ethereum,
            partial_key_generation_cycle: 5,
            partial_key_aggregation_cycle: 4,
        }
    );
    assert_eq!(config.path(), "/etc/node");
    assert_eq!(config.database_path(), "/etc/node/database");
    assert_eq!(config.signing_key(), "key");
    assert_eq!(config.radius_foundation_address(), "0xf39Fd6e51aad88F6F4ce6aB8827279cffFb92266");
    assert_eq!(*config.chain_type(), ChainType::Ethereum);
    assert_eq!(config.external_rpc_url(), "http://127.0.0.1:3000");
    assert_eq!(config.internal_rpc_url(), "http://127.0.0.1:4000");
    assert_eq!(config.cluster_rpc_url(), "http://10.0.0.1:5000");
    assert_eq!(*config.seed_cluster_rpc_url(), None);
    assert_eq!(config.partial_key_generation_cycle(), 5);
    assert_eq!(config.partial_key_aggregation_cycle(), 4);
}

fn config_in(path: &str) -> Config {
    let mut command_line = unset();
    command_line.path = Some(path.to_string());
    Config::load(&command_line, ConfigOption::default(), "key".to_string()).unwrap()
}

#[test]
fn database_path_of_empty_directory_is_relative() {
    assert_eq!(config_in("").database_path(), "database");
    assert_eq!(
        config_in("").database_path(),
        std::path::Path::new("").join("database").to_string_lossy()
    );
}

#[test]
fn database_path_adds_no_second_separator() {
    assert_eq!(config_in("/etc/node/").database_path(), "/etc/node/database");
    assert_eq!(config_in("/").database_path(), "/database");
    assert_eq!(config_in(".radius").database_path(), ".radius/database");
    for path in ["/etc/node/", "/", ".radius", "a/b", "./"] {
        assert_eq!(
            config_in(path).database_path(),
            std::path::Path::new(path).join("database").to_string_lossy()
        );
    }
}

#[test]
fn load_fails_on_missing_option() {
    let mut file = ConfigOption::default();
    file.internal_rpc_url = None;
    assert_eq!(
        Config::load(&unset(), file, "key".to_string()),
        Err(ConfigError::MissingOption)
    );
    assert_eq!(
        Config::load(&unset(), unset(), "key".to_string()),
        Err(ConfigError::MissingOption)
    );
}

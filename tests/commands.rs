use tem::commands::Commands;
use tem::config::{
    build_default_home_config_path, home_config_path, should_create_config, CONFIG_LOCATION,
};

#[test]
fn predefined_commands() {
    for c in ["init", "config", "proc", "--help", "-h"] {
        assert!(Commands::is_predefined_command(c));
    }
    for c in ["react-vite", "", "Init", "help", "--h"] {
        assert!(!Commands::is_predefined_command(c));
    }
}

#[test]
fn config_path_under_home() {
    assert_eq!(home_config_path("/home/u", CONFIG_LOCATION), "/home/u/.config/tem/config.toml");
    if let Ok(p) = build_default_home_config_path() {
        assert!(p.ends_with("/.config/tem/config.toml"));
        assert!(p.len() > CONFIG_LOCATION.len() || p == CONFIG_LOCATION);
    }
}

#[test]
fn config_file_written_when_absent_or_forced() {
    assert!(should_create_config(false, false));
    assert!(should_create_config(false, true));
    assert!(should_create_config(true, true));
    assert!(!should_create_config(true, false));
}

use tempest::config::{Config, LauncherConfig, PathConfig, WineConfig, tempest_dir_in};

#[test]
fn defaults() {
    let c = Config::default();
    assert!(c.auth.session_token.is_none());
    assert!(c.launcher.filter_wine_noise);
    assert!(c.launcher.auto_update);
    assert!(!c.launcher.use_gamemode);
    assert_eq!(c.wine.binary, "wine");
    assert!(c.wine.env.is_empty());
    assert!(c.paths.wine_prefix.ends_with("tempest/prefix"));
    assert!(c.paths.vortex_exe.ends_with("tempest/Vortex.exe"));
    let l = LauncherConfig::default();
    assert!(l.use_esync && l.shader_cache);
    assert_eq!(WineConfig::default().binary, "wine");
}

#[test]
fn directories() {
    assert_eq!(tempest_dir_in(None, "~/.config"), "~/.config/tempest");
    assert_eq!(tempest_dir_in(Some("/x/".to_string()), "~/.config"), "/x/tempest");
    let p = PathConfig::in_data_dir("/d/tempest");
    assert_eq!(p.wine_prefix, "/d/tempest/prefix");
    assert_eq!(p.vortex_exe, "/d/tempest/Vortex.exe");
    assert_eq!(p.log_file, "/d/tempest/tempest.log");
    assert_eq!(Config::config_file_in("/c/tempest"), "/c/tempest/config.toml");
    assert!(Config::config_dir().ends_with("tempest"));
    assert!(Config::data_dir().ends_with("tempest"));
}

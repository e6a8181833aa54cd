use tempest::plugin::{
    binary_path, env_vars, fps_unlocker_cc_args, installed, installed_plugins, is_installed,
    list_entries, parse_command, plugin_dir_in, vortex_optim_cc_args, PluginCommand, PluginState,
};

fn state(dirs: &[&str]) -> PluginState {
    PluginState {
        dirs: dirs.iter().map(|s| s.to_string()).collect(),
        fps_layer_so: true,
        fps_layer_json: true,
        fps_binary_is_file: false,
        optim_binary: true,
        optim_binary_is_file: true,
    }
}

#[test]
fn plugin_dirs() {
    assert_eq!(plugin_dir_in("/d/tempest", "fps-unlocker"), "/d/tempest/plugins/fps-unlocker");
}

#[test]
fn installed_rules() {
    let st = state(&["fps-unlocker", "vortex-optim", "junk"]);
    assert!(installed(&st, "fps-unlocker"));
    assert!(installed(&st, "vortex-optim"));
    assert!(!installed(&st, "junk"));
    assert!(!is_installed(&st, "junk"));
    let mut partial = state(&["fps-unlocker"]);
    partial.fps_layer_json = false;
    assert!(!installed(&partial, "fps-unlocker"));
    assert!(!installed(&state(&[]), "vortex-optim"));
}

#[test]
fn binaries() {
    let st = state(&["fps-unlocker", "vortex-optim"]);
    assert_eq!(binary_path(&st, "/d", "vortex-optim"), Some("/d/plugins/vortex-optim/vortex-optim".to_string()));
    assert_eq!(binary_path(&st, "/d", "fps-unlocker"), None);
    assert_eq!(binary_path(&state(&[]), "/d", "vortex-optim"), None);
}

#[test]
fn env_from_plugins() {
    let st = state(&["fps-unlocker", "vortex-optim"]);
    let vars = env_vars(&st, "/d", None, None);
    assert_eq!(vars.len(), 7);
    assert!(vars.contains(&("VK_ADD_IMPLICIT_LAYER_PATH".to_string(), "/d/plugins/fps-unlocker".to_string())));
    assert!(vars.contains(&("VORTSTRAP_PRESENT_MODE".to_string(), "0".to_string())));
    assert!(vars.contains(&("DXVK_CONFIG".to_string(), "dxvk.enableAsync=true,dxvk.numCompilerThreads=2".to_string())));
    let vars = env_vars(&st, "/d", Some("2".to_string()), Some("dxvk.hud=fps".to_string()));
    assert!(vars.contains(&("VORTSTRAP_PRESENT_MODE".to_string(), "2".to_string())));
    assert!(vars.contains(&("DXVK_CONFIG".to_string(), "dxvk.hud=fps,dxvk.enableAsync=true,dxvk.numCompilerThreads=2".to_string())));
    let vars = env_vars(&st, "/d", None, Some("dxvk.enableAsync=false".to_string()));
    assert!(vars.contains(&("DXVK_CONFIG".to_string(), "dxvk.enableAsync=false".to_string())));
    assert!(env_vars(&state(&[]), "/d", None, None).is_empty());
    let mut no_so = state(&["fps-unlocker"]);
    no_so.fps_layer_so = false;
    assert!(env_vars(&no_so, "/d", None, None).is_empty());
}

#[test]
fn commands() {
    assert_eq!(parse_command(&vec![]), PluginCommand::List);
    assert_eq!(parse_command(&vec!["fps-unlocker".to_string()]), PluginCommand::InstallFpsUnlocker);
    assert_eq!(parse_command(&vec!["vortex-optim".to_string()]), PluginCommand::InstallVortexOptim);
    assert_eq!(parse_command(&vec!["x".to_string()]), PluginCommand::Unknown("x".to_string()));
    assert_eq!(parse_command(&vec!["uninstall".to_string(), "x".to_string()]), PluginCommand::Uninstall("x".to_string()));
    assert_eq!(parse_command(&vec!["remove".to_string(), "x".to_string()]), PluginCommand::Usage);
    assert_eq!(parse_command(&vec!["a".to_string(), "b".to_string(), "c".to_string()]), PluginCommand::Usage);
}

#[test]
fn listing() {
    let sorted = installed_plugins(vec!["vortex-optim".to_string(), "fps-unlocker".to_string()]);
    assert_eq!(sorted, vec!["fps-unlocker".to_string(), "vortex-optim".to_string()]);
    let mut st = state(&["fps-unlocker", "other"]);
    st.fps_layer_json = false;
    assert_eq!(list_entries(&st), vec![("fps-unlocker".to_string(), false), ("other".to_string(), false)]);
}

#[test]
fn compiler_args() {
    assert_eq!(fps_unlocker_cc_args("l.so", "l.c").len(), 10);
    assert_eq!(vortex_optim_cc_args("b", "o.c"), vec!["-O2", "-std=c11", "-Wall", "-Wextra", "-o", "b", "o.c"].into_iter().map(String::from).collect::<Vec<_>>());
}

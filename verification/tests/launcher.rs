use tempest::config::{AuthConfig, Config, LauncherConfig, PathConfig, WineConfig};
use tempest::launcher::{
    build_wine_command, exit_outcome, game_label, gamemode_enabled, is_noise, perf_summary,
    receiver_action, receiver_command, receiver_path, shader_cache_dir_in, shows_line,
    ExitOutcome, ReceiverAction,
};

fn config(esync: bool, fsync: bool, gamemode: bool, cache: bool) -> Config {
    Config {
        auth: AuthConfig { session_token: None, username: None },
        paths: PathConfig {
            wine_prefix: "/p".to_string(),
            vortex_exe: "/d/Vortex.exe".to_string(),
            log_file: "/d/tempest.log".to_string(),
        },
        wine: WineConfig { binary: "wine".to_string(), env: vec![("DXVK_HUD".to_string(), "fps".to_string())] },
        launcher: LauncherConfig {
            filter_wine_noise: true,
            auto_update: true,
            use_esync: esync,
            use_fsync: fsync,
            use_gamemode: gamemode,
            shader_cache: cache,
        },
    }
}

#[test]
fn perf_text() {
    assert_eq!(perf_summary(&config(true, true, false, true), true), "fsync gamemode shader-cache");
    assert_eq!(perf_summary(&config(true, false, false, false), false), "esync");
    assert_eq!(perf_summary(&config(false, false, false, false), false), "none");
    assert_eq!(perf_summary(&config(false, false, false, true), false), "shader-cache");
}

#[test]
fn noise_lines() {
    assert!(is_noise("0024:fixme:ntdll:NtQuerySystemInformation"));
    assert!(is_noise("libEGL warning: DRI2"));
    assert!(is_noise("x DwmSetWindowAttribute y"));
    assert!(!is_noise("Game started"));
    assert!(shows_line(false, "fixme: x"));
    assert!(!shows_line(true, "fixme: x"));
    assert!(shows_line(true, "ok"));
}

#[test]
fn wine_command() {
    let c = build_wine_command(&config(true, true, true, true), "vortex://play?game=1&token=t", false, "/c/vortex-shaders");
    assert_eq!(c.program, "wine");
    assert_eq!(c.args, vec!["/d/Vortex.exe".to_string(), "vortex://play?game=1&token=t".to_string()]);
    let keys: Vec<&str> = c.env.iter().map(|(k, _)| k.as_str()).collect();
    assert_eq!(keys, vec!["WINEPREFIX", "WGPU_BACKEND", "WINEESYNC", "WINEFSYNC", "VKD3D_SHADER_CACHE_PATH", "DXVK_HUD"]);
    assert_eq!(c.env[4].1, "/c/vortex-shaders");
    let g = build_wine_command(&config(false, false, true, false), "u", true, "/c");
    assert_eq!(g.program, "gamemoderun");
    assert_eq!(g.args, vec!["wine".to_string(), "/d/Vortex.exe".to_string(), "u".to_string()]);
    assert_eq!(g.env.len(), 3);
}

#[test]
fn shader_cache_location() {
    assert_eq!(shader_cache_dir_in(Some("/home/u/.cache".to_string()), "/home/u"), "/home/u/.cache/vortex-shaders");
    assert_eq!(shader_cache_dir_in(None, "/home/u"), "/home/u/.cache/vortex-shaders");
    assert_eq!(shader_cache_dir_in(None, ""), "/.cache/vortex-shaders");
}

#[test]
fn gamemode_choice() {
    assert!(gamemode_enabled(&config(false, false, true, false), true));
    assert!(!gamemode_enabled(&config(false, false, true, false), false));
    assert!(!gamemode_enabled(&config(false, false, false, false), true));
}

#[test]
fn labels_and_receiver() {
    assert_eq!(game_label("vortex://play?game=17&token=x"), "17");
    assert_eq!(game_label("garbage"), "?");
    let c = config(false, false, false, false);
    assert_eq!(receiver_path(&c), "/d/receiver.exe");
    let mut rel = config(false, false, false, false);
    rel.paths.vortex_exe = "Vortex.exe".to_string();
    assert_eq!(receiver_path(&rel), "receiver.exe");
    let cmd = receiver_command(&c, "/d/receiver.exe");
    assert_eq!(cmd.program, "wine");
    assert_eq!(cmd.args, vec!["/d/receiver.exe".to_string()]);
    assert_eq!(cmd.env[1], ("WINEDEBUG".to_string(), "-all".to_string()));
    assert_eq!(receiver_action(false, true), ReceiverAction::Missing);
    assert_eq!(receiver_action(true, true), ReceiverAction::AlreadyRunning);
    assert_eq!(receiver_action(true, false), ReceiverAction::Start);
}

#[test]
fn exit_outcomes() {
    assert_eq!(exit_outcome(Some(0)), ExitOutcome::Clean);
    assert_eq!(exit_outcome(Some(53)), ExitOutcome::Failed(53));
    assert_eq!(exit_outcome(None), ExitOutcome::Signalled);
}

use tempest::error::TempestError;
use tempest::setup::dll::{
    backup_path, install_check, install_dlls_from, set_dll_override, verify_dll, DllProbe,
};
use tempest::setup::{
    detect_distro, distro_commands, effective_command, gamemode_command, install_commands, is_yes,
    preview_commands, select_release_asset, wineboot_command, winetricks_command, Distro,
    ReleaseAsset, ReleaseInfo,
};
use tempest::setup::steps::{next_setup_step, SetupStep};
use tempest::setup::{dxvk, vkd3d};

#[test]
fn distro_detection() {
    assert_eq!(detect_distro("NAME=Fedora\nID=fedora\nVERSION_ID=39\n"), Distro::Fedora);
    assert_eq!(detect_distro("ID=centos\n"), Distro::Fedora);
    assert_eq!(detect_distro("ID=ubuntu\nID_LIKE=debian\n"), Distro::Debian);
    assert_eq!(detect_distro("ID=linuxmint\nID_LIKE=\"ubuntu debian\"\n"), Distro::Debian);
    assert_eq!(detect_distro("ID=manjaro\nID_LIKE=arch\n"), Distro::Arch);
    assert_eq!(
        detect_distro("ID=\"opensuse-tumbleweed\"\nID_LIKE=\"opensuse suse\"\n"),
        Distro::OpenSuse
    );
    assert_eq!(detect_distro("ID=Gentoo\n"), Distro::Unknown("gentoo".to_string()));
    assert_eq!(detect_distro(""), Distro::Unknown(String::new()));
    assert_eq!(detect_distro("ID_LIKE=fedora\nID=nobara\n"), Distro::Fedora);
}

#[test]
fn distro_labels() {
    assert_eq!(Distro::Fedora.label(), "Fedora/RHEL");
    assert_eq!(Distro::Arch.label(), "Arch Linux");
    assert_eq!(Distro::Unknown("void".to_string()).label(), "Unknown (void)");
}

#[test]
fn distro_command_tables() {
    let d = distro_commands(&Distro::Debian);
    assert_eq!(d.update, "sudo apt update && sudo apt upgrade");
    assert_eq!(d.wine_packages, "sudo apt install wine64 wine32");
    assert_eq!(d.extra_setup.as_deref(), Some("sudo dpkg --add-architecture i386 && sudo apt update"));
    assert!(d.winetricks_manual);
    let f = distro_commands(&Distro::Fedora);
    assert_eq!(f.update, "sudo dnf upgrade --refresh");
    assert!(f.extra_setup.is_none());
    assert!(!f.winetricks_manual);
    assert_eq!(install_commands(&Distro::Debian).len(), 5);
    assert_eq!(
        preview_commands(&Distro::Arch),
        vec!["sudo pacman -Syu".to_string(), "sudo pacman -S wine winetricks".to_string()]
    );
    assert_eq!(gamemode_command(&Distro::OpenSuse).as_deref(), Some("sudo zypper install gamemode"));
    assert_eq!(gamemode_command(&Distro::Unknown("x".to_string())), None);
}

#[test]
fn commands_for_root() {
    assert_eq!(effective_command("sudo pacman -Syu", true), "pacman -Syu");
    assert_eq!(effective_command("sudo pacman -Syu", false), "sudo pacman -Syu");
    assert_eq!(
        wineboot_command("/p x"),
        "WINEPREFIX=\"/p x\" WINEDEBUG=-all wine wineboot --init"
    );
    assert_eq!(
        winetricks_command("/p"),
        "WINEPREFIX=\"/p\" WINEDEBUG=-all winetricks -q d3dcompiler_47 vcrun2022 corefonts"
    );
}

#[test]
fn yes_answers() {
    assert!(is_yes("y\n"));
    assert!(is_yes("  YES "));
    assert!(is_yes("Yes"));
    assert!(!is_yes("n"));
    assert!(!is_yes(""));
    assert!(!is_yes("yep"));
}

fn asset(name: Option<&str>, url: Option<&str>) -> ReleaseAsset {
    ReleaseAsset { name: name.map(|s| s.to_string()), download_url: url.map(|s| s.to_string()) }
}

#[test]
fn release_selection() {
    let info = ReleaseInfo {
        tag_name: Some("v2.3".to_string()),
        assets: Some(vec![
            asset(Some("dxvk-2.3.tar.gz.sig"), Some("u0")),
            asset(Some("dxvk-2.3.tar.gz"), None),
            asset(None, Some("u1")),
            asset(Some("dxvk-2.3.tar.gz"), Some("u2")),
        ]),
    };
    assert_eq!(select_release_asset(&info, ".tar.gz"), Ok(("v2.3".to_string(), "u2".to_string())));
    assert_eq!(
        select_release_asset(&info, ".zip"),
        Err(TempestError::Other("No asset with suffix '.zip' in release v2.3".to_string()))
    );
    let no_tag = ReleaseInfo { tag_name: None, assets: Some(vec![]) };
    assert_eq!(
        select_release_asset(&no_tag, ".zip"),
        Err(TempestError::Other("No tag_name in GitHub release".to_string()))
    );
    let no_assets = ReleaseInfo { tag_name: Some("t".to_string()), assets: None };
    assert_eq!(
        select_release_asset(&no_assets, ".zip"),
        Err(TempestError::Other("No assets in GitHub release".to_string()))
    );
}

#[test]
fn dll_validity() {
    let pe = DllProbe { exists: true, file_output: Some("x: PE32+ executable (DLL)".to_string()), magic: None };
    assert!(verify_dll(&pe));
    let dos = DllProbe { exists: true, file_output: Some("MS-DOS executable".to_string()), magic: None };
    assert!(verify_dll(&dos));
    let text = DllProbe { exists: true, file_output: Some("ASCII text".to_string()), magic: Some((0x4D, 0x5A)) };
    assert!(!verify_dll(&text));
    let mz = DllProbe { exists: true, file_output: None, magic: Some((0x4D, 0x5A)) };
    assert!(verify_dll(&mz));
    let other = DllProbe { exists: true, file_output: None, magic: Some((0x7F, 0x45)) };
    assert!(!verify_dll(&other));
    let missing = DllProbe { exists: false, file_output: Some("PE32".to_string()), magic: None };
    assert!(!verify_dll(&missing));
    assert!(dxvk::is_installed(&pe));
    assert!(!vkd3d::is_installed(&missing));
}

#[test]
fn dll_paths_and_plans() {
    assert_eq!(backup_path("/p/drive_c/windows/system32/dxgi.dll"), "/p/drive_c/windows/system32/dxgi.dll.bak");
    let plan = install_dlls_from(true, "/r/x64", "/p/sys", &vec!["a.dll", "b.dll"]);
    assert_eq!(plan.len(), 2);
    assert_eq!(plan[1].src, "/r/x64/b.dll");
    assert_eq!(plan[1].dest, "/p/sys/b.dll");
    assert!(install_dlls_from(false, "/r", "/p", &vec!["a.dll"]).is_empty());
    let d = dxvk::install_arch_dlls(true, "/r/x64", "/p/s");
    assert_eq!(d.len(), 5);
    assert_eq!(d[4].dest, "/p/s/dxgi.dll");
    let v = vkd3d::install_arch_dlls(true, "/r/x86", "/p/w");
    assert_eq!(v.iter().map(|c| c.src.clone()).collect::<Vec<_>>(), vec!["/r/x86/d3d12.dll".to_string(), "/r/x86/d3d12core.dll".to_string()]);
    assert_eq!(dxvk::marker_dll("/p"), "/p/drive_c/windows/system32/dxgi.dll");
    assert_eq!(vkd3d::marker_dll("/p"), "/p/drive_c/windows/system32/d3d12.dll");
    let t = vkd3d::arch_targets("/e/v", "/p");
    assert_eq!(t[1], ("/e/v/x86".to_string(), "/p/drive_c/windows/syswow64".to_string()));
    let t = dxvk::arch_targets("/e/d", "/p");
    assert_eq!(t[1], ("/e/d/x32".to_string(), "/p/drive_c/windows/syswow64".to_string()));
    assert_eq!(vkd3d::overrides(), vec![("d3d12", "native"), ("d3d12core", "native")]);
    assert_eq!(dxvk::overrides().len(), 5);
    assert_eq!(dxvk::release_repo(), "doitsujin/dxvk");
    assert_eq!(vkd3d::release_asset_suffix(), ".tar.zst");
}

#[test]
fn dll_install_checks() {
    assert_eq!(
        install_check(false, "/s/x.dll", true, true),
        Err(TempestError::Other("/s/x.dll does not appear to be a valid PE binary".to_string()))
    );
    assert_eq!(install_check(true, "/s", true, false), Ok(true));
    assert_eq!(install_check(true, "/s", false, false), Ok(false));
    assert_eq!(install_check(true, "/s", true, true), Ok(false));
}

#[test]
fn dll_override_command() {
    let c = set_dll_override("/pfx", "d3d11", "native,builtin");
    assert_eq!(c.program, "wine");
    assert_eq!(
        c.args,
        vec!["reg", "add", "HKCU\\Software\\Wine\\DllOverrides", "/v", "d3d11", "/t", "REG_SZ", "/d", "native,builtin", "/f"]
            .into_iter()
            .map(String::from)
            .collect::<Vec<_>>()
    );
    assert_eq!(c.env, vec![("WINEPREFIX".to_string(), "/pfx".to_string()), ("WINEDEBUG".to_string(), "-all".to_string())]);
}

#[test]
fn setup_steps_in_order() {
    let d = Distro::Fedora;
    assert_eq!(next_setup_step(SetupStep::CheckWine, true, &d), SetupStep::CreatePrefix);
    assert_eq!(next_setup_step(SetupStep::CheckWine, false, &d), SetupStep::AskInstallWine);
    assert_eq!(next_setup_step(SetupStep::AskInstallWine, true, &d), SetupStep::InstallWine);
    assert_eq!(next_setup_step(SetupStep::AskInstallWine, false, &d), SetupStep::CreatePrefix);
    assert_eq!(next_setup_step(SetupStep::CheckGameMode, false, &d), SetupStep::AskInstallGameMode);
    assert_eq!(next_setup_step(SetupStep::CheckGameMode, true, &d), SetupStep::InstallDxvk);
    assert_eq!(
        next_setup_step(SetupStep::CheckGameMode, false, &Distro::Unknown("void".to_string())),
        SetupStep::InstallDxvk
    );
    assert_eq!(next_setup_step(SetupStep::InstallDxvk, false, &d), SetupStep::InstallVkd3d);
    assert_eq!(next_setup_step(SetupStep::InstallVkd3d, false, &d), SetupStep::DownloadVortex);
    assert_eq!(next_setup_step(SetupStep::SaveConfig, true, &d), SetupStep::Finished);
    assert_eq!(next_setup_step(SetupStep::Finished, true, &d), SetupStep::Finished);
}

#[test]
fn setup_run_without_installs() {
    let d = Distro::Arch;
    let mut step = SetupStep::CheckWine;
    let mut seen = vec![step];
    while step != SetupStep::Finished {
        step = next_setup_step(step, step == SetupStep::CheckWine || step == SetupStep::CheckGameMode, &d);
        seen.push(step);
    }
    assert_eq!(
        seen,
        vec![
            SetupStep::CheckWine,
            SetupStep::CreatePrefix,
            SetupStep::InstallComponents,
            SetupStep::CheckGameMode,
            SetupStep::InstallDxvk,
            SetupStep::InstallVkd3d,
            SetupStep::DownloadVortex,
            SetupStep::RegisterUri,
            SetupStep::RunDoctor,
            SetupStep::SaveConfig,
            SetupStep::Finished,
        ]
    );
}

use tempest::doctor::{
    evaluate, extract_gpu, failure_count, gamemode_install_cmd, gpu_count, gpu_driver_fix,
    is_software_renderer, nvidia_fix, vulkan_fix, wine_install_cmd, winetricks_fix, Check,
    DoctorFacts,
};
use tempest::setup::Distro;

const TWO_GPUS: &str = "Devices:\n========\nGPU0:\n\tapiVersion         = 1.3.255\n\tdeviceType         = PHYSICAL_DEVICE_TYPE_INTEGRATED_GPU\n\tdeviceName         = Intel(R) UHD Graphics 620\nGPU1:\n\tdeviceType         = PHYSICAL_DEVICE_TYPE_CPU\n\tdeviceName         = llvmpipe (LLVM 15.0.7, 256 bits)\n";

#[test]
fn gpu_first_hardware_block() {
    assert_eq!(extract_gpu(TWO_GPUS), Some("Intel(R) UHD Graphics 620".to_string()));
    assert_eq!(gpu_count(TWO_GPUS), 2);
}

#[test]
fn gpu_last_block() {
    let s = "GPU0:\n  deviceType = PHYSICAL_DEVICE_TYPE_CPU\n  deviceName = llvmpipe\nGPU1:\n  deviceType = PHYSICAL_DEVICE_TYPE_DISCRETE_GPU\n  deviceName = AMD Radeon RX 6600\n";
    assert_eq!(extract_gpu(s), Some("AMD Radeon RX 6600".to_string()));
}

#[test]
fn gpu_software_only_falls_back() {
    let s = "GPU0:\n  deviceType = PHYSICAL_DEVICE_TYPE_CPU\n  deviceName = llvmpipe (LLVM)\n";
    assert_eq!(extract_gpu(s), Some("llvmpipe (LLVM)".to_string()));
    assert!(is_software_renderer("LLVMpipe (LLVM)"));
    assert!(is_software_renderer("softpipe"));
    assert!(!is_software_renderer("NVIDIA GeForce"));
}

#[test]
fn gpu_none() {
    assert_eq!(extract_gpu("no devices here\n"), None);
    assert_eq!(extract_gpu(""), None);
    assert_eq!(gpu_count(""), 0);
    assert_eq!(extract_gpu("deviceName = Lone\n"), Some("Lone".to_string()));
}

#[test]
fn fix_tables() {
    assert_eq!(wine_install_cmd(&Distro::Debian), "sudo apt install wine64 wine32 winetricks");
    assert_eq!(winetricks_fix(&Distro::Arch), "sudo pacman -S winetricks");
    assert!(winetricks_fix(&Distro::Debian).starts_with("curl -L"));
    assert_eq!(vulkan_fix(&Distro::OpenSuse), "sudo zypper install vulkan-tools");
    assert_eq!(gpu_driver_fix(&Distro::Arch), "Install your GPU's Vulkan driver");
    assert_eq!(gamemode_install_cmd(&Distro::Unknown("x".into())), "Install gamemode via your package manager");
    assert_eq!(nvidia_fix(&Distro::Fedora), "sudo dnf install nvidia-driver-libs");
}

fn healthy() -> DoctorFacts {
    DoctorFacts {
        distro: Distro::Fedora,
        wine_path: Some("/usr/bin/wine".to_string()),
        wine_version_output: Some("wine-9.0\n".to_string()),
        prefix_display: "/home/u/.local/share/tempest/prefix".to_string(),
        prefix_initialised: true,
        prefix_dir_exists: true,
        vortex_exe_size: Some("12.3 MB".to_string()),
        receiver_display: "/home/u/.local/share/tempest/receiver.exe".to_string(),
        receiver_found: true,
        vulkaninfo_output: Some(TWO_GPUS.to_string()),
        nvidia_present: false,
        nvidia_icd_found: false,
        uri_handler_output: Some("tempest-vortex.desktop\n".to_string()),
        winetricks_path: Some("/usr/bin/winetricks".to_string()),
        session_token_stored: true,
        network_reachable: true,
        gamemode_found: true,
        use_gamemode: true,
        dxvk_valid: true,
        vkd3d_valid: true,
    }
}

#[test]
fn all_checks_pass() {
    let checks = evaluate(&healthy());
    assert_eq!(checks.len(), 13);
    assert_eq!(failure_count(&checks), 0);
    assert_eq!(checks[0].detail, "/usr/bin/wine (wine-9.0)");
    assert_eq!(checks[3].name, "receiver.exe exists");
    assert_eq!(checks[3].detail, "/home/u/.local/share/tempest/receiver.exe");
    assert_eq!(checks[4].detail, "2 device(s) found");
    assert_eq!(checks[5].name, "GPU detected");
    assert_eq!(checks[5].detail, "Intel(R) UHD Graphics 620");
    assert_eq!(checks[6].detail, "tempest-vortex.desktop");
    assert_eq!(checks[10].detail, "enabled");
}

#[test]
fn failures_reported() {
    let mut f = healthy();
    f.distro = Distro::Arch;
    f.wine_path = None;
    f.prefix_initialised = false;
    f.vulkaninfo_output = Some("GPU0:\n deviceName = llvmpipe\n".to_string());
    f.nvidia_present = true;
    f.uri_handler_output = Some("firefox.desktop".to_string());
    f.session_token_stored = false;
    f.gamemode_found = false;
    f.dxvk_valid = false;
    let checks = evaluate(&f);
    assert_eq!(checks.len(), 14);
    assert_eq!(failure_count(&checks), 8);
    assert_eq!(checks[0].fix.as_deref(), Some("sudo pacman -S wine winetricks"));
    assert_eq!(checks[1].detail, "directory exists but not initialised (wineboot not run)");
    assert_eq!(checks[5].detail, "llvmpipe (software renderer)");
    assert_eq!(checks[6].name, "NVIDIA Vulkan ICD");
    assert_eq!(checks[7].detail, "wrong handler: firefox.desktop");
    assert_eq!(checks[12].detail, "dxgi.dll not found or invalid");
}

#[test]
fn missing_tools_reported() {
    let mut f = healthy();
    f.wine_version_output = None;
    f.prefix_initialised = false;
    f.prefix_dir_exists = false;
    f.vortex_exe_size = None;
    f.vulkaninfo_output = None;
    f.uri_handler_output = None;
    f.gamemode_found = true;
    f.use_gamemode = false;
    f.network_reachable = false;
    let checks = evaluate(&f);
    assert_eq!(checks.len(), 13);
    assert_eq!(checks[0].detail, "/usr/bin/wine (unknown)");
    assert_eq!(checks[1].detail, "/home/u/.local/share/tempest/prefix");
    assert_eq!(checks[2].fix.as_deref(), Some("Run: tempest update"));
    assert_eq!(checks[4].detail, "vulkaninfo failed");
    assert_eq!(checks[5].name, "GPU detected");
    assert!(!checks[5].passed);
    assert_eq!(checks[5].detail, "no Vulkan device found");
    assert_eq!(checks[5].fix.as_deref(), Some("Install GPU drivers: sudo dnf install mesa-dri-drivers"));
    assert_eq!(checks[6].detail, "xdg-mime not found");
    assert_eq!(checks[9].detail, "vortex.towerstats.com:443 unreachable");
    assert_eq!(checks[10].detail, "installed (set use_gamemode=true to enable)");
    assert_eq!(failure_count(&checks), 6);
}

#[test]
fn empty_uri_handler() {
    let mut f = healthy();
    f.uri_handler_output = Some("  \n".to_string());
    let checks = evaluate(&f);
    assert_eq!(checks[6].detail, "not registered");
    assert!(!checks[6].passed);
}

#[test]
fn missing_receiver_reported() {
    let mut f = healthy();
    f.receiver_found = false;
    let checks = evaluate(&f);
    assert_eq!(checks.len(), 13);
    assert_eq!(checks[3].name, "receiver.exe exists");
    assert!(!checks[3].passed);
    assert_eq!(
        checks[3].detail,
        "not found at /home/u/.local/share/tempest/receiver.exe (in-game notifications may not work)"
    );
    assert_eq!(checks[3].fix.as_deref(), Some("Place receiver.exe beside Vortex.exe"));
    assert_eq!(failure_count(&checks), 1);
}

#[test]
fn hint_for_root() {
    let c = Check::fail("X", "d".to_string(), "sudo apt install a && sudo b".to_string());
    assert_eq!(c.hint(true).as_deref(), Some("apt install a && b"));
    assert_eq!(c.hint(false).as_deref(), Some("sudo apt install a && sudo b"));
    assert_eq!(Check::pass("X", "d".to_string()).hint(true), None);
}

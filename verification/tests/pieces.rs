use base64::Engine;
use tempest::config::Config;
use tempest::crypto::{encrypt_with_nonce, open_combined};
use tempest::doctor::names_software_renderer;
use tempest::launcher::{detect_gamemode, gamemode_program, receiver_path_in};
use tempest::setup::{classify_distro, is_yes_word, Distro};
use tempest::updater::is_client_name;

#[test]
fn classify_from_fields() {
    assert_eq!(classify_distro(&"rhel".to_string(), &"".to_string()), Distro::Fedora);
    assert_eq!(classify_distro(&"pop".to_string(), &"ubuntu debian".to_string()), Distro::Debian);
    assert_eq!(classify_distro(&"endeavouros".to_string(), &"arch".to_string()), Distro::Arch);
    assert_eq!(classify_distro(&"sles".to_string(), &"suse".to_string()), Distro::OpenSuse);
    assert_eq!(classify_distro(&"nixos".to_string(), &"".to_string()), Distro::Unknown("nixos".to_string()));
    assert_eq!(classify_distro(&"Fedora".to_string(), &"".to_string()), Distro::Unknown("Fedora".to_string()));
}

#[test]
fn yes_words() {
    assert!(is_yes_word(&"y".to_string()));
    assert!(is_yes_word(&"yes".to_string()));
    assert!(!is_yes_word(&"YES".to_string()));
    assert!(!is_yes_word(&" y".to_string()));
}

#[test]
fn lower_case_names() {
    assert!(names_software_renderer(&"llvmpipe (llvm 15)".to_string()));
    assert!(!names_software_renderer(&"LLVMPIPE".to_string()));
    assert!(is_client_name(&"vortex/vortex.exe".to_string()));
    assert!(!is_client_name(&"Vortex.exe".to_string()));
}

#[test]
fn receiver_beside_client() {
    assert_eq!(receiver_path_in(Some("/games".to_string())), "/games/receiver.exe");
    assert_eq!(receiver_path_in(Some("".to_string())), "receiver.exe");
    assert_eq!(receiver_path_in(None), "./receiver.exe");
}

#[test]
fn gamemode_off_unless_configured() {
    let mut cfg = Config::default();
    cfg.launcher.use_gamemode = false;
    assert!(!detect_gamemode(&cfg));
}

#[test]
fn open_decoded_bytes() {
    let key = vec![4u8; 32];
    let nonce = vec![2u8; 12];
    let enc = encrypt_with_nonce(&key, &nonce, "hello");
    let raw = base64::engine::general_purpose::STANDARD.decode(&enc).unwrap();
    assert_eq!(open_combined(&key, &raw), Some("hello".to_string()));
    assert_eq!(open_combined(&key, &raw[..11].to_vec()), None);
    assert_eq!(open_combined(&key, &raw[..12].to_vec()), None);
}

#[test]
fn gamemode_program_name() {
    assert_eq!(gamemode_program(), "gamemoderun");
}

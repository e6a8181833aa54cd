use std::io::Write;
use tempest::error::{IoKind, TempestError};
use tempest::updater::{download_url, extract_exe_from_zip, find_vortex_exe, is_vortex_exe_name};

fn make_zip(entries: &[(&str, &[u8])]) -> Vec<u8> {
    let mut buf = std::io::Cursor::new(Vec::new());
    {
        let mut w = zip::ZipWriter::new(&mut buf);
        let opts = zip::write::SimpleFileOptions::default()
            .compression_method(zip::CompressionMethod::Stored);
        for (name, data) in entries {
            w.start_file(*name, opts).unwrap();
            w.write_all(data).unwrap();
        }
        w.finish().unwrap();
    }
    buf.into_inner()
}

#[test]
fn exe_names() {
    assert!(is_vortex_exe_name("Vortex.exe"));
    assert!(is_vortex_exe_name("build/VORTEX-1.2.EXE"));
    assert!(!is_vortex_exe_name("game.exe"));
    assert!(!is_vortex_exe_name("vortex.txt"));
    assert_eq!(
        find_vortex_exe(&vec![None, Some("a.exe".to_string()), Some("Vortex.exe".to_string()), Some("vortex2.exe".to_string())]),
        Some(2)
    );
    assert_eq!(find_vortex_exe(&vec![]), None);
}

#[test]
fn extracts_client() {
    let z = make_zip(&[("readme.txt", b"hi"), ("Vortex/Vortex.exe", b"MZ-binary")]);
    let (name, data) = extract_exe_from_zip(&z).unwrap();
    assert_eq!(name, "Vortex/Vortex.exe");
    assert_eq!(data, b"MZ-binary".to_vec());
}

#[test]
fn zip_without_client() {
    let z = make_zip(&[("readme.txt", b"hi")]);
    assert_eq!(
        extract_exe_from_zip(&z),
        Err(TempestError::IoError(IoKind::NotFound, "No .exe found inside zip".to_string()))
    );
}

#[test]
fn not_a_zip() {
    assert!(matches!(extract_exe_from_zip(&b"garbage".to_vec()), Err(TempestError::IoError(IoKind::Other, _))));
}

#[test]
fn client_url() {
    assert_eq!(download_url(), "https://playvortex.io/download/windows");
}

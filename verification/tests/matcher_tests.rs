use chunkvault_updater::matcher::install_suffix;
use chunkvault_updater::matcher::update_suffixes;

#[test]
fn update_suffixes_windows() {
    let (a, s) = update_suffixes("windows", "x64");
    assert_eq!(a, ".nsis.zip");
    assert_eq!(s, ".nsis.zip.sig");
}

#[test]
fn update_suffixes_mac_aliases() {
    for t in ["mac", "macos", "darwin"] {
        let (a, s) = update_suffixes(t, "aarch64");
        assert_eq!(a, ".app.tar.gz");
        assert_eq!(s, ".app.tar.gz.sig");
    }
}

#[test]
fn update_suffixes_linux() {
    let (a, s) = update_suffixes("linux", "x64");
    assert_eq!(a, ".AppImage.tar.gz");
    assert_eq!(s, ".AppImage.tar.gz.sig");
}

#[test]
fn update_suffixes_case_insensitive() {
    for t in ["WINDOWS", "Windows", "wInDoWs"] {
        let (a, s) = update_suffixes(t, "x64");
        assert_eq!(a, ".nsis.zip");
        assert_eq!(s, ".nsis.zip.sig");
    }
    let (a, _) = update_suffixes("MACOS", "x64");
    assert_eq!(a, ".app.tar.gz");
    let (a, _) = update_suffixes("Linux", "x64");
    assert_eq!(a, ".AppImage.tar.gz");
}

#[test]
fn update_suffixes_nonempty_for_supported() {
    for t in ["mac", "macos", "darwin", "linux", "windows", "MAC", "LINUX", "WINDOWS"] {
        let (a, s) = update_suffixes(t, "x64");
        assert!(!a.is_empty());
        assert!(!s.is_empty());
        assert!(!install_suffix(t, "x64").is_empty());
    }
}

#[test]
fn update_suffixes_empty_for_unknown() {
    for t in ["freebsd", "", "win", "mac os", "linux2"] {
        let (a, s) = update_suffixes(t, "x64");
        assert!(a.is_empty());
        assert!(s.is_empty());
        assert!(install_suffix(t, "x64").is_empty());
    }
}

#[test]
fn install_suffix_per_platform() {
    assert_eq!(install_suffix("mac", "x64"), ".dmg");
    assert_eq!(install_suffix("macos", "x64"), ".dmg");
    assert_eq!(install_suffix("darwin", "x64"), ".dmg");
    assert_eq!(install_suffix("linux", "x64"), ".AppImage");
    assert_eq!(install_suffix("windows", "x64"), "-setup.exe");
}

#[test]
fn install_suffix_case_insensitive() {
    assert_eq!(install_suffix("Darwin", "x64"), ".dmg");
    assert_eq!(install_suffix("LINUX", "arm"), ".AppImage");
    assert_eq!(install_suffix("WiNdOwS", "x86"), "-setup.exe");
}

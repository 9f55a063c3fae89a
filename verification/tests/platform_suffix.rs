use shopware_lsp_resolver::platform::{asset_suffix_for_platform, Architecture, Os};

#[test]
fn mac_x86_64_suffix() {
    assert_eq!(
        asset_suffix_for_platform(Os::Mac, Architecture::X8664),
        Some("darwin_amd64.zip")
    );
}

#[test]
fn mac_arm64_suffix() {
    assert_eq!(
        asset_suffix_for_platform(Os::Mac, Architecture::Aarch64),
        Some("darwin_arm64.zip")
    );
}

#[test]
fn linux_x86_64_suffix() {
    assert_eq!(
        asset_suffix_for_platform(Os::Linux, Architecture::X8664),
        Some("linux_amd64.zip")
    );
}

#[test]
fn linux_arm64_suffix() {
    assert_eq!(
        asset_suffix_for_platform(Os::Linux, Architecture::Aarch64),
        Some("linux_arm64.zip")
    );
}

#[test]
fn unsupported_pairs_have_no_suffix() {
    assert_eq!(asset_suffix_for_platform(Os::Windows, Architecture::X8664), None);
    assert_eq!(asset_suffix_for_platform(Os::Windows, Architecture::Aarch64), None);
    assert_eq!(asset_suffix_for_platform(Os::Windows, Architecture::X86), None);
    assert_eq!(asset_suffix_for_platform(Os::Mac, Architecture::X86), None);
    assert_eq!(asset_suffix_for_platform(Os::Linux, Architecture::X86), None);
}

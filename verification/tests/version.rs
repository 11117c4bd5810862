use hd_keys::version::{get_slip132_prefixes, has_version, version_bytes, version_label, version_tag, VersionTag};

#[test]
fn version_bytes_of_each_tag() {
    assert_eq!(version_bytes(VersionTag::MainnetBip44Public), [4, 136, 178, 30]);
    assert_eq!(version_bytes(VersionTag::MainnetBip84Public), [4, 178, 71, 70]);
}

#[test]
fn version_labels() {
    assert_eq!(version_label(VersionTag::MainnetBip44Public), "xpub");
    assert_eq!(version_label(VersionTag::MainnetBip84Public), "zpub");
}

#[test]
fn slip132_table_has_both_rows() {
    let table = get_slip132_prefixes();
    assert_eq!(
        table,
        vec![
            ("xpub", VersionTag::MainnetBip44Public, [4, 136, 178, 30]),
            ("zpub", VersionTag::MainnetBip84Public, [4, 178, 71, 70]),
        ]
    );
}

#[test]
fn version_tag_is_the_way_back() {
    for (_, tag, prefix) in get_slip132_prefixes() {
        assert_eq!(version_tag(&prefix), Some(tag));
        assert_eq!(version_tag(&version_bytes(tag)), Some(tag));
        assert!(has_version(&prefix, tag));
    }
}

#[test]
fn version_tag_of_unknown_or_short_prefix() {
    assert_eq!(version_tag(&[0x04, 0x9d, 0x7c, 0xb2]), None);
    assert_eq!(version_tag(&[0x04, 0x88, 0xad, 0xe4]), None);
    assert_eq!(version_tag(&[0x04, 0x88, 0xb2]), None);
    assert_eq!(version_tag(&[]), None);
    assert!(!has_version(&[0x04, 0x88, 0xb2], VersionTag::MainnetBip44Public));
}

#[test]
fn version_tag_reads_only_the_first_four_bytes() {
    assert_eq!(version_tag(&[4, 178, 71, 70, 9, 9, 9]), Some(VersionTag::MainnetBip84Public));
    assert!(!has_version(&[4, 178, 71, 70, 9], VersionTag::MainnetBip44Public));
}

#[test]
fn prefixes_are_distinct() {
    assert_ne!(
        version_bytes(VersionTag::MainnetBip44Public),
        version_bytes(VersionTag::MainnetBip84Public)
    );
}

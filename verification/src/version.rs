use vstd::prelude::*;

verus! {

/// The kinds of extended key that the registry knows, each bound to one
/// four-byte version prefix.
#[derive(Clone, Copy, Debug, PartialEq, Eq, Structural)]
pub enum VersionTag {
    /// Extended public key, mainnet, BIP-44 style: the generic form (`xpub`)
    /// that derivation takes.
    MainnetBip44Public,
    /// Extended public key, mainnet, BIP-84 style: the display form (`zpub`)
    /// of a native-segwit account.
    MainnetBip84Public,
}

impl VersionTag {
    /// The version prefix bound to this tag.
    pub open spec fn prefix(self) -> Seq<u8> {
        match self {
            VersionTag::MainnetBip44Public => seq![0x04u8, 0x88u8, 0xb2u8, 0x1eu8],
            VersionTag::MainnetBip84Public => seq![0x04u8, 0xb2u8, 0x47u8, 0x46u8],
        }
    }

    /// The short name under which wallets show keys of this kind.
    pub open spec fn label(self) -> Seq<char> {
        match self {
            VersionTag::MainnetBip44Public => "xpub"@,
            VersionTag::MainnetBip84Public => "zpub"@,
        }
    }
}

/// The tag bound to `prefix`, if any.
pub open spec fn tag_of(prefix: Seq<u8>) -> Option<VersionTag> {
    if prefix == VersionTag::MainnetBip44Public.prefix() {
        Some(VersionTag::MainnetBip44Public)
    } else if prefix == VersionTag::MainnetBip84Public.prefix() {
        Some(VersionTag::MainnetBip84Public)
    } else {
        None
    }
}

/// The whole registry: every tag once, with its label and prefix.
pub open spec fn registry() -> Seq<(Seq<char>, VersionTag, Seq<u8>)> {
    seq![
        (
            VersionTag::MainnetBip44Public.label(),
            VersionTag::MainnetBip44Public,
            VersionTag::MainnetBip44Public.prefix(),
        ),
        (
            VersionTag::MainnetBip84Public.label(),
            VersionTag::MainnetBip84Public,
            VersionTag::MainnetBip84Public.prefix(),
        ),
    ]
}

/// The version prefix of `tag`. Total: every tag has one.
pub fn version_bytes(tag: VersionTag) -> (prefix: [u8; 4])
    ensures
        prefix@ == tag.prefix(),
{
    let prefix: [u8; 4] = match tag {
        VersionTag::MainnetBip44Public => [0x04, 0x88, 0xb2, 0x1e],
        VersionTag::MainnetBip84Public => [0x04, 0xb2, 0x47, 0x46],
    };
    assert(prefix@ =~= tag.prefix());
    prefix
}

/// Whether `bytes` opens with the version prefix of `tag`.
pub fn has_version(bytes: &[u8], tag: VersionTag) -> (yes: bool)
    ensures
        yes == (bytes@.len() >= 4 && bytes@.subrange(0, 4) == tag.prefix()),
{
    if bytes.len() < 4 {
        return false;
    }
    let prefix = version_bytes(tag);
    let yes = bytes[0] == prefix[0] && bytes[1] == prefix[1] && bytes[2] == prefix[2] && bytes[3]
        == prefix[3];
    proof {
        let head = bytes@.subrange(0, 4);
        assert(head.len() == 4);
        assert(head[0] == bytes@[0] && head[1] == bytes@[1] && head[2] == bytes@[2] && head[3]
            == bytes@[3]);
        if yes {
            assert(head =~= tag.prefix());
        }
    }
    yes
}

/// The tag whose prefix opens `bytes`: the way back from prefix to tag.
/// `None` where fewer than four bytes are given or no tag has that prefix.
pub fn version_tag(bytes: &[u8]) -> (tag: Option<VersionTag>)
    ensures
        tag == if bytes@.len() >= 4 {
            tag_of(bytes@.subrange(0, 4))
        } else {
            None
        },
{
    if has_version(bytes, VersionTag::MainnetBip44Public) {
        Some(VersionTag::MainnetBip44Public)
    } else if has_version(bytes, VersionTag::MainnetBip84Public) {
        Some(VersionTag::MainnetBip84Public)
    } else {
        None
    }
}

/// The label of `tag`: `xpub` or `zpub`.
pub fn version_label(tag: VersionTag) -> (label: &'static str)
    ensures
        label@ == tag.label(),
{
    match tag {
        VersionTag::MainnetBip44Public => "xpub",
        VersionTag::MainnetBip84Public => "zpub",
    }
}

/// The table of SLIP-132 version prefixes: one row for each tag, holding its
/// label, the tag and its four bytes.
pub fn get_slip132_prefixes() -> (table: Vec<(&'static str, VersionTag, [u8; 4])>)
    ensures
        table@.len() == registry().len(),
        forall|i: int|
            0 <= i < table@.len() ==> {
                &&& (#[trigger] table@[i]).0@ == registry()[i].0
                &&& table@[i].1 == registry()[i].1
                &&& table@[i].2@ == registry()[i].2
            },
{
    let mut table: Vec<(&'static str, VersionTag, [u8; 4])> = Vec::new();
    table.push(
        (
            version_label(VersionTag::MainnetBip44Public),
            VersionTag::MainnetBip44Public,
            version_bytes(VersionTag::MainnetBip44Public),
        ),
    );
    table.push(
        (
            version_label(VersionTag::MainnetBip84Public),
            VersionTag::MainnetBip84Public,
            version_bytes(VersionTag::MainnetBip84Public),
        ),
    );
    table
}

/// No two tags share a prefix.
pub proof fn prefix_is_injective(a: VersionTag, b: VersionTag)
    requires
        a.prefix() == b.prefix(),
    ensures
        a == b,
{
    if a != b {
        assert(a.prefix()[1] != b.prefix()[1]);
    }
}

/// Going from a tag to its prefix and back gives the tag again, and a prefix
/// that has a tag is the prefix of that tag: the mapping is a bijection
/// between the tags and the recognized prefixes.
pub proof fn prefix_round_trip(tag: VersionTag, prefix: Seq<u8>)
    ensures
        tag_of(tag.prefix()) == Some(tag),
        tag_of(prefix) == Some(tag) <==> prefix == tag.prefix(),
{
    assert(VersionTag::MainnetBip44Public.prefix()[1]
        != VersionTag::MainnetBip84Public.prefix()[1]);
}

/// Every tag stands in the registry, once, with its own label and prefix.
pub proof fn registry_is_complete(tag: VersionTag)
    ensures
        exists|i: int|
            0 <= i < registry().len() && (#[trigger] registry()[i]) == (
                tag.label(),
                tag,
                tag.prefix(),
            ),
        forall|i: int, j: int|
            0 <= i < j < registry().len() ==> (#[trigger] registry()[i]).1 != (
            #[trigger] registry()[j]).1,
{
    match tag {
        VersionTag::MainnetBip44Public => {
            assert(registry()[0] == (tag.label(), tag, tag.prefix()));
        },
        VersionTag::MainnetBip84Public => {
            assert(registry()[1] == (tag.label(), tag, tag.prefix()));
        },
    }
}

} // verus!

use vstd::prelude::*;

verus! {

/// The MySQL release this library is built against (8.0.30).
pub const MYSQL_VERSION_ID: i32 = 80030;

/// The revision of the plugin loader interface.
pub const MYSQL_PLUGIN_INTERFACE_VERSION: i32 = 0x010B;

/// The revision of the storage engine (handlerton) interface. Handlertons of
/// different releases are incompatible, so it is derived from the release.
pub const MYSQL_HANDLERTON_INTERFACE_VERSION: i32 = MYSQL_VERSION_ID << 8;

/// The handlerton interface revision is the release identifier shifted left
/// by eight bits, that is the release identifier times 256, with no overflow.
pub proof fn lemma_handlerton_version_derived()
    ensures
        MYSQL_HANDLERTON_INTERFACE_VERSION == MYSQL_VERSION_ID << 8,
        MYSQL_HANDLERTON_INTERFACE_VERSION as int == MYSQL_VERSION_ID as int * 256,
{
    assert((80030i32 << 8i32) == 20487680i32) by (bit_vector);
}

} // verus!

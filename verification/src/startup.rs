//! Decisions taken when the service starts.
use vstd::prelude::*;
use vstd::string::*;

verus! {

/// Whether the module information bundle is resolved on a system of the
/// given Android major version: not on versions before 16; where the
/// version is unknown, it is.
pub fn should_resolve_module_info_bundle(android_major_version: Option<i32>) -> (r: bool)
    ensures
        r == !(android_major_version matches Some(v) && v < 16),
{
    match android_major_version {
        Some(version) => !(version < 16),
        None => true,
    }
}

/// Whether a path ends in `.xml`.
pub open spec fn ends_with_xml(s: Seq<char>) -> bool {
    &&& s.len() >= 4
    &&& s[s.len() - 4] == '.'
    &&& s[s.len() - 3] == 'x'
    &&& s[s.len() - 2] == 'm'
    &&& s[s.len() - 1] == 'l'
}

/// The permission bits given to a file of the service's storage: owner
/// read and write for XML files, owner and group read and write for the
/// others.
pub fn storage_file_mode(path: &str) -> (r: u32)
    ensures
        r == if ends_with_xml(path@) { 0o600u32 } else { 0o660u32 },
{
    let n = path.unicode_len();
    if n >= 4 && path.get_char(n - 4) == '.' && path.get_char(n - 3) == 'x'
        && path.get_char(n - 2) == 'm' && path.get_char(n - 1) == 'l' {
        0o600
    } else {
        0o660
    }
}

/// The user id of the keystore service.
pub const KEYSTORE_UID: u32 = 1017;

/// The group id of the keystore service.
pub const KEYSTORE_GID: u32 = 1017;

/// Whether a peer of the RPC socket may connect: only a local peer running
/// as the keystore user.  `local_peer_uid` is the user id of a local peer,
/// `None` for a peer that is not local.
pub fn rpc_peer_allowed(local_peer_uid: Option<u32>) -> (r: bool)
    ensures
        r == (local_peer_uid == Some(KEYSTORE_UID)),
{
    match local_peer_uid {
        Some(uid) => uid == KEYSTORE_UID,
        None => false,
    }
}

/// The permission bits given to the directories of the service's storage.
pub const STORAGE_DIR_MODE: u32 = 0o770;

/// The permission bits given to the files of the service's data directory.
pub const DATA_FILE_MODE: u32 = 0o600;

/// Whether the value of the `sys.boot_completed` property says that boot
/// has completed: it does when the property is set to `1`.
pub fn boot_completed_from_property(value: Option<&str>) -> (r: bool)
    ensures
        r == (value matches Some(v) && v@ == seq!['1']),
{
    match value {
        Some(v) => {
            let n = v.unicode_len();
            let r = n == 1 && v.get_char(0) == '1';
            assert(r ==> v@ =~= seq!['1']);
            r
        },
        None => false,
    }
}

/// Whether the end of early boot is replayed to the KeyMint devices once
/// boot completes: only where boot had not completed when the service
/// started (otherwise it was replayed at start).
pub fn replay_early_boot_ended_later(boot_completed_at_start: bool) -> (r: bool)
    ensures
        r == !boot_completed_at_start,
{
    !boot_completed_at_start
}

} // verus!

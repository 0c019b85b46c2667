use vstd::prelude::*;

use crate::platform::Platform;

verus! {

/// Where byte `i` of a class ID comes from when the ID is laid out as a Windows GUID: the first
/// four bytes are reversed, and so are the two pairs after them.
pub open spec fn guid_source(i: int) -> int {
    if 0 <= i < 4 {
        3 - i
    } else if 4 <= i < 6 {
        9 - i
    } else if 6 <= i < 8 {
        13 - i
    } else {
        i
    }
}

/// The class ID `uid` in the byte order of `platform`.
pub open spec fn platform_uid(uid: Seq<u8>, platform: Platform) -> Seq<u8> {
    if platform == Platform::Windows {
        Seq::new(uid.len(), |i: int| uid[guid_source(i)])
    } else {
        uid
    }
}

/// Puts a class ID into the byte order of `platform`, so that projects and presets can be shared
/// between platforms.
pub fn swap_vst3_uid_byte_order(uid: [u8; 16], platform: Platform) -> (platform_id: [u8; 16])
    ensures
        platform_id@ == platform_uid(uid@, platform),
        platform != Platform::Windows ==> platform_id@ == uid@,
        platform == Platform::Windows ==> platform_id@ == seq![
            uid@[3],
            uid@[2],
            uid@[1],
            uid@[0],
            uid@[5],
            uid@[4],
            uid@[7],
            uid@[6],
        ] + uid@.skip(8),
{
    proof {
        lemma_windows_id_bytes(uid@);
    }
    match platform {
        Platform::Windows => {
            let mut swapped: [u8; 16] = uid;
            swapped[0] = uid[3];
            swapped[1] = uid[2];
            swapped[2] = uid[1];
            swapped[3] = uid[0];

            swapped[4] = uid[5];
            swapped[5] = uid[4];
            swapped[6] = uid[7];
            swapped[7] = uid[6];
            assert(swapped@ =~= platform_uid(uid@, platform));
            swapped
        },
        _ => uid,
    }
}

/// Swapping the byte order twice gives back the class ID.
pub proof fn lemma_swap_is_involution(uid: Seq<u8>, platform: Platform)
    requires
        uid.len() == 16,
    ensures
        platform_uid(platform_uid(uid, platform), platform) == uid,
{
    assert(platform_uid(platform_uid(uid, platform), platform) =~= uid);
}

/// Different class IDs stay different on every platform.
pub proof fn lemma_swap_keeps_ids_distinct(a: Seq<u8>, b: Seq<u8>, platform: Platform)
    requires
        a.len() == 16,
        b.len() == 16,
    ensures
        platform_uid(a, platform) == platform_uid(b, platform) ==> a == b,
{
    lemma_swap_is_involution(a, platform);
    lemma_swap_is_involution(b, platform);
}

/// On Windows every class ID, whatever it holds, has its first four bytes in reverse, each of the
/// next two pairs swapped, and the last eight bytes as they were.
pub proof fn lemma_windows_id_bytes(uid: Seq<u8>)
    requires
        uid.len() == 16,
    ensures
        platform_uid(uid, Platform::Windows).len() == 16,
        platform_uid(uid, Platform::Windows)[0] == uid[3],
        platform_uid(uid, Platform::Windows)[1] == uid[2],
        platform_uid(uid, Platform::Windows)[2] == uid[1],
        platform_uid(uid, Platform::Windows)[3] == uid[0],
        platform_uid(uid, Platform::Windows)[4] == uid[5],
        platform_uid(uid, Platform::Windows)[5] == uid[4],
        platform_uid(uid, Platform::Windows)[6] == uid[7],
        platform_uid(uid, Platform::Windows)[7] == uid[6],
        forall|i: int| 8 <= i < 16 ==> platform_uid(uid, Platform::Windows)[i] == uid[i],
        platform_uid(uid, Platform::Windows) == seq![
            uid[3],
            uid[2],
            uid[1],
            uid[0],
            uid[5],
            uid[4],
            uid[7],
            uid[6],
        ] + uid.skip(8),
{
}

/// Everywhere else class IDs are left as they are, and so agree with each other.
pub proof fn lemma_other_ids_are_unchanged(uid: Seq<u8>, platform: Platform)
    requires
        platform != Platform::Windows,
    ensures
        platform_uid(uid, platform) == uid,
{
}

} // verus!

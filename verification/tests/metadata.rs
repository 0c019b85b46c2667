use vst3_view::class_id::swap_vst3_uid_byte_order;
use vst3_view::factory::Factory;
use vst3_view::platform::Platform;
use vst3_view::plugin::{
    platform_vst3_class_id, subcategories_string, Vst3Plugin, Vst3SubCategory,
    MAX_SUBCATEGORIES_LEN,
};
use vst3_view::result::TResult;

const UID: [u8; 16] = [0, 1, 2, 3, 4, 5, 6, 7, 8, 9, 10, 11, 12, 13, 14, 15];
const GUID: [u8; 16] = [3, 2, 1, 0, 5, 4, 7, 6, 8, 9, 10, 11, 12, 13, 14, 15];
const PLATFORMS: [Platform; 4] =
    [Platform::Linux, Platform::OtherUnix, Platform::MacOs, Platform::Windows];

struct Gain;

impl Vst3Plugin for Gain {
    const VST3_CLASS_ID: [u8; 16] = *b"GainGainGainGain";
    const VST3_SUBCATEGORIES: &'static [Vst3SubCategory] = &[
        Vst3SubCategory { name: "Fx" },
        Vst3SubCategory { name: "Dynamics" },
        Vst3SubCategory { name: "Tools" },
    ];
}

struct Synth;

impl Vst3Plugin for Synth {
    const VST3_CLASS_ID: [u8; 16] = UID;
    const VST3_SUBCATEGORIES: &'static [Vst3SubCategory] = &[Vst3SubCategory { name: "Instrument" }];
}

struct Bare;

impl Vst3Plugin for Bare {
    const VST3_CLASS_ID: [u8; 16] = [0; 16];
    const VST3_SUBCATEGORIES: &'static [Vst3SubCategory] = &[];
}

const LONG: &str = "0123456789012345678901234567890123456789012345678901234567890123456789";

struct Verbose;

impl Vst3Plugin for Verbose {
    const VST3_CLASS_ID: [u8; 16] = [1; 16];
    const VST3_SUBCATEGORIES: &'static [Vst3SubCategory] =
        &[Vst3SubCategory { name: LONG }, Vst3SubCategory { name: LONG }];
}

struct Accented;

impl Vst3Plugin for Accented {
    const VST3_CLASS_ID: [u8; 16] = [2; 16];
    const VST3_SUBCATEGORIES: &'static [Vst3SubCategory] = &[
        Vst3SubCategory { name: LONG },
        Vst3SubCategory { name: "äääääääääääääääääääääääääääääääääääääääääääääääääääääääääääääääääää" },
    ];
}

#[test]
fn windows_ids_are_guids() {
    assert_eq!(swap_vst3_uid_byte_order(UID, Platform::Windows), GUID);
}

#[test]
fn other_ids_stay_as_they_are() {
    for platform in [Platform::Linux, Platform::OtherUnix, Platform::MacOs] {
        assert_eq!(swap_vst3_uid_byte_order(UID, platform), UID);
    }
}

#[test]
fn swapping_twice_changes_nothing() {
    for platform in PLATFORMS {
        let id = *b"fooobarrbazzquxx";
        let swapped = swap_vst3_uid_byte_order(id, platform);
        assert_eq!(swap_vst3_uid_byte_order(swapped, platform), id);
    }
}

#[test]
fn class_ids_follow_the_platform() {
    assert_eq!(platform_vst3_class_id::<Gain>(Platform::Linux), *b"GainGainGainGain");
    assert_eq!(platform_vst3_class_id::<Gain>(Platform::Windows), *b"niaGaGniGainGain");
    assert_eq!(platform_vst3_class_id::<Synth>(Platform::Windows), GUID);
}

#[test]
fn subcategories_are_separated_by_pipes() {
    assert_eq!(subcategories_string::<Gain>(), "Fx|Dynamics|Tools");
    assert_eq!(subcategories_string::<Synth>(), "Instrument");
    assert_eq!(subcategories_string::<Bare>(), "");
}

#[test]
fn long_subcategories_are_cut_off() {
    let full = format!("{}|{}", LONG, LONG);
    let cut = subcategories_string::<Verbose>();
    assert_eq!(MAX_SUBCATEGORIES_LEN, 127);
    assert_eq!(cut.len(), 127);
    assert_eq!(cut, full[..127]);
}

#[test]
fn subcategories_are_measured_in_characters() {
    let cut = subcategories_string::<Accented>();
    assert_eq!(cut.chars().count(), 127);
    assert!(cut.starts_with(LONG));
    assert!(cut.ends_with('ä'));
}

fn ids(factory_ids: &[[u8; 16]]) -> Factory {
    Factory::new(factory_ids.to_vec())
}

fn tuid(id: [u8; 16]) -> Option<[i8; 16]> {
    Some(id.map(|b| b as i8))
}

#[test]
fn classes_are_counted_and_indexed() {
    let factory = ids(&[UID, GUID, [9; 16]]);
    assert_eq!(factory.count_classes(), 3);
    assert_eq!(factory.get_class_info(0), Ok(0));
    assert_eq!(factory.get_class_info(2), Ok(2));
    for index in [i32::MIN, -1, 3, i32::MAX] {
        assert_eq!(factory.get_class_info(index), Err(TResult::InvalidArgument));
    }
}

#[test]
fn factory_info_comes_from_the_first_class() {
    let factory = ids(&[UID, GUID]);
    assert_eq!(factory.get_factory_info(true), Ok(0));
    assert_eq!(factory.get_factory_info(false), Err(TResult::InvalidArgument));
}

#[test]
fn instances_are_created_by_class_id() {
    let high = [0x80, 0xFF, 0x7F, 0, 0, 0, 0, 0, 0, 0, 0, 0, 0, 0, 0, 0xC3];
    let factory = ids(&[UID, high, GUID]);
    assert_eq!(factory.create_instance(tuid(UID), true), Ok(0));
    assert_eq!(factory.create_instance(tuid(high), true), Ok(1));
    assert_eq!(factory.create_instance(tuid(GUID), true), Ok(2));
    assert_eq!(factory.create_instance(tuid([9; 16]), true), Err(TResult::InvalidArgument));
}

#[test]
fn null_arguments_are_invalid() {
    let factory = ids(&[UID]);
    assert_eq!(factory.create_instance(None, true), Err(TResult::InvalidArgument));
    assert_eq!(factory.create_instance(tuid(UID), false), Err(TResult::InvalidArgument));
    assert_eq!(factory.create_instance(None, false), Err(TResult::InvalidArgument));
}

#[test]
fn duplicate_class_ids_are_noticed() {
    assert!(ids(&[UID]).has_unique_class_ids());
    assert!(ids(&[UID, GUID, [9; 16]]).has_unique_class_ids());
    assert!(!ids(&[UID, GUID, UID]).has_unique_class_ids());
    assert_eq!(ids(&[GUID, UID, UID]).create_instance(tuid(UID), true), Ok(1));
}

#[test]
fn host_context_is_accepted() {
    assert_eq!(ids(&[UID]).set_host_context(), TResult::ResultOk);
}

#[test]
fn unique_ids_stay_unique_on_every_platform() {
    let originals = [UID, GUID, *b"GainGainGainGain", [0; 16]];
    for platform in PLATFORMS {
        let swapped: Vec<[u8; 16]> =
            originals.iter().map(|id| swap_vst3_uid_byte_order(*id, platform)).collect();
        assert!(Factory::new(swapped).has_unique_class_ids());
    }
}

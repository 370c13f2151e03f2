use opendeck_n4::device::{map_input_key_to_ui, map_key_image_position_to_hw};
use opendeck_n4::error::DeviceError;

#[test]
fn input_remap_shifts_the_display_block() {
    for key in 0u8..=14 {
        assert_eq!(map_input_key_to_ui(key), Some(key + 6));
    }
}

#[test]
fn input_remap_sends_top_keys_to_dedicated_slots() {
    assert_eq!(map_input_key_to_ui(15), Some(0));
    assert_eq!(map_input_key_to_ui(16), Some(1));
}

#[test]
fn input_remap_drops_everything_else() {
    assert_eq!(map_input_key_to_ui(17), None);
    assert_eq!(map_input_key_to_ui(100), None);
    assert_eq!(map_input_key_to_ui(255), None);
}

#[test]
fn input_only_positions_map_to_no_slot() {
    for position in 0u8..=2 {
        assert_eq!(map_key_image_position_to_hw(position), Ok(None));
    }
}

#[test]
fn segment_positions_map_to_their_fixed_slots() {
    assert_eq!(map_key_image_position_to_hw(3), Ok(Some(15)));
    assert_eq!(map_key_image_position_to_hw(4), Ok(Some(16)));
    assert_eq!(map_key_image_position_to_hw(5), Ok(Some(17)));
}

#[test]
fn grid_positions_map_bijectively_onto_key_slots() {
    let mut seen = [false; 15];
    for position in 6u8..=20 {
        let hw = match map_key_image_position_to_hw(position) {
            Ok(Some(hw)) => hw,
            other => panic!("position {position} must map to a slot, got {other:?}"),
        };
        assert_eq!(hw, position - 6);
        assert!(!seen[hw as usize], "slot {hw} hit twice");
        seen[hw as usize] = true;
    }
    assert!(seen.iter().all(|&s| s), "every key slot must be covered");
}

#[test]
fn positions_outside_every_range_are_malformed() {
    assert_eq!(map_key_image_position_to_hw(21), Err(DeviceError::BadData));
    assert_eq!(map_key_image_position_to_hw(42), Err(DeviceError::BadData));
    assert_eq!(map_key_image_position_to_hw(255), Err(DeviceError::BadData));
}

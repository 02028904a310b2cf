use theremin_core::config::{Config, Mode, VELOCITY};
use theremin_core::note::map_note;

fn linear_config() -> Config {
    Config::new(vec![0, 2, 4, 5, 7, 9, 11], 12, 5, Mode::Linear, 255, vec![1, 10, 18, 25, 41, 89, 49, 14])
        .unwrap()
}

fn modulus_config() -> Config {
    Config::new(vec![0, 2, 4, 5, 7, 9, 11], 12, 5, Mode::Modulus, 255, vec![1, 10, 18, 25, 41, 89, 49, 14])
        .unwrap()
}

#[test]
fn distance_zero_maps_to_base_note() {
    let c = linear_config();
    assert_eq!(c.max_distance(), 35);
    assert_eq!(map_note(&c, 0, 0), Some(12));
}

#[test]
fn distance_just_inside_maps_to_last_step() {
    let c = linear_config();
    // raw index = 34 / 5 = 6, note = 12 + scale[6] = 23
    assert_eq!(map_note(&c, 34, 0), Some(23));
}

#[test]
fn distance_at_threshold_is_no_note() {
    let c = linear_config();
    assert_eq!(map_note(&c, 35, 0), None);
}

#[test]
fn every_distance_beyond_threshold_is_no_note() {
    let c = linear_config();
    let m = modulus_config();
    for d in 35..=255u8 {
        for ch in 0..8u8 {
            assert_eq!(map_note(&c, d, ch), None);
            assert_eq!(map_note(&m, d, ch), None);
        }
    }
}

#[test]
fn channels_are_offset_by_an_octave() {
    let c = linear_config();
    for ch in 0..8u8 {
        assert_eq!(map_note(&c, 0, ch), Some(12 + 12 * ch));
    }
}

#[test]
fn linear_mode_steps_by_cm_per_note() {
    let c = linear_config();
    // scale = [0,2,4,5,7,9,11]; distances 0..34 step through the scale
    assert_eq!(map_note(&c, 4, 0), Some(12));
    assert_eq!(map_note(&c, 5, 0), Some(14));
    assert_eq!(map_note(&c, 10, 0), Some(16));
    assert_eq!(map_note(&c, 17, 0), Some(17));
    assert_eq!(map_note(&c, 20, 0), Some(19));
    assert_eq!(map_note(&c, 29, 0), Some(21));
    assert_eq!(map_note(&c, 30, 0), Some(23));
}

#[test]
fn modulus_mode_uses_distance_modulo_scale_length() {
    let c = modulus_config();
    assert_eq!(map_note(&c, 0, 0), Some(12));
    assert_eq!(map_note(&c, 1, 0), Some(14));
    assert_eq!(map_note(&c, 6, 0), Some(23));
    assert_eq!(map_note(&c, 7, 0), Some(12));
    assert_eq!(map_note(&c, 8, 0), Some(14));
    assert_eq!(map_note(&c, 34, 0), Some(23));
}

#[test]
fn config_rejects_wrong_scale_length() {
    assert!(Config::new(vec![0, 2, 4], 12, 5, Mode::Linear, 255, vec![1]).is_none());
    assert!(Config::new(vec![0; 8], 12, 5, Mode::Linear, 255, vec![1]).is_none());
}

#[test]
fn config_rejects_empty_instrument_list() {
    assert!(Config::new(vec![0, 2, 4, 5, 7, 9, 11], 12, 5, Mode::Linear, 255, vec![]).is_none());
}

#[test]
fn config_rejects_zero_cm_per_note() {
    assert!(Config::new(vec![0, 2, 4, 5, 7, 9, 11], 12, 0, Mode::Linear, 255, vec![1]).is_none());
}

#[test]
fn config_rejects_thresholds_that_do_not_fit_a_byte() {
    // 7 * 40 = 280 > 255
    assert!(Config::new(vec![0, 2, 4, 5, 7, 9, 11], 12, 40, Mode::Linear, 255, vec![1]).is_none());
    // 200 + 84 + 11 = 295 > 255
    assert!(Config::new(vec![0, 2, 4, 5, 7, 9, 11], 200, 5, Mode::Linear, 255, vec![1]).is_none());
}

#[test]
fn config_keeps_its_inputs_and_fixed_velocity() {
    let c = linear_config();
    assert_eq!(c.scale, vec![0, 2, 4, 5, 7, 9, 11]);
    assert_eq!(c.start_note, 12);
    assert_eq!(c.cm_per_note, 5);
    assert_eq!(c.gesture_trigger_code, 255);
    assert_eq!(c.instruments, vec![1, 10, 18, 25, 41, 89, 49, 14]);
    assert_eq!(c.velocity, VELOCITY);
    assert_eq!(c.velocity, 127);
}

use theremin_core::command::Command;
use theremin_core::config::{Config, Mode};
use theremin_core::control::tick;
use theremin_core::gesture::GestureState;
use theremin_core::key::Key;
use theremin_core::rotator::Rotator;

fn config() -> Config {
    Config::new(vec![0, 2, 4, 5, 7, 9, 11], 12, 5, Mode::Linear, 255, vec![1, 10, 18, 25, 41, 89, 49, 14])
        .unwrap()
}

fn is_rotation_command(cmd: &Command) -> bool {
    matches!(cmd, Command::SetInstrument { .. } | Command::PlayScale { .. })
}

#[test]
fn first_covered_tick_plays_one_note_per_channel() {
    let c = config();
    let mut keys = vec![Key::new(); 8];
    let mut gesture = GestureState::new();
    let mut rotator = Rotator::new();
    let cmds = tick(&c, &mut keys, &mut gesture, &mut rotator, &vec![0; 8]);
    assert_eq!(cmds.len(), 8);
    for i in 0..8u8 {
        assert_eq!(
            cmds[i as usize],
            Command::NoteOn { channel: i + 1, note: 12 + 12 * i, velocity: 127 }
        );
        assert_eq!(keys[i as usize].note, 12 + 12 * i);
    }
    // all channels read close, so the composite code was observed
    assert_eq!(gesture.last_code, 255);
    assert_eq!(gesture.counter, 0);
}

#[test]
fn stable_trigger_gesture_rotates_exactly_once_on_the_hundredth_tick() {
    let c = config();
    // keys already sounding the notes that distance 0 maps to, so the note
    // logic stays quiet and only the gesture acts
    let mut keys: Vec<Key> = (0..8u8).map(|i| Key { note: 12 + 12 * i, counter: 0 }).collect();
    let mut gesture = GestureState { last_code: 255, counter: 0 };
    let mut rotator = Rotator::new();
    let distances = vec![0u8; 8];
    for t in 1..=99u32 {
        let cmds = tick(&c, &mut keys, &mut gesture, &mut rotator, &distances);
        assert_eq!(cmds, vec![], "tick {t} must emit nothing");
        assert_eq!(rotator.current_index, 0);
    }
    let cmds = tick(&c, &mut keys, &mut gesture, &mut rotator, &distances);
    assert_eq!(rotator.current_index, 1);
    assert_eq!(cmds.len(), 17);
    for i in 0..8u8 {
        assert_eq!(cmds[i as usize], Command::NoteOff { channel: i + 1, note: 12 + 12 * i });
        assert_eq!(
            cmds[8 + i as usize],
            Command::SetInstrument { channel: i + 1, instrument: 10 }
        );
    }
    assert_eq!(cmds[16], Command::PlayScale { channel: 1, base_note: 48, step: 12 });
    // the tracked notes are left stale on purpose
    assert_eq!(keys[0].note, 12);
    // and the next 99 ticks of the same sustained code stay quiet again
    for t in 1..=99u32 {
        let cmds = tick(&c, &mut keys, &mut gesture, &mut rotator, &distances);
        assert_eq!(cmds, vec![], "tick {t} after the rotation must emit nothing");
        assert_eq!(rotator.current_index, 1);
    }
}

#[test]
fn unstable_code_never_rotates() {
    let c = config();
    let mut keys = vec![Key::new(); 8];
    let mut gesture = GestureState::new();
    let mut rotator = Rotator::new();
    // the composite code flips every tick, so no 100-tick stable window forms
    let near = vec![0u8; 8]; // code 255, all channels covered
    let far = vec![20u8; 8]; // code 0, all channels covered on another note
    for t in 0..300u32 {
        let d = if t % 2 == 0 { &near } else { &far };
        let cmds = tick(&c, &mut keys, &mut gesture, &mut rotator, d);
        assert!(
            cmds.iter().all(|cmd| !is_rotation_command(cmd)),
            "tick {t} must not rotate"
        );
    }
    assert_eq!(rotator.current_index, 0);
}

#[test]
fn debounced_release_inside_the_full_tick() {
    let c = config();
    let mut keys = vec![Key::new(); 8];
    let mut gesture = GestureState::new();
    let mut rotator = Rotator::new();
    // channel 0 sounds note 23 (distance 34); the others stay uncovered
    let mut covered = vec![255u8; 8];
    covered[0] = 34;
    let cmds = tick(&c, &mut keys, &mut gesture, &mut rotator, &covered);
    assert_eq!(cmds, vec![Command::NoteOn { channel: 1, note: 23, velocity: 127 }]);
    // then every channel reads the threshold distance, uncovered from now on
    let uncovered = vec![35u8; 8];
    for t in 1..=99u32 {
        let cmds = tick(&c, &mut keys, &mut gesture, &mut rotator, &uncovered);
        assert_eq!(cmds, vec![], "tick {t} must stay silent");
        assert_eq!(keys[0].note, 23);
    }
    let cmds = tick(&c, &mut keys, &mut gesture, &mut rotator, &uncovered);
    assert_eq!(cmds, vec![Command::NoteOff { channel: 1, note: 23 }]);
    assert_eq!(keys[0].note, 0);
    assert_eq!(keys[0].counter, 0);
}

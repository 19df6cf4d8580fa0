use kilo::term::RawMasks;
use kilo::term::RawModeGuard;
use kilo::term::TermSettings;

fn sample_settings() -> TermSettings {
    TermSettings {
        input_flags: 0b1111_0000_1010,
        output_flags: 0b0000_0000_0111,
        control_flags: 0b0000_1000_0000,
        local_flags: 0b1010_1010_1010,
        control_chars: vec![9; 32],
    }
}

fn sample_masks() -> RawMasks {
    RawMasks {
        input_clear: 0b0000_0000_1010,
        output_clear: 0b0000_0000_0001,
        control_set: 0b0011_0000_0000,
        local_clear: 0b0000_0000_1111,
    }
}

#[test]
fn raw_derivation_masks_each_flag_word() {
    let guard = RawModeGuard::capture(sample_settings());
    let raw = guard.raw_settings(sample_masks(), 6, 5);
    assert_eq!(raw.input_flags, 0b1111_0000_0000);
    assert_eq!(raw.output_flags, 0b0000_0000_0110);
    assert_eq!(raw.control_flags, 0b0011_1000_0000);
    assert_eq!(raw.local_flags, 0b1010_1010_0000);
}

#[test]
fn raw_derivation_sets_min_zero_and_unit_timeout() {
    let guard = RawModeGuard::capture(sample_settings());
    let raw = guard.raw_settings(sample_masks(), 6, 5);
    assert_eq!(raw.control_chars[6], 0);
    assert_eq!(raw.control_chars[5], 1);
    for (i, &c) in raw.control_chars.iter().enumerate() {
        if i != 5 && i != 6 {
            assert_eq!(c, 9);
        }
    }
}

#[test]
fn restoration_returns_the_captured_set_bit_for_bit() {
    let original = sample_settings();
    let guard = RawModeGuard::capture(original.clone());
    // Deriving the raw set must not disturb what restoration applies.
    let _raw = guard.raw_settings(sample_masks(), 6, 5);
    assert_eq!(*guard.restore_settings(), original);
}

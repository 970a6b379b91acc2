//! Tests that drive the library against the scripted in-memory device.

use uefi_console::color::{attribute_value, Color};
use uefi_console::error::Error;
use uefi_console::output::{absorb_unknown_glyph, Output};
use uefi_console::scripted::ScriptedDevice;
use uefi_console::status::{
    Status, DEVICE_ERROR, ERROR_BIT, NOT_READY, SUCCESS, UNSUPPORTED, WARN_UNKNOWN_GLYPH,
    WARN_WRITE_FAILURE,
};

fn all_colors() -> Vec<Color> {
    vec![
        Color::Black,
        Color::Blue,
        Color::Green,
        Color::Cyan,
        Color::Red,
        Color::Magenta,
        Color::Brown,
        Color::LightGray,
        Color::DarkGray,
        Color::LightBlue,
        Color::LightGreen,
        Color::LightCyan,
        Color::LightRed,
        Color::LightMagenta,
        Color::Yellow,
        Color::White,
    ]
}

#[test]
fn set_color_packs_attribute() {
    let mut out = Output::new(ScriptedDevice::new());
    assert!(out.set_color(Color::White, Color::Blue).is_ok());
    assert_eq!(out.device.attributes, vec![0x1F]);
}

#[test]
fn set_color_formula_holds_for_all_valid_pairs() {
    let colors = all_colors();
    for (bg_index, bg) in colors.iter().take(8).enumerate() {
        for (fg_index, fg) in colors.iter().enumerate() {
            let mut out = Output::new(ScriptedDevice::new());
            assert!(out.set_color(*fg, *bg).is_ok());
            let expected = ((bg_index & 0x7) << 4) | (fg_index & 0xF);
            assert_eq!(out.device.attributes, vec![expected]);
            assert_eq!(attribute_value(*fg, *bg) as usize, expected);
        }
    }
}

#[test]
fn mode_enumeration_skips_unsupported_indices() {
    let mut device = ScriptedDevice::new();
    device.max_modes = 4;
    device.unsupported = vec![2];
    let out = Output::new(device);
    let mut it = out.modes();
    let mut seen = Vec::new();
    while let Some(m) = it.next(&out) {
        seen.push((m.index(), m.columns(), m.rows()));
    }
    assert_eq!(seen, vec![(0, 80, 25), (1, 81, 26), (3, 83, 28)]);
}

#[test]
fn mode_enumeration_of_empty_device_yields_nothing() {
    let out = Output::new(ScriptedDevice::new());
    let mut it = out.modes();
    assert!(it.next(&out).is_none());
}

#[test]
fn query_mode_propagates_unsupported() {
    let mut device = ScriptedDevice::new();
    device.max_modes = 2;
    device.unsupported = vec![1];
    let out = Output::new(device);
    assert_eq!(out.query_mode(0), Ok((80, 25)));
    let err = out.query_mode(1).unwrap_err();
    assert_eq!(err.status(), Status(UNSUPPORTED));
}

#[test]
fn current_mode_reports_no_mode_for_unset_field() {
    let mut device = ScriptedDevice::new();
    device.max_modes = 4;
    device.current = -1;
    let out = Output::new(device);
    assert_eq!(out.current_mode(), Ok(None));
}

#[test]
fn current_mode_index_matches_auxiliary_field() {
    let mut device = ScriptedDevice::new();
    device.max_modes = 4;
    device.current = 2;
    let out = Output::new(device);
    let m = out.current_mode().unwrap().unwrap();
    assert_eq!(m.index(), 2);
    assert_eq!(m.columns(), 82);
    assert_eq!(m.rows(), 27);
}

#[test]
fn current_mode_propagates_query_failure() {
    let mut device = ScriptedDevice::new();
    device.max_modes = 4;
    device.current = 7;
    let out = Output::new(device);
    let err = out.current_mode().unwrap_err();
    assert_eq!(err.status(), Status(UNSUPPORTED));
}

#[test]
fn set_mode_uses_the_mode_index() {
    let mut device = ScriptedDevice::new();
    device.max_modes = 4;
    let mut out = Output::new(device);
    let mut it = out.modes();
    it.next(&out);
    let m = it.next(&out).unwrap();
    assert!(out.set_mode(m).is_ok());
    assert_eq!(out.device.mode_sets, vec![1]);
}

#[test]
fn write_of_two_full_buffers_flushes_twice_then_terminates() {
    let mut out = Output::new(ScriptedDevice::new());
    let text: String = std::iter::repeat('a').take(256).collect();
    assert!(out.write_str(&text).is_ok());
    let writes = &out.device.writes;
    assert_eq!(writes.len(), 3);
    let full: Vec<u16> = std::iter::repeat(97u16).take(128).chain([0u16]).collect();
    assert_eq!(writes[0], full);
    assert_eq!(writes[1], full);
    assert_eq!(writes[2], vec![0u16]);
}

#[test]
fn write_translates_line_feed_to_carriage_return_line_feed() {
    let mut out = Output::new(ScriptedDevice::new());
    assert!(out.write_str("ab\ncd").is_ok());
    assert_eq!(out.device.writes, vec![vec![97, 98, 13, 10, 99, 100, 0]]);
}

#[test]
fn carriage_return_insertion_can_straddle_a_flush() {
    let mut out = Output::new(ScriptedDevice::new());
    let mut text: String = std::iter::repeat('a').take(127).collect();
    text.push('\n');
    assert!(out.write_str(&text).is_ok());
    let writes = &out.device.writes;
    assert_eq!(writes.len(), 2);
    assert_eq!(writes[0].len(), 129);
    assert_eq!(writes[0][126], 97);
    assert_eq!(writes[0][127], 13);
    assert_eq!(writes[0][128], 0);
    assert_eq!(writes[1], vec![10, 0]);
}

#[test]
fn empty_write_still_issues_the_final_flush() {
    let mut out = Output::new(ScriptedDevice::new());
    assert!(out.write_str("").is_ok());
    assert_eq!(out.device.writes, vec![vec![0u16]]);
}

#[test]
fn write_transcodes_two_byte_characters_to_single_units() {
    let mut out = Output::new(ScriptedDevice::new());
    assert!(out.write_str("\u{e9}").is_ok());
    assert_eq!(out.device.writes, vec![vec![0xE9, 0]]);
}

#[test]
fn write_rejects_characters_outside_the_sixteen_bit_alphabet() {
    let mut out = Output::new(ScriptedDevice::new());
    assert!(out.write_str("a\u{1F600}b").is_err());
    assert!(out.device.writes.is_empty());
}

#[test]
fn write_rejects_an_embedded_terminator() {
    let mut out = Output::new(ScriptedDevice::new());
    assert!(out.write_str("a\0b").is_err());
    assert!(out.device.writes.is_empty());
}

#[test]
fn write_aborts_when_the_device_refuses_a_flush() {
    let mut device = ScriptedDevice::new();
    device.write_replies = vec![SUCCESS, DEVICE_ERROR];
    let mut out = Output::new(device);
    let text: String = std::iter::repeat('x').take(256).collect();
    assert!(out.write_str(&text).is_err());
    assert_eq!(out.device.writes.len(), 2);
}

#[test]
fn lossy_write_swallows_the_unknown_glyph_warning() {
    let mut device = ScriptedDevice::new();
    device.write_replies = vec![WARN_UNKNOWN_GLYPH];
    let mut out = Output::new(device);
    let units: Vec<u16> = vec![72, 105, 0];
    assert!(out.output_string_lossy(&units).is_ok());
    assert_eq!(out.device.writes, vec![vec![72, 105, 0]]);
}

#[test]
fn lossy_write_propagates_every_other_failure() {
    for code in [DEVICE_ERROR, WARN_WRITE_FAILURE, NOT_READY] {
        let mut device = ScriptedDevice::new();
        device.write_replies = vec![code];
        let mut out = Output::new(device);
        let units: Vec<u16> = vec![72, 0];
        let err = out.output_string_lossy(&units).unwrap_err();
        assert_eq!(err.status(), Status(code));
    }
}

#[test]
fn plain_write_reports_the_warning_as_failure() {
    let mut device = ScriptedDevice::new();
    device.write_replies = vec![WARN_UNKNOWN_GLYPH];
    let mut out = Output::new(device);
    let units: Vec<u16> = vec![72, 0];
    let err = out.output_string(&units).unwrap_err();
    assert_eq!(err.status(), Status(WARN_UNKNOWN_GLYPH));
}

#[test]
fn absorb_unknown_glyph_only_touches_that_warning() {
    assert_eq!(absorb_unknown_glyph(Ok(())), Ok(()));
    let warn = Error::new(Status(WARN_UNKNOWN_GLYPH), ());
    assert_eq!(absorb_unknown_glyph(Err(warn)), Ok(()));
    let hard = Error::new(Status(DEVICE_ERROR), ());
    let out = absorb_unknown_glyph(Err(hard)).unwrap_err();
    assert_eq!(out.status(), Status(DEVICE_ERROR));
}

#[test]
fn supports_reports_unsupported_as_false_not_error() {
    let mut device = ScriptedDevice::new();
    device.test_reply = UNSUPPORTED;
    let mut out = Output::new(device);
    let units: Vec<u16> = vec![72, 0];
    assert_eq!(out.test_string(&units), Ok(false));
}

#[test]
fn supports_reports_success_as_true() {
    let mut out = Output::new(ScriptedDevice::new());
    let units: Vec<u16> = vec![72, 0];
    assert_eq!(out.test_string(&units), Ok(true));
}

#[test]
fn supports_propagates_other_failures() {
    let mut device = ScriptedDevice::new();
    device.test_reply = DEVICE_ERROR;
    let mut out = Output::new(device);
    let units: Vec<u16> = vec![72, 0];
    let err = out.test_string(&units).unwrap_err();
    assert_eq!(err.status(), Status(DEVICE_ERROR));
}

#[test]
fn reset_records_the_extended_flag_and_wraps_failures() {
    let mut out = Output::new(ScriptedDevice::new());
    assert!(out.reset(true).is_ok());
    assert_eq!(out.device.resets, vec![true]);

    let mut device = ScriptedDevice::new();
    device.call_reply = NOT_READY;
    let mut out = Output::new(device);
    let err = out.reset(false).unwrap_err();
    assert_eq!(err.status(), Status(NOT_READY));
}

#[test]
fn clear_calls_the_clear_entry_point() {
    let mut out = Output::new(ScriptedDevice::new());
    assert!(out.clear().is_ok());
    assert_eq!(out.device.clears, 1);
}

#[test]
fn clear_moves_the_cursor_to_the_origin_on_success() {
    let mut device = ScriptedDevice::new();
    device.column = 5;
    device.row = 7;
    let mut out = Output::new(device);
    assert!(out.clear().is_ok());
    assert_eq!(out.cursor_position(), (0, 0));

    let mut device = ScriptedDevice::new();
    device.column = 5;
    device.row = 7;
    device.call_reply = NOT_READY;
    let mut out = Output::new(device);
    assert!(out.clear().is_err());
    assert_eq!(out.cursor_position(), (5, 7));
}

#[test]
fn set_mode_updates_the_current_mode_field_on_success() {
    let mut device = ScriptedDevice::new();
    device.max_modes = 4;
    let mut out = Output::new(device);
    let mut it = out.modes();
    it.next(&out);
    let m = it.next(&out).unwrap();
    assert!(out.set_mode(m).is_ok());
    assert_eq!(out.device.current, 1);
    let now = out.current_mode().unwrap().unwrap();
    assert_eq!(now.index(), 1);

    let mut device = ScriptedDevice::new();
    device.max_modes = 4;
    device.call_reply = NOT_READY;
    let mut out = Output::new(device);
    let mut it = out.modes();
    let m = it.next(&out).unwrap();
    assert!(out.set_mode(m).is_err());
    assert_eq!(out.device.current, -1);
}

#[test]
fn cursor_calls_pass_their_arguments_through() {
    let mut out = Output::new(ScriptedDevice::new());
    assert!(out.enable_cursor(true).is_ok());
    assert!(out.set_cursor_position(3, 4).is_ok());
    assert_eq!(out.device.cursor_enables, vec![true]);
    assert_eq!(out.device.cursor_sets, vec![(3, 4)]);
}

#[test]
fn cursor_state_reads_come_from_auxiliary_state() {
    let mut device = ScriptedDevice::new();
    device.column = 5;
    device.row = 7;
    device.visible = true;
    let out = Output::new(device);
    assert_eq!(out.cursor_position(), (5, 7));
    assert!(out.cursor_visible());
}

#[test]
fn error_keeps_status_and_payload() {
    let e = Error::new(Status(DEVICE_ERROR), 7u32);
    assert_eq!(e.status(), Status(DEVICE_ERROR));
    assert_eq!(*e.data(), 7);
    assert_eq!(e.split(), (Status(DEVICE_ERROR), 7));
}

#[test]
fn status_codes_partition_into_three_classes() {
    assert!(Status(SUCCESS).is_success());
    assert!(!Status(SUCCESS).is_warning());
    assert!(!Status(SUCCESS).is_error());

    assert!(Status(WARN_UNKNOWN_GLYPH).is_warning());
    assert!(!Status(WARN_UNKNOWN_GLYPH).is_success());
    assert!(!Status(WARN_UNKNOWN_GLYPH).is_error());

    assert!(Status(UNSUPPORTED).is_error());
    assert!(!Status(UNSUPPORTED).is_success());
    assert!(!Status(UNSUPPORTED).is_warning());

    assert!(Status(ERROR_BIT).is_error());
    assert!(Status(ERROR_BIT - 1).is_warning());
}

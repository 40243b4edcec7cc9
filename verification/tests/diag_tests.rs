use adapter_select::adapter::{render_adapter_block, to_mib, AdapterDescriptor};
use adapter_select::diag::{hr_string, invoke_checked, trim_message};
use adapter_select::feature::{level_supported, parse_feature_level, trim_ws, FeatureLevel};
use adapter_select::render::{dec_string, hex8_string, hex_lower_string, pad_left};
use adapter_select::status::{STATUS_NOT_FOUND, STATUS_OK};

#[test]
fn dec_string_renders_exact_digits() {
    assert_eq!(dec_string(0), "0");
    assert_eq!(dec_string(7), "7");
    assert_eq!(dec_string(10), "10");
    assert_eq!(dec_string(12345), "12345");
    assert_eq!(dec_string(u64::MAX), "18446744073709551615");
}

#[test]
fn hex_lower_renders_without_leading_zeros() {
    assert_eq!(hex_lower_string(0), "0");
    assert_eq!(hex_lower_string(0x10DE), "10de");
    assert_eq!(hex_lower_string(0xA1), "a1");
    assert_eq!(hex_lower_string(0xFFFFFFFF), "ffffffff");
}

#[test]
fn hex8_renders_eight_upper_digits() {
    assert_eq!(hex8_string(0), "00000000");
    assert_eq!(hex8_string(0x887A0002), "887A0002");
    assert_eq!(hex8_string(0x1), "00000001");
    assert_eq!(hex8_string(0xFFFFFFFF), "FFFFFFFF");
}

#[test]
fn pad_left_pads_to_width() {
    assert_eq!(pad_left(String::from("abc"), 5), "  abc");
    assert_eq!(pad_left(String::from("abcdef"), 5), "abcdef");
    assert_eq!(pad_left(String::new(), 3), "   ");
}

#[test]
fn invoke_checked_success_is_silent_and_returns_value() {
    let (value, log) = invoke_checked("main.rs:12", 42u32, STATUS_OK, "");
    assert_eq!(value, 42);
    assert!(log.is_none());
}

#[test]
fn invoke_checked_success_with_nonzero_code_is_silent() {
    // Any code with the high bit clear is a success.
    let (value, log) = invoke_checked("main.rs:12", String::from("payload"), 0x00000001, "ignored");
    assert_eq!(value, "payload");
    assert!(log.is_none());
}

#[test]
fn invoke_checked_failure_emits_one_line_with_hex_code() {
    let (value, log) = invoke_checked("main.rs:42", 7u8, 0x887A0005, "The GPU device instance has been suspended.\r\n");
    assert_eq!(value, 7);
    let line = log.expect("failure must log");
    assert_eq!(
        line,
        "main.rs:42: ! (0x887A0005) The GPU device instance has been suspended."
    );
    assert!(line.contains("887A0005"));
}

#[test]
fn invoke_checked_not_found_is_a_failure_for_the_layer() {
    // The sentinel is special only to the enumeration loop; the layer
    // itself reports it like any failure.
    let (_, log) = invoke_checked("site", (), STATUS_NOT_FOUND, "");
    assert_eq!(log.expect("sentinel logs here"), "site: ! (0x887A0002)");
}

#[test]
fn hr_string_without_message_is_glyph_and_code() {
    assert_eq!(hr_string(0x80004005, ""), "! (0x80004005)");
    assert_eq!(hr_string(0, ""), "+ (0x00000000)");
}

#[test]
fn hr_string_trims_nul_padding_and_trailing_whitespace() {
    let msg = "The operation completed successfully.\r\n\0\0\0\0";
    assert_eq!(
        hr_string(0, msg),
        "+ (0x00000000) The operation completed successfully."
    );
}

#[test]
fn hr_string_message_that_trims_to_nothing_is_dropped() {
    assert_eq!(hr_string(0x80070057, "\r\n \0"), "! (0x80070057)");
}

#[test]
fn trim_message_caps_overlong_messages() {
    let long = "a".repeat(3000);
    let trimmed = trim_message(&long);
    assert_eq!(trimmed.len(), 1024);
    assert_eq!(trimmed, "a".repeat(1024));
}

#[test]
fn trim_message_keeps_interior_whitespace() {
    assert_eq!(trim_message("two words \n"), "two words");
}

#[test]
fn to_mib_truncates_not_rounds() {
    assert_eq!(to_mib(1 << 20), 1);
    assert_eq!(to_mib((1 << 20) - 1), 0);
    assert_eq!(to_mib(0), 0);
    assert_eq!(to_mib(8 * 1024 * 1024 * 1024), 8192);
}

#[test]
fn trim_ws_strips_both_ends() {
    assert_eq!(trim_ws("  11_0\t\n"), "11_0");
    assert_eq!(trim_ws("11_0"), "11_0");
    assert_eq!(trim_ws("   "), "");
    assert_eq!(trim_ws(""), "");
}

#[test]
fn parse_feature_level_accepts_all_nine_labels() {
    assert_eq!(parse_feature_level("9_1"), Ok(FeatureLevel::L9_1));
    assert_eq!(parse_feature_level("9_2"), Ok(FeatureLevel::L9_2));
    assert_eq!(parse_feature_level("9_3"), Ok(FeatureLevel::L9_3));
    assert_eq!(parse_feature_level("10_0"), Ok(FeatureLevel::L10_0));
    assert_eq!(parse_feature_level("10_1"), Ok(FeatureLevel::L10_1));
    assert_eq!(parse_feature_level("11_0"), Ok(FeatureLevel::L11_0));
    assert_eq!(parse_feature_level("11_1"), Ok(FeatureLevel::L11_1));
    assert_eq!(parse_feature_level("12_0"), Ok(FeatureLevel::L12_0));
    assert_eq!(parse_feature_level("12_1"), Ok(FeatureLevel::L12_1));
}

#[test]
fn parse_feature_level_tolerates_surrounding_whitespace() {
    assert_eq!(parse_feature_level(" 11_0\n"), Ok(FeatureLevel::L11_0));
}

#[test]
fn parse_feature_level_rejects_unknown_labels() {
    let err = parse_feature_level("12_2").unwrap_err();
    assert_eq!(err, "expected one of: 9_1 9_2 9_3 10_0 10_1 11_0 11_1 12_0 12_1");
    assert!(parse_feature_level("").is_err());
    assert!(parse_feature_level("11.0").is_err());
    assert!(parse_feature_level("11_0 12_0").is_err());
}

#[test]
fn level_supported_follows_the_tier_order() {
    assert!(level_supported(FeatureLevel::L12_1, FeatureLevel::L11_0));
    assert!(level_supported(FeatureLevel::L11_0, FeatureLevel::L11_0));
    assert!(!level_supported(FeatureLevel::L11_0, FeatureLevel::L12_1));
    assert!(!level_supported(FeatureLevel::L9_1, FeatureLevel::L9_2));
}

#[test]
fn adapter_block_renders_fixed_format() {
    let d = AdapterDescriptor {
        name: String::from("Sample GPU"),
        vendor_id: 0x10DE,
        device_id: 0x1E87,
        subsystem_id: 0x37551458,
        revision: 0xA1,
        dedicated_video_memory: 8 * 1024 * 1024 * 1024,
        dedicated_system_memory: 0,
        shared_system_memory: (1 << 20) - 1,
    };
    let block = render_adapter_block(&d, 0, true);
    let mut expected = String::new();
    expected.push_str("* Adapter 0: Sample GPU\n");
    expected.push_str("    VendorId:      ");
    expected.push_str("    0x10de\n");
    expected.push_str("    DeviceId:      ");
    expected.push_str("    0x1e87\n");
    expected.push_str("    SubSysId:      ");
    expected.push_str("0x37551458\n");
    expected.push_str("    Revision:      ");
    expected.push_str("      0xa1\n");
    expected.push_str("    Video Memory:  ");
    expected.push_str("  8192 MiB\n");
    expected.push_str("    System Memory: ");
    expected.push_str("     0 MiB\n");
    expected.push_str("    Shared Memory: ");
    expected.push_str("     0 MiB\n");
    expected.push_str("\n");
    assert_eq!(block, expected);
}

#[test]
fn adapter_block_marker_distinguishes_selection() {
    let d = AdapterDescriptor {
        name: String::from("X"),
        vendor_id: 0,
        device_id: 0,
        subsystem_id: 0,
        revision: 0,
        dedicated_video_memory: 0,
        dedicated_system_memory: 0,
        shared_system_memory: 0,
    };
    let marked = render_adapter_block(&d, 3, true);
    let unmarked = render_adapter_block(&d, 3, false);
    assert!(marked.starts_with("* Adapter 3: X"));
    assert!(unmarked.starts_with("  Adapter 3: X"));
}

#[test]
fn decode_wide_handles_plain_text() {
    let units: Vec<u16> = "Sample GPU".encode_utf16().collect();
    assert_eq!(adapter_select::wide::decode_wide(&units), Some(String::from("Sample GPU")));
}

#[test]
fn decode_wide_of_empty_buffer_is_empty_text() {
    assert_eq!(adapter_select::wide::decode_wide(&[]), Some(String::new()));
}

#[test]
fn decode_wide_combines_surrogate_pairs() {
    // U+1F3AE as the pair 0xD83C 0xDFAE.
    let units = [0x0047u16, 0x0050, 0x0055, 0x0020, 0xD83C, 0xDFAE];
    assert_eq!(adapter_select::wide::decode_wide(&units), Some(String::from("GPU \u{1F3AE}")));
}

#[test]
fn decode_wide_rejects_unpaired_surrogates() {
    assert_eq!(adapter_select::wide::decode_wide(&[0x0041, 0xD83C]), None);
    assert_eq!(adapter_select::wide::decode_wide(&[0xDFAE, 0x0041]), None);
    assert_eq!(adapter_select::wide::decode_wide(&[0xD83C, 0x0041]), None);
}

#[test]
fn decode_wide_keeps_nul_padding() {
    let units = [0x0041u16, 0, 0];
    assert_eq!(adapter_select::wide::decode_wide(&units), Some(String::from("A\0\0")));
}

use tuigreet::output::{
    apply_output_config, enumerate_outputs, parse_resolution, resize_terminal_to_resolution,
    DrmEntry, OutputConfig, SizingChoice, TerminalConfig, WinSize,
};

fn connector(name: &str, status: &str, modes: Option<&str>) -> DrmEntry {
    DrmEntry {
        name: name.to_string(),
        has_status: true,
        status: Some(status.to_string()),
        modes: modes.map(|m| m.to_string()),
    }
}

#[test]
fn test_parse_resolution_standard() {
    assert_eq!(parse_resolution("1920x1080"), Some((1920, 1080)));
    assert_eq!(parse_resolution("2560x1440"), Some((2560, 1440)));
    assert_eq!(parse_resolution("3840x2160"), Some((3840, 2160)));
    assert_eq!(parse_resolution("800x600"), Some((800, 600)));
}

#[test]
fn test_parse_resolution_with_whitespace() {
    assert_eq!(parse_resolution("  1920x1080  "), Some((1920, 1080)));
    assert_eq!(parse_resolution("1920x1080\n"), Some((1920, 1080)));
}

#[test]
fn test_parse_resolution_invalid() {
    assert_eq!(parse_resolution(""), None);
    assert_eq!(parse_resolution("1920"), None);
    assert_eq!(parse_resolution("1920x"), None);
    assert_eq!(parse_resolution("x1080"), None);
    assert_eq!(parse_resolution("AxB"), None);
    assert_eq!(parse_resolution("1920\u{00D7}1080"), None);
}

#[test]
fn test_parse_resolution_u16_boundary() {
    assert_eq!(parse_resolution("65535x65535"), Some((65535, 65535)));
    assert_eq!(parse_resolution("65535x1080"), Some((65535, 1080)));
    assert_eq!(parse_resolution("1920x65535"), Some((1920, 65535)));
}

#[test]
fn test_parse_resolution_overflow() {
    assert_eq!(parse_resolution("65536x1080"), None);
    assert_eq!(parse_resolution("1920x65536"), None);
    assert_eq!(parse_resolution("65536x65536"), None);
    assert_eq!(parse_resolution("999999x1080"), None);
    assert_eq!(parse_resolution("1920x999999"), None);
}

#[test]
fn test_parse_resolution_zero_values() {
    assert_eq!(parse_resolution("0x0"), Some((0, 0)));
    assert_eq!(parse_resolution("0x1080"), Some((0, 1080)));
    assert_eq!(parse_resolution("1920x0"), Some((1920, 0)));
}

#[test]
fn test_parse_resolution_negative() {
    assert_eq!(parse_resolution("-1920x1080"), None);
    assert_eq!(parse_resolution("1920x-1080"), None);
    assert_eq!(parse_resolution("-1x-1"), None);
}

#[test]
fn test_parse_resolution_multiple_x() {
    assert_eq!(parse_resolution("1920x1080x720"), None);
    assert_eq!(parse_resolution("1920x1080x"), None);
}

#[test]
fn test_parse_resolution_whitespace_variants() {
    assert_eq!(parse_resolution("   "), None);
    assert_eq!(parse_resolution("\t"), None);
    assert_eq!(parse_resolution("\t1920x1080\t"), Some((1920, 1080)));
    assert_eq!(parse_resolution("1920x1080\r\n"), Some((1920, 1080)));
}

#[test]
fn test_enumerate_empty_directory() {
    let outputs = enumerate_outputs(&Vec::new());
    assert!(outputs.is_empty());
}

#[test]
fn test_enumerate_nonexistent_directory() {
    let outputs = enumerate_outputs(&Vec::new());
    assert!(outputs.is_empty());
}

#[test]
fn test_enumerate_connected_with_resolution() {
    let entries = vec![connector("card0-DP-1", "connected\n", Some("1920x1080\n1280x720\n"))];
    let outputs = enumerate_outputs(&entries);
    assert_eq!(outputs.len(), 1);

    let o = &outputs[0];
    assert_eq!(o.connector, "DP-1");
    assert_eq!(o.card, "card0");
    assert!(o.connected);
    assert_eq!(o.native_resolution, Some((1920, 1080)));
}

#[test]
fn test_enumerate_disconnected_no_modes() {
    let entries = vec![connector("card1-HDMI-A-1", "disconnected\n", None)];
    let outputs = enumerate_outputs(&entries);
    assert_eq!(outputs.len(), 1);

    let o = &outputs[0];
    assert_eq!(o.connector, "HDMI-A-1");
    assert_eq!(o.card, "card1");
    assert!(!o.connected);
    assert_eq!(o.native_resolution, None);
}

#[test]
fn test_enumerate_skips_entries_without_status_file() {
    let entries = vec![DrmEntry { name: "card0-DP-2".to_string(), has_status: false, status: None, modes: None }];
    assert!(enumerate_outputs(&entries).is_empty());
}

#[test]
fn test_enumerate_skips_non_card_entries() {
    let entries = vec![connector("version-DP-1", "connected\n", None)];
    assert!(enumerate_outputs(&entries).is_empty());
}

#[test]
fn test_enumerate_sorted_by_card_then_connector() {
    let entries = vec![
        connector("card1-DP-2", "connected\n", Some("1920x1080\n")),
        connector("card0-HDMI-A-1", "connected\n", Some("1280x720\n")),
        connector("card1-DP-1", "connected\n", Some("2560x1440\n")),
        connector("card0-DP-1", "disconnected\n", None),
    ];
    let outputs = enumerate_outputs(&entries);
    assert_eq!(outputs.len(), 4);
    assert_eq!(outputs[0].card, "card0");
    assert_eq!(outputs[0].connector, "DP-1");
    assert_eq!(outputs[1].card, "card0");
    assert_eq!(outputs[1].connector, "HDMI-A-1");
    assert_eq!(outputs[2].card, "card1");
    assert_eq!(outputs[2].connector, "DP-1");
    assert_eq!(outputs[3].card, "card1");
    assert_eq!(outputs[3].connector, "DP-2");
}

#[test]
fn test_enumerate_empty_modes_file() {
    let entries = vec![connector("card0-DP-1", "connected\n", Some(""))];
    let outputs = enumerate_outputs(&entries);
    assert_eq!(outputs.len(), 1);
    assert_eq!(outputs[0].native_resolution, None);
}

#[test]
fn test_enumerate_garbage_modes_line() {
    let entries = vec![connector("card0-DP-1", "connected\n", Some("not_a_resolution\n1920x1080\n"))];
    let outputs = enumerate_outputs(&entries);
    assert_eq!(outputs.len(), 1);
    assert_eq!(outputs[0].native_resolution, None);
}

#[test]
fn test_enumerate_modes_whitespace_only_first_line() {
    let entries = vec![connector("card0-DP-1", "connected\n", Some("   \n1920x1080\n"))];
    let outputs = enumerate_outputs(&entries);
    assert_eq!(outputs[0].native_resolution, None);
}

#[test]
fn test_enumerate_status_case_sensitive() {
    let entries = vec![connector("card0-DP-1", "Connected\n", None)];
    let outputs = enumerate_outputs(&entries);
    assert_eq!(outputs.len(), 1);
    assert!(!outputs[0].connected);
}

#[test]
fn test_enumerate_status_crlf() {
    let entries = vec![connector("card0-DP-1", "connected\r\n", None)];
    let outputs = enumerate_outputs(&entries);
    assert_eq!(outputs.len(), 1);
    assert!(outputs[0].connected);
}

#[test]
fn test_enumerate_connector_name_with_multiple_dashes() {
    let entries = vec![connector("card0-DisplayPort-2", "connected\n", Some("2560x1440\n"))];
    let outputs = enumerate_outputs(&entries);
    assert_eq!(outputs.len(), 1);
    assert_eq!(outputs[0].connector, "DisplayPort-2");
    assert_eq!(outputs[0].card, "card0");
}

#[test]
fn test_enumerate_entry_with_no_dash_is_skipped() {
    let entries = vec![connector("card0", "connected\n", None)];
    assert!(enumerate_outputs(&entries).is_empty());
}

#[test]
fn test_enumerate_modes_first_line_is_native() {
    let entries = vec![connector("card0-DP-1", "connected\n", Some("2560x1440\n1920x1080\n1280x720\n"))];
    let outputs = enumerate_outputs(&entries);
    assert_eq!(outputs[0].native_resolution, Some((2560, 1440)));
}

#[test]
fn terminal_table_wins_over_outputs() {
    let outputs = vec![OutputConfig { connector: "DP-1".to_string(), enabled: true, primary: true }];
    let terminal = TerminalConfig { cols: Some(237), rows: Some(52) };
    match apply_output_config(&outputs, &terminal) {
        SizingChoice::Explicit { rows, cols } => {
            assert_eq!(rows, 52);
            assert_eq!(cols, 237);
        },
        other => panic!("expected explicit sizing, got {other:?}"),
    }
}

#[test]
fn primary_output_wins_then_first_enabled() {
    let none = TerminalConfig { cols: None, rows: None };
    let outputs = vec![
        OutputConfig { connector: "DP-1".to_string(), enabled: false, primary: false },
        OutputConfig { connector: "HDMI-A-1".to_string(), enabled: true, primary: false },
        OutputConfig { connector: "DP-2".to_string(), enabled: true, primary: true },
    ];
    match apply_output_config(&outputs, &none) {
        SizingChoice::Output { connector } => assert_eq!(connector, "DP-2"),
        other => panic!("expected an output, got {other:?}"),
    }
    let no_primary = vec![
        OutputConfig { connector: "DP-1".to_string(), enabled: false, primary: false },
        OutputConfig { connector: "HDMI-A-1".to_string(), enabled: true, primary: false },
    ];
    match apply_output_config(&no_primary, &none) {
        SizingChoice::Output { connector } => assert_eq!(connector, "HDMI-A-1"),
        other => panic!("expected an output, got {other:?}"),
    }
    let all_off = vec![OutputConfig { connector: "DP-1".to_string(), enabled: false, primary: true }];
    assert!(matches!(apply_output_config(&all_off, &none), SizingChoice::NoEnabledOutput));
}

#[test]
fn resize_divides_by_cell_size() {
    let current = WinSize { ws_row: 50, ws_col: 200, ws_xpixel: 1600, ws_ypixel: 800 };
    let r = resize_terminal_to_resolution(1920, 1080, current).expect("resize");
    assert_eq!(r.ws_col, 240);
    assert_eq!(r.ws_row, 67);
    assert!(resize_terminal_to_resolution(1920, 1080, WinSize { ws_row: 0, ws_col: 200, ws_xpixel: 1600, ws_ypixel: 800 }).is_err());
}

#[test]
fn written_resolutions_parse_back() {
    for (w, h) in [(0u16, 0u16), (1920, 1080), (65535, 65535), (7, 40000)] {
        assert_eq!(parse_resolution(&format!("{w}x{h}")), Some((w, h)));
        assert_eq!(parse_resolution(&format!("  {w}x{h}\r\n")), Some((w, h)));
        assert_eq!(parse_resolution(&format!("\t{w}x{h}\t")), Some((w, h)));
    }
}

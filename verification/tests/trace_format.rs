use discopanic::trace::backtrace_enabled;
use discopanic::trace::captured_frames;
use discopanic::trace::current_backtrace_text;
use discopanic::trace::format_trace;
use discopanic::trace::formatted_trace;
use discopanic::trace::Frame;
use discopanic::trace::Symbol;

fn sym(name: Option<&str>, file: Option<&str>, line: Option<u32>) -> Symbol {
    Symbol {
        name: name.map(|s| s.to_string()),
        file: file.map(|s| s.to_string()),
        line,
    }
}

#[test]
fn toggle_off_means_empty_text() {
    let frames = vec![Frame { ip: 0x1234, symbols: vec![sym(Some("alpha"), None, None)] }];
    assert_eq!(formatted_trace(false, &frames), "");
}

#[test]
fn toggle_states() {
    assert!(!backtrace_enabled(&None));
    assert!(!backtrace_enabled(&Some(String::new())));
    assert!(!backtrace_enabled(&Some("0".to_string())));
    assert!(backtrace_enabled(&Some("1".to_string())));
    assert!(backtrace_enabled(&Some("full".to_string())));
    assert!(backtrace_enabled(&Some("00".to_string())));
}

#[test]
fn one_frame_two_inlined_symbols() {
    let frames = vec![Frame {
        ip: 0x1234,
        symbols: vec![
            sym(Some("alpha"), Some("src/x.rs"), Some(7)),
            sym(Some("beta"), None, None),
        ],
    }];
    let indent = " ".repeat(24);
    let expected = format!(
        "\n   0: 0x0000000000001234 - alpha\n{indent}at src/x.rs:7\n{indent} - beta"
    );
    let rendered = formatted_trace(true, &frames);
    assert_eq!(rendered, expected);
    // one index/address line, two symbol lines, one continuation line
    let lines: Vec<&str> = rendered.split('\n').collect();
    assert_eq!(lines.len(), 4);
    assert_eq!(lines[0], "");
    assert!(lines[1].starts_with("   0: 0x"));
    assert!(lines[1].ends_with(" - alpha"));
    assert_eq!(lines[2], format!("{indent}at src/x.rs:7"));
    assert_eq!(lines[3], format!("{indent} - beta"));
    assert_eq!(rendered.matches("at src/x.rs:7").count(), 1);
}

#[test]
fn frame_without_symbols_is_unresolved() {
    let frames = vec![Frame { ip: 0xab, symbols: vec![] }];
    assert_eq!(format_trace(&frames), "\n   0: 0x00000000000000ab - <unresolved>");
}

#[test]
fn symbol_without_name_is_unknown() {
    let frames = vec![Frame { ip: 0, symbols: vec![sym(None, Some("f.rs"), Some(3))] }];
    let indent = " ".repeat(24);
    let expected = format!("\n   0: 0x0000000000000000 - <unknown>\n{indent}at f.rs:3");
    assert_eq!(format_trace(&frames), expected);
}

#[test]
fn symbol_with_file_but_no_line_gets_no_continuation() {
    let frames = vec![Frame { ip: 1, symbols: vec![sym(Some("gamma"), Some("f.rs"), None)] }];
    assert_eq!(format_trace(&frames), "\n   0: 0x0000000000000001 - gamma");
}

#[test]
fn frames_are_numbered_in_order() {
    let frames = vec![
        Frame { ip: 0x10, symbols: vec![sym(Some("a"), None, None)] },
        Frame { ip: 0x20, symbols: vec![sym(Some("b"), None, None)] },
    ];
    let expected = "\n   0: 0x0000000000000010 - a\n   1: 0x0000000000000020 - b";
    assert_eq!(format_trace(&frames), expected);
}

#[test]
fn empty_trace_renders_empty() {
    assert_eq!(format_trace(&vec![]), "");
}

#[test]
fn current_backtrace_text_honours_the_toggle() {
    assert_eq!(current_backtrace_text(&None), "");
    assert_eq!(current_backtrace_text(&Some("0".to_string())), "");
    let text = current_backtrace_text(&Some("1".to_string()));
    assert!(text.is_empty() || text.starts_with('\n'));
}

#[test]
fn captured_frames_render_without_failing() {
    // runs the real capture and the renderer on whatever this machine yields
    let frames = captured_frames();
    let text = format_trace(&frames);
    assert!(text.is_empty() || text.starts_with('\n'));
}

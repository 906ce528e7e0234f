use discopanic::resolve::build_span;
use discopanic::resolve::count_newlines;
use discopanic::resolve::has_prefix;
use discopanic::resolve::line_range;
use discopanic::resolve::next_project_frame;
use discopanic::trace::Frame;
use discopanic::trace::Symbol;

fn frame_at(ip: u64, file: &str, line: u32) -> Frame {
    Frame {
        ip,
        symbols: vec![Symbol {
            name: Some("f".to_string()),
            file: Some(file.to_string()),
            line: Some(line),
        }],
    }
}

#[test]
fn prefix_check() {
    assert!(has_prefix("project/b.rs", "project/"));
    assert!(!has_prefix("outside/a.rs", "project/"));
    assert!(!has_prefix("pro", "project/"));
    assert!(has_prefix("anything", ""));
}

#[test]
fn resolver_picks_first_project_frame() {
    let frames = vec![
        frame_at(1, "outside/a.rs", 1),
        frame_at(2, "project/b.rs", 2),
        frame_at(3, "outside/c.rs", 3),
    ];
    let hit = next_project_frame("project/", &frames, 0).unwrap();
    assert_eq!(hit.frame_idx, 1);
    assert_eq!(hit.file, "project/b.rs");
    assert_eq!(hit.line, 2);
}

#[test]
fn resolver_prefers_innermost_of_two_project_frames() {
    let frames = vec![
        frame_at(1, "project/inner.rs", 4),
        frame_at(2, "project/outer.rs", 9),
    ];
    let hit = next_project_frame("project/", &frames, 0).unwrap();
    assert_eq!(hit.file, "project/inner.rs");
    let later = next_project_frame("project/", &frames, 1).unwrap();
    assert_eq!(later.file, "project/outer.rs");
}

#[test]
fn resolver_without_project_frame_finds_nothing() {
    let frames = vec![frame_at(1, "outside/a.rs", 1), frame_at(2, "outside/c.rs", 3)];
    assert!(next_project_frame("project/", &frames, 0).is_none());
}

#[test]
fn resolver_skips_symbols_without_debug_info() {
    let frames = vec![Frame {
        ip: 7,
        symbols: vec![
            Symbol { name: Some("f".to_string()), file: Some("project/x.rs".to_string()), line: None },
            Symbol { name: None, file: Some("project/y.rs".to_string()), line: Some(3) },
        ],
    }];
    let hit = next_project_frame("project/", &frames, 0).unwrap();
    assert_eq!(hit.file, "project/y.rs");
    assert_eq!(hit.line, 3);
}

#[test]
fn line_range_cuts_the_right_lines() {
    let text = "one\ntwo\nthree";
    assert_eq!(line_range(text, 0, 0).unwrap(), "one");
    assert_eq!(line_range(text, 1, 1).unwrap(), "two");
    assert_eq!(line_range(text, 2, 2).unwrap(), "three");
    assert_eq!(line_range(text, 0, 1).unwrap(), "one\ntwo");
    assert_eq!(line_range(text, 0, 2).unwrap(), text);
    assert!(line_range(text, 1, 0).is_none());
    assert!(line_range(text, 2, 3).is_none());
}

#[test]
fn line_range_edges() {
    assert_eq!(line_range("", 0, 0).unwrap(), "");
    assert!(line_range("", 0, 1).is_none());
    assert_eq!(line_range("a\n", 1, 1).unwrap(), "");
    assert_eq!(line_range("\n\nx", 2, 2).unwrap(), "x");
    assert_eq!(count_newlines("a\nb\nc"), 2);
    assert_eq!(count_newlines(""), 0);
}

#[test]
fn build_span_extracts_around_the_reported_line() {
    let sp = build_span("proj/", "proj/src/m.rs", 2, "one\ntwo\nthree\nfour").unwrap();
    assert_eq!(sp.path, "src/m.rs");
    assert_eq!(sp.line, 2);
    assert_eq!(sp.line_start, 1);
    assert_eq!(sp.line_end, 3);
    assert_eq!(sp.excerpt, "one\ntwo\nthree");
}

#[test]
fn build_span_clamps_at_the_file_edges() {
    let sp = build_span("proj/", "proj/m.rs", 1, "one\ntwo").unwrap();
    assert_eq!((sp.line_start, sp.line_end), (1, 2));
    assert_eq!(sp.excerpt, "one\ntwo");
    let sp = build_span("proj/", "proj/m.rs", 1, "only").unwrap();
    assert_eq!((sp.line_start, sp.line_end), (1, 1));
    assert_eq!(sp.excerpt, "only");
    let sp = build_span("proj/", "proj/m.rs", 3, "a\nb\nc").unwrap();
    assert_eq!((sp.line_start, sp.line_end), (2, 3));
    assert_eq!(sp.excerpt, "b\nc");
}

#[test]
fn build_span_soft_failures() {
    assert!(build_span("proj/", "other/m.rs", 2, "one\ntwo").is_none());
    assert!(build_span("proj/", "proj/m.rs", 0, "one\ntwo").is_none());
    assert!(build_span("proj/", "proj/m.rs", 99, "one\ntwo").is_none());
}

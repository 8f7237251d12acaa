use dev_tool::json::format_json;
use dev_tool::json::format_json_with_progress;
use dev_tool::json::is_valid_json_quick_check;
use dev_tool::json::minify_json;
use dev_tool::json::minify_json_with_progress;
use dev_tool::json::size_class;
use dev_tool::json::size_limit_error_msg;
use dev_tool::json::submit;
use dev_tool::json::JsonOp;
use dev_tool::json::SizeClass;
use dev_tool::JsonLogic;
use dev_tool::ProcessUpdate;

fn progress_values(ev: &[ProcessUpdate]) -> Vec<usize> {
    ev.iter().filter_map(|e| e.progress_value()).collect()
}

fn terminal_text(ev: &[ProcessUpdate]) -> String {
    match ev.last().expect("stream must not be empty") {
        ProcessUpdate::Result(t) => t.clone(),
        ProcessUpdate::Progress(_) => panic!("stream must end in a result"),
    }
}

/// A valid JSON object of exactly `len` bytes, for boundary tests.
fn object_of_len(len: usize) -> String {
    assert!(len >= 9);
    let pad = len - 8;
    let mut s = String::from("{\"k\":\"");
    for _ in 0..pad {
        s.push('a');
    }
    s.push_str("\"}");
    assert_eq!(s.len(), len);
    s
}

/// A valid JSON array of small integers, at least `len` bytes long.
fn array_of_at_least(len: usize) -> String {
    let mut s = String::from("[");
    let mut i = 0u64;
    while s.len() < len {
        if i > 0 {
            s.push(',');
        }
        s.push_str(&(i % 10).to_string());
        i += 1;
    }
    s.push(']');
    s
}

#[test]
fn pretty_small_object() {
    let ev = submit("{\"a\":1}", JsonOp::Pretty);
    assert_eq!(ev.len(), 1);
    let text = terminal_text(&ev);
    assert_eq!(text, "{\n  \"a\": 1\n}");
    assert!(text.contains("\"a\": 1"));
    assert!(progress_values(&ev).is_empty());
}

#[test]
fn minify_broken_input() {
    let ev = submit("{broken", JsonOp::Minify);
    assert_eq!(ev.len(), 1);
    assert!(terminal_text(&ev).starts_with("invalid JSON"));
    assert!(progress_values(&ev).is_empty());
}

#[test]
fn empty_input_is_synchronous() {
    let ev = submit("", JsonOp::Pretty);
    assert_eq!(ev.len(), 1);
    assert_eq!(terminal_text(&ev), "please enter JSON content");
}

#[test]
fn sync_boundary_just_below() {
    let ev = submit(&object_of_len(4999), JsonOp::Minify);
    assert_eq!(ev.len(), 1);
    assert!(progress_values(&ev).is_empty());
}

#[test]
fn async_boundary_at_limit() {
    let input = object_of_len(5000);
    let ev = submit(&input, JsonOp::Minify);
    assert!(ev.len() > 1);
    assert_eq!(progress_values(&ev), vec![5, 30, 60, 90, 100]);
    assert_eq!(terminal_text(&ev), minify_json(&input));
}

#[test]
fn medium_boundary_at_threshold() {
    let ev = submit(&object_of_len(500_000), JsonOp::Minify);
    assert_eq!(progress_values(&ev), vec![5, 30, 60, 90, 100]);
}

#[test]
fn large_boundary_above_threshold() {
    let ev = submit(&object_of_len(500_001), JsonOp::Minify);
    assert_eq!(progress_values(&ev), vec![5, 10, 15, 20, 50, 70, 90, 100]);
}

#[test]
fn hard_cap_at_twenty_megabytes() {
    let input = object_of_len(20_000_000);
    let ev = submit(&input, JsonOp::Minify);
    let text = terminal_text(&ev);
    assert!(!text.starts_with("JSON too large"));
    assert!(text.starts_with("{\"k\":"));
}

#[test]
fn rejected_above_twenty_megabytes() {
    let input = object_of_len(20_000_001);
    let ev = submit(&input, JsonOp::Minify);
    assert_eq!(ev.len(), 1);
    assert_eq!(terminal_text(&ev), "JSON too large (19MB), please split");
}

#[test]
fn large_array_progress_ramp() {
    let input = array_of_at_least(600_000);
    assert!(input.len() > 500_000);
    let ev = submit(&input, JsonOp::Pretty);
    let ps = progress_values(&ev);
    assert_eq!(ps, vec![5, 10, 15, 20, 50, 60, 65, 70, 75, 80, 85, 90, 100]);
    assert!(ps.iter().any(|&p| p <= 20));
    assert!(ps.iter().any(|&p| p >= 90));
    let text = terminal_text(&ev);
    assert!(text.contains('\n'));
}

#[test]
fn small_array_large_input_skips_ramp() {
    // An array of few but huge elements: large input, <= 1000 elements.
    let mut input = String::from("[\"");
    for _ in 0..600_000 {
        input.push('a');
    }
    input.push_str("\"]");
    let ev = submit(&input, JsonOp::Minify);
    assert_eq!(progress_values(&ev), vec![5, 10, 15, 20, 50, 90, 100]);
}

#[test]
fn progress_is_monotone_and_single_terminal() {
    let input = array_of_at_least(600_000);
    let ev = submit(&input, JsonOp::Minify);
    let mut last = 0usize;
    for (i, e) in ev.iter().enumerate() {
        match e {
            ProcessUpdate::Progress(p) => {
                assert!(i < ev.len() - 1);
                assert!(*p >= last && *p <= 100);
                last = *p;
            }
            ProcessUpdate::Result(_) => assert_eq!(i, ev.len() - 1),
        }
    }
}

#[test]
fn worker_rejects_garbage_before_parsing() {
    let mut input = String::from("x");
    for _ in 0..6000 {
        input.push('y');
    }
    let ev = submit(&input, JsonOp::Pretty);
    assert_eq!(ev.len(), 1);
    assert_eq!(terminal_text(&ev), "invalid JSON");
}

#[test]
fn worker_parse_error_has_detail() {
    let mut input = String::from("{\"k\":\"");
    for _ in 0..6000 {
        input.push('a');
    }
    // Opened but never closed: passes the sniff only if bracketed, so
    // close with the wrong bracket's body broken inside.
    input.push_str("\"");
    input.push('}');
    input.insert(3, '\u{0}');
    let ev = submit(&input, JsonOp::Pretty);
    assert_eq!(ev.len(), 3);
    let text = terminal_text(&ev);
    assert!(text.starts_with("invalid JSON: "));
    assert!(text.len() > "invalid JSON: ".len());
}

#[test]
fn reparsing_preserves_value() {
    let samples = [
        "{\"b\":2,\"a\":[1,2,3],\"c\":{\"d\":null,\"e\":true}}",
        "[1,2.5,-3,\"x\",false,null,[],{}]",
        "{\"n\":1e10,\"s\":\"\\u00e9\\n\"}",
    ];
    for t in samples {
        let pretty = format_json(t);
        let min = minify_json(t);
        let v0: serde_json::Value = serde_json::from_str(t).unwrap();
        let v1: serde_json::Value = serde_json::from_str(&pretty).unwrap();
        let v2: serde_json::Value = serde_json::from_str(&min).unwrap();
        assert_eq!(v0, v1);
        assert_eq!(v0, v2);
    }
}

#[test]
fn pretty_minify_round_trips() {
    let samples = [
        "{\"b\":2,\"a\":[1,2,3],\"c\":{\"d\":null,\"e\":true}}",
        "[1,2.5,-3,\"x\",false,null,[],{}]",
        "  {  \"a\" : 1 ,\t\"b\":[ ] } ",
    ];
    for t in samples {
        let pretty = format_json(t);
        let min = minify_json(t);
        assert_eq!(minify_json(&pretty), min);
        assert_eq!(format_json(&min), pretty);
    }
}

#[test]
fn minify_removes_whitespace() {
    assert_eq!(minify_json("{ \"a\" : 1 }"), "{\"a\":1}");
}

#[test]
fn format_indents_two_spaces() {
    assert_eq!(format_json("{\"a\":1}"), "{\n  \"a\": 1\n}");
}

#[test]
fn sync_error_has_detail() {
    let text = format_json("{broken");
    assert!(text.starts_with("invalid JSON: "));
    assert!(text.len() > "invalid JSON: ".len());
}

#[test]
fn quick_check_accepts_trimmed_envelopes() {
    assert!(is_valid_json_quick_check("  {\"a\":1}  "));
    assert!(is_valid_json_quick_check("\n[1,2]\t"));
    assert!(!is_valid_json_quick_check(""));
    assert!(!is_valid_json_quick_check("   "));
    assert!(!is_valid_json_quick_check("hello"));
    assert!(!is_valid_json_quick_check("{\"a\":1]"));
    assert!(!is_valid_json_quick_check("[1,2}"));
}

#[test]
fn quick_check_trims_unicode_whitespace() {
    assert!(is_valid_json_quick_check("\u{000B}[1]\u{3000}"));
    assert!(is_valid_json_quick_check("\u{00A0}{\"a\":1}\u{2028}"));
    assert!(!is_valid_json_quick_check("\u{3000}\u{000B}"));
}

#[test]
fn size_classes_at_boundaries() {
    assert_eq!(size_class(0), SizeClass::Empty);
    assert_eq!(size_class(1), SizeClass::Small);
    assert_eq!(size_class(4_999), SizeClass::Small);
    assert_eq!(size_class(5_000), SizeClass::Medium);
    assert_eq!(size_class(500_000), SizeClass::Medium);
    assert_eq!(size_class(500_001), SizeClass::Large);
    assert_eq!(size_class(20_000_000), SizeClass::Large);
    assert_eq!(size_class(20_000_001), SizeClass::Oversized);
}

#[test]
fn oversize_message_reports_megabytes() {
    assert_eq!(size_limit_error_msg(20_000_001), "JSON too large (19MB), please split");
    assert_eq!(size_limit_error_msg(41_943_040), "JSON too large (40MB), please split");
}

#[test]
fn logic_facade_matches_free_functions() {
    let logic = JsonLogic::new();
    assert_eq!(logic.format("{\"a\":1}"), format_json("{\"a\":1}"));
    assert_eq!(logic.minify("{ \"a\" : 1 }"), minify_json("{ \"a\" : 1 }"));
    assert_eq!(logic.format_async("{broken"), "invalid JSON");
    assert_eq!(logic.minify_async("nonsense"), "invalid JSON");
    assert_eq!(logic.minify_async("{\"a\": 1}"), "{\"a\":1}");
}

#[test]
fn with_progress_entry_points_agree() {
    let input = object_of_len(6_000);
    let a = format_json_with_progress(&input);
    let b = JsonLogic::new().format_with_progress(&input);
    assert_eq!(progress_values(&a), progress_values(&b));
    assert_eq!(terminal_text(&a), terminal_text(&b));
    let c = minify_json_with_progress(&input);
    assert_eq!(terminal_text(&c), minify_json(&input));
}

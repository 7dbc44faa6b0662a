use kenbun::history::{LogHistory, HISTORY_LIMIT};
use kenbun::port_detect::{accepted_port_of, PortPattern, PortResolver, MIN_REPORTED_PORT};

#[test]
fn history_keeps_every_line_below_the_limit() {
    let mut h = LogHistory::new();
    assert_eq!(h.len(), 0);
    assert!(h.lines().is_empty());
    h.push("first".to_string());
    h.push("second".to_string());
    assert_eq!(h.len(), 2);
    assert_eq!(h.lines(), vec!["first".to_string(), "second".to_string()]);
}

#[test]
fn history_keeps_the_latest_thousand_lines() {
    let mut h = LogHistory::new();
    for i in 0..1005 {
        h.push(format!("line {}", i));
    }
    assert_eq!(HISTORY_LIMIT, 1000);
    assert_eq!(h.len(), 1000);
    let lines = h.lines();
    assert_eq!(lines.len(), 1000);
    assert_eq!(lines[0], "line 5");
    assert_eq!(lines[999], "line 1004");
    for (k, line) in lines.iter().enumerate() {
        assert_eq!(*line, format!("line {}", k + 5));
    }
}

#[test]
fn history_at_exactly_the_limit_drops_nothing() {
    let mut h = LogHistory::new();
    for i in 0..1000 {
        h.push(i.to_string());
    }
    assert_eq!(h.lines()[0], "0");
    h.push("x".to_string());
    assert_eq!(h.lines()[0], "1");
    assert_eq!(h.lines()[999], "x");
}

#[test]
fn pattern_group_one_is_the_captured_text() {
    let p = PortPattern::compile(r"localhost:(\d{4,5})").unwrap();
    assert_eq!(p.first_group("open http://localhost:5173/ now"), Some("5173".to_string()));
    assert_eq!(p.first_group("nothing here"), None);
    assert!(PortPattern::compile(r"port(").is_none());
}

fn scan(line: &str) -> Option<u16> {
    PortResolver::new().scan(line)
}

#[test]
fn resolver_reads_ports_from_common_banners() {
    assert_eq!(scan("Server running at http://localhost:3000"), Some(3000));
    assert_eq!(scan("listening on 0.0.0.0:5173"), Some(5173));
    assert_eq!(scan("Started on http://127.0.0.1: 8080"), None);
    assert_eq!(scan("started on http://127.0.0.1: 8080"), Some(8080));
    assert_eq!(scan("port = 4000"), Some(4000));
    assert_eq!(scan("PORT=3001 localhost:4000"), Some(3001));
    assert_eq!(scan("Bun.serve({ port: 7000 })"), Some(7000));
    assert_eq!(scan("Listening on port 8080"), None);
}

#[test]
fn resolver_ignores_low_and_invalid_ports() {
    assert_eq!(MIN_REPORTED_PORT, 1024);
    assert_eq!(scan("port: 80"), None);
    assert_eq!(scan("port=1000"), None);
    assert_eq!(scan("port=1023 localhost:1024"), Some(1024));
    assert_eq!(scan("port=99999"), None);
    assert_eq!(scan("localhost:\u{0661}\u{0662}\u{0663}\u{0664}"), None);
    assert_eq!(scan("port=1000 and later localhost:4321"), Some(4321));
}

#[test]
fn resolver_reports_only_the_first_port() {
    let mut r = PortResolver::new();
    assert!(!r.has_reported());
    assert_eq!(r.observe("booting..."), None);
    assert!(!r.has_reported());
    assert_eq!(r.observe("port: 80"), None);
    assert_eq!(r.observe("listening on :3000"), Some(3000));
    assert!(r.has_reported());
    assert_eq!(r.observe("listening on :4000"), None);
    assert!(r.has_reported());
    assert_eq!(r.scan("listening on :4000"), Some(4000));
}

#[test]
fn captured_text_becomes_a_port() {
    assert_eq!(accepted_port_of(&None), None);
    assert_eq!(accepted_port_of(&Some("3000".to_string())), Some(3000));
    assert_eq!(accepted_port_of(&Some("1024".to_string())), Some(1024));
    assert_eq!(accepted_port_of(&Some("1023".to_string())), None);
    assert_eq!(accepted_port_of(&Some("65536".to_string())), None);
    assert_eq!(accepted_port_of(&Some("+8080".to_string())), Some(8080));
    assert_eq!(accepted_port_of(&Some("80a0".to_string())), None);
}

#[test]
fn every_pattern_is_tried_in_order() {
    assert_eq!(scan("port:2000 listening on 3000"), Some(2000));
    assert_eq!(scan("listening on 3000 localhost:4000"), Some(3000));
    assert_eq!(scan("started on host: 5000"), Some(5000));
    assert_eq!(scan("PORT = 6000"), Some(6000));
    assert_eq!(scan("Server running at 127.0.0.1 on 7000"), Some(7000));
    assert_eq!(scan("Bun.serve listening, port :8000"), Some(8000));
    assert_eq!(scan("see localhost:9000"), Some(9000));
}

#[test]
fn history_window_from_a_filled_history() {
    let mut h = LogHistory::new();
    for i in 0..600 {
        h.push(format!("old {}", i));
    }
    for i in 0..700 {
        h.push(format!("new {}", i));
    }
    let lines = h.lines();
    assert_eq!(lines.len(), 1000);
    assert_eq!(lines[0], "old 300");
    assert_eq!(lines[299], "old 599");
    assert_eq!(lines[300], "new 0");
    assert_eq!(lines[999], "new 699");
}

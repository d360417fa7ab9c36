use sidecar_supervisor::logging::LogDestination;
use sidecar_supervisor::logging::Severity;
use sidecar_supervisor::logging::app_exit_line;
use sidecar_supervisor::logging::app_start_line;
use sidecar_supervisor::logging::client_level_severity;
use sidecar_supervisor::logging::error_line;
use sidecar_supervisor::logging::format_log_line;
use sidecar_supervisor::logging::info_line;
use sidecar_supervisor::logging::log_destination;
use sidecar_supervisor::logging::log_file_name;
use sidecar_supervisor::logging::sidecar_error_line;
use sidecar_supervisor::logging::sidecar_ready_line;
use sidecar_supervisor::logging::sidecar_start_line;
use sidecar_supervisor::logging::spawn_failure_line;
use sidecar_supervisor::ports::ListenEndpoint;
use sidecar_supervisor::ports::allocate;
use sidecar_supervisor::ports::choose_port;
use sidecar_supervisor::ports::local_url;
use sidecar_supervisor::ports::loopback_host;
use sidecar_supervisor::probe::ProbeDecision;
use sidecar_supervisor::probe::probe_deadline;
use sidecar_supervisor::probe::probe_step;
use sidecar_supervisor::relay::LineBuffer;
use sidecar_supervisor::relay::StreamKind;
use sidecar_supervisor::relay::relay_line;
use sidecar_supervisor::supervisor::backend_install_dir;
use sidecar_supervisor::supervisor::entry_file_name;
use sidecar_supervisor::supervisor::entry_file_path;
use sidecar_supervisor::supervisor::runtime_path;
use sidecar_supervisor::text::decimal_string;
use sidecar_supervisor::text::join_path;

#[test]
fn decimal_strings_are_exact() {
    assert_eq!(decimal_string(0), "0");
    assert_eq!(decimal_string(7), "7");
    assert_eq!(decimal_string(200), "200");
    assert_eq!(decimal_string(3000), "3000");
    assert_eq!(decimal_string(34425), "34425");
    assert_eq!(decimal_string(65535), "65535");
}

#[test]
fn path_joining_is_exact() {
    assert_eq!(join_path("/opt/app", "bin"), "/opt/app/bin");
    assert_eq!(backend_install_dir("/res"), "/res/next/standalone");
    assert_eq!(entry_file_path("/res"), "/res/next/standalone/server.js");
    assert_eq!(entry_file_name(), "server.js");
    assert_eq!(runtime_path("/res", false), "/res/bin/node");
    assert_eq!(runtime_path("/res", true), "/res/bin/node.exe");
}

#[test]
fn port_policy_prefers_then_falls_back() {
    assert_eq!(choose_port(34425, 3000, true), 34425);
    assert_eq!(choose_port(34425, 3000, false), 3000);
    assert_eq!(allocate(true), ListenEndpoint { port: 34425 });
    assert_eq!(allocate(false), ListenEndpoint { port: 3000 });
}

#[test]
fn local_url_is_exact() {
    assert_eq!(loopback_host(), "127.0.0.1");
    assert_eq!(
        local_url(ListenEndpoint { port: 34425 }),
        "http://127.0.0.1:34425"
    );
    assert_eq!(local_url(ListenEndpoint { port: 3000 }), "http://127.0.0.1:3000");
}

#[test]
fn local_url_parses_as_a_valid_url() {
    let text = local_url(ListenEndpoint { port: 34425 });
    let parsed = url::Url::parse(&text).unwrap();
    assert_eq!(parsed.scheme(), "http");
    assert_eq!(parsed.host_str(), Some("127.0.0.1"));
    assert_eq!(parsed.port(), Some(34425));
}

#[test]
fn log_lines_carry_tag_and_message() {
    assert_eq!(format_log_line(Severity::Info, "hello"), "[INFO] hello");
    assert_eq!(format_log_line(Severity::Error, "boom"), "[ERROR] boom");
    assert_eq!(info_line("x"), "[INFO] x");
    assert_eq!(error_line("y"), "[ERROR] y");
}

#[test]
fn fixed_log_lines_are_exact() {
    assert_eq!(app_start_line(), "[INFO] App starting");
    assert_eq!(app_exit_line(), "[INFO] App exiting");
    assert_eq!(
        sidecar_start_line(34425),
        "[INFO] Sidecar process starting on port 34425"
    );
    assert_eq!(
        sidecar_ready_line("127.0.0.1", 3000),
        "[INFO] Sidecar process ready at http://127.0.0.1:3000"
    );
    assert_eq!(
        sidecar_error_line("went away"),
        "[ERROR] Sidecar error: went away"
    );
    assert_eq!(
        spawn_failure_line("no such file"),
        "[ERROR] Sidecar error: Failed to spawn sidecar: no such file"
    );
}

#[test]
fn log_destination_follows_packaging_flag() {
    assert_eq!(log_destination(true), LogDestination::LogFile);
    assert_eq!(log_destination(false), LogDestination::Console);
    assert_eq!(log_file_name(), "sidecar.log");
}

#[test]
fn client_levels_classify_case_insensitively() {
    assert_eq!(client_level_severity("error"), Severity::Error);
    assert_eq!(client_level_severity("ERROR"), Severity::Error);
    assert_eq!(client_level_severity("Error"), Severity::Error);
    assert_eq!(client_level_severity("info"), Severity::Info);
    assert_eq!(client_level_severity("warn"), Severity::Info);
    assert_eq!(client_level_severity("errors"), Severity::Info);
    assert_eq!(client_level_severity(""), Severity::Info);
}

#[test]
fn relay_splits_lines_across_chunk_boundaries() {
    let mut buf = LineBuffer::new();
    let mut lines: Vec<Vec<u8>> = Vec::new();
    lines.extend(buf.feed(b"hel"));
    lines.extend(buf.feed(b"lo\nwor"));
    lines.extend(buf.feed(b"ld\n\ntail"));
    assert_eq!(
        lines,
        vec![b"hello".to_vec(), b"world".to_vec(), Vec::<u8>::new()]
    );
    assert_eq!(buf.pending_bytes().as_slice(), b"tail");
}

#[test]
fn relay_emits_each_line_exactly_once() {
    let mut buf = LineBuffer::new();
    let mut count = 0;
    for chunk in [b"a\nb".as_slice(), b"\n".as_slice(), b"c\n".as_slice()] {
        count += buf.feed(chunk).len();
    }
    assert_eq!(count, 3);
    assert!(buf.pending_bytes().is_empty());
}

#[test]
fn relay_with_no_newline_emits_nothing() {
    let mut buf = LineBuffer::new();
    assert!(buf.feed(b"incomplete").is_empty());
    assert_eq!(buf.pending_bytes().as_slice(), b"incomplete");
    assert!(buf.feed(b"").is_empty());
    assert_eq!(buf.pending_bytes().as_slice(), b"incomplete");
}

#[test]
fn relayed_lines_are_tagged_by_stream() {
    assert_eq!(
        relay_line(StreamKind::Stdout, "listening"),
        "[INFO] sidecar stdout: listening"
    );
    assert_eq!(
        relay_line(StreamKind::Stderr, "oops"),
        "[ERROR] sidecar stderr: oops"
    );
}

#[test]
fn probe_reports_ready_before_deadline() {
    assert_eq!(probe_step(100, 20100, true), ProbeDecision::Ready);
    assert_eq!(probe_step(20099, 20100, true), ProbeDecision::Ready);
}

#[test]
fn probe_retries_until_deadline() {
    assert_eq!(probe_step(100, 20100, false), ProbeDecision::RetryAfterBackoff);
    assert_eq!(probe_step(20099, 20100, false), ProbeDecision::RetryAfterBackoff);
}

#[test]
fn probe_gives_up_at_the_deadline() {
    assert_eq!(probe_step(20100, 20100, false), ProbeDecision::GiveUp);
    assert_eq!(probe_step(20100, 20100, true), ProbeDecision::GiveUp);
    assert_eq!(probe_step(u64::MAX, 20100, false), ProbeDecision::GiveUp);
}

#[test]
fn probe_deadline_is_start_plus_timeout() {
    assert_eq!(probe_deadline(500, 20000), 20500);
}

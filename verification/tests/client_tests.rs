//! Tests for the per-window client record and its focus state machine.

use wm_core::client::Client;
use wm_core::connection::{ConnOp, RecordingConnection, WindowConnection};
use wm_core::data_types::{Border, ColorScheme};

fn scheme() -> ColorScheme {
    ColorScheme { urgent: 0x00ff_0000, highlight: 0x0000_ff00, fg_1: 0x0000_00ff }
}

#[test]
fn new_client_starts_unfocused_and_not_fullscreen() {
    let c = Client::new(1, Some(String::from("firefox")), String::from("Firefox"), false);
    assert!(!c.is_focused());
    assert!(!c.is_fullscreen());
    assert!(!c.is_floating());
    assert_eq!(c.id(), 1);
    assert_eq!(c.class(), "Firefox");
}

#[test]
fn new_client_keeps_floating_argument() {
    let floating = Client::new(2, None, String::from("mpv"), true);
    assert!(floating.is_floating());
    assert!(!floating.is_focused());
    assert!(!floating.is_fullscreen());

    let tiled = Client::new(3, None, String::from("st"), false);
    assert!(!tiled.is_floating());
}

#[test]
fn wm_name_reports_the_mapped_name() {
    let c = Client::new(4, Some(String::from("firefox")), String::from("Firefox"), false);
    assert_eq!(c.wm_name(), "firefox");
}

#[test]
fn wm_name_falls_back_to_placeholder() {
    let c = Client::new(5, None, String::from("Firefox"), false);
    assert_eq!(c.wm_name(), "n/a");
}

#[test]
fn focus_sets_flag_and_paints_highlight() {
    let mut c = Client::new(7, None, String::from("st"), false);
    let mut conn = RecordingConnection::new();
    c.focus(&mut conn, &scheme());

    assert!(c.is_focused());
    assert_eq!(
        conn.issued().as_slice(),
        &[ConnOp::FocusClient(7), ConnOp::SetClientBorderColor(7, 0x0000_ff00)],
    );
    assert_eq!(conn.last_request(), Some(ConnOp::SetClientBorderColor(7, 0x0000_ff00)));
}

#[test]
fn unfocus_clears_flag_and_paints_unfocused_color() {
    let mut c = Client::new(8, None, String::from("st"), false);
    let mut conn = RecordingConnection::new();
    c.focus(&mut conn, &scheme());
    c.unfocus(&mut conn, &scheme());

    assert!(!c.is_focused());
    assert_eq!(conn.last_request(), Some(ConnOp::SetClientBorderColor(8, 0x0000_00ff)));
}

#[test]
fn unfocus_does_not_transfer_input_focus() {
    let mut c = Client::new(9, None, String::from("st"), false);
    let mut conn = RecordingConnection::new();
    c.unfocus(&mut conn, &scheme());

    assert_eq!(conn.issued().as_slice(), &[ConnOp::SetClientBorderColor(9, 0x0000_00ff)]);
}

#[test]
fn focus_cycle_repaints_the_same_color() {
    let mut c = Client::new(10, None, String::from("st"), false);
    let mut conn = RecordingConnection::new();
    c.focus(&mut conn, &scheme());
    c.unfocus(&mut conn, &scheme());
    c.focus(&mut conn, &scheme());

    let ops = conn.issued();
    assert_eq!(ops.len(), 5);
    // the second focus issues exactly what the first focus issued
    assert_eq!(ops[3], ops[0]);
    assert_eq!(ops[4], ops[1]);
    assert_eq!(ops[4], ConnOp::SetClientBorderColor(10, 0x0000_ff00));
    assert!(c.is_focused());
}

#[test]
fn urgent_border_uses_the_urgent_color() {
    let mut c = Client::new(11, None, String::from("st"), false);
    let mut conn = RecordingConnection::new();
    c.set_window_border(&mut conn, Border::Urgent, &scheme());

    assert_eq!(conn.last_request(), Some(ConnOp::SetClientBorderColor(11, 0x00ff_0000)));
    assert!(!c.is_focused());
}

#[test]
fn focus_flags_leave_floating_and_fullscreen_alone() {
    let mut c = Client::new(12, None, String::from("mpv"), true);
    let mut conn = RecordingConnection::new();
    c.focus(&mut conn, &scheme());
    assert!(c.is_floating());
    assert!(!c.is_fullscreen());
    c.unfocus(&mut conn, &scheme());
    assert!(c.is_floating());
    assert!(!c.is_fullscreen());
}

#[test]
fn recording_connection_orders_requests() {
    let mut conn = RecordingConnection::new();
    assert_eq!(conn.last_request(), None);
    conn.focus_client(1);
    conn.set_client_border_color(2, 77);
    conn.focus_client(3);
    assert_eq!(
        conn.issued().as_slice(),
        &[ConnOp::FocusClient(1), ConnOp::SetClientBorderColor(2, 77), ConnOp::FocusClient(3)],
    );
}

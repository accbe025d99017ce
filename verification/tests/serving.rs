use heckit::page::Project;
use heckit::response::build_page_response;
use heckit::server::AcceptAction;
use heckit::server::Handler;
use heckit::server::Phase;
use heckit::server::Server;

fn sample_projects() -> Vec<Project> {
    vec![
        Project {
            title: String::from("noiser"),
            desc: String::from("FM Synth + step sequencer"),
            href: String::from("https://noiser.shockham.now.sh/"),
            img: Some(String::from("https://assets.merveilles.town/media_attachments/files/000/506/971/original/2e99238bf0de5ee4.png")),
        },
        Project {
            title: String::from("volition"),
            desc: String::from("Minamalist input lib"),
            href: String::from("https://github.com/shockham/volition"),
            img: None,
        },
    ]
}

fn sample_server() -> Server {
    Server::new(build_page_response(&sample_projects()))
}

fn dispatch(server: &Server) -> Handler {
    match server.on_accept(true) {
        AcceptAction::Dispatch(h) => h,
        AcceptAction::Report => panic!("a successful accept must dispatch a handler"),
    }
}

#[test]
fn fresh_connection_receives_http_response() {
    let server = sample_server();
    let mut handler = dispatch(&server);
    assert_eq!(handler.current_phase(), Phase::Accepted);
    let payload = handler.begin_write();
    assert!(payload.starts_with("HTTP/1.1 200 OK\nContent-Type: text/html; charset=UTF-8\n"));
    assert_eq!(handler.current_phase(), Phase::Writing);
    handler.on_write_result(true);
    assert_eq!(handler.current_phase(), Phase::WriteSucceeded);
    handler.on_shutdown_result(true);
    assert_eq!(handler.current_phase(), Phase::Closed);
}

#[test]
fn fifty_connections_identical_bytes() {
    let server = sample_server();
    let mut payloads: Vec<String> = Vec::new();
    for _ in 0..50 {
        let mut handler = dispatch(&server);
        payloads.push(handler.begin_write());
        handler.on_write_result(true);
        handler.on_shutdown_result(true);
    }
    for payload in &payloads {
        assert_eq!(payload, &payloads[0]);
    }
}

#[test]
fn failed_accept_reports_and_serving_continues() {
    let server = sample_server();
    match server.on_accept(false) {
        AcceptAction::Report => {}
        AcceptAction::Dispatch(_) => panic!("a failed accept must not dispatch"),
    }
    // The very next successful accept is served in full.
    let mut before = dispatch(&server);
    let expected = before.begin_write();
    let mut handler = dispatch(&server);
    let payload = handler.begin_write();
    assert_eq!(payload, expected);
    handler.on_write_result(true);
    handler.on_shutdown_result(true);
    assert_eq!(handler.current_phase(), Phase::Closed);
}

#[test]
fn dropped_client_does_not_affect_later_connections() {
    let server = sample_server();

    // Client of connection A goes away: its write fails, its shutdown fails.
    let mut dropped = dispatch(&server);
    let expected = dropped.begin_write();
    dropped.on_write_result(false);
    assert_eq!(dropped.current_phase(), Phase::WriteFailed);
    dropped.on_shutdown_result(false);
    assert_eq!(dropped.current_phase(), Phase::ShutdownFailed);

    // Connection B still receives the full, correct response.
    let mut handler = dispatch(&server);
    let payload = handler.begin_write();
    assert_eq!(payload, expected);
    assert!(payload.starts_with("HTTP/1.1 200 OK\n"));
    handler.on_write_result(true);
    handler.on_shutdown_result(true);
    assert_eq!(handler.current_phase(), Phase::Closed);
}

#[test]
fn write_failure_still_shuts_down() {
    let server = sample_server();
    let mut handler = dispatch(&server);
    handler.begin_write();
    handler.on_write_result(false);
    assert_eq!(handler.current_phase(), Phase::WriteFailed);
    handler.on_shutdown_result(true);
    assert_eq!(handler.current_phase(), Phase::Closed);
}

#[test]
fn handler_payload_is_server_buffer() {
    let buffer = String::from("HTTP/1.1 200 OK\n\nshort");
    let server = Server::new(buffer.clone());
    let mut a = dispatch(&server);
    let mut b = dispatch(&server);
    assert_eq!(a.begin_write(), buffer);
    assert_eq!(b.begin_write(), buffer);
}

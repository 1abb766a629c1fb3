use desktop_tui::args::{effective_command, Args, Commands};
use desktop_tui::attach::{detach_notice, initial_resize_frame, no_session_message,
    on_server_message, on_stdin_read, AttachAction, StdinAction};
use desktop_tui::protocol::{encode, Message};

#[test]
fn server_data_goes_to_local_stdout() {
    let bytes = vec![0x68, 0x69, 0x0a];
    assert_eq!(
        on_server_message(Some(Message::Data(bytes.clone()))),
        AttachAction::WriteStdout(bytes)
    );
}

#[test]
fn server_detach_or_decode_failure_stops_the_pump() {
    assert_eq!(on_server_message(Some(Message::Detach)), AttachAction::Stop);
    assert_eq!(on_server_message(None), AttachAction::Stop);
}

#[test]
fn other_server_messages_are_ignored() {
    assert_eq!(
        on_server_message(Some(Message::Resize { cols: 1, rows: 1 })),
        AttachAction::Ignore
    );
    assert_eq!(on_server_message(Some(Message::Shutdown)), AttachAction::Ignore);
}

#[test]
fn stdin_bytes_are_framed_as_data() {
    let bytes = b"echo hi\n".to_vec();
    let expected = encode(&Message::Data(bytes.clone())).unwrap();
    assert_eq!(on_stdin_read(Some(bytes)), StdinAction::SendFrame(expected));
}

#[test]
fn stdin_end_stops_the_pump() {
    assert_eq!(on_stdin_read(None), StdinAction::Stop);
}

#[test]
fn initial_resize_reflects_the_local_terminal() {
    let expected = encode(&Message::Resize { cols: 120, rows: 30 }).unwrap();
    assert_eq!(initial_resize_frame(Some((120, 30))), Some(expected));
}

#[test]
fn unknown_terminal_size_skips_the_initial_resize() {
    assert_eq!(initial_resize_frame(None), None);
}

#[test]
fn missing_session_message_names_the_session_and_path() {
    assert_eq!(
        no_session_message("t1", "/home/u/.local/share/desktop-tui/t1.sock"),
        "No session named 't1' found at /home/u/.local/share/desktop-tui/t1.sock. \
         Use `desktop-tui list` to see active sessions."
    );
}

#[test]
fn detach_notice_names_the_session() {
    assert_eq!(detach_notice("t1"), "[attach] Detached from session 't1'.");
}

#[test]
fn explicit_subcommand_wins() {
    let args = Args {
        shortcut_dir: Some("/ignored".to_string()),
        command: Some(Commands::Attach { session: "t1".to_string() }),
    };
    assert_eq!(effective_command(args), Commands::Attach { session: "t1".to_string() });
}

#[test]
fn bare_directory_argument_means_run() {
    let args = Args { shortcut_dir: Some("/sc".to_string()), command: None };
    assert_eq!(effective_command(args), Commands::Run { shortcut_dir: "/sc".to_string() });
}

#[test]
fn no_arguments_means_run_in_the_current_directory() {
    let args = Args { shortcut_dir: None, command: None };
    assert_eq!(effective_command(args), Commands::Run { shortcut_dir: ".".to_string() });
}

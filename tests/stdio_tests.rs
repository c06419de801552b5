use mcp_core::stdio::{frame_line, split_lines};
use mcp_core::transport::{reader_action, PollEvent, ReaderAction, ReaderKind};

#[test]
fn frames_arrive_whole_and_in_order_whatever_the_chunking() {
    let frames = ["{\"id\":1,\"method\":\"a\"}", "{\"method\":\"b\"}", "{\"id\":1,\"result\":{}}"];
    let wire: String = frames.iter().map(|f| frame_line(f)).collect();
    for cut in 0..=wire.len() {
        if !wire.is_char_boundary(cut) {
            continue;
        }
        let (first, rest) = split_lines("", &wire[..cut]);
        let (second, left) = split_lines(&rest, &wire[cut..]);
        let all: Vec<String> = first.into_iter().chain(second).collect();
        assert_eq!(all, frames.iter().map(|f| f.to_string()).collect::<Vec<_>>());
        assert_eq!(left, "");
    }
}

#[test]
fn partial_line_is_kept_for_later() {
    let (lines, rest) = split_lines("{\"a\":", "1}\n{\"b\"");
    assert_eq!(lines, vec!["{\"a\":1}".to_string()]);
    assert_eq!(rest, "{\"b\"");
    assert_eq!(frame_line("x"), "x\n");
}

#[test]
fn reader_loops_decide_per_transport() {
    assert_eq!(reader_action(ReaderKind::ClientStdio, PollEvent::Message), ReaderAction::Dispatch);
    assert_eq!(reader_action(ReaderKind::ClientStdio, PollEvent::Nothing), ReaderAction::Stop);
    assert_eq!(reader_action(ReaderKind::ClientStdio, PollEvent::Failure), ReaderAction::Stop);
    assert_eq!(reader_action(ReaderKind::ServerStdio, PollEvent::Nothing), ReaderAction::Stop);
    assert_eq!(reader_action(ReaderKind::ServerStdio, PollEvent::Failure), ReaderAction::Continue);
    assert_eq!(reader_action(ReaderKind::ClientSse, PollEvent::Nothing), ReaderAction::Continue);
    assert_eq!(reader_action(ReaderKind::ClientSse, PollEvent::Failure), ReaderAction::RetryAfterSecs(1));
}

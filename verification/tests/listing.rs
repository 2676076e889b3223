use tmux_adapter::listing::{decode_lines, decode_listing, split_lines};
use tmux_adapter::{BadLine, DecodeError, Field, TmuxPane, TmuxSession};

fn pane_line(index: u64, active: bool) -> String {
    format!(
        "{{\"pane_id\": \"%{}\", \"pane_index\": \"{}\", \"pane_width\": \"80\", \"pane_height\": \"24\", \"pane_active\": \"{}\", \"pane_current_command\": \"zsh\"}}",
        index,
        index,
        if active { 1 } else { 0 }
    )
}

fn pane(index: u64, active: bool) -> TmuxPane {
    TmuxPane {
        id: format!("%{}", index),
        index,
        width: 80,
        height: 24,
        active,
        current_command: "zsh".to_string(),
    }
}

fn lines_of(text: &[u8]) -> Vec<Vec<u8>> {
    split_lines(text).into_iter().map(|line| line.to_vec()).collect()
}

#[test]
fn output_is_cut_at_line_feeds() {
    assert_eq!(lines_of(b""), Vec::<Vec<u8>>::new());
    assert_eq!(lines_of(b"a"), vec![b"a".to_vec()]);
    assert_eq!(lines_of(b"a\n"), vec![b"a".to_vec()]);
    assert_eq!(lines_of(b"a\nb"), vec![b"a".to_vec(), b"b".to_vec()]);
    assert_eq!(lines_of(b"a\nb\n"), vec![b"a".to_vec(), b"b".to_vec()]);
    assert_eq!(lines_of(b"\n"), vec![b"".to_vec()]);
    assert_eq!(lines_of(b"a\n\nb\n"), vec![b"a".to_vec(), b"".to_vec(), b"b".to_vec()]);
    assert_eq!(lines_of(b"\n\n"), vec![b"".to_vec(), b"".to_vec()]);
}

#[test]
fn a_return_before_a_line_feed_is_dropped() {
    assert_eq!(lines_of(b"a\r\nb\r\n"), vec![b"a".to_vec(), b"b".to_vec()]);
    assert_eq!(lines_of(b"a\r\r\n"), vec![b"a\r".to_vec()]);
    assert_eq!(lines_of(b"\r\n"), vec![b"".to_vec()]);
    assert_eq!(lines_of(b"a\rb\n"), vec![b"a\rb".to_vec()]);
    assert_eq!(lines_of(b"a\r"), vec![b"a\r".to_vec()]);
}

#[test]
fn the_lines_of_text_are_those_that_std_gives() {
    for text in ["", "x", "x\n", "x\ny", "\n\nx\r\n\r\ny\r", "a\r\n", "\r", "\n\r\n"] {
        let ours: Vec<Vec<u8>> = lines_of(text.as_bytes());
        let theirs: Vec<Vec<u8>> = text.lines().map(|line| line.as_bytes().to_vec()).collect();
        assert_eq!(ours, theirs);
    }
}

#[test]
fn every_line_gives_one_record() {
    let output = format!("{}\n{}\n{}\n", pane_line(0, true), pane_line(1, false), pane_line(2, false));
    assert_eq!(
        decode_listing::<TmuxPane>(output.as_bytes()),
        Ok(vec![pane(0, true), pane(1, false), pane(2, false)])
    );
}

#[test]
fn records_come_in_the_order_of_the_lines() {
    let output = format!("{}\n{}\n", pane_line(7, false), pane_line(3, true));
    assert_eq!(
        decode_listing::<TmuxPane>(output.as_bytes()),
        Ok(vec![pane(7, false), pane(3, true)])
    );
}

#[test]
fn empty_lines_give_no_record() {
    let output = format!("\n{}\r\n\n\r\n{}", pane_line(0, true), pane_line(1, false));
    let records = decode_listing::<TmuxPane>(output.as_bytes()).expect("a listing");
    let nonempty = output.lines().filter(|line| !line.is_empty()).count();
    assert_eq!(nonempty, 2);
    assert_eq!(records.len(), nonempty);
    assert_eq!(records, vec![pane(0, true), pane(1, false)]);
}

#[test]
fn no_output_is_an_empty_listing() {
    assert_eq!(decode_listing::<TmuxPane>(b""), Ok(Vec::new()));
    assert_eq!(decode_listing::<TmuxPane>(b"\n\n"), Ok(Vec::new()));
    assert_eq!(decode_listing::<TmuxSession>(b""), Ok(Vec::new()));
}

#[test]
fn one_bad_line_fails_the_whole_listing() {
    let bad = "{\"pane_id\": \"%1\", \"pane_index\": \"1\"}";
    let output = format!("{}\n{}\n{}\n", pane_line(0, true), bad, pane_line(2, false));
    assert_eq!(
        decode_listing::<TmuxPane>(output.as_bytes()),
        Err(BadLine {
            line: bad.as_bytes().to_vec(),
            reason: DecodeError::MissingField(Field::PaneWidth),
        })
    );
}

#[test]
fn the_first_bad_line_is_the_one_reported() {
    let truncated = &pane_line(1, false)[..40];
    let wrong = pane_line(2, false).replace("\"80\"", "\"wide\"");
    let output = format!("{}\n{}\n{}\n", pane_line(0, true), truncated, wrong);
    assert_eq!(
        decode_listing::<TmuxPane>(output.as_bytes()),
        Err(BadLine { line: truncated.as_bytes().to_vec(), reason: DecodeError::Malformed })
    );
    let output = format!("{}\n{}\n{}\n", wrong, pane_line(0, true), truncated);
    assert_eq!(
        decode_listing::<TmuxPane>(output.as_bytes()),
        Err(BadLine {
            line: wrong.as_bytes().to_vec(),
            reason: DecodeError::WrongShape(Field::PaneWidth),
        })
    );
}

#[test]
fn a_line_of_blanks_is_not_empty() {
    let output = format!("{}\n   \n", pane_line(0, true));
    assert_eq!(
        decode_listing::<TmuxPane>(output.as_bytes()),
        Err(BadLine { line: b"   ".to_vec(), reason: DecodeError::Malformed })
    );
    assert_eq!(
        decode_listing::<TmuxPane>(b"\r"),
        Err(BadLine { line: b"\r".to_vec(), reason: DecodeError::Malformed })
    );
}

#[test]
fn a_line_that_is_not_text_is_malformed() {
    let output = b"{\"pane_id\": \"\xff\xfe\"}\n";
    assert_eq!(
        decode_listing::<TmuxPane>(output),
        Err(BadLine { line: output[..output.len() - 1].to_vec(), reason: DecodeError::Malformed })
    );
}

#[test]
fn lines_that_were_cut_already_decode_alike() {
    let first = pane_line(0, true);
    let second = pane_line(1, false);
    let lines: Vec<&[u8]> = vec![first.as_bytes(), b"", second.as_bytes()];
    assert_eq!(decode_lines::<TmuxPane>(&lines), Ok(vec![pane(0, true), pane(1, false)]));
    let lines: Vec<&[u8]> = vec![first.as_bytes(), b"{", second.as_bytes()];
    assert_eq!(
        decode_lines::<TmuxPane>(&lines),
        Err(BadLine { line: b"{".to_vec(), reason: DecodeError::Malformed })
    );
}

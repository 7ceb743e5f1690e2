use prompt_kit::checkbox::{CheckboxPrompt, CheckboxStep};
use prompt_kit::confirm::{accepts_default, answer_from_first_line, custom_answer};
use prompt_kit::event::{decode_event, decode_read, Event};
use prompt_kit::list::{ListPrompt, ListStep};
use prompt_kit::render::{decimal, first_frame, hide_cursor, redraw_frame, rewind, show_cursor, Mark};
use prompt_kit::session::{advance_session, restore_owed, SessionPhase, TerminalError};
use prompt_kit::{selected_values, value_at, OptionStore};

fn colours() -> Vec<OptionStore> {
    vec![
        OptionStore::new("Red".to_string(), "r".to_string()),
        OptionStore::new("Green".to_string(), "g".to_string()),
        OptionStore::new("Blue".to_string(), "b".to_string()),
    ]
}

fn run_list(total: usize, events: &[Event]) -> (ListPrompt, Option<usize>) {
    let mut p = ListPrompt::new(total);
    for e in events {
        if let ListStep::Chosen(pos) = p.step(*e) {
            return (p, Some(pos));
        }
    }
    (p, None)
}

#[test]
fn decodes_each_known_key() {
    assert_eq!(decode_event(&[0x1b, 0x5b, 0x41]), Event::Up);
    assert_eq!(decode_event(&[0x1b, 0x5b, 0x42]), Event::Down);
    assert_eq!(decode_event(&[0x1b, 0x5b, 0x43]), Event::Right);
    assert_eq!(decode_event(&[0x1b, 0x5b, 0x44]), Event::Left);
    assert_eq!(decode_event(&[0x0d]), Event::Enter);
    assert_eq!(decode_event(&[0x20]), Event::Space);
    assert_eq!(decode_event(&[0x04]), Event::CtrlD);
    assert_eq!(decode_event(&[0x03]), Event::CtrlC);
}

#[test]
fn decodes_unknown_bytes_as_other() {
    assert_eq!(decode_event(&[]), Event::Other);
    assert_eq!(decode_event(&[0x61]), Event::Other);
    assert_eq!(decode_event(&[0x1b]), Event::Other);
    assert_eq!(decode_event(&[0x1b, 0x5b]), Event::Other);
    assert_eq!(decode_event(&[0x1b, 0x5b, 0x45]), Event::Other);
    assert_eq!(decode_event(&[0x1b, 0x4f, 0x41]), Event::Other);
    assert_eq!(decode_event(&[0x1b, 0x5b, 0x41, 0x00]), Event::Other);
    assert_eq!(decode_event(&[0x0d, 0x0a]), Event::Other);
}

#[test]
fn decodes_what_a_read_returned() {
    let buf = [0x1b, 0x5b, 0x42, 0, 0, 0, 0, 0];
    assert_eq!(decode_read(&buf, 3), Event::Down);
    assert_eq!(decode_read(&buf, 2), Event::Other);
    assert_eq!(decode_read(&buf, -1), Event::Other);
    assert_eq!(decode_read(&buf, 9), Event::Other);
    let enter = [0x0d, 0, 0, 0, 0, 0, 0, 0];
    assert_eq!(decode_read(&enter, 1), Event::Enter);
}

#[test]
fn cursor_stays_on_a_row() {
    let events = [
        Event::Up, Event::Up, Event::Down, Event::Up, Event::Down, Event::Down, Event::Down,
        Event::Down, Event::Up,
    ];
    for total in 1..5usize {
        let mut p = ListPrompt::new(total);
        for e in events.iter() {
            p.step(*e);
            assert!(p.pos() >= 1 && p.pos() <= total);
            assert_eq!(p.total(), total);
        }
        let mut c = CheckboxPrompt::new(total);
        for e in events.iter() {
            c.step(*e);
            assert!(c.pos() >= 1 && c.pos() <= total);
        }
    }
}

#[test]
fn single_row_cursor_never_moves() {
    let mut p = ListPrompt::new(1);
    assert_eq!(p.step(Event::Up), ListStep::Redraw);
    assert_eq!(p.pos(), 1);
    assert_eq!(p.step(Event::Down), ListStep::Redraw);
    assert_eq!(p.pos(), 1);
}

#[test]
fn up_from_first_row_wraps_to_last() {
    let mut p = ListPrompt::new(3);
    assert_eq!(p.pos(), 1);
    assert_eq!(p.step(Event::Up), ListStep::Redraw);
    assert_eq!(p.pos(), 3);
}

#[test]
fn down_from_last_row_wraps_to_first() {
    let mut p = ListPrompt::new(3);
    p.step(Event::Up);
    p.step(Event::Down);
    assert_eq!(p.pos(), 1);
}

#[test]
fn other_keys_move_list_cursor_down() {
    for e in [Event::Left, Event::Right, Event::Space, Event::Other, Event::CtrlC, Event::CtrlD] {
        let mut p = ListPrompt::new(3);
        assert_eq!(p.step(e), ListStep::Redraw);
        assert_eq!(p.pos(), 2);
    }
}

#[test]
fn list_down_down_enter_picks_third() {
    let options = colours();
    let mut p = ListPrompt::new(options.len());
    assert_eq!(p.step(Event::Down), ListStep::Redraw);
    assert_eq!(p.pos(), 2);
    assert_eq!(p.step(Event::Down), ListStep::Redraw);
    assert_eq!(p.pos(), 3);
    let step = p.step(Event::Enter);
    assert_eq!(step, ListStep::Chosen(3));
    assert_eq!(value_at(&options, 3), "b");
}

#[test]
fn list_enter_at_once_picks_first() {
    let (_, chosen) = run_list(3, &[Event::Enter]);
    assert_eq!(chosen, Some(1));
    assert_eq!(value_at(&colours(), 1), "r");
}

#[test]
fn space_twice_restores_selection() {
    let mut c = CheckboxPrompt::new(3);
    c.step(Event::Down);
    c.step(Event::Space);
    let before: Vec<bool> = (1..=3).map(|i| c.is_checked(i)).collect();
    assert_eq!(c.step(Event::Space), CheckboxStep::Redraw);
    assert_eq!(c.step(Event::Space), CheckboxStep::Redraw);
    let after: Vec<bool> = (1..=3).map(|i| c.is_checked(i)).collect();
    assert_eq!(before, after);
    assert_eq!(c.pos(), 2);
}

#[test]
fn checkboxes_space_down_space_enter() {
    let options = colours();
    let mut c = CheckboxPrompt::new(options.len());
    assert_eq!(c.step(Event::Space), CheckboxStep::Redraw);
    assert_eq!(c.step(Event::Down), CheckboxStep::Redraw);
    assert_eq!(c.step(Event::Space), CheckboxStep::Redraw);
    assert_eq!(c.step(Event::Enter), CheckboxStep::Finished);
    assert!(c.is_checked(1));
    assert!(c.is_checked(2));
    assert!(!c.is_checked(3));
    assert_eq!(selected_values(&options, &c), vec!["r".to_string(), "g".to_string()]);
}

#[test]
fn checkboxes_first_and_third() {
    let options = colours();
    let mut c = CheckboxPrompt::new(options.len());
    for e in [Event::Space, Event::Down, Event::Down, Event::Space] {
        assert_eq!(c.step(e), CheckboxStep::Redraw);
    }
    assert_eq!(c.step(Event::Enter), CheckboxStep::Finished);
    assert!(c.is_checked(1));
    assert!(!c.is_checked(2));
    assert!(c.is_checked(3));
    assert_eq!(selected_values(&options, &c), vec!["r".to_string(), "b".to_string()]);
}

#[test]
fn checkboxes_nothing_checked() {
    let options = colours();
    let mut c = CheckboxPrompt::new(3);
    assert_eq!(c.step(Event::Enter), CheckboxStep::Finished);
    assert!(selected_values(&options, &c).is_empty());
    assert!(!c.is_checked(0));
    assert!(!c.is_checked(4));
}

#[test]
fn checkboxes_cancel_on_ctrl_keys() {
    let mut c = CheckboxPrompt::new(3);
    assert_eq!(c.step(Event::CtrlC), CheckboxStep::Cancelled);
    assert_eq!(c.step(Event::CtrlD), CheckboxStep::Cancelled);
    assert_eq!(c.pos(), 1);
}

#[test]
fn checkboxes_up_wraps_and_left_moves_down() {
    let mut c = CheckboxPrompt::new(3);
    c.step(Event::Up);
    assert_eq!(c.pos(), 3);
    c.step(Event::Left);
    assert_eq!(c.pos(), 1);
}

#[test]
fn list_marks_follow_cursor() {
    let mut p = ListPrompt::new(3);
    assert_eq!(p.marks(), vec![Mark::Cursor, Mark::Blank, Mark::Blank]);
    p.step(Event::Up);
    assert_eq!(p.marks(), vec![Mark::Blank, Mark::Blank, Mark::Cursor]);
}

#[test]
fn checkbox_marks_show_checked_rows() {
    let mut c = CheckboxPrompt::new(3);
    assert_eq!(c.marks(), vec![Mark::Cursor, Mark::Outline, Mark::Outline]);
    c.step(Event::Space);
    c.step(Event::Down);
    assert_eq!(c.marks(), vec![Mark::Checked, Mark::Cursor, Mark::Outline]);
}

#[test]
fn decimal_digits_of_numbers() {
    assert_eq!(decimal(0), b"0".to_vec());
    assert_eq!(decimal(7), b"7".to_vec());
    assert_eq!(decimal(10), b"10".to_vec());
    assert_eq!(decimal(305), b"305".to_vec());
}

#[test]
fn control_sequences() {
    assert_eq!(hide_cursor(), b"\x1b[?25l".to_vec());
    assert_eq!(show_cursor(), b"\x1b[?25h".to_vec());
    assert_eq!(rewind(3), b"\x1b[3F\x1b[1G".to_vec());
    assert_eq!(rewind(12), b"\x1b[12F\x1b[1G".to_vec());
}

#[test]
fn first_frame_of_list() {
    let options = colours();
    let p = ListPrompt::new(3);
    let frame = first_frame(&options, &p.marks());
    let got: Vec<(Vec<u8>, bool)> = frame.into_iter().map(|x| (x.bytes, x.highlighted)).collect();
    let want: Vec<(Vec<u8>, bool)> = vec![
        (b"\x1b[?25l".to_vec(), false),
        ("\u{29BE} ".as_bytes().to_vec(), true),
        (b"Red\r\n".to_vec(), false),
        (b"  ".to_vec(), false),
        (b"Green\r\n".to_vec(), false),
        (b"  ".to_vec(), false),
        (b"Blue\r\n".to_vec(), false),
    ];
    assert_eq!(got, want);
}

#[test]
fn redraw_frame_of_checkboxes() {
    let options = colours();
    let mut c = CheckboxPrompt::new(3);
    c.step(Event::Space);
    c.step(Event::Down);
    let frame = redraw_frame(&options, &c.marks());
    let got: Vec<(Vec<u8>, bool)> = frame.into_iter().map(|x| (x.bytes, x.highlighted)).collect();
    let want: Vec<(Vec<u8>, bool)> = vec![
        (b"\x1b[3F\x1b[1G".to_vec(), false),
        ("\u{29BF} ".as_bytes().to_vec(), true),
        (b"Red\r\n".to_vec(), false),
        ("\u{29BE} ".as_bytes().to_vec(), true),
        (b"Green\r\n".to_vec(), false),
        ("\u{29BE} ".as_bytes().to_vec(), false),
        (b"Blue\r\n".to_vec(), false),
    ];
    assert_eq!(got, want);
}

#[test]
fn frame_keeps_non_ascii_labels() {
    let options = vec![OptionStore::new("Grün".to_string(), "g".to_string())];
    let p = ListPrompt::new(1);
    let frame = first_frame(&options, &p.marks());
    assert_eq!(frame.len(), 3);
    assert_eq!(frame[2].bytes, "Grün\r\n".as_bytes().to_vec());
}

#[test]
fn confirmation_yes_takes_default() {
    assert_eq!(answer_from_first_line("y\n", "main"), Some("main".to_string()));
}

#[test]
fn confirmation_other_answer_asks_again() {
    assert_eq!(answer_from_first_line("n\n", "main"), None);
    assert_eq!(answer_from_first_line("Y\n", "main"), None);
    assert_eq!(answer_from_first_line("", "main"), None);
    assert!(accepts_default("yes"));
    assert!(!accepts_default(" y"));
}

#[test]
fn confirmation_answers_lose_line_feeds() {
    assert_eq!(custom_answer("feature\n"), "feature");
    assert_eq!(custom_answer("a\nb\n"), "ab");
    assert_eq!(custom_answer(""), "");
}

#[test]
fn confirmation_default_is_returned_as_given() {
    assert_eq!(answer_from_first_line("y", "ma\nin\n"), Some("ma\nin\n".to_string()));
    assert_eq!(answer_from_first_line("yes\n", "main\n"), Some("main\n".to_string()));
}

#[test]
fn query_failure_stops_session() {
    let r = advance_session(SessionPhase::Idle, -1);
    assert_eq!(r, Err(TerminalError::QueryFailure));
    assert!(!restore_owed(SessionPhase::Idle));
}

#[test]
fn session_runs_through_its_phases() {
    let p = advance_session(SessionPhase::Idle, 0).unwrap();
    assert_eq!(p, SessionPhase::Captured);
    assert!(!restore_owed(p));
    let p = advance_session(p, 0).unwrap();
    assert_eq!(p, SessionPhase::Raw);
    assert!(restore_owed(p));
    let p = advance_session(p, 0).unwrap();
    assert_eq!(p, SessionPhase::Restored);
    assert!(!restore_owed(p));
}

#[test]
fn session_errors_by_phase() {
    assert_eq!(advance_session(SessionPhase::Captured, -1), Err(TerminalError::ModeSwitchFailure));
    assert_eq!(advance_session(SessionPhase::Raw, 1), Err(TerminalError::RestoreFailure));
}

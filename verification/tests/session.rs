use shift_register::command::{Command, Level, Line};
use shift_register::session::Session;

fn two_step_plan() -> Vec<Command> {
    vec![
        Command::SetLine { line: Line::Clear, level: Level::Low },
        Command::SetLine { line: Line::Clear, level: Level::High },
    ]
}

#[test]
fn session_hands_out_commands_in_plan_order() {
    let mut s: Session<u8> = Session::new(two_step_plan());
    assert!(s.running());
    assert_eq!(
        *s.current(),
        Command::SetLine { line: Line::Clear, level: Level::Low }
    );
    s.advance(Ok(()));
    assert!(s.running());
    assert_eq!(
        *s.current(),
        Command::SetLine { line: Line::Clear, level: Level::High }
    );
    s.advance(Ok(()));
    assert!(!s.running());
    assert_eq!(s.finish(), Ok(()));
}

#[test]
fn session_ends_at_the_first_fault_and_returns_it_verbatim() {
    let mut s: Session<u8> = Session::new(two_step_plan());
    s.advance(Ok(()));
    s.advance(Err(13));
    assert!(!s.running());
    assert_eq!(s.finish(), Err(13));
}

#[test]
fn session_over_an_empty_plan_succeeds_at_once() {
    let mut s: Session<u8> = Session::new(Vec::new());
    assert!(!s.running());
    assert_eq!(s.finish(), Ok(()));
}

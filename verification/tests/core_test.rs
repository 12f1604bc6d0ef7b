use gyg_template::command::{Delay, TemplateCommand};
use gyg_template::decimal::{parse_usize, to_decimal, ParseError};
use gyg_template::dto::TemplateDto;
use gyg_template::error::TemplateError;
use gyg_template::event::TemplateEvent;
use gyg_template::state::TemplateState;
use gyg_template::START_VALUE;

fn play_result(model: &mut TemplateState, events: Result<Vec<TemplateEvent>, TemplateError>) -> Option<TemplateError> {
    match events {
        Ok(list) => {
            for e in list {
                model.play_event(&e);
            }
            None
        }
        Err(e) => Some(e),
    }
}

#[test]
fn decimal_matches_std_rendering() {
    for n in [0usize, 1, 9, 10, 42, 99, 100, 1337, 3000, 1_000_000, usize::MAX - 1, usize::MAX] {
        assert_eq!(to_decimal(n), n.to_string());
    }
}

#[test]
fn parse_matches_std_parse() {
    let inputs = [
        "", "+", "-", "0", "+0", "-0", "007", "42", "+42", "-42", "4a2", "a", " 1", "1 ",
        "18446744073709551615", "18446744073709551616", "99999999999999999999x", "x99999999999999999999",
        "++1", "1.5", "٣",
    ];
    for s in inputs {
        let expected = s.parse::<usize>().ok();
        assert_eq!(parse_usize(s).ok(), expected, "input {:?}", s);
    }
}

#[test]
fn parse_error_kinds() {
    assert_eq!(parse_usize(""), Err(ParseError::Empty));
    assert_eq!(parse_usize("+"), Err(ParseError::InvalidDigit));
    assert_eq!(parse_usize("-1"), Err(ParseError::InvalidDigit));
    assert_eq!(parse_usize("12x"), Err(ParseError::InvalidDigit));
    assert_eq!(parse_usize("99999999999999999999999"), Err(ParseError::Overflow));
    assert_eq!(parse_usize("99999999999999999999x"), Err(ParseError::Overflow));
    assert_eq!(parse_usize("+17"), Ok(17));
}

#[test]
fn parse_error_messages_match_std() {
    for s in ["", "x", "99999999999999999999999"] {
        let ours = parse_usize(s).unwrap_err().to_string();
        let std = s.parse::<usize>().unwrap_err().to_string();
        assert_eq!(ours, std);
    }
}

#[test]
fn parse_of_rendering_gives_number_back() {
    for n in [0usize, 7, 10, 123456789, usize::MAX] {
        assert_eq!(parse_usize(&to_decimal(n)), Ok(n));
    }
}

#[test]
fn event_text() {
    assert_eq!(TemplateEvent::Added(5).to_string(), "+5");
    assert_eq!(TemplateEvent::Removed(1337).to_string(), "-1337");
    assert_eq!(TemplateEvent::Added(0).to_string(), "+0");
}

#[test]
fn error_messages() {
    assert_eq!(TemplateError::AlreadyEmpty.to_string(), "cannot empty an empty state");
    assert_eq!(TemplateError::CannotAdd(12).to_string(), "cannot add 12");
    assert_eq!(TemplateError::DelayOutOfBound(90).to_string(), "cannot wait 90 seconds");
    assert_eq!(TemplateError::CannotCalculateTime.to_string(), "error calculating time");
    assert_eq!(TemplateError::DelayNotFound.to_string(), "delay not found");
    assert_eq!(TemplateError::DelayUnsupported.to_string(), "delayed additions are not supported");
}

#[test]
fn a_template_starts_at_start_value() {
    let model = TemplateState::default();
    assert_eq!(model.get_value(), START_VALUE);
    assert_eq!(model.get_value(), 1337);
    assert_eq!(TemplateState::state_name(), "TMPL_NAME");
}

#[test]
fn adding_then_resetting() {
    let mut model = TemplateState::default();
    let r = model.try_command(TemplateCommand::Add(1000));
    assert_eq!(r, Ok(vec![TemplateEvent::Added(1000)]));
    assert_eq!(play_result(&mut model, r), None);
    assert_eq!(model.get_value(), 2337);

    let r = model.try_command(TemplateCommand::Add(700));
    assert_eq!(r, Err(TemplateError::CannotAdd(700)));
    assert_eq!(play_result(&mut model, r), Some(TemplateError::CannotAdd(700)));
    assert_eq!(model.get_value(), 2337);

    let r = model.try_command(TemplateCommand::Reset);
    assert_eq!(r, Ok(vec![TemplateEvent::Removed(2337)]));
    assert_eq!(play_result(&mut model, r), None);
    assert_eq!(model.get_value(), 0);

    let r = model.try_command(TemplateCommand::Reset);
    assert_eq!(r, Err(TemplateError::AlreadyEmpty));
    assert!(play_result(&mut model, r).is_some());
    assert_eq!(model.get_value(), 0);
}

#[test]
fn add_limit_is_inclusive() {
    let model = TemplateState::default();
    assert_eq!(model.try_command(TemplateCommand::Add(1663)), Ok(vec![TemplateEvent::Added(1663)]));
    assert_eq!(model.try_command(TemplateCommand::Add(1664)), Err(TemplateError::CannotAdd(1664)));
    assert_eq!(model.try_command(TemplateCommand::Add(usize::MAX)), Err(TemplateError::CannotAdd(usize::MAX)));
}

#[test]
fn add_refused_when_value_already_over_limit() {
    let mut model = TemplateState::default();
    model.play_event(&TemplateEvent::Added(5000));
    assert_eq!(model.get_value(), 6337);
    assert_eq!(model.try_command(TemplateCommand::Add(0)), Err(TemplateError::CannotAdd(0)));
    assert_eq!(model.try_command(TemplateCommand::Reset), Ok(vec![TemplateEvent::Removed(6337)]));
}

#[test]
fn delays_are_refused() {
    let model = TemplateState::default();
    assert_eq!(
        model.try_command(TemplateCommand::Delayed(Delay { delay: 2, to_add: 42 })),
        Err(TemplateError::DelayUnsupported)
    );
    assert_eq!(model.try_command(TemplateCommand::Finalize(0)), Err(TemplateError::DelayNotFound));
}

#[test]
fn accepted_command_leaves_value_within_limit() {
    for start in [0usize, 1, 1337, 2999, 3000] {
        for n in [0usize, 1, 100, 1663, 3000] {
            let mut model = TemplateState::default();
            model.play_event(&TemplateEvent::Removed(1337));
            model.play_event(&TemplateEvent::Added(start));
            if let Ok(events) = model.try_command(TemplateCommand::Add(n)) {
                for e in events {
                    model.play_event(&e);
                }
                assert_eq!(model.get_value(), start + n);
                assert!(model.get_value() <= 3000);
            } else {
                assert!(start + n > 3000);
            }
        }
    }
}

#[test]
fn dto_default_and_empty() {
    let d = TemplateDto::default();
    assert_eq!(d.last_ten(), &vec![TemplateEvent::Added(1337)]);
    assert_eq!(d.sum(), 1337);
    let e = TemplateDto::empty();
    assert!(e.last_ten().is_empty());
    assert_eq!(e.sum(), 0);
}

#[test]
fn dto_keeps_last_ten() {
    let mut d = TemplateDto::default();
    let mut history = vec![TemplateEvent::Added(1337)];
    for i in 0..15usize {
        let e = if i % 3 == 0 { TemplateEvent::Removed(i) } else { TemplateEvent::Added(i) };
        d.play_event(&e);
        history.push(e);
        assert!(d.last_ten().len() <= 10);
    }
    let expected: Vec<TemplateEvent> = history[history.len() - 10..].to_vec();
    assert_eq!(d.last_ten(), &expected);
    let expected_sum: i128 = expected
        .iter()
        .map(|e| match e {
            TemplateEvent::Added(a) => *a as i128,
            TemplateEvent::Removed(r) => -(*r as i128),
        })
        .sum();
    assert_eq!(d.sum(), expected_sum);
}

#[test]
fn dto_average_of_one_added_event() {
    let mut d = TemplateDto::empty();
    d.play_event(&TemplateEvent::Added(10));
    d.play_event(&TemplateEvent::Removed(4));
    assert_eq!(d.sum(), 6);
    assert_eq!(d.sum() as f32 / d.last_ten().len() as f32, 3.0);
}

#[test]
fn dto_clone_is_equal() {
    let mut d = TemplateDto::default();
    d.play_event(&TemplateEvent::Removed(3));
    let c = d.clone();
    assert_eq!(c.last_ten(), d.last_ten());
    let f = TemplateDto::from_events(vec![TemplateEvent::Added(1); 12]);
    assert_eq!(f.last_ten().len(), 12);
}

#[test]
fn state_change_matches_read_model_sum() {
    let events = vec![
        TemplateEvent::Added(10),
        TemplateEvent::Removed(400),
        TemplateEvent::Added(63),
    ];
    let mut state = TemplateState::default();
    let mut dto = TemplateDto::empty();
    for e in &events {
        state.play_event(e);
        dto.play_event(e);
    }
    assert_eq!(state.get_value() as i128, 1337 + dto.sum());
    assert_eq!(state.get_value(), 1010);
}

#[test]
fn state_read_back_from_storage() {
    let s = TemplateState::with_value(2999);
    assert_eq!(s.get_value(), 2999);
    assert_eq!(s.try_command(TemplateCommand::Add(2)), Err(TemplateError::CannotAdd(2)));
    assert_eq!(s.clone().get_value(), 2999);
}

use cv_session::pump::{pump_start, pump_step, PumpAction, PumpEvent};

/// Runs a pump over `reads`, the outcomes of its reads in order, with every
/// message delivered or not as `delivered` says. Returns what was published.
fn drive(reads: Vec<PumpEvent>, delivered: bool) -> Vec<(String, String)> {
    // The topic is kept as an owned string here, as a subscriber would hold it.
    let mut reads = reads.into_iter();
    let mut sent = Vec::new();
    let mut action = pump_start();
    loop {
        let event = match action {
            PumpAction::Read => reads.next().unwrap_or(PumpEvent::Closed),
            PumpAction::Publish { topic, payload } => {
                sent.push((topic.to_string(), payload));
                if delivered {
                    PumpEvent::Published
                } else {
                    PumpEvent::PublishFailed
                }
            }
            PumpAction::Stop => return sent,
        };
        action = pump_step(event);
    }
}

fn frame(payload: &str) -> (String, String) {
    ("cv-frame".to_string(), payload.to_string())
}

fn line(record: &str) -> PumpEvent {
    PumpEvent::Line(record.to_string())
}

#[test]
fn pump_starts_by_reading() {
    assert_eq!(pump_start(), PumpAction::Read);
}

#[test]
fn pump_publishes_in_order() {
    let sent = drive(vec![line("A"), line("B"), line("C"), PumpEvent::Closed], true);
    assert_eq!(sent, vec![frame("A"), frame("B"), frame("C")]);
}

#[test]
fn pump_goes_on_when_nothing_is_delivered() {
    let sent = drive(vec![line("A"), line("B"), line("C")], false);
    assert_eq!(sent, vec![frame("A"), frame("B"), frame("C")]);
    assert_eq!(pump_step(PumpEvent::PublishFailed), PumpAction::Read);
    assert_eq!(pump_step(PumpEvent::Published), PumpAction::Read);
}

#[test]
fn pump_ends_at_the_first_failed_read() {
    let sent = drive(vec![line("A"), PumpEvent::ReadFailed, line("B")], true);
    assert_eq!(sent, vec![frame("A")]);
    assert_eq!(pump_step(PumpEvent::ReadFailed), PumpAction::Stop);
}

#[test]
fn pump_ends_when_the_output_closes() {
    assert_eq!(drive(vec![], true), Vec::<(String, String)>::new());
    assert_eq!(drive(vec![PumpEvent::Closed, line("late")], true), Vec::<(String, String)>::new());
    assert_eq!(pump_step(PumpEvent::Closed), PumpAction::Stop);
}

#[test]
fn pump_publishes_records_as_they_stand() {
    // Records are not decoded, trimmed or dropped: an empty one is a record,
    // and so are two that are alike.
    let sent = drive(vec![line(""), line(" aGk= "), line("aGk="), line("aGk=")], true);
    assert_eq!(sent, vec![frame(""), frame(" aGk= "), frame("aGk="), frame("aGk=")]);
    assert_eq!(
        pump_step(line("x")),
        PumpAction::Publish { topic: "cv-frame", payload: "x".to_string() }
    );
}

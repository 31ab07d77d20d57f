use mtag::batch::{Action, Batch, Event, Outcome};

#[test]
fn second_of_three_files_fails_to_read() {
    let mut batch = Batch::new(3);
    let mut read = Vec::new();
    let mut written = Vec::new();
    let mut action = batch.pending();
    let status = loop {
        match action {
            Action::Read(i) => {
                read.push(i);
                action = batch.record(if i == 1 { Event::ReadFailed } else { Event::ReadOk });
            }
            Action::Write(i) => {
                written.push(i);
                action = batch.record(Event::WriteOk);
            }
            Action::Finish(errors) => break errors,
        }
    };
    assert_eq!(read, vec![0, 1, 2]);
    assert_eq!(written, vec![0, 2]);
    assert_eq!(status, 1);
    assert_eq!(batch.errors(), 1);
    assert_eq!(batch.outcomes(), &vec![Outcome::Success, Outcome::ReadFailed, Outcome::Success]);
}

#[test]
fn a_run_without_files_ends_at_once() {
    let mut batch = Batch::new(0);
    assert_eq!(batch.pending(), Action::Finish(0));
    assert_eq!(batch.record(Event::ReadOk), Action::Finish(0));
    assert_eq!(batch.record(Event::ReadFailed), Action::Finish(0));
    assert_eq!(batch.errors(), 0);
    assert!(batch.outcomes().is_empty());
}

#[test]
fn a_file_is_read_and_then_written() {
    let mut batch = Batch::new(2);
    assert_eq!(batch.pending(), Action::Read(0));
    assert_eq!(batch.record(Event::ReadOk), Action::Write(0));
    assert_eq!(batch.pending(), Action::Write(0));
    assert_eq!(batch.record(Event::WriteOk), Action::Read(1));
    assert_eq!(batch.record(Event::ReadOk), Action::Write(1));
    assert_eq!(batch.record(Event::WriteOk), Action::Finish(0));
    assert_eq!(batch.outcomes(), &vec![Outcome::Success, Outcome::Success]);
}

#[test]
fn failures_are_counted_and_the_run_goes_on() {
    let mut batch = Batch::new(4);
    assert_eq!(batch.record(Event::ReadFailed), Action::Read(1));
    assert_eq!(batch.errors(), 1);
    assert_eq!(batch.record(Event::ReadOk), Action::Write(1));
    assert_eq!(batch.record(Event::WriteFailed), Action::Read(2));
    assert_eq!(batch.errors(), 2);
    assert_eq!(batch.record(Event::ReadOk), Action::Write(2));
    assert_eq!(batch.record(Event::WriteOk), Action::Read(3));
    assert_eq!(batch.errors(), 2);
    assert_eq!(batch.record(Event::ReadFailed), Action::Finish(3));
    assert_eq!(batch.errors(), 3);
    assert_eq!(
        batch.outcomes(),
        &vec![Outcome::ReadFailed, Outcome::WriteFailed, Outcome::Success, Outcome::ReadFailed]
    );
    assert_eq!(batch.record(Event::ReadOk), Action::Finish(3));
    assert_eq!(batch.record(Event::WriteFailed), Action::Finish(3));
    assert_eq!(batch.outcomes().len(), 4);
}

#[test]
fn every_file_failing_gives_the_number_of_files() {
    let mut batch = Batch::new(5);
    let mut action = batch.pending();
    while let Action::Read(_) = action {
        action = batch.record(Event::ReadFailed);
    }
    assert_eq!(action, Action::Finish(5));
}

#[test]
fn an_event_that_answers_nothing_changes_nothing() {
    let mut batch = Batch::new(1);
    let before = batch.clone();
    assert_eq!(batch.record(Event::WriteOk), Action::Read(0));
    assert_eq!(batch.record(Event::WriteFailed), Action::Read(0));
    assert_eq!(batch, before);
    assert_eq!(batch.record(Event::ReadOk), Action::Write(0));
    let before = batch.clone();
    assert_eq!(batch.record(Event::ReadOk), Action::Write(0));
    assert_eq!(batch.record(Event::ReadFailed), Action::Write(0));
    assert_eq!(batch, before);
    assert_eq!(batch.record(Event::WriteOk), Action::Finish(0));
}

#[test]
fn a_reading_run_writes_nothing() {
    let mut batch = Batch::reading(3);
    assert_eq!(batch.pending(), Action::Read(0));
    assert_eq!(batch.record(Event::ReadOk), Action::Read(1));
    assert_eq!(batch.record(Event::ReadFailed), Action::Read(2));
    assert_eq!(batch.record(Event::WriteOk), Action::Read(2));
    assert_eq!(batch.record(Event::ReadOk), Action::Finish(1));
    assert_eq!(batch.outcomes(), &vec![Outcome::Success, Outcome::ReadFailed, Outcome::Success]);
}

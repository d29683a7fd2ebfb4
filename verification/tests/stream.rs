use core::time::Duration;
use server_sent_events::event::Event;
use server_sent_events::stream::{
    keep_alive_line, KeepAlive, KeepAliveOption, StreamAction, StreamEvent,
};

fn item(text: &str) -> StreamEvent {
    StreamEvent::Item(text.to_string())
}

fn forward(text: &str) -> StreamAction {
    StreamAction::Forward(text.to_string())
}

fn keep_alive(text: &str) -> StreamAction {
    StreamAction::KeepAlive(text.to_string())
}

/// The texts that a driver yields for these events.
fn output(machine: &mut KeepAlive, events: Vec<StreamEvent>) -> Vec<String> {
    let mut out = Vec::new();
    for event in events {
        match machine.step(event) {
            StreamAction::Forward(text) | StreamAction::KeepAlive(text) => out.push(text),
            StreamAction::PollTimer | StreamAction::Wait | StreamAction::Finish => {}
        }
    }
    out
}

#[test]
fn options_default_to_thirty_seconds_and_no_prefix() {
    let option = KeepAliveOption::new();
    assert_eq!(option.get_interval(), Duration::from_secs(30));
    assert_eq!(option.get_comment_prefix(), "");
    assert!(option.is_valid());
    let option = KeepAliveOption::default();
    assert_eq!(option.get_interval(), Duration::from_secs(30));
    assert_eq!(option.get_comment_prefix(), "");
}

#[test]
fn options_keep_what_is_set() {
    let option = KeepAliveOption::new()
        .interval(Duration::from_micros(1))
        .comment_prefix("Ping ".into());
    assert_eq!(option.get_interval(), Duration::from_micros(1));
    assert_eq!(option.get_comment_prefix(), "Ping ");
    assert!(option.is_valid());
    let option = option.interval(Duration::from_millis(1500));
    assert_eq!(option.get_interval(), Duration::from_millis(1500));
    assert_eq!(option.get_comment_prefix(), "Ping ");
    let option = option.comment_prefix(String::new());
    assert_eq!(option.get_interval(), Duration::from_millis(1500));
    assert_eq!(option.get_comment_prefix(), "");
}

#[test]
fn an_interval_of_no_length_is_not_valid() {
    let option = KeepAliveOption::new().interval(Duration::ZERO);
    assert!(!option.is_valid());
    assert!(KeepAlive::try_new(&option).is_none());
    let option = option.interval(Duration::from_nanos(1));
    assert!(option.is_valid());
    assert!(KeepAlive::try_new(&option).is_some());
}

#[test]
fn keep_alive_line_is_a_comment_with_prefix_and_number() {
    assert_eq!(keep_alive_line("", 0), ": 0\n\n");
    assert_eq!(keep_alive_line("Ping ", 0), ": Ping 0\n\n");
    assert_eq!(keep_alive_line("Ping ", 41), ": Ping 41\n\n");
    assert_eq!(
        keep_alive_line("k", usize::MAX),
        format!(": k{}\n\n", usize::MAX)
    );
    assert_eq!(
        keep_alive_line("Ping ", 3),
        Event::with_comment("Ping 3").to_string()
    );
}

#[test]
fn machine_takes_interval_and_prefix_from_the_options() {
    let option = KeepAliveOption::new();
    let machine = KeepAlive::new(&option);
    assert_eq!(machine.timer_interval(), Duration::from_secs(30));
    assert!(!machine.is_done());
    let option = KeepAliveOption::new().interval(Duration::from_secs(2));
    let machine = KeepAlive::try_new(&option).unwrap();
    assert_eq!(machine.timer_interval(), Duration::from_secs(2));
}

#[test]
fn slow_inner_stream_is_interleaved_with_keep_alive_lines() {
    let option = KeepAliveOption::new().interval(Duration::from_micros(1));
    let mut machine = KeepAlive::new(&option);
    let events = vec![
        StreamEvent::Idle,
        StreamEvent::NoTick,
        item(": a\n\n"),
        StreamEvent::Idle,
        StreamEvent::Tick,
        item(": b\n\n"),
        StreamEvent::End,
    ];
    assert_eq!(
        output(&mut machine, events),
        vec![
            ": a\n\n".to_string(),
            ": 0\n\n".to_string(),
            ": b\n\n".to_string()
        ]
    );
    assert!(machine.is_done());

    let option = KeepAliveOption::new()
        .interval(Duration::from_micros(1))
        .comment_prefix("Ping ".into());
    let mut machine = KeepAlive::new(&option);
    let events = vec![
        StreamEvent::Idle,
        StreamEvent::NoTick,
        item(": a\n\n"),
        StreamEvent::Idle,
        StreamEvent::Tick,
        item(": b\n\n"),
        StreamEvent::End,
    ];
    assert_eq!(
        output(&mut machine, events),
        vec![
            ": a\n\n".to_string(),
            ": Ping 0\n\n".to_string(),
            ": b\n\n".to_string()
        ]
    );
    assert!(machine.is_done());
}

#[test]
fn each_event_has_its_action() {
    let mut machine = KeepAlive::new(&KeepAliveOption::new().comment_prefix("k".into()));
    assert_eq!(machine.step(item("x")), forward("x"));
    assert_eq!(machine.step(StreamEvent::Idle), StreamAction::PollTimer);
    assert_eq!(machine.step(StreamEvent::NoTick), StreamAction::Wait);
    assert_eq!(machine.step(StreamEvent::Idle), StreamAction::PollTimer);
    assert_eq!(machine.step(StreamEvent::Tick), keep_alive(": k0\n\n"));
    assert!(!machine.is_done());
    assert_eq!(machine.step(StreamEvent::End), StreamAction::Finish);
    assert!(machine.is_done());
}

#[test]
fn ready_items_come_before_any_keep_alive_line() {
    let mut machine = KeepAlive::new(&KeepAliveOption::new());
    // A burst of items: none of the turns asks for the timer, so no line can come between.
    for text in ["1", "2", "3", "4"] {
        assert_eq!(machine.step(item(text)), forward(text));
    }
    assert_eq!(machine.step(StreamEvent::Idle), StreamAction::PollTimer);
    assert_eq!(machine.step(StreamEvent::Tick), keep_alive(": 0\n\n"));
    assert_eq!(machine.step(item("5")), forward("5"));
}

#[test]
fn keep_alive_numbers_count_up_from_zero_without_gaps() {
    let mut machine = KeepAlive::new(&KeepAliveOption::new().comment_prefix("n".into()));
    let mut events = Vec::new();
    for round in 0..25 {
        if round % 3 == 0 {
            events.push(item("x"));
            events.push(item("y"));
        }
        events.push(StreamEvent::Idle);
        events.push(StreamEvent::Tick);
    }
    let lines: Vec<String> = output(&mut machine, events)
        .into_iter()
        .filter(|text| text.starts_with(": n"))
        .collect();
    let expected: Vec<String> = (0..25).map(|n| format!(": n{}\n\n", n)).collect();
    assert_eq!(lines, expected);
}

#[test]
fn output_ends_with_the_inner_stream() {
    let mut machine = KeepAlive::new(&KeepAliveOption::new());
    assert_eq!(machine.step(item("a")), forward("a"));
    assert_eq!(machine.step(StreamEvent::End), StreamAction::Finish);
    assert!(machine.is_done());
    // A tick that was pending is dropped, and nothing is yielded any more.
    assert_eq!(machine.step(StreamEvent::Tick), StreamAction::Finish);
    assert_eq!(machine.step(item("late")), StreamAction::Finish);
    assert_eq!(machine.step(StreamEvent::Idle), StreamAction::Finish);
    assert_eq!(machine.step(StreamEvent::NoTick), StreamAction::Finish);
    assert_eq!(machine.step(StreamEvent::End), StreamAction::Finish);
    assert!(machine.is_done());
}

#[test]
fn empty_inner_stream_gives_empty_output() {
    let mut machine = KeepAlive::new(&KeepAliveOption::new());
    assert_eq!(output(&mut machine, vec![StreamEvent::End]), Vec::<String>::new());
    assert!(machine.is_done());
}

#[test]
fn items_are_forwarded_as_they_are_and_in_order() {
    let mut machine = KeepAlive::new(&KeepAliveOption::new());
    let events = vec![
        item(""),
        item("not an event at all"),
        StreamEvent::Idle,
        StreamEvent::Tick,
        item(": 0\n\n"),
        StreamEvent::End,
        item("after the end"),
    ];
    assert_eq!(
        output(&mut machine, events),
        vec!["", "not an event at all", ": 0\n\n", ": 0\n\n"]
    );
}

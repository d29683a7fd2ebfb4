//! The event record and its `text/event-stream` encoding.

use crate::text::{decimal, lines, push_decimal, split_lines};
use vstd::prelude::*;
use vstd::string::StringExecFns;

verus! {

/// One event, before it is written out. Every field is optional; the record with no
/// field at all is legal.
#[derive(Debug, Clone, PartialEq, Eq)]
pub struct Event {
    /// A comment line.
    pub comment: Option<String>,
    /// The reconnection time that the client is asked to use, in milliseconds.
    pub retry: Option<usize>,
    /// The event's identifier.
    pub id: Option<String>,
    /// The event's type name.
    pub type_: Option<String>,
    /// The payload.
    pub data: Option<EventData>,
}

/// The payload of an event: one block of text, or several in order. A block may hold
/// line breaks of its own: `"\n"`, `"\r\n"` and a lone `"\r"` each end a line, and every
/// line of a block is written as a `data` line of its own.
///
/// Mind the empty block: it has no lines, so it is written as no `data` line at all,
/// not as an empty one.
#[derive(Debug, Clone, PartialEq, Eq)]
pub enum EventData {
    Line(String),
    Lines(Vec<String>),
}

/// What a payload holds, as plain text.
pub enum EventDataView {
    Line(Seq<char>),
    Lines(Seq<Seq<char>>),
}

impl EventDataView {
    /// The blocks of the payload in order; a single block is a sequence of one.
    pub open spec fn blocks(self) -> Seq<Seq<char>> {
        match self {
            EventDataView::Line(block) => seq![block],
            EventDataView::Lines(blocks) => blocks,
        }
    }
}

impl View for EventData {
    type V = EventDataView;

    open spec fn view(&self) -> EventDataView {
        match self {
            EventData::Line(block) => EventDataView::Line(block@),
            EventData::Lines(blocks) => EventDataView::Lines(blocks.deep_view()),
        }
    }
}

/// What an event holds, as plain values.
pub struct EventView {
    pub comment: Option<Seq<char>>,
    pub retry: Option<nat>,
    pub id: Option<Seq<char>>,
    pub type_: Option<Seq<char>>,
    pub data: Option<EventDataView>,
}

/// The text of an optional string.
pub open spec fn text_of(value: Option<String>) -> Option<Seq<char>> {
    match value {
        Some(s) => Some(s@),
        None => None,
    }
}

impl View for Event {
    type V = EventView;

    open spec fn view(&self) -> EventView {
        EventView {
            comment: text_of(self.comment),
            retry: match self.retry {
                Some(ms) => Some(ms as nat),
                None => None,
            },
            id: text_of(self.id),
            type_: text_of(self.type_),
            data: match self.data {
                Some(d) => Some(d@),
                None => None,
            },
        }
    }
}

/// The kinds of line in an encoded event, in the order in which they are written.
pub enum FieldKind {
    Comment,
    Retry,
    Id,
    Event,
    Data,
}

/// One line of an encoded event: its kind and what follows the kind's prefix.
pub struct FieldLine {
    pub kind: FieldKind,
    pub value: Seq<char>,
}

/// What a line of each kind starts with.
pub open spec fn field_prefix(kind: FieldKind) -> Seq<char> {
    match kind {
        FieldKind::Comment => ": "@,
        FieldKind::Retry => "retry: "@,
        FieldKind::Id => "id: "@,
        FieldKind::Event => "event: "@,
        FieldKind::Data => "data: "@,
    }
}

/// A line as it is written: prefix, value, line feed.
pub open spec fn line_text(line: FieldLine) -> Seq<char> {
    field_prefix(line.kind) + line.value + seq!['\n']
}

/// `line_text` as a function value.
pub open spec fn line_text_fn() -> spec_fn(FieldLine) -> Seq<char> {
    |line: FieldLine| line_text(line)
}

/// `lines` as a function value.
pub open spec fn lines_fn() -> spec_fn(Seq<char>) -> Seq<Seq<char>> {
    |block: Seq<char>| lines(block)
}

/// Makes a `data` line of a line of text.
pub open spec fn data_line_fn() -> spec_fn(Seq<char>) -> FieldLine {
    |value: Seq<char>| FieldLine { kind: FieldKind::Data, value }
}

/// The line of an optional field: one line where the field is present, none otherwise.
pub open spec fn optional_line(kind: FieldKind, value: Option<Seq<char>>) -> Seq<FieldLine> {
    match value {
        Some(value) => seq![FieldLine { kind, value }],
        None => Seq::empty(),
    }
}

/// The `data` lines of a payload: every block is split into its lines, and each line of
/// each block becomes one `data` line, in order.
pub open spec fn data_lines(data: Option<EventDataView>) -> Seq<FieldLine> {
    match data {
        Some(d) => d.blocks().flat_map(lines_fn()).map_values(data_line_fn()),
        None => Seq::empty(),
    }
}

/// The lines that come before the data: comment, retry, id and event, each only where
/// the field is present.
pub open spec fn heading_lines(e: EventView) -> Seq<FieldLine> {
    optional_line(FieldKind::Comment, e.comment) + optional_line(
        FieldKind::Retry,
        match e.retry {
            Some(ms) => Some(decimal(ms)),
            None => None,
        },
    ) + optional_line(FieldKind::Id, e.id) + optional_line(FieldKind::Event, e.type_)
}

/// The lines of an encoded event: comment, retry, id, event, then the data lines.
pub open spec fn field_lines(e: EventView) -> Seq<FieldLine> {
    heading_lines(e) + data_lines(e.data)
}

/// The given lines as text, followed by the empty line that ends an event.
pub open spec fn render(lines: Seq<FieldLine>) -> Seq<char> {
    lines.flat_map(line_text_fn()) + seq!['\n']
}

/// The `text/event-stream` encoding of an event.
pub open spec fn wire(e: EventView) -> Seq<char> {
    render(field_lines(e))
}

/// Appends one line to `out`: `prefix`, `value` and a line feed.
fn push_line(out: &mut String, prefix: &str, value: &str)
    ensures
        final(out)@ == old(out)@ + (prefix@ + value@ + seq!['\n']),
{
    out.append(prefix);
    out.append(value);
    out.append("\n");
    proof {
        reveal_strlit("\n");
    }
}

/// Adding a line to the end of a sequence of lines adds its text to the end of theirs.
proof fn lemma_render_push(done: Seq<FieldLine>, line: FieldLine)
    ensures
        done.push(line).flat_map(line_text_fn()) == done.flat_map(line_text_fn()) + line_text(line),
{
    done.lemma_flat_map_push(line_text_fn(), line);
}

/// Appends the `data` lines of one block to `out`.
fn push_block(out: &mut String, block: &str, Ghost(done): Ghost<Seq<FieldLine>>)
    requires
        old(out)@ == done.flat_map(line_text_fn()),
    ensures
        final(out)@ == (done + lines(block@).map_values(data_line_fn())).flat_map(line_text_fn()),
{
    let parts = split_lines(block);
    let ghost all = lines(block@);
    let mut i: usize = 0;
    while i < parts.len()
        invariant
            i <= parts.len(),
            parts.deep_view() == all,
            out@ == (done + all.take(i as int).map_values(data_line_fn())).flat_map(
                line_text_fn(),
            ),
        decreases parts.len() - i,
    {
        let ghost before = done + all.take(i as int).map_values(data_line_fn());
        let ghost line = FieldLine { kind: FieldKind::Data, value: all[i as int] };
        push_line(out, "data: ", parts[i].as_str());
        proof {
            lemma_render_push(before, line);
            assert(before.push(line) =~= done + all.take(i + 1).map_values(data_line_fn()));
        }
        i += 1;
    }
    assert(all.take(i as int) =~= all);
}

/// An owned copy of an optional text.
fn owned_text(value: Option<&str>) -> (r: Option<String>)
    ensures
        match value {
            Some(s) => r == Some(r->0) && r->0@ == s@,
            None => r is None,
        },
{
    match value {
        Some(s) => Some(String::from_str(s)),
        None => None,
    }
}

impl Default for Event {
    /// The event with no field at all.
    fn default() -> (e: Event)
        ensures
            e.comment is None,
            e.retry is None,
            e.id is None,
            e.type_ is None,
            e.data is None,
    {
        Event { comment: None, retry: None, id: None, type_: None, data: None }
    }
}

impl Event {
    /// An event with a single block of data and, where given, a type and an identifier.
    pub fn new(data: &str, type_: Option<&str>, id: Option<&str>) -> (e: Event)
        ensures
            e@ == (EventView {
                comment: None,
                retry: None,
                id: match id {
                    Some(s) => Some(s@),
                    None => None,
                },
                type_: match type_ {
                    Some(s) => Some(s@),
                    None => None,
                },
                data: Some(EventDataView::Line(data@)),
            }),
    {
        Event {
            comment: None,
            retry: None,
            id: owned_text(id),
            type_: owned_text(type_),
            data: Some(EventData::Line(String::from_str(data))),
        }
    }

    /// An event with several blocks of data in order and, where given, a type and an
    /// identifier.
    pub fn with_multiline_data(data: Vec<&str>, type_: Option<&str>, id: Option<&str>) -> (e:
        Event)
        ensures
            e@ == (EventView {
                comment: None,
                retry: None,
                id: match id {
                    Some(s) => Some(s@),
                    None => None,
                },
                type_: match type_ {
                    Some(s) => Some(s@),
                    None => None,
                },
                data: Some(EventDataView::Lines(data.deep_view())),
            }),
    {
        let mut blocks: Vec<String> = Vec::new();
        let mut i: usize = 0;
        while i < data.len()
            invariant
                i <= data.len(),
                blocks.deep_view() == data.deep_view().take(i as int),
            decreases data.len() - i,
        {
            let ghost before = blocks.deep_view();
            blocks.push(String::from_str(data[i]));
            assert(data.deep_view().take(i + 1) =~= before.push(data[i as int]@));
            i += 1;
        }
        assert(data.deep_view().take(i as int) =~= data.deep_view());
        Event {
            comment: None,
            retry: None,
            id: owned_text(id),
            type_: owned_text(type_),
            data: Some(EventData::Lines(blocks)),
        }
    }

    /// An event that is a comment and nothing else.
    pub fn with_comment(comment: &str) -> (e: Event)
        ensures
            e@ == (EventView {
                comment: Some(comment@),
                retry: None,
                id: None,
                type_: None,
                data: None,
            }),
    {
        Event {
            comment: Some(String::from_str(comment)),
            retry: None,
            id: None,
            type_: None,
            data: None,
        }
    }

    /// An event that sets the client's reconnection time and nothing else.
    pub fn with_retry(retry_ms: usize) -> (e: Event)
        ensures
            e@ == (EventView {
                comment: None,
                retry: Some(retry_ms as nat),
                id: None,
                type_: None,
                data: None,
            }),
    {
        Event { comment: None, retry: Some(retry_ms), id: None, type_: None, data: None }
    }

    /// The event as `text/event-stream` text: its lines in the fixed order, then the
    /// empty line that ends it. Comment, identifier and type are written as they are:
    /// it is the caller's part to keep line breaks out of them.
    pub fn to_string(&self) -> (out: String)
        ensures
            out@ == wire(self@),
    {
        let mut out = String::new();
        let ghost mut done: Seq<FieldLine> = Seq::empty();
        assert(done.flat_map(line_text_fn()) =~= Seq::<char>::empty()) by {
            reveal_with_fuel(Seq::flatten, 1);
        }
        if let Some(comment) = &self.comment {
            push_line(&mut out, ": ", comment.as_str());
            proof {
                let line = FieldLine { kind: FieldKind::Comment, value: comment@ };
                lemma_render_push(done, line);
                done = done.push(line);
            }
        }
        if let Some(retry) = &self.retry {
            let mut digits = String::new();
            push_decimal(&mut digits, *retry);
            push_line(&mut out, "retry: ", digits.as_str());
            proof {
                let line = FieldLine { kind: FieldKind::Retry, value: digits@ };
                lemma_render_push(done, line);
                done = done.push(line);
            }
        }
        if let Some(id) = &self.id {
            push_line(&mut out, "id: ", id.as_str());
            proof {
                let line = FieldLine { kind: FieldKind::Id, value: id@ };
                lemma_render_push(done, line);
                done = done.push(line);
            }
        }
        if let Some(type_) = &self.type_ {
            push_line(&mut out, "event: ", type_.as_str());
            proof {
                let line = FieldLine { kind: FieldKind::Event, value: type_@ };
                lemma_render_push(done, line);
                done = done.push(line);
            }
        }
        let ghost head = done;
        assert(head =~= heading_lines(self@));
        match &self.data {
            Some(EventData::Line(block)) => {
                push_block(&mut out, block.as_str(), Ghost(done));
                proof {
                    let blocks = seq![block@];
                    blocks.lemma_flat_map_singleton(lines_fn());
                    done = done + lines(block@).map_values(data_line_fn());
                }
            },
            Some(EventData::Lines(blocks)) => {
                let ghost all = blocks.deep_view();
                let mut j: usize = 0;
                assert(all.take(0).flat_map(lines_fn()) =~= Seq::<Seq<char>>::empty()) by {
                    reveal_with_fuel(Seq::flatten, 1);
                }
                while j < blocks.len()
                    invariant
                        j <= blocks.len(),
                        all == blocks.deep_view(),
                        done == head + all.take(j as int).flat_map(lines_fn()).map_values(
                            data_line_fn(),
                        ),
                        out@ == done.flat_map(line_text_fn()),
                    decreases blocks.len() - j,
                {
                    push_block(&mut out, blocks[j].as_str(), Ghost(done));
                    proof {
                        all.lemma_flat_map_take_append(lines_fn(), j as int);
                        done = done + lines(all[j as int]).map_values(data_line_fn());
                    }
                    j += 1;
                }
                assert(all.take(j as int) =~= all);
            },
            None => {},
        }
        assert(done == field_lines(self@));
        out.append("\n");
        proof {
            reveal_strlit("\n");
        }
        out
    }
}

} // verus!

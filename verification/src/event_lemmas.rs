//! What holds of every encoded event.

use crate::event::{
    data_line_fn, data_lines, field_lines, field_prefix, heading_lines, line_text,
    line_text_fn, lines_fn, render, wire, EventDataView, EventView, FieldKind, FieldLine,
};
use crate::text::{
    break_free, decimal, is_break, lemma_line_len, lemma_lines_are_break_free,
    lemma_lines_of_rest, lines, lines_from,
};
use vstd::prelude::*;

verus! {

/// The text of no lines is empty.
pub proof fn lemma_render_empty()
    ensures
        Seq::<FieldLine>::empty().flat_map(line_text_fn()) == Seq::<char>::empty(),
{
    reveal_with_fuel(Seq::flatten, 1);
}

/// The event with no field is encoded as a single line feed.
pub proof fn lemma_wire_of_empty_event(e: EventView)
    requires
        e.comment is None,
        e.retry is None,
        e.id is None,
        e.type_ is None,
        e.data is None,
    ensures
        wire(e) == seq!['\n'],
{
    lemma_render_empty();
}

/// Encoding is total, and every encoded event ends with an empty line: an event that
/// has at least one line ends in two line feeds, and an event without any line is a
/// single line feed.
pub proof fn lemma_wire_ends_with_blank_line(e: EventView)
    ensures
        wire(e).len() >= 1,
        wire(e).last() == '\n',
        field_lines(e).len() == 0 ==> wire(e) == seq!['\n'],
        field_lines(e).len() > 0 ==> wire(e).len() >= 2 && wire(e).subrange(
            wire(e).len() - 2,
            wire(e).len() as int,
        ) == seq!['\n', '\n'],
{
    let all = field_lines(e);
    if all.len() == 0 {
        lemma_render_empty();
    } else {
        // The last line ends in a line feed, and the empty line adds one more.
        let front = all.drop_last();
        assert(front.push(all.last()) =~= all);
        front.lemma_flat_map_push(line_text_fn(), all.last());
    }
}

/// The place of each kind of line in the fixed order.
pub open spec fn rank(kind: FieldKind) -> int {
    match kind {
        FieldKind::Comment => 0,
        FieldKind::Retry => 1,
        FieldKind::Id => 2,
        FieldKind::Event => 3,
        FieldKind::Data => 4,
    }
}

/// The lines of an event stand in the fixed order comment, retry, id, event, data, and
/// only `data` lines can occur more than once.
pub proof fn lemma_field_order(e: EventView)
    ensures
        forall|i: int, j: int|
            0 <= i < j < field_lines(e).len() ==> rank(#[trigger] field_lines(e)[i].kind)
                <= rank(#[trigger] field_lines(e)[j].kind),
        forall|i: int, j: int|
            0 <= i < j < field_lines(e).len() && #[trigger] field_lines(e)[i].kind
                == #[trigger] field_lines(e)[j].kind ==> field_lines(e)[i].kind
                == FieldKind::Data,
{
    let head = heading_lines(e);
    let t = data_lines(e.data);
    let all = field_lines(e);
    assert forall|i: int, j: int| 0 <= i < j < all.len() implies rank(#[trigger] all[i].kind)
        <= rank(#[trigger] all[j].kind) && (all[i].kind == all[j].kind ==> all[i].kind
        == FieldKind::Data) by {
        if i < head.len() {
            lemma_heading_kinds(e, i);
        }
    }
}

/// The number of lines that the blocks of a payload split into, block by block.
pub open spec fn line_count(blocks: Seq<Seq<char>>) -> nat
    decreases blocks.len(),
{
    if blocks.len() == 0 {
        0
    } else {
        line_count(blocks.drop_last()) + lines(blocks.last()).len()
    }
}

/// Splitting every block and joining the results gives as many lines as the blocks
/// have, counted one block at a time.
pub proof fn lemma_line_count(blocks: Seq<Seq<char>>)
    ensures
        blocks.flat_map(lines_fn()).len() == line_count(blocks),
    decreases blocks.len(),
{
    if blocks.len() == 0 {
        reveal_with_fuel(Seq::flatten, 1);
    } else {
        let front = blocks.drop_last();
        lemma_line_count(front);
        front.lemma_flat_map_push(lines_fn(), blocks.last());
        assert(front.push(blocks.last()) =~= blocks);
    }
}

/// Whether a line is a `data` line.
pub open spec fn is_data_fn() -> spec_fn(FieldLine) -> bool {
    |line: FieldLine| line.kind == FieldKind::Data
}

/// The blocks of a payload; none where there is no payload.
pub open spec fn payload_blocks(data: Option<EventDataView>) -> Seq<Seq<char>> {
    match data {
        Some(d) => d.blocks(),
        None => Seq::empty(),
    }
}

/// The kinds of the lines before the data, by position.
proof fn lemma_heading_kinds(e: EventView, k: int)
    requires
        0 <= k < heading_lines(e).len(),
    ensures
        heading_lines(e)[k].kind != FieldKind::Data,
        rank(heading_lines(e)[k].kind) < 4,
        forall|m: int|
            k < m < heading_lines(e).len() ==> rank(heading_lines(e)[k].kind) < rank(
                #[trigger] heading_lines(e)[m].kind,
            ),
{
}

/// None of the lines before the data is a `data` line.
proof fn lemma_heading_has_no_data(e: EventView)
    ensures
        heading_lines(e).filter(is_data_fn()) == Seq::<FieldLine>::empty(),
{
    let head = heading_lines(e);
    assert forall|k: int| 0 <= k < head.len() implies !is_data_fn()(#[trigger] head[k]) by {
        lemma_heading_kinds(e, k);
    }
    head.lemma_all_neg_filter_empty(is_data_fn());
}

/// An event has exactly as many `data` lines as the blocks of its payload split into
/// lines, block by block; they hold those lines in order. Without a payload it has none.
pub proof fn lemma_data_fanout(e: EventView)
    ensures
        field_lines(e).filter(is_data_fn()) == data_lines(e.data),
        data_lines(e.data).len() == line_count(payload_blocks(e.data)),
        data_lines(e.data) == payload_blocks(e.data).flat_map(lines_fn()).map_values(
            data_line_fn(),
        ),
{
    let t = data_lines(e.data);
    let head = heading_lines(e);
    lemma_heading_has_no_data(e);
    Seq::filter_distributes_over_add(head, t, is_data_fn());
    lemma_filter_all(t);
    lemma_line_count(payload_blocks(e.data));
}

/// A payload of a single block has as many `data` lines as the block has lines.
pub proof fn lemma_single_block_fanout(block: Seq<char>)
    ensures
        data_lines(Some(EventDataView::Line(block))).len() == lines(block).len(),
        data_lines(Some(EventDataView::Line(block))) == lines(block).map_values(data_line_fn()),
{
    seq![block].lemma_flat_map_singleton(lines_fn());
}

/// Keeping the `data` lines of a sequence of `data` lines keeps them all.
proof fn lemma_filter_all(t: Seq<FieldLine>)
    requires
        forall|k: int| 0 <= k < t.len() ==> (#[trigger] t[k]).kind == FieldKind::Data,
    ensures
        t.filter(is_data_fn()) == t,
    decreases t.len(),
{
    reveal(Seq::filter);
    if t.len() > 0 {
        lemma_filter_all(t.drop_last());
    }
}

/// What a line holds before its line feed: prefix and value.
pub open spec fn line_content(line: FieldLine) -> Seq<char> {
    field_prefix(line.kind) + line.value
}

/// `line_content` as a function value.
pub open spec fn line_content_fn() -> spec_fn(FieldLine) -> Seq<char> {
    |line: FieldLine| line_content(line)
}

/// Whether comment, identifier and type, where present, hold no line break. The encoder
/// writes them as they are, so one that holds a break would spill into further lines.
pub open spec fn single_line_fields(e: EventView) -> bool {
    &&& e.comment matches Some(comment) ==> break_free(comment)
    &&& e.id matches Some(id) ==> break_free(id)
    &&& e.type_ matches Some(type_) ==> break_free(type_)
}

/// No prefix holds a line break.
proof fn lemma_prefix_is_break_free(kind: FieldKind)
    ensures
        break_free(field_prefix(kind)),
{
    reveal_strlit(": ");
    reveal_strlit("retry: ");
    reveal_strlit("id: ");
    reveal_strlit("event: ");
    reveal_strlit("data: ");
}

/// A decimal number holds no line break.
proof fn lemma_decimal_is_break_free(n: nat)
    ensures
        break_free(decimal(n)),
    decreases n,
{
    if n >= 10 {
        lemma_decimal_is_break_free(n / 10);
    }
}

/// The lines that blocks split into hold no line break.
proof fn lemma_block_lines_are_break_free(blocks: Seq<Seq<char>>, i: int)
    requires
        0 <= i < blocks.flat_map(lines_fn()).len(),
    ensures
        break_free(blocks.flat_map(lines_fn())[i]),
    decreases blocks.len(),
{
    if blocks.len() == 0 {
        reveal_with_fuel(Seq::flatten, 1);
    } else {
        let front = blocks.drop_last();
        front.lemma_flat_map_push(lines_fn(), blocks.last());
        assert(front.push(blocks.last()) =~= blocks);
        let before = front.flat_map(lines_fn());
        if i < before.len() {
            lemma_block_lines_are_break_free(front, i);
        } else {
            lemma_lines_are_break_free(blocks.last(), 0, i - before.len());
        }
    }
}

/// With comment, identifier and type on one line each, no line of an event holds a
/// line break before the line feed that ends it.
proof fn lemma_contents_are_break_free(e: EventView, i: int)
    requires
        single_line_fields(e),
        0 <= i < field_lines(e).len(),
    ensures
        break_free(line_content(field_lines(e)[i])),
{
    lemma_prefix_is_break_free(field_lines(e)[i].kind);
    let head = heading_lines(e);
    if i < head.len() {
        // A line before the data: the number of `retry`, or a text that holds no break.
        if e.retry is Some {
            lemma_decimal_is_break_free(e.retry->0);
        }
    } else {
        // A `data` line: one of the lines that the blocks split into.
        lemma_block_lines_are_break_free(e.data->0.blocks(), i - head.len());
    }
}

/// Lines that hold no break of their own are read back from their text one by one, and
/// the empty line that ends the event after them.
proof fn lemma_lines_of_rendered(all: Seq<FieldLine>)
    requires
        forall|i: int| 0 <= i < all.len() ==> break_free(line_content(#[trigger] all[i])),
    ensures
        lines(render(all)) == all.map_values(line_content_fn()).push(Seq::empty()),
    decreases all.len(),
{
    let text = render(all);
    let expected = all.map_values(line_content_fn()).push(Seq::empty());
    if all.len() == 0 {
        // The text is a single line feed: one empty line.
        lemma_render_empty();
        lemma_line_len(text, 0, 0);
        assert(text.subrange(0, 0) =~= Seq::<char>::empty());
        assert(lines_from(text, 1) =~= Seq::<Seq<char>>::empty());
    } else {
        // The text is the first line, a line feed, and the text of the other lines.
        let rest = all.drop_first();
        let content = line_content(all.first());
        let end = content.len() as int;
        assert(all.map_values(line_text_fn()).drop_first() =~= rest.map_values(line_text_fn()));
        assert(all.flat_map(line_text_fn()) == line_text(all.first()) + rest.flat_map(
            line_text_fn(),
        )) by {
            reveal_with_fuel(Seq::flatten, 2);
        }
        assert(text.subrange(0, end) =~= content);
        assert(text.skip(end + 1) =~= render(rest));
        // So its first line is the first line's content, and its other lines are theirs.
        assert forall|k: int| 0 <= k < end implies !is_break(#[trigger] text[k]) by {}
        lemma_line_len(text, 0, end);
        lemma_lines_of_rest(text, end + 1);
        assert forall|i: int| 0 <= i < rest.len() implies break_free(
            line_content(#[trigger] rest[i]),
        ) by {}
        lemma_lines_of_rendered(rest);
        assert(seq![content] + rest.map_values(line_content_fn()).push(Seq::empty())
            =~= expected);
    }
}

/// Reading an encoded event line by line gives back its lines, each as prefix and value,
/// and then the empty line that ends the event: nothing more and nothing less, as long as
/// comment, identifier and type hold no line break of their own.
pub proof fn lemma_wire_lines(e: EventView)
    requires
        single_line_fields(e),
    ensures
        lines(wire(e)) == field_lines(e).map_values(line_content_fn()).push(Seq::empty()),
{
    let all = field_lines(e);
    assert forall|i: int| 0 <= i < all.len() implies break_free(line_content(#[trigger] all[i])) by {
        lemma_contents_are_break_free(e, i);
    }
    lemma_lines_of_rendered(all);
}

/// Whether a line of text starts with `data: `.
pub open spec fn is_data_text(line: Seq<char>) -> bool {
    line.len() >= 6 && line.subrange(0, 6) == "data: "@
}

/// Among the lines of an encoded event, those that start with `data: ` are exactly the
/// `data` lines: one for each line of each block of the payload.
pub proof fn lemma_data_lines_in_text(e: EventView, i: int)
    requires
        single_line_fields(e),
        0 <= i < field_lines(e).len(),
    ensures
        lines(wire(e)).len() == field_lines(e).len() + 1,
        is_data_text(lines(wire(e))[i]) <==> field_lines(e)[i].kind == FieldKind::Data,
        !is_data_text(lines(wire(e)).last()),
{
    lemma_wire_lines(e);
    reveal_strlit(": ");
    reveal_strlit("retry: ");
    reveal_strlit("id: ");
    reveal_strlit("event: ");
    reveal_strlit("data: ");
    let line = field_lines(e)[i];
    let content = line_content(line);
    if line.kind == FieldKind::Data {
        assert(content.subrange(0, 6) =~= "data: "@);
    } else if content.len() >= 6 {
        // Every other prefix starts with another character than `d`.
        assert(content.subrange(0, 6)[0] == field_prefix(line.kind)[0]);
    }
}

} // verus!

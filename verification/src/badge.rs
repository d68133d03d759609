//! The badge: a fixed frame of two coloured zones, the label `views` on the
//! left one and the count on the right one.

use svg::node::element::Element;
use vstd::prelude::*;

use crate::decimal::{decimal, decimal_text, digits, lemma_decimal_text_injective};
use crate::markup::{
    add_element, add_text, attributes_markup, closing, document, element_children,
    element_markup, group, holds, lemma_lines_one, lemma_lines_push, line, markup_of, opening,
    rectangle, set_number, set_text, text, to_markup,
};

verus! {

/// The attributes of the left zone, which carries the label.
pub open spec fn left_zone_attributes() -> Map<Seq<char>, Seq<char>> {
    map!["width"@ => "50"@, "height"@ => "20"@, "fill"@ => "#555"@]
}

/// The attributes of the right zone, which carries the count. It is taller
/// than the canvas; the canvas cuts it off.
pub open spec fn right_zone_attributes() -> Map<Seq<char>, Seq<char>> {
    map!["width"@ => "70"@, "height"@ => "50"@, "x"@ => "50"@, "fill"@ => "#4c1"@]
}

/// The attributes of a line of text whose middle is at `x`, with its baseline
/// at 14.
pub open spec fn caption_attributes(x: Seq<char>) -> Map<Seq<char>, Seq<char>> {
    map!["x"@ => x, "y"@ => "14"@]
}

/// The styling that the two lines of text share.
pub open spec fn captions_attributes() -> Map<Seq<char>, Seq<char>> {
    map![
        "fill"@ => "#fff"@,
        "text-anchor"@ => "middle"@,
        "font-family"@ => "DejaVu Sans, Verdana, Geneva, sans-serif"@,
        "font-size"@ => "11"@,
    ]
}

/// The attributes of the canvas.
pub open spec fn canvas_attributes() -> Map<Seq<char>, Seq<char>> {
    map!["xmlns"@ => "http://www.w3.org/2000/svg"@, "height"@ => "20"@, "width"@ => "120"@]
}

/// The left zone as it is written out.
pub open spec fn left_zone() -> Seq<char> {
    element_markup("rect"@, attributes_markup(left_zone_attributes()), Seq::empty())
}

/// The right zone as it is written out.
pub open spec fn right_zone() -> Seq<char> {
    element_markup("rect"@, attributes_markup(right_zone_attributes()), Seq::empty())
}

/// The label `views`, in the middle of the left zone, as it is written out.
pub open spec fn title_caption() -> Seq<char> {
    element_markup("text"@, attributes_markup(caption_attributes("25"@)), seq!["views"@])
}

/// The count, in the middle of the right zone, as it is written out. Its one
/// child is the decimal notation of the count.
pub open spec fn count_caption(count: int) -> Seq<char> {
    element_markup(
        "text"@,
        attributes_markup(caption_attributes("85"@)),
        seq![decimal_text(count)],
    )
}

/// The group of the two lines of text as it is written out.
pub open spec fn captions(count: int) -> Seq<char> {
    element_markup(
        "g"@,
        attributes_markup(captions_attributes()),
        seq![title_caption(), count_caption(count)],
    )
}

/// The children of the canvas: the two zones, then the text.
pub open spec fn canvas_children(count: int) -> Seq<Seq<char>> {
    seq![left_zone(), right_zone(), captions(count)]
}

/// The badge for `count` as it is written out.
pub open spec fn badge_markup(count: int) -> Seq<char> {
    element_markup("svg"@, attributes_markup(canvas_attributes()), canvas_children(count))
}

/// The decimal notation of the numbers that the layout uses.
proof fn lemma_layout_numbers()
    ensures
        decimal_text(11) == "11"@,
        decimal_text(14) == "14"@,
        decimal_text(20) == "20"@,
        decimal_text(25) == "25"@,
        decimal_text(50) == "50"@,
        decimal_text(70) == "70"@,
        decimal_text(85) == "85"@,
        decimal_text(120) == "120"@,
{
    reveal_with_fuel(digits, 3);
    reveal_strlit("11");
    reveal_strlit("14");
    reveal_strlit("20");
    reveal_strlit("25");
    reveal_strlit("50");
    reveal_strlit("70");
    reveal_strlit("85");
    reveal_strlit("120");
    assert(decimal_text(11) =~= "11"@);
    assert(decimal_text(14) =~= "14"@);
    assert(decimal_text(20) =~= "20"@);
    assert(decimal_text(25) =~= "25"@);
    assert(decimal_text(50) =~= "50"@);
    assert(decimal_text(70) =~= "70"@);
    assert(decimal_text(85) =~= "85"@);
    assert(decimal_text(120) =~= "120"@);
}

/// The badge that shows `count`: a canvas of 120 by 20 with the two zones and
/// the two lines of text.
pub fn profile_badge(count: i32) -> (badge: Element)
    ensures
        holds(badge, "svg"@, canvas_attributes(), canvas_children(count as int)),
        markup_of(badge) == badge_markup(count as int),
{
    proof {
        lemma_layout_numbers();
    }
    let left_rect = rectangle();
    let left_rect = set_number(left_rect, "width", 50);
    let left_rect = set_number(left_rect, "height", 20);
    let left_rect = set_text(left_rect, "fill", "#555");
    assert(markup_of(left_rect) == left_zone());

    let right_rect = rectangle();
    let right_rect = set_number(right_rect, "width", 70);
    let right_rect = set_number(right_rect, "height", 50);
    let right_rect = set_number(right_rect, "x", 50);
    let right_rect = set_text(right_rect, "fill", "#4c1");
    assert(markup_of(right_rect) == right_zone());

    let title_text = text();
    let title_text = set_number(title_text, "x", 25);
    let title_text = set_number(title_text, "y", 14);
    let title_text = add_text(title_text, "views");
    assert(markup_of(title_text) == title_caption());

    let count_text = text();
    let count_text = set_number(count_text, "x", 85);
    let count_text = set_number(count_text, "y", 14);
    let count_text = add_text(count_text, decimal(count).as_str());
    assert(markup_of(count_text) == count_caption(count as int));

    let text_container = group();
    let text_container = set_text(text_container, "fill", "#fff");
    let text_container = set_text(text_container, "text-anchor", "middle");
    let text_container = set_text(
        text_container,
        "font-family",
        "DejaVu Sans, Verdana, Geneva, sans-serif",
    );
    let text_container = set_number(text_container, "font-size", 11);
    let text_container = add_element(text_container, title_text);
    let text_container = add_element(text_container, count_text);
    assert(element_children(text_container)
        =~= seq![title_caption(), count_caption(count as int)]);
    assert(markup_of(text_container) == captions(count as int));

    let badge = document();
    let badge = set_number(badge, "height", 20);
    let badge = set_number(badge, "width", 120);
    let badge = add_element(badge, left_rect);
    let badge = add_element(badge, right_rect);
    let badge = add_element(badge, text_container);
    assert(element_children(badge) =~= canvas_children(count as int));
    badge
}

/// The text of the badge up to the count: the opening tag of the canvas, the
/// two zones, the opening tag of the group, the line `views`, and the opening
/// tag of the line that holds the count, each on a line of its own.
pub open spec fn before_count() -> Seq<char> {
    let canvas = opening("svg"@, attributes_markup(canvas_attributes()));
    let group = opening("g"@, attributes_markup(captions_attributes()));
    let caption = opening("text"@, attributes_markup(caption_attributes("85"@)));
    canvas + line(left_zone()) + line(right_zone()) + line(group) + line(title_caption()) + line(
        caption,
    ) + seq!['\n']
}

/// The text of the badge after the count: the closing tags of the line, of
/// the group and of the canvas, each on a line of its own.
pub open spec fn after_count() -> Seq<char> {
    closing("text"@) + closing("g"@) + closing("svg"@)
}

/// The canvas is 120 wide and 20 high, whatever the count.
pub proof fn lemma_canvas_size()
    ensures
        canvas_attributes().dom().contains("width"@),
        canvas_attributes()["width"@] == "120"@,
        canvas_attributes().dom().contains("height"@),
        canvas_attributes()["height"@] == "20"@,
{
    reveal_strlit("xmlns");
    reveal_strlit("height");
    reveal_strlit("width");
    assert("xmlns"@.len() == 5 && "height"@.len() == 6 && "width"@.len() == 5);
}

/// An element whose last child has `x` somewhere in its text has `x` at the
/// matching place in its own text.
proof fn lemma_last_child_splits(
    open: Seq<char>,
    lead: Seq<char>,
    before: Seq<char>,
    x: Seq<char>,
    after: Seq<char>,
    close: Seq<char>,
)
    ensures
        open + (lead + line(before + x + after)) + close
            == (open + lead + line(before)) + x + (after + close),
{
    assert(open + (lead + line(before + x + after)) + close
        =~= (open + lead + line(before)) + x + (after + close));
}

/// The count is written in one place, the line of text whose middle is at 85
/// and whose baseline is at 14, in decimal notation and on a line of its own.
/// All that stands before it and after it is the same for every count: a
/// larger count makes the text longer and leaves the frame as it is.
pub proof fn lemma_badge_frame(count: int)
    ensures
        badge_markup(count) == before_count() + decimal_text(count) + after_count(),
        caption_attributes("85"@).dom().contains("x"@),
        caption_attributes("85"@)["x"@] == "85"@,
        caption_attributes("85"@).dom().contains("y"@),
        caption_attributes("85"@)["y"@] == "14"@,
{
    assert(caption_attributes("85"@)["x"@] == "85"@ && caption_attributes("85"@)["y"@] == "14"@)
        by {
        reveal_strlit("x");
        reveal_strlit("y");
        assert("x"@[0] == 'x' && "y"@[0] == 'y');
    }
    let number = decimal_text(count);
    let canvas = opening("svg"@, attributes_markup(canvas_attributes()));
    let group = opening("g"@, attributes_markup(captions_attributes()));
    let caption = opening("text"@, attributes_markup(caption_attributes("85"@)));
    let zones = line(left_zone()) + line(right_zone());
    let closings = closing("text"@) + closing("g"@);

    // The line that holds the count.
    lemma_lines_one(number);
    assert(count_caption(count) == (caption + seq!['\n']) + number + closing("text"@)) by {
        assert(caption + line(number) + closing("text"@)
            =~= (caption + seq!['\n']) + number + closing("text"@));
    }

    // The group, whose last child is that line.
    lemma_lines_one(title_caption());
    lemma_lines_push(seq![title_caption()], count_caption(count));
    assert(seq![title_caption()].push(count_caption(count))
        =~= seq![title_caption(), count_caption(count)]);
    lemma_last_child_splits(
        group,
        line(title_caption()),
        caption + seq!['\n'],
        number,
        closing("text"@),
        closing("g"@),
    );
    let inner = group + line(title_caption()) + line(caption + seq!['\n']);
    assert(captions(count) == inner + number + closings);

    // The canvas, whose last child is the group.
    lemma_lines_one(left_zone());
    lemma_lines_push(seq![left_zone()], right_zone());
    assert(seq![left_zone()].push(right_zone()) =~= seq![left_zone(), right_zone()]);
    lemma_lines_push(seq![left_zone(), right_zone()], captions(count));
    assert(seq![left_zone(), right_zone()].push(captions(count)) =~= canvas_children(count));
    lemma_last_child_splits(canvas, zones, inner, number, closings, closing("svg"@));
    assert(canvas + zones + line(inner) =~= before_count());
}

/// The count can be read off the badge: two counts whose badges are written
/// out alike are the same count.
pub proof fn lemma_badge_shows_count(first: int, second: int)
    requires
        badge_markup(first) == badge_markup(second),
    ensures
        first == second,
{
    lemma_badge_frame(first);
    lemma_badge_frame(second);
    let before = before_count();
    let after = after_count();
    let one = decimal_text(first);
    let other = decimal_text(second);
    assert((before + one + after).len() == (before + other + after).len());
    assert forall|i: int| 0 <= i < one.len() implies one[i] == other[i] by {
        assert((before + one + after)[before.len() + i] == one[i]);
        assert((before + other + after)[before.len() + i] == other[i]);
    }
    assert(one =~= other);
    lemma_decimal_text_injective(first, second);
}

/// Two badges for one count are written out alike, character for character:
/// the text depends on the count and on nothing else.
pub proof fn lemma_badge_deterministic(first: Element, second: Element, count: int)
    requires
        holds(first, "svg"@, canvas_attributes(), canvas_children(count)),
        holds(second, "svg"@, canvas_attributes(), canvas_children(count)),
    ensures
        markup_of(first) == badge_markup(count),
        markup_of(first) == markup_of(second),
{
}

/// The badge that shows `count`, written out as it is sent to a client. The
/// text depends on the count alone.
pub fn badge_text(count: i32) -> (text: String)
    ensures
        text@ == badge_markup(count as int),
{
    let badge = profile_badge(count);
    to_markup(&badge)
}

} // verus!

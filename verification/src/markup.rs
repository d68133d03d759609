//! SVG elements, composed and written out by the `svg` crate.
//!
//! An element is kept as the `svg` crate's own `Element`. What such an element
//! holds is described by three functions without a body: its tag, its
//! attributes and its children. The functions at the end of this file are the
//! only places where the `svg` crate is called; their contracts are taken from
//! its source and are not proved here.

use svg::node::element::Element;
use svg::Node;
use vstd::prelude::*;

use crate::decimal::decimal_text;

verus! {

/// The element type of the `svg` crate: a tag, a map of attributes and a list
/// of child nodes.
#[verifier::external_type_specification]
#[verifier::external_body]
pub struct ExElement(svg::node::element::Element);

/// The tag of an element, such as `rect` or `svg`.
pub uninterp spec fn element_tag(element: Element) -> Seq<char>;

/// The attributes of an element: each name with the text of its value.
pub uninterp spec fn element_attributes(element: Element) -> Map<Seq<char>, Seq<char>>;

/// The children of an element in the order in which they were added, each as
/// the text that it is written out as.
pub uninterp spec fn element_children(element: Element) -> Seq<Seq<char>>;

/// The text that the `svg` crate writes for the attributes of an element, in
/// the opening tag after the tag's name: the attributes in the order of their
/// names, each after a space, as the name, `=` and the value in double quotes.
/// A value that holds a double quote is put in single quotes instead, and an
/// attribute whose value holds both kinds of quote is left out.
pub uninterp spec fn attributes_markup(attributes: Map<Seq<char>, Seq<char>>) -> Seq<char>;

/// A child as it is written out: after a line break.
pub open spec fn line(child: Seq<char>) -> Seq<char> {
    seq!['\n'] + child
}

/// The children of an element as they are written out, each after a line
/// break.
pub open spec fn lines(children: Seq<Seq<char>>) -> Seq<char>
    decreases children.len(),
{
    if children.len() == 0 {
        Seq::empty()
    } else {
        lines(children.drop_last()) + line(children.last())
    }
}

/// The opening tag of an element: `<`, the tag, the attribute text, `>`.
pub open spec fn opening(tag: Seq<char>, attributes: Seq<char>) -> Seq<char> {
    seq!['<'] + tag + attributes + seq!['>']
}

/// The closing tag of an element on a line of its own: a line break, `</`,
/// the tag, `>`.
pub open spec fn closing(tag: Seq<char>) -> Seq<char> {
    seq!['\n', '<', '/'] + tag + seq!['>']
}

/// The text of an element with the given tag, attribute text and children.
/// Without children it is the one tag `<tag attributes/>`. With children it is
/// the opening tag, each child on a line of its own, and the closing tag on
/// the line after the last child.
pub open spec fn element_markup(
    tag: Seq<char>,
    attributes: Seq<char>,
    children: Seq<Seq<char>>,
) -> Seq<char> {
    if children.len() == 0 {
        seq!['<'] + tag + attributes + seq!['/', '>']
    } else {
        opening(tag, attributes) + lines(children) + closing(tag)
    }
}

/// The lines of a single child.
pub proof fn lemma_lines_one(child: Seq<char>)
    ensures
        lines(seq![child]) == line(child),
{
    reveal_with_fuel(lines, 2);
    assert(seq![child].drop_last() =~= Seq::<Seq<char>>::empty());
    assert(lines(seq![child]) =~= line(child));
}

/// The lines of some children and one more: the lines of the first, then
/// the line of the last.
pub proof fn lemma_lines_push(children: Seq<Seq<char>>, child: Seq<char>)
    ensures
        lines(children.push(child)) == lines(children) + line(child),
{
    assert(children.push(child).drop_last() =~= children);
}

/// The text that an element is written out as.
pub open spec fn markup_of(element: Element) -> Seq<char> {
    element_markup(
        element_tag(element),
        attributes_markup(element_attributes(element)),
        element_children(element),
    )
}

/// Whether an element has the given tag, attributes and children.
pub open spec fn holds(
    element: Element,
    tag: Seq<char>,
    attributes: Map<Seq<char>, Seq<char>>,
    children: Seq<Seq<char>>,
) -> bool {
    &&& element_tag(element) == tag
    &&& element_attributes(element) == attributes
    &&& element_children(element) == children
}

/// `svg::node::element::Rectangle::new`, with the rectangle taken as the plain
/// element inside it: a `rect` without attributes or children.
#[verifier::external_body]
pub(crate) fn rectangle() -> (element: Element)
    ensures
        holds(element, "rect"@, Map::empty(), Seq::empty()),
{
    svg::node::element::Rectangle::new().into()
}

/// `svg::node::element::Text::new`, with the text element taken as the plain
/// element inside it: a `text` without attributes or children.
#[verifier::external_body]
pub(crate) fn text() -> (element: Element)
    ensures
        holds(element, "text"@, Map::empty(), Seq::empty()),
{
    svg::node::element::Text::new().into()
}

/// `svg::node::element::Group::new`, with the group taken as the plain element
/// inside it: a `g` without attributes or children.
#[verifier::external_body]
pub(crate) fn group() -> (element: Element)
    ensures
        holds(element, "g"@, Map::empty(), Seq::empty()),
{
    svg::node::element::Group::new().into()
}

/// `svg::Document::new`, with the document taken as the plain element inside
/// it: an `svg` without children whose one attribute, `xmlns`, is the SVG
/// namespace.
#[verifier::external_body]
pub(crate) fn document() -> (element: Element)
    ensures
        holds(
            element,
            "svg"@,
            Map::empty().insert("xmlns"@, "http://www.w3.org/2000/svg"@),
            Seq::empty(),
        ),
{
    svg::Document::new().into()
}

/// `svg::Node::assign` on an element, with an `i32` as the value: the
/// attribute `name` is set to the decimal notation of `value`, in place of an
/// earlier value of that name. The tag and the children stay.
#[verifier::external_body]
pub(crate) fn set_number(element: Element, name: &str, value: i32) -> (changed: Element)
    ensures
        holds(
            changed,
            element_tag(element),
            element_attributes(element).insert(name@, decimal_text(value as int)),
            element_children(element),
        ),
{
    let mut element = element;
    element.assign(name, value);
    element
}

/// `svg::Node::assign` on an element, with a `&str` as the value: the
/// attribute `name` is set to `value`, in place of an earlier value of that
/// name. The tag and the children stay.
#[verifier::external_body]
pub(crate) fn set_text(element: Element, name: &str, value: &str) -> (changed: Element)
    ensures
        holds(
            changed,
            element_tag(element),
            element_attributes(element).insert(name@, value@),
            element_children(element),
        ),
{
    let mut element = element;
    element.assign(name, value);
    element
}

/// `svg::Node::append` on an element, with an element as the child: `child`
/// becomes the last child. The tag and the attributes stay.
#[verifier::external_body]
pub(crate) fn add_element(element: Element, child: Element) -> (changed: Element)
    ensures
        holds(
            changed,
            element_tag(element),
            element_attributes(element),
            element_children(element).push(markup_of(child)),
        ),
{
    let mut element = element;
    element.append(child);
    element
}

/// `svg::Node::append` on an element, with the text node that
/// `svg::node::Text::new` makes of `content` as the child: the text becomes
/// the last child and is written out as it stands, without escaping. The tag
/// and the attributes stay.
#[verifier::external_body]
pub(crate) fn add_text(element: Element, content: &str) -> (changed: Element)
    ensures
        holds(
            changed,
            element_tag(element),
            element_attributes(element),
            element_children(element).push(content@),
        ),
{
    let mut element = element;
    element.append(svg::node::Text::new(content));
    element
}

/// `to_string` of an element, which goes through its `Display`: `<`, the tag
/// and the attributes; then `/>` if there is no child, else `>`, a line break
/// and a child for each child, a line break and the closing tag.
#[verifier::external_body]
pub(crate) fn to_markup(element: &Element) -> (markup: String)
    ensures
        markup@ == element_markup(
            element_tag(*element),
            attributes_markup(element_attributes(*element)),
            element_children(*element),
        ),
{
    element.to_string()
}

} // verus!

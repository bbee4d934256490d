//! Anchoring, translating and fingerprinting an element.

use overlays::{
    Clipboard, Element, Event, EventInteraction, Hasher, Layout, Node, Overlay, Point, Renderer,
    Size, Vector,
};

struct Silent;

impl Renderer for Silent {
    type Output = ();
    type Defaults = ();
}

/// An overlay that shows where it was asked to anchor itself, and whose
/// fingerprint is its anchor and its text.
struct Tooltip {
    text: String,
    events_seen: usize,
}

impl Tooltip {
    fn saying(text: &str) -> Tooltip {
        Tooltip { text: String::from(text), events_seen: 0 }
    }
}

impl Overlay<(), Silent> for Tooltip {
    fn layout(&self, _renderer: &Silent, bounds: Size, position: Point) -> Node {
        Node::new(position, bounds, Vec::new())
    }

    fn on_event(
        &mut self,
        _event: Event,
        _layout: Layout<'_>,
        _cursor_position: Point,
        _messages: &mut Vec<()>,
        _renderer: &Silent,
        _clipboard: Option<&dyn Clipboard>,
    ) -> EventInteraction {
        self.events_seen += 1;
        EventInteraction::Ignored
    }

    fn draw(
        &self,
        _renderer: &mut Silent,
        _defaults: &(),
        _layout: Layout<'_>,
        _cursor_position: Point,
    ) {
    }

    fn hash_layout(&self, state: &mut Hasher, position: Point) {
        state.write(&position.x.to_le_bytes());
        state.write(&position.y.to_le_bytes());
        state.write(self.text.as_bytes());
    }
}

fn tooltip_at(x: i32, y: i32) -> Element<(), Silent, Tooltip> {
    Element::new(Point::new(x, y), Box::new(Tooltip::saying("hint")))
}

fn anchor_of(element: &Element<(), Silent, Tooltip>) -> Point {
    element.layout(&Silent, Size::new(1, 1)).position
}

fn digest_of(element: &Element<(), Silent, Tooltip>) -> u64 {
    let mut hasher = Hasher::new();
    element.hash_layout(&mut hasher);
    hasher.finish()
}

#[test]
fn new_element_is_anchored_where_it_was_put() {
    assert_eq!(anchor_of(&tooltip_at(10, 20)), Point::new(10, 20));
    assert_eq!(anchor_of(&tooltip_at(0, 0)), Point::new(0, 0));
    assert_eq!(anchor_of(&tooltip_at(-5, 7)), Point::new(-5, 7));
    assert_eq!(
        anchor_of(&tooltip_at(i32::MIN, i32::MAX)),
        Point::new(i32::MIN, i32::MAX)
    );
}

#[test]
fn layout_gets_the_bounds_as_they_came() {
    let node = tooltip_at(1, 2).layout(&Silent, Size::new(-3, 400));
    assert_eq!(node.size, Size::new(-3, 400));
    assert_eq!(node.position, Point::new(1, 2));
    assert!(node.children.is_empty());
}

#[test]
fn translate_offsets_the_anchor_by_the_vector() {
    let moved = tooltip_at(10, 20).translate(Vector::new(5, -7));
    assert_eq!(anchor_of(&moved), Point::new(15, 13));
}

#[test]
fn translate_by_nothing_leaves_the_anchor() {
    let moved = tooltip_at(10, 20).translate(Vector::new(0, 0));
    assert_eq!(anchor_of(&moved), Point::new(10, 20));
    let corner = tooltip_at(i32::MAX, i32::MIN).translate(Vector::new(0, 0));
    assert_eq!(anchor_of(&corner), Point::new(i32::MAX, i32::MIN));
}

#[test]
fn translate_reaches_the_ends_of_the_coordinates() {
    let far = tooltip_at(i32::MAX - 1, i32::MIN + 1).translate(Vector::new(1, -1));
    assert_eq!(anchor_of(&far), Point::new(i32::MAX, i32::MIN));
    let across = tooltip_at(i32::MIN, i32::MAX).translate(Vector::new(i32::MAX, i32::MIN));
    assert_eq!(anchor_of(&across), Point::new(-1, -1));
}

#[test]
fn translate_twice_is_translate_by_the_sum() {
    let first = Vector::new(3, -4);
    let second = Vector::new(-10, 25);
    let twice = tooltip_at(10, 20).translate(first).translate(second);
    let once = tooltip_at(10, 20).translate(first + second);
    assert_eq!(anchor_of(&twice), Point::new(3, 41));
    assert_eq!(anchor_of(&once), Point::new(3, 41));
    assert_eq!(digest_of(&twice), digest_of(&once));
}

#[test]
fn translate_there_and_back_restores_the_anchor() {
    let element =
        tooltip_at(10, 20).translate(Vector::new(100, 200)).translate(Vector::new(-100, -200));
    assert_eq!(anchor_of(&element), Point::new(10, 20));
    assert_eq!(digest_of(&element), digest_of(&tooltip_at(10, 20)));
}

#[test]
fn translate_leaves_the_overlay_alone() {
    let mut element = tooltip_at(0, 0);
    let node = element.layout(&Silent, Size::new(1, 1));
    let mut messages = Vec::new();
    element.on_event(
        Event::KeyPressed(1),
        Layout::new(&node),
        Point::new(0, 0),
        &mut messages,
        &Silent,
        None,
    );
    let moved = element.translate(Vector::new(1, 1));

    let mut sink = Hasher::new();
    moved.hash_layout(&mut sink);
    let mut expected = Hasher::new();
    expected.write(&1i32.to_le_bytes());
    expected.write(&1i32.to_le_bytes());
    expected.write(b"hint");
    assert_eq!(sink.finish(), expected.finish());
}

#[test]
fn events_leave_the_anchor_where_it_is() {
    let mut element = tooltip_at(10, 20);
    let node = element.layout(&Silent, Size::new(1, 1));
    let mut messages = Vec::new();
    for event in [Event::KeyPressed(1), Event::CursorMoved(Point::new(99, 99))] {
        let interaction = element.on_event(
            event,
            Layout::new(&node),
            Point::new(99, 99),
            &mut messages,
            &Silent,
            None,
        );
        assert_eq!(interaction, EventInteraction::Ignored);
    }
    assert!(messages.is_empty());
    assert_eq!(anchor_of(&element), Point::new(10, 20));
}

#[test]
fn hash_layout_writes_the_anchor_of_the_element() {
    let mut sink = Hasher::new();
    tooltip_at(10, 20).hash_layout(&mut sink);
    let mut expected = Hasher::new();
    expected.write(&10i32.to_le_bytes());
    expected.write(&20i32.to_le_bytes());
    expected.write(b"hint");
    assert_eq!(sink.finish(), expected.finish());
}

#[test]
fn hash_layout_twice_writes_the_same_twice() {
    let element = tooltip_at(10, 20);

    let mut first = Hasher::new();
    element.hash_layout(&mut first);
    let mut second = Hasher::new();
    element.hash_layout(&mut second);
    assert_eq!(first.finish(), second.finish());

    let mut both = Hasher::new();
    element.hash_layout(&mut both);
    element.hash_layout(&mut both);
    let mut expected = Hasher::new();
    for _ in 0..2 {
        expected.write(&10i32.to_le_bytes());
        expected.write(&20i32.to_le_bytes());
        expected.write(b"hint");
    }
    assert_eq!(both.finish(), expected.finish());
}

#[test]
fn hash_layout_goes_behind_what_the_sink_held() {
    let mut sink = Hasher::new();
    sink.write(b"earlier");
    tooltip_at(10, 20).hash_layout(&mut sink);
    let mut expected = Hasher::new();
    expected.write(b"earlier");
    expected.write(&10i32.to_le_bytes());
    expected.write(&20i32.to_le_bytes());
    expected.write(b"hint");
    assert_eq!(sink.finish(), expected.finish());
}

#[test]
fn fingerprint_tells_anchors_apart() {
    assert_ne!(digest_of(&tooltip_at(10, 20)), digest_of(&tooltip_at(10, 21)));
    assert_ne!(digest_of(&tooltip_at(10, 20)), digest_of(&tooltip_at(20, 10)));
    assert_ne!(
        digest_of(&tooltip_at(10, 20)),
        digest_of(&tooltip_at(10, 20).translate(Vector::new(1, 0)))
    );
}

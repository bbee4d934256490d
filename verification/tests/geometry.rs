//! Points, vectors and sizes.

use overlays::{Layout, Node, Point, Size, Vector};

#[test]
fn constructors_keep_what_they_are_given() {
    let point = Point::new(-3, 8);
    assert_eq!((point.x, point.y), (-3, 8));
    let vector = Vector::new(4, -9);
    assert_eq!((vector.x, vector.y), (4, -9));
    let size = Size::new(-1, 0);
    assert_eq!((size.width, size.height), (-1, 0));
}

#[test]
fn point_plus_vector_adds_coordinate_by_coordinate() {
    assert_eq!(Point::new(10, 20) + Vector::new(5, -7), Point::new(15, 13));
    assert_eq!(Point::new(0, 0) + Vector::new(0, 0), Point::new(0, 0));
    assert_eq!(Point::new(-1, -1) + Vector::new(1, 1), Point::new(0, 0));
    assert_eq!(
        Point::new(i32::MAX - 2, i32::MIN + 2) + Vector::new(2, -2),
        Point::new(i32::MAX, i32::MIN)
    );
}

#[test]
fn vector_plus_vector_adds_component_by_component() {
    assert_eq!(Vector::new(3, -4) + Vector::new(-10, 25), Vector::new(-7, 21));
    assert_eq!(
        Vector::new(i32::MAX, i32::MIN) + Vector::new(0, 0),
        Vector::new(i32::MAX, i32::MIN)
    );
}

#[test]
fn moving_twice_is_moving_by_the_sum() {
    let start = Point::new(-100, 100);
    let first = Vector::new(30, 40);
    let second = Vector::new(-7, -8);
    assert_eq!((start + first) + second, start + (first + second));
    assert_eq!((start + first) + second, Point::new(-77, 132));
}

#[test]
fn node_keeps_its_parts() {
    let child = Node::new(Point::new(1, 2), Size::new(3, 4), Vec::new());
    let node = Node::new(Point::new(5, 6), Size::new(7, 8), vec![child]);
    assert_eq!(node.position, Point::new(5, 6));
    assert_eq!(node.size, Size::new(7, 8));
    assert_eq!(node.children.len(), 1);
    assert_eq!(node.children[0].position, Point::new(1, 2));
    assert_eq!(node.children[0].size, Size::new(3, 4));
    assert!(node.children[0].children.is_empty());
}

#[test]
fn layout_looks_at_the_node_it_was_given() {
    let node = Node::new(Point::new(5, 6), Size::new(7, 8), Vec::new());
    let layout = Layout::new(&node);
    assert_eq!(layout.node, &node);
    let copy = layout;
    assert_eq!(copy.node.position, layout.node.position);
}

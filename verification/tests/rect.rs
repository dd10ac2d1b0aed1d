use yew_tou_rs::rect::Rect;
use yew_tou_rs::relative_position::RelativePosition;

#[test]
fn test_left_right_top_bottom() {
    let rect = Rect {
        x: 5,
        y: 10,
        width: 20,
        height: 30,
    };
    assert_eq!(rect.left(), 5);
    assert_eq!(rect.right(), 25);
    assert_eq!(rect.top(), 10);
    assert_eq!(rect.bottom(), 40);
}

#[test]
fn test_overlap_no_overlap() {
    let rect1 = Rect {
        x: 10,
        y: 10,
        width: 10,
        height: 10,
    };
    let rect2 = Rect {
        x: 25,
        y: 25,
        width: 5,
        height: 5,
    };
    assert_eq!(rect1.overlap(&rect2), 0);
}

#[test]
fn test_overlap_full_overlap() {
    let rect1 = Rect {
        x: 10,
        y: 10,
        width: 20,
        height: 30,
    };
    let rect2 = Rect {
        x: 5,
        y: 5,
        width: 30,
        height: 40,
    };
    assert_eq!(rect1.overlap(&rect2), rect1.area());
}

#[test]
fn test_overlap_partial_overlap() {
    let rect1 = Rect {
        x: 10,
        y: 10,
        width: 20,
        height: 30,
    };
    let rect2 = Rect {
        x: 15,
        y: 5,
        width: 10,
        height: 20,
    };
    assert_eq!(rect1.overlap(&rect2), 150);
}

#[test]
fn test_area_rect1() {
    let rect = Rect::from((10, 20, 30, 40));
    assert_eq!(rect.area(), 1200);
}

#[test]
fn test_area_rect2() {
    let rect = Rect::from((0, 0, 5, 5));
    assert_eq!(rect.area(), 25);
}

#[test]
fn test_area_rect3() {
    let rect = Rect::from((15, 25, 0, 0));
    assert_eq!(rect.area(), 0);
}

#[test]
fn from_tuple_keeps_the_order_of_the_fields() {
    let rect = Rect::from((1, 2, 3, 4));
    assert_eq!(
        rect,
        Rect {
            x: 1,
            y: 2,
            width: 3,
            height: 4
        }
    );
}

#[test]
fn default_is_zero_sized_at_the_origin() {
    let rect = Rect::default();
    assert_eq!(
        rect,
        Rect {
            x: 0,
            y: 0,
            width: 0,
            height: 0
        }
    );
    assert_eq!(rect.area(), 0);
    assert_eq!(rect.right(), 0);
    assert_eq!(rect.bottom(), 0);
}

#[test]
fn overlap_is_symmetric() {
    let rects = [
        Rect::from((10, 10, 20, 30)),
        Rect::from((15, 5, 10, 20)),
        Rect::from((-5, -5, 8, 8)),
        Rect::from((0, 0, 0, 0)),
        Rect::from((29, 39, 100, 100)),
    ];
    for a in rects.iter() {
        for b in rects.iter() {
            assert_eq!(a.overlap(b), b.overlap(a));
        }
    }
}

#[test]
fn overlap_of_a_contained_rect_is_its_area() {
    let outer = Rect::from((-10, -10, 100, 100));
    let inner = Rect::from((0, 5, 7, 9));
    assert_eq!(outer.overlap(&inner), 63);
    assert_eq!(outer.overlap(&inner), inner.area());
    assert_eq!(outer.overlap(&outer), outer.area());
}

#[test]
fn overlap_of_touching_rects_is_zero() {
    let a = Rect::from((0, 0, 10, 10));
    let right_neighbour = Rect::from((10, 0, 10, 10));
    let lower_neighbour = Rect::from((0, 10, 10, 10));
    assert_eq!(a.overlap(&right_neighbour), 0);
    assert_eq!(right_neighbour.overlap(&a), 0);
    assert_eq!(a.overlap(&lower_neighbour), 0);
}

#[test]
fn overlap_with_a_zero_area_rect_is_zero() {
    let a = Rect::from((0, 0, 10, 10));
    let point = Rect::from((5, 5, 0, 0));
    assert_eq!(a.overlap(&point), 0);
    assert_eq!(point.overlap(&point), 0);
}

#[test]
fn overlap_is_computed_on_wide_edges() {
    let a = Rect::from((i32::MAX, i32::MAX, i32::MAX, i32::MAX));
    let b = Rect::from((i32::MAX, i32::MAX, 3, 5));
    assert_eq!(a.overlap(&b), 15);
}

#[test]
fn test_positions_left_of() {
    let rect1 = Rect::from((100, 100, 50, 50));
    let rect2 = Rect::from((200, 100, 50, 50));
    assert!(rect1.left_of(&rect2));
}

#[test]
fn test_positions_right_of() {
    let rect1 = Rect::from((200, 100, 50, 50));
    let rect2 = Rect::from((100, 100, 50, 50));
    assert!(rect1.right_of(&rect2));
}

#[test]
fn test_positions_above() {
    let rect1 = Rect::from((100, 100, 50, 50));
    let rect2 = Rect::from((100, 200, 50, 50));
    assert!(rect1.above(&rect2));
}

#[test]
fn test_positions_below() {
    let rect1 = Rect::from((100, 200, 50, 50));
    let rect2 = Rect::from((100, 100, 50, 50));
    assert!(rect1.below(&rect2));
}

#[test]
fn relative_positions_are_strict() {
    let a = Rect::from((0, 0, 10, 10));
    let touching_right = Rect::from((10, 0, 10, 10));
    let touching_below = Rect::from((0, 10, 10, 10));
    assert!(!a.left_of(&touching_right));
    assert!(!touching_right.right_of(&a));
    assert!(!a.above(&touching_below));
    assert!(!touching_below.below(&a));
    assert!(!a.left_of(&a));
    assert!(!a.right_of(&a));
    assert!(!a.above(&a));
    assert!(!a.below(&a));
}

#[test]
fn relative_positions_do_not_overflow() {
    let far = Rect::from((i32::MAX, i32::MAX, i32::MAX, i32::MAX));
    let near = Rect::from((i32::MIN, i32::MIN, 1, 1));
    assert!(near.left_of(&far));
    assert!(far.right_of(&near));
    assert!(near.above(&far));
    assert!(far.below(&near));
    assert!(!far.left_of(&near));
}

use pixel_engine::geometry::{point, point_is_inside_rect, rect};

#[test]
fn point_outside_rect() {
    //   0 1 2 3
    // 0 ┌───┐
    // 1 │   │ o
    // 2 └───┘
    let rect = rect(0, 0, 2, 2);
    let point = point(1, 3);
    assert!(!point_is_inside_rect(point, rect))
}

#[test]
fn point_on_rect_side() {
    //   0 1 2 3
    // 0 ┌───┐
    // 1 │   o
    // 2 └───┘
    let rect = rect(0, 0, 2, 2);
    let point = point(1, 2);
    assert!(point_is_inside_rect(point, rect))
}

#[test]
fn point_inside_rect() {
    //   0 1 2 3
    // 0 ┌───┐
    // 1 │ o │
    // 2 └───┘
    let rect = rect(0, 0, 2, 2);
    let point = point(1, 1);
    assert!(point_is_inside_rect(point, rect))
}

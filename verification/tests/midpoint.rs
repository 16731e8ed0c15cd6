use itertools::Itertools;
use pixel_engine::midpoint::{circle_points, circle_segment};

#[test]
fn circle_segment_radius_2() {
    //    --
    //    21012
    // -2 _███_
    // -1 █___█
    //  0 █___█
    //  1 █___█
    //  2 _███_
    let radius = 2;

    let actual_segment = circle_segment(radius);

    //    --
    //    21012
    //  1 _____
    //  2 __██_
    let expected_segment = [(0, 2), (1, 2)];
    assert_eq!(&actual_segment, &expected_segment);
}

#[test]
fn circle_segment_radius_3() {
    //    ---
    //    3210123
    // -3 __███__
    // -2 _█___█_
    // -1 █_____█
    //  0 █_____█
    //  1 █_____█
    //  2 _█___█_
    //  3 __███__
    let radius = 3;

    let actual_segment = circle_segment(radius);

    //    ---
    //    3210123
    //  2 _____█_
    //  3 ___██__
    let expected_segment = [(0, 3), (1, 3), (2, 2)];
    assert_eq!(&actual_segment, &expected_segment);
}

#[test]
fn circle_segment_radius_4() {
    //    ----
    //    432101234
    // -4 ___███___
    // -3 _██___██_
    // -2 _█_____█_
    // -1 █_______█
    //  0 █_______█
    //  1 █_______█
    //  2 _█_____█_
    //  3 _██___██
    //  4 ___███__
    let radius = 4;

    let actual_segment = circle_segment(radius);

    //    ----
    //    432101234
    //  3 ______██
    //  4 ____██__
    let expected_segment = [(0, 4), (1, 4), (2, 3), (3, 3)];
    assert_eq!(&actual_segment, &expected_segment);
}

#[test]
fn circle_segment_radius_5() {
    //    -----
    //    54321012345
    // -5 ___█████___
    // -4 __█_____█__
    // -3 _█_______█_
    // -2 █_________█
    // -1 █_________█
    //  0 █_________█
    //  1 █_________█
    //  2 █_________█
    //  3 _█_______█_
    //  4 __█_____█__
    //  5 ___█████___
    let radius = 5;

    let actual_segment = circle_segment(radius);

    //    -----
    //    54321012345
    //  4 ________█__
    //  5 _____███___
    let expected_segment = [(0, 5), (1, 5), (2, 5), (3, 4)];
    assert_eq!(&actual_segment, &expected_segment);
}

#[test]
fn circle_radius_2() {
    //    --
    //    21012
    // -2 _███_
    // -1 █___█
    //  0 █___█
    //  1 █___█
    //  2 _███_
    let radius = 2;

    let actual_points = circle_points(radius)
        .into_iter()
        .sorted()
        .collect::<Vec<(i32, i32)>>();

    let expected_points = [
        (-2, -1),
        (-2, 0),
        (-2, 1),
        (-1, -2),
        (-1, 2),
        (0, -2),
        (0, 2),
        (1, -2),
        (1, 2),
        (2, -1),
        (2, 0),
        (2, 1),
    ]
    .into_iter()
    .sorted()
    .collect::<Vec<(i32, i32)>>();

    assert_eq!(&actual_points, &expected_points);
}

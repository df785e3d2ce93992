use pomodoro_mindfullness::corner::{
    initial_placement, move_to_next_corner, next_corner_index, placement_for, HorizontalEdge,
    Placement, VerticalEdge, MARGIN_HORIZONTAL, MARGIN_VERTICAL,
};

fn at(vertical: VerticalEdge, horizontal: HorizontalEdge) -> Placement {
    Placement { vertical, horizontal, margin_vertical: 10, margin_horizontal: 20 }
}

#[test]
fn margins_are_ten_and_twenty() {
    assert_eq!(MARGIN_VERTICAL, 10);
    assert_eq!(MARGIN_HORIZONTAL, 20);
}

#[test]
fn next_index_cycles_through_four() {
    assert_eq!(next_corner_index(0), 1);
    assert_eq!(next_corner_index(1), 2);
    assert_eq!(next_corner_index(2), 3);
    assert_eq!(next_corner_index(3), 0);
    assert_eq!(next_corner_index(7), 0);
    assert_eq!(next_corner_index(u32::MAX), 0);
}

#[test]
fn placements_of_the_four_corners() {
    assert_eq!(placement_for(0), Some(at(VerticalEdge::Top, HorizontalEdge::Right)));
    assert_eq!(placement_for(1), Some(at(VerticalEdge::Bottom, HorizontalEdge::Right)));
    assert_eq!(placement_for(2), Some(at(VerticalEdge::Bottom, HorizontalEdge::Left)));
    assert_eq!(placement_for(3), Some(at(VerticalEdge::Top, HorizontalEdge::Left)));
    assert_eq!(placement_for(4), None);
}

#[test]
fn window_starts_top_right() {
    assert_eq!(initial_placement(), at(VerticalEdge::Top, HorizontalEdge::Right));
    assert_eq!(Some(initial_placement()), placement_for(0));
}

#[test]
fn clicks_go_round_clockwise() {
    let mut pos: u32 = 0;
    assert_eq!(move_to_next_corner(&mut pos), at(VerticalEdge::Bottom, HorizontalEdge::Right));
    assert_eq!(pos, 1);
    assert_eq!(move_to_next_corner(&mut pos), at(VerticalEdge::Bottom, HorizontalEdge::Left));
    assert_eq!(move_to_next_corner(&mut pos), at(VerticalEdge::Top, HorizontalEdge::Left));
    assert_eq!(move_to_next_corner(&mut pos), at(VerticalEdge::Top, HorizontalEdge::Right));
    assert_eq!(pos, 0);
}

#[test]
fn each_click_keeps_one_edge() {
    for i in 0..4u32 {
        let here = placement_for(i).unwrap();
        let mut pos = i;
        let there = move_to_next_corner(&mut pos);
        let same_v = here.vertical == there.vertical;
        let same_h = here.horizontal == there.horizontal;
        assert!(same_v != same_h);
    }
}

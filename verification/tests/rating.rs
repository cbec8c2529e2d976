use conservatory::rating::{rating_from_click, rating_from_drag};

// A 100 px stars row is 20 px per star: x = 10 is star index 0, 50 is 2,
// 90 is 4, 250 is 12, and a press before the row is index 0.

#[test]
fn click_maps_x_to_the_star_under_it() {
    assert_eq!(rating_from_click(0, 0), 1);
    assert_eq!(rating_from_click(2, 0), 3);
    assert_eq!(rating_from_click(4, 0), 5);
    assert_eq!(rating_from_click(12, 0), 5);
}

#[test]
fn clicking_the_current_top_star_clears_to_zero() {
    assert_eq!(rating_from_click(2, 3), 0);
    assert_eq!(rating_from_click(3, 3), 4);
}

#[test]
fn drag_maps_x_to_the_star_under_it_without_clearing() {
    assert_eq!(rating_from_drag(2), 3);
    assert_eq!(rating_from_drag(4), 5);
    assert_eq!(rating_from_drag(12), 5);
}

#[test]
fn drag_clamps_a_release_before_the_row_to_one_star() {
    assert_eq!(rating_from_drag(0), 1);
    assert_eq!(rating_from_drag(-3), 1);
}

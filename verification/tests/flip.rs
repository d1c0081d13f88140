use piston2d_abstraction::render::FlipStrategy;

#[test]
fn no_flip_keeps_both_axes() {
    assert_eq!(FlipStrategy::NoFlip.axis_factors(), (1, 1));
}

#[test]
fn horizontal_flip_negates_the_y_axis() {
    assert_eq!(FlipStrategy::Horizontal.axis_factors(), (1, -1));
}

#[test]
fn vertical_flip_negates_the_x_axis() {
    assert_eq!(FlipStrategy::Vertical.axis_factors(), (-1, 1));
}

#[test]
fn flip_of_both_negates_both_axes() {
    assert_eq!(FlipStrategy::HorizontalAndVertical.axis_factors(), (-1, -1));
}

#[test]
fn flipping_twice_restores_each_axis() {
    for flip in [
        FlipStrategy::NoFlip,
        FlipStrategy::Horizontal,
        FlipStrategy::Vertical,
        FlipStrategy::HorizontalAndVertical,
    ] {
        let (x, y) = flip.axis_factors();
        assert_eq!(x * x, 1);
        assert_eq!(y * y, 1);
    }
}

use clickr::layout::{centered_rect, panel_rows, gauge_label_placement, speed_band, Area, LabelPlacement, SpeedBand};

fn area(x: u16, y: u16, width: u16, height: u16) -> Area {
    Area { x, y, width, height }
}

#[test]
fn panel_is_centred_on_a_large_terminal() {
    assert_eq!(centered_rect(area(0, 0, 100, 40)), area(20, 11, 60, 18));
    assert_eq!(centered_rect(area(0, 0, 60, 18)), area(0, 0, 60, 18));
}

#[test]
fn panel_shrinks_to_a_small_terminal() {
    assert_eq!(centered_rect(area(0, 0, 50, 10)), area(0, 0, 50, 10));
    assert_eq!(centered_rect(area(0, 0, 50, 30)), area(0, 6, 50, 18));
}

#[test]
fn gauge_label_is_centred_and_split_at_the_fill() {
    let inner = area(1, 1, 58, 1);
    assert_eq!(
        gauge_label_placement(inner, 20, 10),
        LabelPlacement { x: 20, y: 1, width: 20, on_fill: 0 }
    );
    assert_eq!(gauge_label_placement(inner, 20, 30).on_fill, 10);
    assert_eq!(gauge_label_placement(inner, 20, 59).on_fill, 20);
    // a label wider than the gauge is cut to it
    let p = gauge_label_placement(inner, 80, 59);
    assert_eq!((p.x, p.width, p.on_fill), (1, 58, 58));
    // middle row of a taller gauge
    assert_eq!(gauge_label_placement(area(2, 4, 10, 5), 4, 0).y, 6);
}

#[test]
fn speed_bands() {
    assert_eq!(speed_band(1), SpeedBand::Slow);
    assert_eq!(speed_band(10), SpeedBand::Slow);
    assert_eq!(speed_band(11), SpeedBand::Moderate);
    assert_eq!(speed_band(50), SpeedBand::Moderate);
    assert_eq!(speed_band(51), SpeedBand::Fast);
    assert_eq!(speed_band(200), SpeedBand::Fast);
    assert_eq!(speed_band(201), SpeedBand::Extreme);
}

#[test]
fn panel_rows_stack_from_the_top() {
    let rows = panel_rows(area(20, 11, 60, 18));
    assert_eq!(
        rows,
        vec![area(20, 11, 60, 4), area(20, 15, 60, 3), area(20, 18, 60, 6), area(20, 24, 60, 3)]
    );
}

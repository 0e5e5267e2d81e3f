use arcana::layout::{
    calculate_geometry, layout_window, validate_position, PositionError, WindowGeometry,
    WindowPosition,
};

fn position(
    top: Option<i32>,
    bottom: Option<i32>,
    left: Option<i32>,
    right: Option<i32>,
    width: Option<u32>,
    height: Option<u32>,
) -> WindowPosition {
    WindowPosition { monitor: None, top, bottom, left, right, width, height }
}

#[test]
fn both_insets_fix_an_axis() {
    let p = position(Some(10), Some(20), Some(30), Some(40), None, None);
    assert_eq!(validate_position(&p), Ok(()));
    assert_eq!(
        calculate_geometry(&p, 0, 25, 1440, 875),
        WindowGeometry { x: 30, y: 35, width: 1370, height: 845 }
    );
}

#[test]
fn an_inset_and_a_size_fix_an_axis() {
    let near = position(Some(10), None, Some(30), None, Some(300), Some(200));
    assert_eq!(
        layout_window(&near, 100, 25, 1440, 875),
        Ok(WindowGeometry { x: 130, y: 35, width: 300, height: 200 })
    );
    let far = position(None, Some(10), None, Some(30), Some(300), Some(200));
    assert_eq!(
        layout_window(&far, 100, 25, 1440, 875),
        Ok(WindowGeometry { x: 1210, y: 690, width: 300, height: 200 })
    );
}

#[test]
fn insets_that_leave_no_room_give_one_unit() {
    let p = position(Some(500), Some(500), Some(800), Some(800), Some(7), Some(7));
    assert_eq!(
        layout_window(&p, 0, 0, 1440, 900),
        Ok(WindowGeometry { x: 800, y: 500, width: 1, height: 1 })
    );
}

#[test]
fn extreme_values_do_not_wrap() {
    let p = position(Some(i32::MIN), Some(i32::MIN), None, Some(i32::MAX), Some(u32::MAX), None);
    let g = layout_window(&p, i32::MAX, i32::MIN, u32::MAX, u32::MAX).unwrap();
    assert_eq!(g.width, 4294967295);
    assert_eq!(g.height, 4294967295 + 2 * 2147483648);
    assert_eq!(g.x, 2147483647 + 4294967295 - 2147483647 - 4294967295);
    assert_eq!(g.y, -2147483648 - 2147483648);
}

#[test]
fn underdetermined_positions_are_refused() {
    let no_x = position(Some(1), Some(1), Some(1), None, None, None);
    assert_eq!(validate_position(&no_x), Err(PositionError::Horizontal));
    let only_width = position(Some(1), Some(1), None, None, Some(5), None);
    assert_eq!(validate_position(&only_width), Err(PositionError::Horizontal));
    let no_y = position(None, None, Some(1), Some(1), None, Some(5));
    assert_eq!(layout_window(&no_y, 0, 0, 10, 10), Err(PositionError::Vertical));
    let neither = position(None, None, None, None, None, None);
    assert_eq!(layout_window(&neither, 0, 0, 10, 10), Err(PositionError::Horizontal));
    assert_eq!(
        PositionError::Horizontal.message(),
        "Position must specify (left + right) or (left + width) or (right + width)"
    );
    assert_eq!(
        PositionError::Vertical.message(),
        "Position must specify (top + bottom) or (top + height) or (bottom + height)"
    );
}

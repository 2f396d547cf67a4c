use tictactoe::canvas::{
    draw_new_game_canvas, draw_select_outline, square_origin, BACKGROUND, CANVAS_SIZE, GRAY,
    SELECTION,
};

#[test]
fn new_game_canvas_has_the_grid() {
    let canvas = draw_new_game_canvas();
    assert_eq!(canvas.width(), 300);
    assert_eq!(canvas.height(), 300);
    assert_eq!(CANVAS_SIZE, 300);
    for y in 0..300u32 {
        for x in 0..300u32 {
            let on_line = |v: u32| (98..102).contains(&v) || (198..202).contains(&v);
            let expected = if on_line(x) || on_line(y) { GRAY } else { BACKGROUND };
            assert_eq!(canvas.pixel(x, y), Some(expected));
        }
    }
}

#[test]
fn pixel_off_the_canvas_is_none() {
    let canvas = draw_new_game_canvas();
    assert_eq!(canvas.pixel(300, 0), None);
    assert_eq!(canvas.pixel(0, 300), None);
    assert_eq!(canvas.pixel(299, 299), Some(BACKGROUND));
    assert_eq!(canvas.pixel(97, 0), Some(BACKGROUND));
    assert_eq!(canvas.pixel(98, 0), Some(GRAY));
    assert_eq!(canvas.pixel(101, 250), Some(GRAY));
    assert_eq!(canvas.pixel(102, 250), Some(BACKGROUND));
    assert_eq!(canvas.pixel(50, 198), Some(GRAY));
    assert_eq!(canvas.pixel(50, 202), Some(BACKGROUND));
}

#[test]
fn select_outline_frames_the_square() {
    for cursor in 0..9usize {
        let mut canvas = draw_new_game_canvas();
        assert!(draw_select_outline(&mut canvas, cursor));
        let left = 100 * (cursor as u32 % 3) + 6;
        let top = 100 * (cursor as u32 / 3) + 6;
        for y in 0..300u32 {
            for x in 0..300u32 {
                let outer = x >= left && x < left + 88 && y >= top && y < top + 88;
                let inner = x >= left + 3 && x < left + 85 && y >= top + 3 && y < top + 85;
                let on_line = |v: u32| (98..102).contains(&v) || (198..202).contains(&v);
                let expected = if outer && !inner {
                    SELECTION
                } else if on_line(x) || on_line(y) {
                    GRAY
                } else {
                    BACKGROUND
                };
                assert_eq!(canvas.pixel(x, y), Some(expected));
            }
        }
    }
}

#[test]
fn select_outline_off_the_grid_draws_nothing() {
    let mut canvas = draw_new_game_canvas();
    assert!(!draw_select_outline(&mut canvas, 9));
    for y in 0..300u32 {
        for x in 0..300u32 {
            assert_ne!(canvas.pixel(x, y), Some((255, 0, 0)));
        }
    }
}

#[test]
fn square_origins() {
    let expected = [
        (0, 0),
        (100, 0),
        (200, 0),
        (0, 100),
        (100, 100),
        (200, 100),
        (0, 200),
        (100, 200),
        (200, 200),
    ];
    for (index, at) in expected.iter().enumerate() {
        assert_eq!(square_origin(index), Some(*at));
    }
    assert_eq!(square_origin(9), None);
}

use square_animator::{
    step_axis, Canvas, Direction, Input, SquareAnimator, BACKGROUND, FOREGROUND, INITIAL_SPEED,
    SUBPIXELS,
};

fn px(p: i64) -> i64 {
    p * SUBPIXELS
}

fn press(s: &mut SquareAnimator, canvas: Canvas, dir: Direction) -> bool {
    s.on_input(canvas, Input::Key(dir))
}

#[test]
fn initial_square_on_800_by_600() {
    let canvas = Canvas::new(800, 600);
    assert_eq!(canvas.square_size(), (80, 60));
    let s = SquareAnimator::new(canvas);
    assert_eq!((s.x, s.y), (px(360), px(270)));
    assert_eq!((s.vx, s.vy), (INITIAL_SPEED, INITIAL_SPEED));
    assert_eq!((s.cursor_x, s.cursor_y), (0, 0));
}

#[test]
fn left_once_moves_twenty_pixels() {
    let canvas = Canvas::new(800, 600);
    let mut s = SquareAnimator::new(canvas);
    assert!(press(&mut s, canvas, Direction::Left));
    assert_eq!((s.x, s.y), (px(340), px(270)));
}

#[test]
fn left_eighteen_times_clamps_at_zero() {
    let canvas = Canvas::new(800, 600);
    let mut s = SquareAnimator::new(canvas);
    for _ in 0..18 {
        press(&mut s, canvas, Direction::Left);
        assert!(s.x >= 0);
    }
    assert_eq!(s.x, 0);
    assert_eq!(s.y, px(270));
}

#[test]
fn click_recenters_on_cursor_without_clamping() {
    let canvas = Canvas::new(800, 600);
    let mut s = SquareAnimator::new(canvas);
    assert!(!s.on_input(canvas, Input::CursorMoved { x: 100, y: 50 }));
    assert_eq!((s.x, s.y), (px(360), px(270)));
    assert!(s.on_input(canvas, Input::PrimaryClick));
    assert_eq!((s.x, s.y), (px(60), px(20)));

    s.on_input(canvas, Input::CursorMoved { x: 10, y: 5 });
    s.on_input(canvas, Input::PrimaryClick);
    assert_eq!((s.x, s.y), (px(-30), px(-25)));
}

#[test]
fn click_with_odd_size_uses_half_pixels() {
    let canvas = Canvas::new(810, 600);
    let mut s = SquareAnimator::new(canvas);
    s.on_input(canvas, Input::CursorMoved { x: 100, y: 100 });
    s.on_input(canvas, Input::PrimaryClick);
    assert_eq!(s.x, px(100) - 81 * SUBPIXELS / 2);
}

#[test]
fn far_keys_clamp_at_canvas_edge() {
    let canvas = Canvas::new(800, 600);
    let mut s = SquareAnimator::new(canvas);
    for _ in 0..100 {
        press(&mut s, canvas, Direction::Right);
        press(&mut s, canvas, Direction::Down);
        assert!(s.x + px(80) <= px(800));
        assert!(s.y + px(60) <= px(600));
    }
    assert_eq!((s.x, s.y), (px(720), px(540)));
    assert_eq!(canvas.max_square_pos(), (px(720), px(540)));
}

#[test]
fn up_from_top_stays_at_zero() {
    let canvas = Canvas::new(800, 600);
    let mut s = SquareAnimator::new(canvas);
    s.y = px(5);
    press(&mut s, canvas, Direction::Up);
    assert_eq!(s.y, 0);
    press(&mut s, canvas, Direction::Up);
    assert_eq!(s.y, 0);
    press(&mut s, canvas, Direction::Down);
    assert_eq!(s.y, px(20));
}

#[test]
fn presses_from_off_canvas_positions() {
    let canvas = Canvas::new(800, 600);
    let mut s = SquareAnimator::new(canvas);
    s.x = -px(7);
    press(&mut s, canvas, Direction::Left);
    assert_eq!(s.x, 0);
    s.x = px(900);
    press(&mut s, canvas, Direction::Right);
    assert_eq!(s.x, px(720));
}

#[test]
fn zero_elapsed_frame_changes_nothing() {
    let canvas = Canvas::new(800, 600);
    let mut s = SquareAnimator::new(canvas);
    let before = s;
    s.on_frame(canvas, 0);
    assert_eq!(s, before);
}

#[test]
fn half_second_frame_moves_fifty_pixels() {
    let canvas = Canvas::new(800, 600);
    let mut s = SquareAnimator::new(canvas);
    s.on_frame(canvas, 500_000);
    assert_eq!((s.x, s.y), (px(410), px(320)));
    assert_eq!((s.vx, s.vy), (100, 100));
}

#[test]
fn short_frames_accumulate_sub_pixel_motion() {
    let canvas = Canvas::new(800, 600);
    let mut s = SquareAnimator::new(canvas);
    for _ in 0..3 {
        s.on_frame(canvas, 16_667);
    }
    assert_eq!(s.x, px(360) + 3 * 1666);
}

#[test]
fn far_edge_contact_reflects() {
    let canvas = Canvas::new(800, 600);
    let mut s = SquareAnimator::new(canvas);
    s.x = px(720);
    s.on_frame(canvas, 1_000);
    assert_eq!(s.vx, -100);
    assert_eq!(s.x, px(720));
    assert_eq!(s.vy, 100);
}

#[test]
fn near_edge_contact_reflects() {
    let canvas = Canvas::new(800, 600);
    let mut s = SquareAnimator::new(canvas);
    s.x = px(5);
    s.vx = -100;
    s.on_frame(canvas, 100_000);
    assert_eq!((s.x, s.vx), (0, 100));
}

#[test]
fn tunnelled_square_is_clamped_back() {
    assert_eq!(step_axis(px(700), 100, 10_000_000, 800), (px(720), -100));
    assert_eq!(step_axis(px(10), -100, 10_000_000, 800), (0, 100));
}

#[test]
fn negative_velocity_truncates_toward_zero() {
    assert_eq!(step_axis(px(400), -3, 1, 800), (px(400), -3));
    assert_eq!(step_axis(px(400), -3, 1_000, 800), (px(400) - 3, -3));
}

#[test]
fn size_follows_resized_canvas() {
    let small = Canvas::new(800, 600);
    let large = Canvas::new(1000, 500);
    assert_eq!(small.square_size(), (80, 60));
    assert_eq!(large.square_size(), (100, 50));
    assert_eq!(Canvas::new(19, 9).square_size(), (1, 0));

    let mut s = SquareAnimator::new(small);
    s.x = px(890);
    let mut on_small = s;
    on_small.on_frame(small, 1_000);
    assert_eq!((on_small.x, on_small.vx), (px(720), -100));
    s.on_frame(large, 1_000);
    assert_eq!((s.x, s.vx), (px(890) + 100, 100));
}

#[test]
fn degenerate_canvas_is_one_pixel() {
    let c = Canvas::new(0, 0);
    assert_eq!((c.width, c.height), (1, 1));
    assert_eq!(Canvas::new(0, 5), Canvas { width: 1, height: 5 });
    assert_eq!(c.square_size(), (0, 0));
    assert_eq!(c.square_extent(), (100, 100));
    assert_eq!(c.max_square_pos(), (900, 900));
    let s = SquareAnimator::new(c);
    assert_eq!((s.x, s.y), (450, 450));
}

#[test]
fn initial_square_is_centered_for_many_sizes() {
    for w in 1u32..300 {
        let c = Canvas::new(w, w + 7);
        let s = SquareAnimator::new(c);
        let (sw, sh) = c.square_size();
        assert!(s.x >= 0 && s.x + px(sw as i64) <= px(w as i64));
        assert!(s.y >= 0 && s.y + px(sh as i64) <= px(w as i64 + 7));
        let off = 2 * s.x + px(sw as i64) - px(w as i64);
        assert!(off.abs() <= 2 * SUBPIXELS);
        let (ew, eh) = c.square_extent();
        assert_eq!((ew, eh), (w as i64 * 100, (w as i64 + 7) * 100));
        assert_eq!(2 * s.x + ew, px(w as i64));
        assert_eq!(2 * s.y + eh, px(w as i64 + 7));
    }
}

#[test]
fn render_paints_square_over_background() {
    let canvas = Canvas::new(20, 10);
    let s = SquareAnimator::new(canvas);
    assert_eq!((s.x, s.y), (px(9), 4500));
    let mut buf = vec![0u32; 200];
    s.render(canvas, &mut buf);
    for (i, &c) in buf.iter().enumerate() {
        let (x, y) = (i % 20, i / 20);
        let inside = (x == 9 || x == 10) && y == 4;
        assert_eq!(c, if inside { FOREGROUND } else { BACKGROUND });
    }
}

#[test]
fn render_cuts_square_at_canvas_bounds() {
    let canvas = Canvas::new(30, 30);
    let mut s = SquareAnimator::new(canvas);
    s.x = px(29);
    s.y = -px(4);
    let mut buf = vec![7u32; 900];
    s.render(canvas, &mut buf);
    let painted: Vec<usize> = (0..900).filter(|&i| buf[i] == FOREGROUND).collect();
    assert_eq!(painted, vec![29, 59, 89]);
    assert_eq!(buf.iter().filter(|&&c| c == BACKGROUND).count(), 897);
}

#[test]
fn zero_frame_within_first_pixel_keeps_velocity() {
    assert_eq!(step_axis(500, 100, 0, 800), (500, 100));
    assert_eq!(step_axis(500, 100, 1, 800), (500, 100));
    assert_eq!(step_axis(0, 100, 0, 800), (0, -100));
}

#[test]
fn bounds_use_exact_tenth_of_odd_canvas() {
    let canvas = Canvas::new(805, 7);
    assert_eq!(canvas.square_extent(), (80_500, 700));
    assert_eq!(canvas.max_square_pos(), (724_500, 6_300));
    let mut s = SquareAnimator::new(canvas);
    s.x = px(724);
    press(&mut s, canvas, Direction::Right);
    assert_eq!(s.x, 724_500);
    s.y = px(6);
    press(&mut s, canvas, Direction::Down);
    assert_eq!(s.y, 6_300);
}

#[test]
fn far_edge_contact_reflects_on_odd_canvas() {
    assert_eq!(step_axis(724_500, 100, 1_000, 805), (724_500, -100));
    assert_eq!(step_axis(724_700, 100, 0, 805), (724_500, -100));
    assert_eq!(step_axis(724_400, 100, 1_000, 805), (724_500, -100));
    assert_eq!(step_axis(724_300, 100, 1_000, 805), (724_400, 100));
}

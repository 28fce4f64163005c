use sextant_fractal::bits2d::Bits2d;
use sextant_fractal::cache::MembershipCache;
use sextant_fractal::handler::Handler;

/// Maps a pixel index of `[original_min, original_max)` to a coordinate of
/// the window that starts at `target_min`.
fn scale(n: f64, original_min: f64, original_max: f64, target_min: f64, target_max: f64) -> f64 {
    let scalar = (target_max - target_min) / (original_max - original_min);
    (n - original_min) * scalar + target_min
}

/// The escape test: true when the point did not escape within `threshold`
/// steps.
fn stays_inside(x0: f64, y0: f64, threshold: usize) -> bool {
    let mut x = 0.0;
    let mut y = 0.0;
    let mut x2 = 0.0;
    let mut y2 = 0.0;
    let mut iteration = 0;
    while (x2 + y2 <= 4.0) && (iteration < threshold) {
        y = (x + x) * y + y0;
        x = x2 - y2 + x0;
        x2 = x * x;
        y2 = y * y;
        iteration += 1;
    }
    x2 + y2 <= 4.0
}

fn frame(width: usize, height: usize, threshold: usize) -> Vec<Vec<bool>> {
    let mut rows = Vec::new();
    for py in 0..height {
        let y0 = scale(py as f64, 0.0, height as f64, -2.0, 2.0);
        let mut row = Vec::new();
        for px in 0..width {
            let x0 = scale(px as f64, 0.0, width as f64, -2.0, 2.0);
            row.push(stays_inside(x0, y0, threshold));
        }
        rows.push(row);
    }
    rows
}

#[test]
fn paint_row_lights_the_escaped_points() {
    let mut grid = Bits2d::new(4, 3);
    grid.set(0, 0, true);
    grid.set(3, 2, true);
    grid.set(1, 1, true);
    grid.paint_row(1, &vec![true, true, false, false]);
    assert_eq!(grid.get(0, 1), Some(false));
    assert_eq!(grid.get(1, 1), Some(false));
    assert_eq!(grid.get(2, 1), Some(true));
    assert_eq!(grid.get(3, 1), Some(true));
    // The other rows are as they were.
    assert_eq!(grid.get(0, 0), Some(true));
    assert_eq!(grid.get(1, 0), Some(false));
    assert_eq!(grid.get(2, 0), Some(false));
    assert_eq!(grid.get(3, 0), Some(false));
    assert_eq!(grid.get(0, 2), Some(false));
    assert_eq!(grid.get(3, 2), Some(true));
    assert_eq!((grid.width(), grid.height(), grid.area()), (4, 3, 12));
}

#[test]
fn paint_row_of_an_empty_row() {
    let mut grid = Bits2d::new(0, 2);
    grid.paint_row(1, &Vec::new());
    assert_eq!(grid.area(), 0);
}

#[test]
fn paint_writes_the_negation_of_every_result() {
    let inside = vec![
        vec![true, false, true],
        vec![false, false, true],
        vec![true, true, true],
        vec![false, false, false],
    ];
    let mut grid = Bits2d::new(3, 4);
    grid.set_all_one();
    grid.paint(&inside);
    for y in 0..4 {
        for x in 0..3 {
            assert_eq!(grid.get(x, y), Some(!inside[y][x]));
        }
    }
    assert_eq!((grid.width(), grid.height(), grid.area()), (3, 4, 12));
    let mut dark = Bits2d::new(3, 4);
    dark.paint(&inside);
    for y in 0..4 {
        for x in 0..3 {
            assert_eq!(dark.get(x, y), Some(!inside[y][x]));
        }
    }
}

#[test]
fn paint_of_an_empty_grid() {
    let mut grid = Bits2d::new(0, 0);
    grid.paint(&Vec::new());
    assert_eq!(grid.area(), 0);
}

#[test]
fn small_frame_at_threshold_one() {
    // After one step the value is the point itself, so a pixel is lit
    // exactly when its point is farther than two from the origin.
    let inside = frame(4, 6, 1);
    let mut handler = Handler::new(2, 2, ());
    handler.set_bits_all_one();
    handler.bits.paint(&inside);
    let lit = [
        [true, true, false, true],
        [true, false, false, false],
        [true, false, false, false],
        [false, false, false, false],
        [true, false, false, false],
        [true, false, false, false],
    ];
    for y in 0..6 {
        for x in 0..4 {
            assert_eq!(handler.get_bit(x, y), Some(lit[y][x]));
        }
    }
    // The pixel in column 2 of row 3 is the origin.
    assert_eq!(handler.get_bit(2, 3), Some(false));
    // The corner that is farthest from the origin.
    assert_eq!(handler.get_bit(0, 0), Some(true));
    assert_eq!(
        handler.render_bits(),
        vec![vec!['\u{1FB15}', '\u{1FB01}'], vec!['\u{1FB13}', ' ']]
    );
}

#[test]
fn small_frame_shows_the_set_as_background() {
    let inside = frame(4, 6, 50);
    let mut handler = Handler::new(2, 2, ());
    handler.bits.paint(&inside);
    // The pixel in column 2 of row 3 is the origin, which never escapes.
    assert_eq!(handler.get_bit(2, 3), Some(false));
    // The four corners of the window lie far outside the set.
    assert_eq!(handler.get_bit(0, 0), Some(true));
    assert_eq!(handler.get_bit(3, 0), Some(true));
    assert_eq!(handler.get_bit(0, 5), Some(true));
    assert_eq!(handler.get_bit(3, 5), Some(true));
    // Every pixel of the outer ring escapes but the one at (-2, 0), which
    // is a point of the set.
    for x in 0..4 {
        assert_eq!(handler.get_bit(x, 0), Some(true));
        assert_eq!(handler.get_bit(x, 5), Some(true));
    }
    for y in 0..6 {
        assert_eq!(handler.get_bit(0, y), Some(y != 3));
        assert_eq!(handler.get_bit(3, y), Some(true));
    }
    for y in 0..6 {
        for x in 0..4 {
            assert_eq!(handler.get_bit(x, y), Some(!inside[y][x]));
        }
    }
}

#[test]
fn cached_frame_equals_direct_frame() {
    let threshold = 30;
    let direct = frame(8, 6, threshold);
    let mut cache = MembershipCache::new();
    for round in 0..2 {
        let mut hits = 0;
        let mut rows = Vec::new();
        for py in 0..6 {
            let y0 = scale(py as f64, 0.0, 6.0, -2.0, 2.0);
            let mut row = Vec::new();
            for px in 0..8 {
                let x0 = scale(px as f64, 0.0, 8.0, -2.0, 2.0);
                let found = cache.membership(threshold, x0.to_bits(), y0.to_bits(), || {
                    stays_inside(x0, y0, threshold)
                });
                if found.cached {
                    hits += 1;
                }
                row.push(found.inside);
            }
            rows.push(row);
        }
        assert_eq!(rows, direct);
        assert_eq!(hits, if round == 0 { 0 } else { 48 });
    }
}

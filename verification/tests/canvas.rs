use halfblock::img::{Color, Image};
use halfblock::math::Vec2;

fn cells_of(img: &Image, c: Color) -> Vec<(i32, i32)> {
    let size = img.size();
    let mut out = Vec::new();
    for x in 0..size.x {
        for y in 0..size.y {
            if img.get(Vec2::new(x, y)) == c {
                out.push((x, y));
            }
        }
    }
    out
}

fn sorted(mut v: Vec<(i32, i32)>) -> Vec<(i32, i32)> {
    v.sort();
    v
}

#[test]
fn new_canvas_is_black() {
    let img = Image::new(4, 3);
    assert_eq!(img.size(), Vec2::new(4, 3));
    assert_eq!(cells_of(&img, Color::black()).len(), 12);
    assert_eq!(Color::black(), Color::rgb(0, 0, 0));
}

#[test]
fn empty_canvas_has_no_cells() {
    let mut img = Image::new(0, 0);
    assert_eq!(img.size(), Vec2::zero());
    img.point(Vec2::new(0, 0), Color::white());
    img.line(Vec2::new(-2, -2), Vec2::new(3, 3), Color::white());
    img.rect(Vec2::new(0, 0), Vec2::new(5, 5), Color::white());
    img.ellipse_boundary(Vec2::new(0, 0), Vec2::new(6, 4), Color::white());
    assert_eq!(img.get(Vec2::new(0, 0)), Color::black());
}

#[test]
fn point_write_then_read() {
    let mut img = Image::new(4, 3);
    let red = Color::red();
    for x in 0..4 {
        for y in 0..3 {
            let c = Color::rgb(x as u8 + 1, y as u8 + 1, 7);
            img.point(Vec2::new(x, y), c);
            assert_eq!(img.get(Vec2::new(x, y)), c);
        }
    }
    img.point(Vec2::new(1, 2), red);
    assert_eq!(img.get(Vec2::new(1, 2)), red);
    assert_eq!(cells_of(&img, red), vec![(1, 2)]);
}

#[test]
fn point_outside_is_ignored_and_reads_black() {
    let mut img = Image::new(4, 3);
    let white = Color::white();
    img.clear(white);
    let outside = [
        (-1, 0),
        (0, -1),
        (4, 0),
        (0, 3),
        (4, 3),
        (-1, -1),
        (i32::MAX, 0),
        (0, i32::MIN),
        (i32::MIN, i32::MAX),
    ];
    for (x, y) in outside {
        assert!(img.out_of_range(Vec2::new(x, y)));
        img.point(Vec2::new(x, y), Color::red());
        assert_eq!(img.get(Vec2::new(x, y)), Color::black());
    }
    assert!(!img.out_of_range(Vec2::new(3, 2)));
    assert!(!img.out_of_range(Vec2::new(0, 0)));
    assert_eq!(cells_of(&img, white).len(), 12);
}

#[test]
fn clear_sets_every_cell() {
    let mut img = Image::new(5, 2);
    img.point(Vec2::new(2, 1), Color::red());
    img.clear(Color::coral());
    assert_eq!(cells_of(&img, Color::coral()).len(), 10);
    assert_eq!(img.size(), Vec2::new(5, 2));
}

#[test]
fn resize_gives_a_black_canvas() {
    let mut img = Image::new(3, 3);
    img.clear(Color::white());
    img.resize(5, 2);
    assert_eq!(img.size(), Vec2::new(5, 2));
    assert_eq!(cells_of(&img, Color::black()).len(), 10);
    img.clear(Color::white());
    img.resize(2, 2);
    assert_eq!(img.size(), Vec2::new(2, 2));
    assert_eq!(cells_of(&img, Color::black()).len(), 4);
    img.resize(0, 7);
    assert_eq!(img.size(), Vec2::new(0, 7));
}

#[test]
fn duplicate_shows_the_same() {
    let mut img = Image::new(3, 2);
    img.point(Vec2::new(2, 1), Color::red());
    img.point(Vec2::new(0, 0), Color::white());
    let copy = img.duplicate();
    assert_eq!(copy.size(), img.size());
    for x in -1..4 {
        for y in -1..3 {
            assert_eq!(copy.get(Vec2::new(x, y)), img.get(Vec2::new(x, y)));
        }
    }
}

#[test]
fn line_sets_both_ends_in_every_direction() {
    let c = Color::white();
    let ends = [
        ((5, 5), (9, 5)),
        ((5, 5), (0, 5)),
        ((5, 5), (5, 9)),
        ((5, 5), (5, 0)),
        ((5, 5), (9, 9)),
        ((5, 5), (0, 0)),
        ((5, 5), (9, 1)),
        ((5, 5), (1, 9)),
        ((1, 2), (9, 5)),
        ((9, 5), (1, 2)),
        ((2, 1), (4, 9)),
        ((4, 9), (2, 1)),
        ((0, 9), (9, 0)),
        ((3, 3), (3, 3)),
    ];
    for (p1, p2) in ends {
        let mut img = Image::new(10, 10);
        img.line(Vec2::point(p1), Vec2::point(p2), c);
        assert_eq!(img.get(Vec2::point(p1)), c);
        assert_eq!(img.get(Vec2::point(p2)), c);
    }
}

#[test]
fn line_sets_the_end_that_is_in_range() {
    let c = Color::white();
    let mut img = Image::new(10, 10);
    img.line(Vec2::new(-4, -7), Vec2::new(6, 3), c);
    assert_eq!(img.get(Vec2::new(6, 3)), c);
    let mut img = Image::new(10, 10);
    img.line(Vec2::new(6, 3), Vec2::new(-4, 30), c);
    assert_eq!(img.get(Vec2::new(6, 3)), c);
    let mut img = Image::new(10, 10);
    img.line(Vec2::new(40, 2), Vec2::new(3, 8), c);
    assert_eq!(img.get(Vec2::new(3, 8)), c);
}

#[test]
fn line_cells_are_those_of_the_stepping() {
    let c = Color::white();
    let mut img = Image::new(10, 10);
    img.line(Vec2::new(0, 0), Vec2::new(3, 1), c);
    assert_eq!(sorted(cells_of(&img, c)), vec![(0, 0), (1, 0), (2, 1), (3, 1)]);

    let mut img = Image::new(10, 10);
    img.line(Vec2::new(5, 7), Vec2::new(1, 0), c);
    assert_eq!(
        sorted(cells_of(&img, c)),
        sorted(vec![(5, 7), (4, 6), (4, 5), (3, 4), (3, 3), (2, 2), (2, 1), (1, 0)])
    );

    let mut img = Image::new(10, 10);
    img.line(Vec2::new(1, 1), Vec2::new(4, 1), c);
    assert_eq!(sorted(cells_of(&img, c)), vec![(1, 1), (2, 1), (3, 1), (4, 1)]);

    let mut img = Image::new(10, 10);
    img.line(Vec2::new(2, 6), Vec2::new(2, 3), c);
    assert_eq!(sorted(cells_of(&img, c)), vec![(2, 3), (2, 4), (2, 5), (2, 6)]);

    let mut img = Image::new(10, 10);
    img.line(Vec2::new(7, 7), Vec2::new(7, 7), c);
    assert_eq!(cells_of(&img, c), vec![(7, 7)]);
}

#[test]
fn line_stops_once_it_has_left_the_canvas() {
    let c = Color::white();
    let mut img = Image::new(5, 5);
    img.line(Vec2::new(2, 2), Vec2::new(i32::MAX, 2), c);
    assert_eq!(sorted(cells_of(&img, c)), vec![(2, 2), (3, 2), (4, 2)]);

    let mut img = Image::new(5, 5);
    img.line(Vec2::new(2, 2), Vec2::new(2, i32::MIN), c);
    assert_eq!(sorted(cells_of(&img, c)), vec![(2, 0), (2, 1), (2, 2)]);

    let mut img = Image::new(5, 5);
    img.line(Vec2::new(-1, 0), Vec2::new(-5, 0), c);
    assert_eq!(cells_of(&img, c), vec![]);

    let mut img = Image::new(5, 5);
    img.line(Vec2::new(-3, 1), Vec2::new(2, 1), c);
    assert_eq!(sorted(cells_of(&img, c)), vec![(0, 1), (1, 1), (2, 1)]);

    let mut img = Image::new(5, 5);
    img.line(Vec2::new(i32::MIN, i32::MIN), Vec2::new(i32::MIN, i32::MAX), c);
    assert_eq!(cells_of(&img, c), vec![]);
}

#[test]
fn rect_absorbs_a_negative_origin() {
    let c = Color::red();
    let mut img = Image::new(20, 12);
    img.rect(Vec2::new(-3, 5), Vec2::new(10, 4), c);
    let mut expected = Vec::new();
    for x in 0..7 {
        for y in 5..9 {
            expected.push((x, y));
        }
    }
    assert_eq!(sorted(cells_of(&img, c)), sorted(expected));
}

#[test]
fn rect_fills_the_block() {
    let c = Color::red();
    let mut img = Image::new(10, 8);
    img.rect(Vec2::new(2, 1), Vec2::new(3, 2), c);
    assert_eq!(
        sorted(cells_of(&img, c)),
        vec![(2, 1), (2, 2), (3, 1), (3, 2), (4, 1), (4, 2)]
    );
}

#[test]
fn rect_with_negative_size_extends_backward() {
    let c = Color::red();
    let mut img = Image::new(10, 8);
    img.rect(Vec2::new(5, 5), Vec2::new(-3, -2), c);
    assert_eq!(
        sorted(cells_of(&img, c)),
        vec![(3, 4), (3, 5), (4, 4), (4, 5), (5, 4), (5, 5)]
    );

    let mut img = Image::new(10, 8);
    img.rect(Vec2::new(5, 5), Vec2::new(2, -2), c);
    assert_eq!(sorted(cells_of(&img, c)), vec![(5, 4), (5, 5), (6, 4), (6, 5)]);
}

#[test]
fn rect_is_cut_at_the_canvas() {
    let c = Color::red();
    let mut img = Image::new(4, 4);
    img.rect(Vec2::new(2, 3), Vec2::new(100, 100), c);
    assert_eq!(sorted(cells_of(&img, c)), vec![(2, 3), (3, 3)]);

    let mut img = Image::new(4, 4);
    img.rect(Vec2::new(1, 1), Vec2::new(-100, -100), c);
    assert_eq!(sorted(cells_of(&img, c)), vec![(0, 0), (0, 1), (1, 0), (1, 1)]);

    let mut img = Image::new(4, 4);
    img.rect(Vec2::new(i32::MIN, i32::MIN), Vec2::new(i32::MAX, i32::MAX), c);
    assert_eq!(cells_of(&img, c), vec![]);

    let mut img = Image::new(4, 4);
    img.rect(Vec2::new(-2, -2), Vec2::new(i32::MAX, 3), c);
    assert_eq!(sorted(cells_of(&img, c)), vec![(0, 0), (1, 0), (2, 0), (3, 0)]);

    let mut img = Image::new(4, 4);
    img.rect(Vec2::new(-3, 0), Vec2::new(2, 4), c);
    assert_eq!(cells_of(&img, c), vec![]);

    let mut img = Image::new(4, 4);
    img.rect(Vec2::new(-3, 0), Vec2::new(-2, 4), c);
    assert_eq!(cells_of(&img, c), vec![]);
}

#[test]
fn rect_of_no_size_fills_nothing() {
    let c = Color::red();
    let mut img = Image::new(4, 4);
    img.rect(Vec2::new(1, 1), Vec2::new(0, 3), c);
    img.rect(Vec2::new(1, 1), Vec2::new(3, 0), c);
    img.rect(Vec2::new(1, 1), Vec2::new(0, 0), c);
    assert_eq!(cells_of(&img, c), vec![]);
}

#[test]
fn rect_boudary_draws_the_four_sides() {
    let c = Color::chocolate();
    let mut img = Image::new(8, 6);
    img.rect_boudary(Vec2::new(1, 1), Vec2::new(3, 2), c);
    assert_eq!(
        sorted(cells_of(&img, c)),
        sorted(vec![
            (1, 1),
            (2, 1),
            (3, 1),
            (4, 1),
            (4, 2),
            (4, 3),
            (3, 3),
            (2, 3),
            (1, 3),
            (1, 2)
        ])
    );
    assert_eq!(img.get(Vec2::new(2, 2)), Color::black());
    assert_eq!(img.get(Vec2::new(3, 2)), Color::black());
}

#[test]
fn rect_boudary_with_far_corners() {
    let c = Color::chocolate();
    let mut img = Image::new(4, 4);
    img.rect_boudary(Vec2::new(1, 2), Vec2::new(50000, 70000), c);
    assert_eq!(
        sorted(cells_of(&img, c)),
        vec![(1, 2), (1, 3), (2, 2), (3, 2)]
    );
    let mut img = Image::new(4, 4);
    img.rect_boudary(Vec2::new(i32::MAX, i32::MAX), Vec2::new(1000, 1000), c);
    assert_eq!(cells_of(&img, c), vec![]);
}

#[test]
fn plot_ellipse_points_sets_four_cells() {
    let c = Color::aquamarine();
    let mut img = Image::new(9, 9);
    img.plot_ellipse_points(Vec2::new(4, 4), Vec2::new(2, 1), c);
    assert_eq!(sorted(cells_of(&img, c)), vec![(2, 3), (2, 5), (6, 3), (6, 5)]);
    let mut img = Image::new(9, 9);
    img.plot_ellipse_points(Vec2::new(4, 4), Vec2::new(0, 3), c);
    assert_eq!(sorted(cells_of(&img, c)), vec![(4, 1), (4, 7)]);
    let mut img = Image::new(9, 9);
    img.plot_ellipse_points(Vec2::new(7, 7), Vec2::new(i32::MAX, 2), c);
    assert_eq!(cells_of(&img, c), vec![]);
}

#[test]
fn ellipse_cells_are_those_of_the_midpoint_stepping() {
    let c = Color::aquamarine();
    let mut img = Image::new(21, 21);
    img.ellipse_boundary(Vec2::new(10, 10), Vec2::new(8, 6), c);
    assert_eq!(
        sorted(cells_of(&img, c)),
        vec![
            (6, 9),
            (6, 10),
            (6, 11),
            (7, 8),
            (7, 12),
            (8, 7),
            (8, 13),
            (9, 7),
            (9, 13),
            (10, 7),
            (10, 13),
            (11, 7),
            (11, 13),
            (12, 7),
            (12, 13),
            (13, 8),
            (13, 12),
            (14, 9),
            (14, 10),
            (14, 11)
        ]
    );

    let mut img = Image::new(7, 7);
    img.ellipse_boundary(Vec2::new(3, 3), Vec2::new(5, 3), c);
    assert_eq!(
        sorted(cells_of(&img, c)),
        vec![(1, 3), (2, 2), (2, 4), (3, 2), (3, 4), (4, 2), (4, 4), (5, 3)]
    );
}

#[test]
fn ellipse_is_symmetric_about_its_center() {
    let c = Color::deep_pink();
    let shapes = [
        ((20, 20), (25, 8)),
        ((20, 20), (4, 4)),
        ((20, 20), (9, 30)),
        ((20, 20), (1, 1)),
        ((20, 20), (0, 12)),
        ((20, 20), (12, 0)),
        ((20, 20), (-10, 6)),
        ((20, 20), (10, -6)),
        ((20, 20), (31, 17)),
    ];
    for (center, size) in shapes {
        let mut img = Image::new(41, 41);
        img.ellipse_boundary(Vec2::point(center), Vec2::point(size), c);
        let cells = cells_of(&img, c);
        assert!(!cells.is_empty());
        for (x, y) in cells {
            let (dx, dy) = (x - center.0, y - center.1);
            assert_eq!(img.get(Vec2::new(center.0 - dx, y)), c);
            assert_eq!(img.get(Vec2::new(x, center.1 - dy)), c);
            assert_eq!(img.get(Vec2::new(center.0 - dx, center.1 - dy)), c);
        }
    }
}

#[test]
fn ellipse_of_no_height_is_its_top_alone() {
    let c = Color::deep_pink();
    let mut img = Image::new(9, 9);
    img.ellipse_boundary(Vec2::new(4, 4), Vec2::new(6, 0), c);
    assert_eq!(cells_of(&img, c), vec![(4, 4)]);
    let mut img = Image::new(9, 9);
    img.ellipse_boundary(Vec2::new(4, 4), Vec2::new(6, -4), c);
    assert_eq!(sorted(cells_of(&img, c)), vec![(4, 2), (4, 6)]);
}

#[test]
fn ellipse_far_from_the_canvas_draws_nothing() {
    let c = Color::deep_pink();
    let mut img = Image::new(9, 9);
    img.ellipse_boundary(Vec2::new(i32::MIN, i32::MAX), Vec2::new(40, 30), c);
    assert_eq!(cells_of(&img, c), vec![]);
}

/// The cells of the canvas that plain integer stepping visits for a line.
fn stepped_line(p1: (i64, i64), p2: (i64, i64), w: i64, h: i64) -> Vec<(i32, i32)> {
    let (mut x, mut y) = p1;
    let dx = (p2.0 - x).abs();
    let sx = if x < p2.0 { 1 } else { -1 };
    let dy = -(p2.1 - y).abs();
    let sy = if y < p2.1 { 1 } else { -1 };
    let mut err = dx + dy;
    let mut out = vec![(x, y)];
    while (x != p2.0 || y != p2.1)
        && ((x < w && sx > 0) || (x >= 0 && sx < 0))
        && ((y < h && sy > 0) || (y >= 0 && sy < 0))
    {
        let e2 = 2 * err;
        if e2 >= dy {
            err += dy;
            x += sx;
        }
        if e2 <= dx {
            err += dx;
            y += sy;
        }
        out.push((x, y));
    }
    let mut cells: Vec<(i32, i32)> = out
        .into_iter()
        .filter(|&(x, y)| 0 <= x && x < w && 0 <= y && y < h)
        .map(|(x, y)| (x as i32, y as i32))
        .collect();
    cells.sort();
    cells.dedup();
    cells
}

/// The cells of the canvas that plain midpoint stepping visits for an ellipse.
fn stepped_ellipse(center: (i64, i64), size: (i64, i64), w: i64, h: i64) -> Vec<(i32, i32)> {
    let a = size.0 / 2;
    let b = size.1 / 2;
    let mut out = Vec::new();
    let mut plot = |x: i64, y: i64| {
        out.push((center.0 + x, center.1 + y));
        out.push((center.0 + x, center.1 - y));
        out.push((center.0 - x, center.1 + y));
        out.push((center.0 - x, center.1 - y));
    };
    let mut x = 0;
    let mut y = b;
    let mut p = b * b + (a * a * (1 - 4 * b) - 2) / 4;
    let mut dpe = 3 * b * b;
    let mut dpse = dpe - 2 * a * a * (b - 1);
    let d2pe = 2 * b * b;
    let d2pse = d2pe + 2 * a * a;
    plot(x, y);
    while dpse < 2 * a * a + 3 * b * b {
        if p < 0 {
            p += dpe;
            dpe += d2pe;
            dpse += d2pe;
        } else {
            p += dpse;
            dpe += d2pe;
            dpse += d2pse;
            y -= 1;
        }
        x += 1;
        plot(x, y);
    }
    let mut p = p - (a * a * (4 * y - 3) + b * b * (4 * x + 3) + 2) / 4;
    let mut dpse = 2 * b * b + 3 * a * a;
    let dps = a * a * (3 - 2 * y);
    let d2ps = 2 * a * a;
    while y > 0 {
        if p > 0 {
            p += dps;
            dpse += d2ps;
        } else {
            p += dpse;
            dpse += d2pse;
            x += 1;
        }
        y -= 1;
        plot(x, y);
    }
    let mut cells: Vec<(i32, i32)> = out
        .into_iter()
        .filter(|&(x, y)| 0 <= x && x < w && 0 <= y && y < h)
        .map(|(x, y)| (x as i32, y as i32))
        .collect();
    cells.sort();
    cells.dedup();
    cells
}

#[test]
fn lines_agree_with_plain_stepping() {
    let c = Color::white();
    let ends = [-7, -1, 0, 3, 8, 11, 12, 20];
    for &x1 in &ends {
        for &y1 in &ends {
            for &x2 in &ends {
                for &y2 in &ends {
                    let mut img = Image::new(12, 9);
                    img.line(Vec2::new(x1, y1), Vec2::new(x2, y2), c);
                    assert_eq!(
                        sorted(cells_of(&img, c)),
                        stepped_line((x1 as i64, y1 as i64), (x2 as i64, y2 as i64), 12, 9)
                    );
                }
            }
        }
    }
}

#[test]
fn ellipses_agree_with_plain_stepping() {
    let c = Color::white();
    for sx in -9..40 {
        for sy in -9..40 {
            let mut img = Image::new(30, 24);
            img.ellipse_boundary(Vec2::new(13, 11), Vec2::new(sx, sy), c);
            assert_eq!(
                sorted(cells_of(&img, c)),
                stepped_ellipse((13, 11), (sx as i64, sy as i64), 30, 24)
            );
        }
    }
    for &(sx, sy) in &[(2000, 30), (30, 2000), (1001, 999), (3, 40000), (40000, 3)] {
        let mut img = Image::new(30, 24);
        img.ellipse_boundary(Vec2::new(-5, 40), Vec2::new(sx, sy), c);
        assert_eq!(
            sorted(cells_of(&img, c)),
            stepped_ellipse((-5, 40), (sx as i64, sy as i64), 30, 24)
        );
    }
}

use qrcode::types::Color;
use qrterm::image::{Dot, Grid, HalfPoint, Image, Point};

fn lines_text(img: &Image) -> Vec<String> {
    let mut out = Vec::new();
    for line in &img.lines {
        out.push(line.iter().map(|p| p.to_char()).collect::<String>());
    }
    if let Some(last) = &img.last_line {
        out.push(last.iter().map(|p| p.to_char()).collect::<String>());
    }
    out
}

fn pt(top: Dot, bot: Dot) -> Point {
    Point { top, bot }
}

#[test]
fn two_by_two_diagonal() {
    let mut g = Grid::new(2, 2, Dot::Black, Dot::White);
    g.draw_dark_pixel(0, 0);
    g.draw_dark_pixel(1, 1);
    let img = g.into_image();
    assert_eq!(img.lines.len(), 1);
    assert_eq!(img.lines[0], vec![pt(Dot::Black, Dot::White), pt(Dot::White, Dot::Black)]);
    assert_eq!(img.lines[0][0].to_char(), '▀');
    assert_eq!(img.lines[0][1].to_char(), '▄');
    assert!(img.last_line.is_none());
}

#[test]
fn single_row_becomes_half_row() {
    let mut g = Grid::new(3, 1, Dot::Black, Dot::White);
    g.draw_dark_pixel(1, 0);
    let img = g.into_image();
    assert!(img.lines.is_empty());
    let last = img.last_line.as_ref().unwrap();
    assert_eq!(last, &vec![HalfPoint(Dot::White), HalfPoint(Dot::Black), HalfPoint(Dot::White)]);
    assert_eq!(lines_text(&img), vec![" ▀ ".to_string()]);
}

#[test]
fn odd_height_column() {
    let mut g = Grid::new(1, 3, Dot::Black, Dot::White);
    g.draw_dark_pixel(0, 0);
    g.draw_dark_pixel(0, 2);
    let img = g.into_image();
    assert_eq!(img.lines, vec![vec![pt(Dot::Black, Dot::White)]]);
    assert_eq!(img.last_line, Some(vec![HalfPoint(Dot::Black)]));
    assert_eq!(lines_text(&img), vec!["▀".to_string(), "▀".to_string()]);
}

#[test]
fn zero_width_is_empty() {
    let g = Grid::new(0, 5, Dot::Black, Dot::White);
    assert!(!g.in_bounds(0, 0));
    assert!(!g.in_bounds(0, 4));
    let img = g.into_image();
    assert!(img.lines.is_empty());
    assert!(img.last_line.is_none());
}

#[test]
fn zero_height_is_empty() {
    let g = Grid::new(4, 0, Dot::Black, Dot::White);
    assert!(!g.in_bounds(0, 0));
    assert!(!g.in_bounds(3, 0));
    let img = g.into_image();
    assert!(img.lines.is_empty());
    assert!(img.last_line.is_none());
}

#[test]
fn blank_grid_odd_height() {
    let img = Grid::new(3, 5, Dot::Black, Dot::White).into_image();
    assert_eq!(img.lines.len(), 2);
    for line in &img.lines {
        assert_eq!(line, &vec![pt(Dot::White, Dot::White); 3]);
    }
    assert_eq!(img.last_line, Some(vec![HalfPoint(Dot::White); 3]));
    assert_eq!(lines_text(&img), vec!["   ".to_string(); 3]);
}

#[test]
fn blank_grid_even_height() {
    let img = Grid::new(4, 4, Dot::Black, Dot::White).into_image();
    assert_eq!(img.lines.len(), 2);
    for line in &img.lines {
        assert_eq!(line, &vec![pt(Dot::White, Dot::White); 4]);
    }
    assert!(img.last_line.is_none());
}

#[test]
fn point_glyphs() {
    assert_eq!(pt(Dot::Black, Dot::Black).to_char(), '█');
    assert_eq!(pt(Dot::Black, Dot::White).to_char(), '▀');
    assert_eq!(pt(Dot::White, Dot::Black).to_char(), '▄');
    assert_eq!(pt(Dot::White, Dot::White).to_char(), ' ');
}

#[test]
fn half_point_glyphs() {
    assert_eq!(HalfPoint(Dot::Black).to_char(), '▀');
    assert_eq!(HalfPoint(Dot::White).to_char(), ' ');
}

#[test]
fn rows_cover_height() {
    for h in 0..8u32 {
        let img = Grid::new(2, h, Dot::Black, Dot::White).into_image();
        let half = if img.last_line.is_some() { 1 } else { 0 };
        assert_eq!(img.lines.len() * 2 + half, h as usize);
        for line in &img.lines {
            assert_eq!(line.len(), 2);
        }
    }
}

#[test]
fn out_of_range_is_not_in_bounds() {
    let g = Grid::new(3, 2, Dot::Black, Dot::White);
    assert!(g.in_bounds(0, 0));
    assert!(g.in_bounds(2, 1));
    assert!(!g.in_bounds(3, 0));
    assert!(!g.in_bounds(0, 2));
    assert!(!g.in_bounds(3, 2));
    assert!(!g.in_bounds(u32::MAX, 0));
}

#[test]
fn marking_changes_one_slot_only() {
    let mut g = Grid::new(3, 2, Dot::Black, Dot::White);
    g.draw_dark_pixel(1, 1);
    let img = g.into_image();
    assert_eq!(
        img.lines,
        vec![vec![
            pt(Dot::White, Dot::White),
            pt(Dot::White, Dot::Black),
            pt(Dot::White, Dot::White),
        ]]
    );
}

#[test]
fn marking_twice_keeps_dark() {
    let mut g = Grid::new(1, 2, Dot::Black, Dot::White);
    g.draw_dark_pixel(0, 1);
    g.draw_dark_pixel(0, 1);
    let img = g.into_image();
    assert_eq!(img.lines, vec![vec![pt(Dot::White, Dot::Black)]]);
}

#[test]
fn full_block_when_both_dark() {
    let mut g = Grid::new(2, 3, Dot::Black, Dot::White);
    g.draw_dark_pixel(0, 0);
    g.draw_dark_pixel(0, 1);
    g.draw_dark_pixel(1, 2);
    let img = g.into_image();
    assert_eq!(lines_text(&img), vec!["█ ".to_string(), " ▀".to_string()]);
}

#[test]
fn dark_value_is_the_one_given() {
    let mut g = Grid::new(1, 2, Dot::White, Dot::Black);
    g.draw_dark_pixel(0, 0);
    let img = g.into_image();
    assert_eq!(img.lines, vec![vec![pt(Dot::White, Dot::Black)]]);
}

#[test]
fn default_colors() {
    assert_eq!(Dot::default_color(Color::Dark), Dot::Black);
    assert_eq!(Dot::default_color(Color::Light), Dot::White);
}

use canbus_gauge::display::{
    color_rgb565, draw_initial_ui, label_text, text_style, update_value, Color, DrawCommand, Point,
    Rect, Rgb565Value, TextStyle,
};
use canbus_gauge::text::value_text;

const W: i32 = 320;
const H: i32 = 240;

type Canvas = Vec<Rgb565Value>;

fn canvas(seed: u8) -> Canvas {
    (0..(W * H) as usize)
        .map(|i| Rgb565Value { r: (i as u8).wrapping_add(seed) & 31, g: seed & 63, b: (i / 7) as u8 & 31 })
        .collect()
}

fn set(c: &mut Canvas, x: i32, y: i32, color: Color) {
    if (0..W).contains(&x) && (0..H).contains(&y) {
        c[(y * W + x) as usize] = color_rgb565(color);
    }
}

fn fill(c: &mut Canvas, r: Rect, color: Color) {
    for y in r.top_left.y..r.top_left.y + r.size.height as i32 {
        for x in r.top_left.x..r.top_left.x + r.size.width as i32 {
            set(c, x, y, color);
        }
    }
}

// A stand-in rasteriser: each glyph covers a small mark inside its 10x20 cell.
fn text(c: &mut Canvas, s: &str, p: Point, style: TextStyle) {
    for (k, ch) in s.chars().enumerate() {
        if ch != ' ' {
            let x0 = p.x + 10 * k as i32 + 2;
            for dy in 0..5 {
                set(c, x0 + (ch as i32 % 5), p.y - 10 + dy, style.text_color);
            }
        }
    }
}

fn draw(c: &mut Canvas, cmd: DrawCommand) {
    match cmd {
        DrawCommand::Clear(color) => c.iter_mut().for_each(|px| *px = color_rgb565(color)),
        DrawCommand::StrokeRect { rect, color, stroke_width } => {
            let w = stroke_width as i32;
            let (x0, y0) = (rect.top_left.x, rect.top_left.y);
            let (x1, y1) = (x0 + rect.size.width as i32, y0 + rect.size.height as i32);
            for y in y0..y1 {
                for x in x0..x1 {
                    if x < x0 + w || x >= x1 - w || y < y0 + w || y >= y1 - w {
                        set(c, x, y, color);
                    }
                }
            }
        }
        DrawCommand::StrokeLine { start, end, color, .. } => {
            for x in start.x..=end.x {
                set(c, x, start.y, color);
            }
        }
        DrawCommand::Text { label, position, style } => text(c, label_text(label), position, style),
    }
}

fn initial_ui(c: &mut Canvas) {
    for cmd in draw_initial_ui() {
        draw(c, cmd);
    }
}

fn redraw(c: &mut Canvas, value: u16) {
    let u = update_value(160, 80, 160, 60, 100, 100, value_text(value));
    fill(c, u.clear, u.fill);
    text(c, u.text.as_str(), u.position, u.style);
}

#[test]
fn initial_ui_forgets_what_was_shown() {
    let mut a = canvas(1);
    let mut b = canvas(200);
    assert!(a != b);
    initial_ui(&mut a);
    initial_ui(&mut b);
    assert!(a == b);
}

#[test]
fn initial_ui_twice_equals_once() {
    let mut once = canvas(3);
    initial_ui(&mut once);
    let mut twice = once.clone();
    initial_ui(&mut twice);
    assert!(once == twice);
}

#[test]
fn value_redraw_twice_equals_once() {
    let mut once = canvas(5);
    redraw(&mut once, 212);
    let mut twice = once.clone();
    redraw(&mut twice, 212);
    assert!(once == twice);
}

#[test]
fn value_redraw_leaves_no_trace_of_the_old_value() {
    let mut a = canvas(9);
    initial_ui(&mut a);
    let mut b = a.clone();
    redraw(&mut a, 65535);
    redraw(&mut b, 7);
    redraw(&mut a, 212);
    redraw(&mut b, 212);
    assert!(a == b);
}

#[test]
fn text_style_has_no_background() {
    assert_eq!(text_style(Color::White).background, None);
}

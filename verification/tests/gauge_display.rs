use canbus_gauge::display::{
    color_rgb565, display_tick, draw_initial_ui, font_character_size, gauge_text, label_text,
    readings_are_consistent, text_style, update_value, value_is_stale, Color,
    DrawCommand, GaugeReadings, Label, MonoFont, Point, Rect, Rgb565Value, Size, TextStyle,
};
use canbus_gauge::constants::display_config::{DISPLAY_TICK_MS, DISPLAY_UPDATE_HZ};
use canbus_gauge::text::{empty_value_text, value_text};

fn never_received() -> GaugeReadings {
    GaugeReadings {
        oil_temp_f: 0,
        oil_temp_last_rcvd_ms: u32::MAX,
        oil_pressure_psi: 0,
        oil_pressure_last_rcvd_ms: u32::MAX,
    }
}

fn orange() -> TextStyle {
    TextStyle { font: MonoFont::Font10x20, text_color: Color::Orange, background: None }
}

fn white() -> TextStyle {
    TextStyle { font: MonoFont::Font10x20, text_color: Color::White, background: None }
}

fn digits_value(s: &str) -> u32 {
    s.chars().fold(0, |acc, c| acc * 10 + c.to_digit(10).unwrap())
}

#[test]
fn value_text_is_decimal() {
    assert_eq!(value_text(0).as_str(), "0");
    assert_eq!(value_text(7).as_str(), "7");
    assert_eq!(value_text(212).as_str(), "212");
    assert_eq!(value_text(1000).as_str(), "1000");
    assert_eq!(value_text(65535).as_str(), "65535");
}

#[test]
fn value_text_reads_back_as_the_value() {
    for v in [0u16, 1, 9, 10, 99, 100, 305, 4096, 11336, 65535] {
        assert_eq!(digits_value(value_text(v).as_str()), v as u32);
    }
}

#[test]
fn value_text_matches_std_formatting() {
    for v in (0u16..=65535).step_by(37) {
        assert_eq!(value_text(v).as_str(), v.to_string());
    }
}

#[test]
fn empty_value_is_three_dashes() {
    assert_eq!(empty_value_text().as_str(), "---");
}

#[test]
fn never_received_value_is_stale() {
    assert!(value_is_stale(0, u32::MAX));
    assert!(value_is_stale(u32::MAX, u32::MAX));
}

#[test]
fn staleness_threshold_is_one_second() {
    assert!(!value_is_stale(5000, 5000));
    assert!(!value_is_stale(5000, 4000));
    assert!(value_is_stale(5001, 4000));
    assert!(value_is_stale(100_000, 0));
}

#[test]
fn stale_value_stays_stale() {
    assert!(value_is_stale(3000, 1000));
    for later in [3000u32, 3001, 10_000, u32::MAX - 1] {
        assert!(value_is_stale(later, 1000));
    }
}

#[test]
fn gauge_text_shows_fresh_values_and_hides_stale_ones() {
    assert_eq!(gauge_text(2000, 1500, 212).as_str(), "212");
    assert_eq!(gauge_text(2600, 1500, 212).as_str(), "---");
    assert_eq!(gauge_text(2600, u32::MAX, 212).as_str(), "---");
}

#[test]
fn update_value_blanks_then_draws_in_white() {
    let u = update_value(160, 80, 160, 60, 100, 100, value_text(42));
    assert_eq!(u.clear, Rect { top_left: Point { x: 160, y: 60 }, size: Size { width: 100, height: 100 } });
    assert_eq!(u.fill, Color::Black);
    assert_eq!(u.text.as_str(), "42");
    assert_eq!(u.position, Point { x: 160, y: 80 });
    assert_eq!(u.style, TextStyle { font: MonoFont::Font10x20, text_color: Color::White, background: None });
}

#[test]
fn display_tick_without_readings_shows_placeholders() {
    let frame = display_tick(12_345, &never_received());
    assert_eq!(frame.oil_temp.text.as_str(), "---");
    assert_eq!(frame.oil_pressure.text.as_str(), "---");
    assert_eq!(frame.oil_temp.position, Point { x: 160, y: 80 });
    assert_eq!(frame.oil_pressure.position, Point { x: 160, y: 110 });
    assert_eq!(frame.oil_temp.clear.top_left, Point { x: 160, y: 60 });
    assert_eq!(frame.oil_pressure.clear.top_left, Point { x: 160, y: 90 });
    assert_eq!(frame.oil_temp.clear.size, Size { width: 100, height: 100 });
}

#[test]
fn display_tick_shows_fresh_readings() {
    let readings = GaugeReadings {
        oil_temp_f: 212,
        oil_temp_last_rcvd_ms: 10_000,
        oil_pressure_psi: 45,
        oil_pressure_last_rcvd_ms: 8_000,
    };
    let frame = display_tick(10_500, &readings);
    assert_eq!(frame.oil_temp.text.as_str(), "212");
    assert_eq!(frame.oil_pressure.text.as_str(), "---");
}

#[test]
fn display_tick_compares_times_on_32_bits() {
    let readings = GaugeReadings {
        oil_temp_f: 99,
        oil_temp_last_rcvd_ms: 100,
        oil_pressure_psi: 30,
        oil_pressure_last_rcvd_ms: u32::MAX,
    };
    let frame = display_tick((1u64 << 32) + 600, &readings);
    assert_eq!(frame.oil_temp.text.as_str(), "99");
    assert_eq!(frame.oil_pressure.text.as_str(), "---");
}

#[test]
fn initial_ui_draws_the_fixed_screen() {
    let cmds = draw_initial_ui();
    let expected = vec![
        DrawCommand::Clear(Color::Black),
        DrawCommand::StrokeRect {
            rect: Rect { top_left: Point { x: 4, y: 4 }, size: Size { width: 312, height: 232 } },
            color: Color::White,
            stroke_width: 2,
        },
        DrawCommand::Text { label: Label::Title, position: Point { x: 16, y: 35 }, style: orange() },
        DrawCommand::StrokeLine {
            start: Point { x: 4, y: 45 },
            end: Point { x: 316, y: 45 },
            color: Color::White,
            stroke_width: 1,
        },
        DrawCommand::Text { label: Label::OilPressureName, position: Point { x: 16, y: 80 }, style: orange() },
        DrawCommand::Text { label: Label::OilTempName, position: Point { x: 16, y: 110 }, style: orange() },
        DrawCommand::Text {
            label: Label::OilPressurePlaceholder,
            position: Point { x: 160, y: 80 },
            style: white(),
        },
        DrawCommand::Text { label: Label::OilTempPlaceholder, position: Point { x: 160, y: 110 }, style: white() },
    ];
    assert_eq!(cmds.to_vec(), expected);
}

#[test]
fn initial_ui_stays_on_screen() {
    for cmd in draw_initial_ui() {
        match cmd {
            DrawCommand::Clear(_) => {}
            DrawCommand::StrokeRect { rect, .. } => {
                assert!(rect.top_left.x >= 0 && rect.top_left.y >= 0);
                assert!(rect.top_left.x as u32 + rect.size.width <= 320);
                assert!(rect.top_left.y as u32 + rect.size.height <= 240);
            }
            DrawCommand::StrokeLine { start, end, .. } => {
                for p in [start, end] {
                    assert!((0..320).contains(&p.x) && (0..240).contains(&p.y));
                }
            }
            DrawCommand::Text { position, .. } => {
                assert!((0..320).contains(&position.x) && (0..240).contains(&position.y));
            }
        }
    }
}

#[test]
fn labels_have_their_texts() {
    assert_eq!(label_text(Label::Title), "CANBUS Gauge v0.0.1");
    assert_eq!(label_text(Label::OilPressureName), "Oil pressure:");
    assert_eq!(label_text(Label::OilTempName), "Oil temp:");
    assert_eq!(label_text(Label::OilPressurePlaceholder), "--- psi");
    assert_eq!(label_text(Label::OilTempPlaceholder), "--- f");
}

#[test]
fn reception_times_must_not_lie_ahead_of_the_clock() {
    assert!(readings_are_consistent(0, &never_received()));
    let readings = GaugeReadings {
        oil_temp_f: 1,
        oil_temp_last_rcvd_ms: 700,
        oil_pressure_psi: 1,
        oil_pressure_last_rcvd_ms: u32::MAX,
    };
    assert!(readings_are_consistent(700, &readings));
    assert!(!readings_are_consistent(699, &readings));
    assert!(!readings_are_consistent((1u64 << 32) + 10, &readings));
}

#[test]
fn colours_have_their_rgb565_components() {
    assert_eq!(color_rgb565(Color::Black), Rgb565Value { r: 0, g: 0, b: 0 });
    assert_eq!(color_rgb565(Color::White), Rgb565Value { r: 31, g: 63, b: 31 });
    assert_eq!(color_rgb565(Color::Orange), Rgb565Value { r: 0, g: 33, b: 31 });
}

#[test]
fn texts_use_the_10x20_font_without_background() {
    assert_eq!(font_character_size(MonoFont::Font10x20), (10, 20));
    assert_eq!(text_style(Color::Orange), orange());
    assert_eq!(text_style(Color::White), white());
}

#[test]
fn display_ticks_at_ten_hertz() {
    assert_eq!(DISPLAY_UPDATE_HZ, 10);
    assert_eq!(DISPLAY_TICK_MS, 100);
}

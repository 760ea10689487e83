use embedded_graphics_core::pixelcolor::Rgb565;
use embedded_graphics_core::pixelcolor::Rgb888;
use lvgl::Color;
use lvgl::Event;
use lvgl::Part;
use lvgl::State;
use lvgl::grid_free;
use lvgl::grid_last;
use lvgl::selector;

#[test]
fn color_properties_accessible() {
    let color = Color::from_rgb((206, 51, 255));

    if lvgl::LV_COLOR_DEPTH == 32 {
        assert_eq!(color.r(), 206);
        assert_eq!(color.g(), 51);
        assert_eq!(color.b(), 255);
    } else if lvgl::LV_COLOR_DEPTH == 16 {
        assert_eq!(color.r(), 25);
        assert_eq!(color.g(), 12);
        assert_eq!(color.b(), 31);
    }
}

#[test]
fn color_from_raw_keeps_bits() {
    let color = Color::from_raw(0xc986);
    assert_eq!(color.raw, 0xc986);
    assert_eq!(color.r(), 0x19);
    assert_eq!(color.g(), 0x0c);
    assert_eq!(color.b(), 0x06);
}

#[test]
fn color_converts_to_outside_pixel_types() {
    let color = Color::from_rgb((206, 51, 255));
    assert_eq!(color.to_rgb565(), Rgb565::new(25, 12, 31));
    assert_eq!(color.to_rgb888(), Rgb888::new(25, 12, 31));
}

#[test]
fn event_codes_round_trip() {
    for code in 0..=60u32 {
        if let Some(e) = Event::from_code(code) {
            assert_eq!(e.code(), code);
        }
    }
    assert_eq!(Event::from_code(lvgl::LV_EVENT_ALL), None);
    assert_eq!(Event::from_code(45), None);
    assert_eq!(Event::Pressed.code(), 1);
    assert_eq!(Event::Clicked.code(), 7);
    assert_eq!(Event::GetSelfSize.code(), 44);
}

#[test]
fn selector_combines_part_and_state() {
    assert_eq!(
        selector(Part::Knob, State::from_bits(lvgl::LV_STATE_PRESSED)),
        0x030020
    );
    assert_eq!(selector(Part::Main, State::default()), 0);
    assert_eq!(
        selector(Part::Any, State::from_bits(lvgl::LV_STATE_ANY)),
        0x0fffff
    );
}

#[test]
fn grid_units_match_native_coordinates() {
    assert_eq!(grid_free(1), 8092);
    assert_eq!(grid_free(3), 8094);
    assert_eq!(grid_last(), 8191);
}

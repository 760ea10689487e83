use lvgl::Area;
use lvgl::Color;
use lvgl::Event;
use lvgl::Flag;
use lvgl::IndevData;
use lvgl::IndevState;
use lvgl::InputDevice;
use lvgl::InputDeviceState;
use lvgl::LvError;
use lvgl::Lvgl;
use lvgl::Obj;
use lvgl::Screen;
use lvgl::State;
use lvgl::Style;
use lvgl::TouchPad;
use lvgl::flush_pixels;
use lvgl::heap_init;

#[test]
fn basic_sanity_check() {
    let mut lv = Lvgl::new();
    let _display = lv.register_display(7680, 320, 240, ());

    let horizontal_resolution = lv.disp_get_hor_res();
    assert_eq!(horizontal_resolution, 320 as i16);

    let vertical_resolution = lv.disp_get_ver_res();
    assert_eq!(vertical_resolution, 240 as i16);
}

#[test]
fn ensure_init_is_idempotent() {
    let mut lv = Lvgl::new();
    lv.register_logger();
    lv.tick_inc(17);
    let logger_before = lv.logger_registered;
    let ticks_before = lv.ticks();
    lv.ensure_init();
    lv.ensure_init();
    assert!(lv.initialized);
    assert_eq!(lv.logger_registered, logger_before);
    assert_eq!(lv.ticks(), ticks_before);
    heap_init(&mut lv);
    assert!(lv.initialized);
}

#[test]
fn ticks_accumulate_and_wrap() {
    let mut lv = Lvgl::new();
    lv.tick_inc(5);
    assert_eq!(lv.ticks(), 5);
    lv.tick_inc(u32::MAX);
    assert_eq!(lv.ticks(), 4);
}

#[test]
fn reentrant_pass_is_refused() {
    let mut lv = Lvgl::new();
    let invocations = lv.run_tasks().unwrap();
    assert!(invocations.is_empty());
    // A pass is still in flight: starting another one must be refused
    // without touching the engine state.
    assert_eq!(lv.run_tasks(), Err(LvError::AlreadyInUse));
    lv.pass_done();
    assert!(lv.run_tasks().is_ok());
}

#[test]
fn specific_filter_fires_once_per_raise() {
    let mut lv = Lvgl::new();
    let display = lv.register_display(100, 320, 240, ());
    let screen: Screen<u8> = Screen::new(&mut lv, &display);
    let a = lv.create_object(Some(&screen.obj));
    let reg = a.on_event(&mut lv, Event::Clicked);

    lv.event_send(&a, Event::Clicked.code());
    let invocations = lv.run_tasks().unwrap();
    lv.pass_done();
    assert_eq!(invocations.len(), 1);
    assert_eq!(invocations[0].registration, reg);
    assert_eq!(invocations[0].event, Event::Clicked);
    assert_eq!(invocations[0].child, None);

    // A different code on the same object does not reach the filter.
    lv.event_send(&a, Event::Pressed.code());
    let invocations = lv.run_tasks().unwrap();
    lv.pass_done();
    assert!(invocations.is_empty());
}

#[test]
fn any_filter_receives_every_code() {
    let mut lv = Lvgl::new();
    let display = lv.register_display(100, 320, 240, ());
    let screen: Screen<u8> = Screen::new(&mut lv, &display);
    let a = lv.create_object(Some(&screen.obj));
    let reg = a.on_any_event(&mut lv);

    lv.event_send(&a, Event::Pressed.code());
    lv.event_send(&a, Event::ValueChanged.code());
    lv.event_send(&a, 99);  // outside the closed enumeration: dropped
    lv.event_send(&a, Event::Delete.code());
    let invocations = lv.run_tasks().unwrap();
    lv.pass_done();
    assert_eq!(invocations.len(), 3);
    assert_eq!(invocations[0].event, Event::Pressed);
    assert_eq!(invocations[1].event, Event::ValueChanged);
    assert_eq!(invocations[2].event, Event::Delete);
    assert!(invocations.iter().all(|inv| inv.registration == reg));
    assert!(invocations.iter().all(|inv| inv.child.is_none()));
}

#[test]
fn click_callback_counts_across_two_passes() {
    let mut lv = Lvgl::new();
    let display = lv.register_display(100, 320, 240, ());
    let mut screen: Screen<u32> = Screen::new(&mut lv, &display);
    let a = lv.create_object(Some(&screen.obj));
    let reg = a.on_event(&mut lv, Event::Clicked);
    screen.set_context(0u32);

    for _ in 0..2 {
        lv.event_send(&a, Event::Clicked.code());
        let invocations = lv.run_tasks().unwrap();
        for inv in &invocations {
            if inv.registration == reg {
                *screen.callback_context() += 1;
            }
        }
        lv.pass_done();
    }
    assert_eq!(*screen.callback_context(), 2);
}

#[test]
fn bubble_flag_delivers_child_handle() {
    let mut lv = Lvgl::new();
    let display = lv.register_display(100, 320, 240, ());
    let screen: Screen<u8> = Screen::new(&mut lv, &display);
    let a = lv.create_object(Some(&screen.obj));
    let b = lv.create_object(Some(&a));
    let reg = a.on_event(&mut lv, Event::Clicked);

    b.add_flag(&mut lv, Flag::from_bits(lvgl::LV_OBJ_FLAG_EVENT_BUBBLE));
    lv.event_send(&b, Event::Clicked.code());
    let invocations = lv.run_tasks().unwrap();
    lv.pass_done();
    assert_eq!(invocations.len(), 1);
    assert_eq!(invocations[0].registration, reg);
    assert_eq!(invocations[0].child, Some(Obj::from_raw(b.id)));

    // With the flag cleared the parent's callback never fires for the
    // child's event.
    b.clear_flag(&mut lv, Flag::from_bits(lvgl::LV_OBJ_FLAG_EVENT_BUBBLE));
    lv.event_send(&b, Event::Clicked.code());
    let invocations = lv.run_tasks().unwrap();
    lv.pass_done();
    assert!(invocations.is_empty());
}

#[test]
fn bubbling_climbs_while_every_link_bubbles() {
    let mut lv = Lvgl::new();
    let display = lv.register_display(100, 320, 240, ());
    let screen: Screen<u8> = Screen::new(&mut lv, &display);
    let a = lv.create_object(Some(&screen.obj));
    let b = lv.create_object(Some(&a));
    let c = lv.create_object(Some(&b));
    let bubble = Flag::from_bits(lvgl::LV_OBJ_FLAG_EVENT_BUBBLE);
    b.add_flag(&mut lv, bubble);
    c.add_flag(&mut lv, bubble);
    let reg_a = a.on_any_event(&mut lv);
    let reg_b = b.on_any_event(&mut lv);
    let reg_c = c.on_any_event(&mut lv);

    lv.event_send(&c, Event::Pressed.code());
    let invocations = lv.run_tasks().unwrap();
    lv.pass_done();

    // Delivery walks the chain upwards: the raiser first, then each
    // bubbling ancestor, each seeing the raiser as the child.
    assert_eq!(invocations.len(), 3);
    assert_eq!(invocations[0].registration, reg_c);
    assert_eq!(invocations[0].child, None);
    assert_eq!(invocations[1].registration, reg_b);
    assert_eq!(invocations[1].child, Some(Obj::from_raw(c.id)));
    assert_eq!(invocations[2].registration, reg_a);
    assert_eq!(invocations[2].child, Some(Obj::from_raw(c.id)));

    // The walk stops at the first link that does not bubble.
    b.clear_flag(&mut lv, bubble);
    lv.event_send(&c, Event::Pressed.code());
    let invocations = lv.run_tasks().unwrap();
    lv.pass_done();
    assert_eq!(invocations.len(), 2);
    assert_eq!(invocations[0].registration, reg_c);
    assert_eq!(invocations[1].registration, reg_b);
}

#[test]
fn flush_of_single_pixel_area() {
    let area = Area::with_corners(5, 5, 5, 5);
    let buffer = vec![Color::from_raw(0xabc), Color::from_raw(0xdef)];
    let pixels = flush_pixels(&area, &buffer);
    assert_eq!(pixels.len(), 1);
    assert_eq!(pixels[0].raw, 0xabc);
}

#[test]
fn context_round_trip() {
    let mut lv = Lvgl::new();
    let display = lv.register_display(100, 320, 240, ());
    let mut screen: Screen<Vec<u32>> = Screen::new(&mut lv, &display);
    assert!(screen.context().is_none());
    screen.set_context(vec![1, 2, 3]);
    assert_eq!(screen.callback_context(), &vec![1, 2, 3]);
    screen.callback_context().push(4);
    assert_eq!(screen.context().as_ref().unwrap(), &vec![1, 2, 3, 4]);
}

#[test]
fn flush_delivers_row_major_pixels_and_acks_once() {
    let mut lv = Lvgl::new();
    let _display = lv.register_display(100, 320, 240, ());
    let area = Area::with_corners(10, 20, 13, 21);
    let mut buffer: Vec<Color> = Vec::new();
    for i in 0..10u16 {
        buffer.push(Color::from_raw(i * 3));
    }

    let pixels = flush_pixels(&area, &buffer);
    assert_eq!(pixels.len(), 8);
    for k in 0..8usize {
        assert_eq!(pixels[k].raw, (k as u16) * 3);
    }

    // Completion is signalled exactly once per flush, whatever the sink
    // write reported.
    lv.flush_ready(true);
    lv.flush_ready(false);
    assert_eq!(lv.flush_ready_count, 2);
}

#[test]
fn display_registration_and_screen_load() {
    let mut lv = Lvgl::new();
    let mut display = lv.register_display(7680, 320, 240, ());
    let initial = display.screen(&lv);
    let screen: Screen<u8> = Screen::new(&mut lv, &display);
    assert_ne!(initial.id, screen.obj.id);
    display.load_screen(&mut lv, &screen);
    assert_eq!(display.screen(&lv).id, screen.obj.id);
}

#[test]
fn touchpad_round_trip() {
    let mut data = IndevData::default();
    let pressed = TouchPad::Pressed { x: 37, y: 41 };
    pressed.populate_lv_indev_data(&mut data);
    assert_eq!(data.state, IndevState::Pressed);
    assert_eq!(data.point_x, 37);
    assert_eq!(data.point_y, 41);
}

#[test]
fn touchpad_release_reports_released() {
    // A released pad must report a released state whatever the record held
    // from the previous poll.
    let mut data = IndevData::default();
    TouchPad::Pressed { x: 5, y: 6 }.populate_lv_indev_data(&mut data);
    TouchPad::Released.populate_lv_indev_data(&mut data);
    assert_eq!(data.state, IndevState::Released);
    assert_eq!(data.state.raw_value(), 0);
}

#[test]
fn input_device_polls_current_state() {
    let mut lv = Lvgl::new();
    let display = lv.register_display(100, 320, 240, ());
    let mut device = InputDevice::new(&mut lv, &display, TouchPad::default());
    assert_eq!(lv.indev_kinds, vec![lvgl::LV_INDEV_TYPE_POINTER]);

    let mut data = IndevData::default();
    device.indev_read(&mut data);
    assert_eq!(data.state, IndevState::Released);

    *device.state() = TouchPad::Pressed { x: 12, y: 34 };
    device.indev_read(&mut data);
    assert_eq!(data.state, IndevState::Pressed);
    assert_eq!(data.point_x, 12);
    assert_eq!(data.point_y, 34);
}

#[test]
fn object_attributes_update() {
    let mut lv = Lvgl::new();
    let display = lv.register_display(100, 320, 240, ());
    let screen: Screen<u8> = Screen::new(&mut lv, &display);
    let a = lv.create_object(Some(&screen.obj));
    let b = lv.create_object(Some(&screen.obj));

    a.set_pos(&mut lv, 10, 20);
    a.set_size(&mut lv, 30, 40);
    assert_eq!(lv.objects[a.id].x, 10);
    assert_eq!(lv.objects[a.id].y, 20);
    assert_eq!(lv.objects[a.id].width, 30);
    assert_eq!(lv.objects[a.id].height, 40);
    a.set_width(&mut lv, 31);
    a.set_height(&mut lv, 41);
    assert_eq!(lv.objects[a.id].width, 31);
    assert_eq!(lv.objects[a.id].height, 41);

    let hidden = Flag::from_bits(lvgl::LV_OBJ_FLAG_HIDDEN);
    assert!(!a.has_flag(&lv, hidden));
    a.add_flag(&mut lv, hidden);
    assert!(a.has_flag(&lv, hidden));
    a.clear_flag(&mut lv, hidden);
    assert!(!a.has_flag(&lv, hidden));

    let pressed = State::from_bits(lvgl::LV_STATE_PRESSED);
    assert!(!a.has_state(&lv, pressed));
    a.add_state(&mut lv, pressed);
    assert!(a.has_state(&lv, pressed));
    assert_eq!(a.get_state(&lv).bits(), lvgl::LV_STATE_PRESSED);
    a.clear_state(&mut lv, pressed);
    assert!(!a.has_state(&lv, pressed));

    a.align_to(&mut lv, &b, lvgl::Align::Center, 0, 0);
    assert!(lv.objects[a.id].align.is_some());

    a.set_grid_cell(&mut lv, lvgl::GridAlign::Stretch, 0, 1, lvgl::GridAlign::Stretch, 1, 1);
    assert!(lv.objects[a.id].grid_cell.is_some());

    let style = Style::default();
    a.add_style(&mut lv, &style, 7);
    assert_eq!(lv.objects[a.id].styles, vec![7]);
}

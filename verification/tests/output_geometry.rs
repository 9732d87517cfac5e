use wlcapture::output::{OutputEvent, OutputState, Transform, XdgOutputEvent};
use wlcapture::wl_client::WlClientState;

#[test]
fn scenario_negative_logical_size_normalized_on_done() {
    let mut o = OutputState::new(7);
    o.apply_xdg_event(XdgOutputEvent::LogicalSize { width: -1920, height: 1080 });
    o.apply_xdg_event(XdgOutputEvent::LogicalPosition { x: 0, y: 0 });
    o.apply_xdg_event(XdgOutputEvent::Done);

    assert_eq!(o.logical_pos, (-1920, 0));
    assert_eq!(o.logical_size, (1920, 1080));
    assert!(o.done);
}

#[test]
fn normalization_is_idempotent_on_a_descriptor() {
    let mut o = OutputState::new(1);
    o.apply_xdg_event(XdgOutputEvent::LogicalSize { width: -800, height: -600 });
    o.apply_xdg_event(XdgOutputEvent::LogicalPosition { x: 100, y: 200 });
    o.apply_xdg_event(XdgOutputEvent::Done);
    let pos_once = o.logical_pos;
    let size_once = o.logical_size;

    o.apply_xdg_event(XdgOutputEvent::Done);
    assert_eq!(o.logical_pos, pos_once);
    assert_eq!(o.logical_size, size_once);
    assert_eq!(pos_once, (-700, -400));
    assert_eq!(size_once, (800, 600));
}

#[test]
fn name_mode_and_geometry_events_fill_the_descriptor() {
    let mut o = OutputState::new(3);
    assert_eq!(o.name, "Unknown");
    o.apply_xdg_event(XdgOutputEvent::Name { name: "DP-3".to_string() });
    o.apply_output_event(OutputEvent::Mode { width: 2560, height: 1440 });
    o.apply_output_event(OutputEvent::Geometry {
        model: "C27".to_string(),
        transform: Transform::Rotated90,
    });
    assert_eq!(o.name, "DP-3");
    assert_eq!(o.model, "C27");
    assert_eq!(o.size, (2560, 1440));
    assert_eq!(o.transform, Transform::Rotated90);
}

#[test]
fn client_routes_events_by_registry_id() {
    let mut wl = WlClientState::new(true, false);
    wl.register_output(10);
    wl.register_output(11);
    wl.register_output(10); // duplicate id: left alone
    assert_eq!(wl.outputs.len(), 2);

    wl.handle_xdg_event(11, XdgOutputEvent::LogicalSize { width: 1280, height: 720 });
    wl.handle_xdg_event(99, XdgOutputEvent::LogicalSize { width: 5, height: 5 }); // unknown id
    assert_eq!(wl.outputs[0].logical_size, (0, 0));
    assert_eq!(wl.outputs[1].logical_size, (1280, 720));

    assert_eq!(wl.find_output_index(10), Some(0));
    assert_eq!(wl.find_output_index(11), Some(1));
    assert_eq!(wl.find_output_index(99), None);
}

#[test]
fn desktop_extent_is_the_largest_corner() {
    let mut wl = WlClientState::new(false, false);
    wl.register_output(1);
    wl.register_output(2);
    wl.handle_xdg_event(1, XdgOutputEvent::LogicalPosition { x: 0, y: 0 });
    wl.handle_xdg_event(1, XdgOutputEvent::LogicalSize { width: 1920, height: 1080 });
    wl.handle_xdg_event(2, XdgOutputEvent::LogicalPosition { x: 1920, y: 0 });
    wl.handle_xdg_event(2, XdgOutputEvent::LogicalSize { width: 1280, height: 1024 });

    assert_eq!(wl.get_desktop_extent(), (3200, 1080));
}

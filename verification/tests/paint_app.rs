use cosg::app::{route_window_event, WindowCommand, WindowConfig, WindowInput};
use cosg::paint::{compose, fits_vertex_buffer, triangulate};
use cosg::widget::PointerKind;

#[test]
fn compose_paints_own_rect_first() {
    let children = vec![vec![1, 2], vec![], vec![3]];
    assert_eq!(compose(0, &children), vec![0, 1, 2, 3]);
    let none: Vec<Vec<u8>> = vec![];
    assert_eq!(compose(7u8, &none), vec![7]);
}

#[test]
fn triangulate_makes_two_triangles_per_rect() {
    let quads = vec![['a', 'b', 'c', 'd'], ['e', 'f', 'g', 'h']];
    assert_eq!(
        triangulate(&quads),
        vec!['a', 'b', 'c', 'b', 'd', 'c', 'e', 'f', 'g', 'f', 'h', 'g']
    );
    let empty: Vec<[u32; 4]> = vec![];
    assert!(triangulate(&empty).is_empty());
}

#[test]
fn vertex_buffer_holds_682_rects() {
    assert!(fits_vertex_buffer(0));
    assert!(fits_vertex_buffer(682));
    assert!(!fits_vertex_buffer(683));
}

#[test]
fn window_config_default() {
    let c = WindowConfig::default();
    assert_eq!(c.title, "CosG App");
    assert_eq!(c.width, 800);
    assert_eq!(c.height, 600);
}

#[test]
fn window_events_route() {
    assert_eq!(route_window_event(true, WindowInput::CloseRequested), WindowCommand::Exit);
    assert_eq!(
        route_window_event(true, WindowInput::Resized { width: 1024, height: 768 }),
        WindowCommand::Resize { width: 1024, height: 768 }
    );
    assert_eq!(
        route_window_event(true, WindowInput::CursorMoved),
        WindowCommand::Pointer(PointerKind::Move)
    );
    assert_eq!(
        route_window_event(true, WindowInput::MouseInput { left: true, pressed: true }),
        WindowCommand::Pointer(PointerKind::Down)
    );
    assert_eq!(
        route_window_event(true, WindowInput::MouseInput { left: true, pressed: false }),
        WindowCommand::Pointer(PointerKind::Up)
    );
    assert_eq!(
        route_window_event(true, WindowInput::MouseInput { left: false, pressed: true }),
        WindowCommand::Ignore
    );
    assert_eq!(route_window_event(true, WindowInput::RedrawRequested), WindowCommand::Render);
    assert_eq!(route_window_event(true, WindowInput::Other), WindowCommand::Ignore);
}

#[test]
fn window_events_ignored_before_ready() {
    assert_eq!(route_window_event(false, WindowInput::CloseRequested), WindowCommand::Ignore);
    assert_eq!(route_window_event(false, WindowInput::RedrawRequested), WindowCommand::Ignore);
}

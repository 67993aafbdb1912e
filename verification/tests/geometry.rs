use canvas_window::geometry::{
    canvas_layout, css_size_text, decimal_text, frame_geometry, initial_sizing,
    logical_canvas_size,
};

#[test]
fn numbers_are_written_in_decimal() {
    assert_eq!(decimal_text(0), "0");
    assert_eq!(decimal_text(7), "7");
    assert_eq!(decimal_text(10), "10");
    assert_eq!(decimal_text(1920), "1920");
    assert_eq!(decimal_text(u32::MAX), "4294967295");
}

#[test]
fn css_text_sets_the_size_in_css_pixels() {
    assert_eq!(css_size_text(800, 600), "width:800px;height:600px;");
    assert_eq!(css_size_text(0, 5), "width:0px;height:5px;");
}

#[test]
fn layout_scales_by_the_pixel_ratio() {
    let layout = canvas_layout((800, 600), 2);
    assert_eq!(layout.css_text, "width:800px;height:600px;");
    assert_eq!(layout.width, 1600);
    assert_eq!(layout.height, 1200);
}

#[test]
fn logical_size_divides_by_the_pixel_ratio() {
    assert_eq!(logical_canvas_size(1600, 1201, 2), (800, 600));
    assert_eq!(logical_canvas_size(7, 9, 3), (2, 3));
}

#[test]
fn canvas_size_round_trips() {
    for &(w, h, r) in &[(800u32, 600u32, 1usize), (1024, 768, 2), (333, 1, 3), (0, 0, 5)] {
        let layout = canvas_layout((w, h), r);
        assert_eq!(logical_canvas_size(layout.width, layout.height, r), (w as usize, h as usize));
    }
}

#[test]
fn viewport_covers_the_canvas_up_to_one_css_pixel() {
    let g = frame_geometry(1601, 1203, 2);
    assert_eq!((g.window_width, g.window_height), (800, 601));
    assert_eq!((g.viewport_width, g.viewport_height), (1600, 1202));
    let g = frame_geometry(10, 10, 3);
    assert_eq!((g.viewport_width, g.viewport_height), (9, 9));
    assert!(10 - g.viewport_width < 3);
}

#[test]
fn a_window_without_a_size_follows_the_browser_window() {
    assert_eq!(initial_sizing(None, (1280, 720)), (true, (1280, 720)));
    assert_eq!(initial_sizing(Some((640, 480)), (1280, 720)), (false, (640, 480)));
}

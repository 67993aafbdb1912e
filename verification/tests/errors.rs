use canvas_window::error::{setup_error, Error, ErrorKind, Listener, SetupFailure};

#[test]
fn setup_failures_without_a_reason() {
    let e = setup_error(SetupFailure::NoWindow);
    assert_eq!(e.error_kind(), ErrorKind::WindowCreation);
    assert_eq!(e.error_message(), "Unable to create web window");
    let e = setup_error(SetupFailure::NoDocument);
    assert_eq!(e.error_message(), "Unable to get document");
    let e = setup_error(SetupFailure::NoCanvas);
    assert_eq!(e.error_kind(), ErrorKind::WindowCreation);
    assert_eq!(e.error_message(), "Unable to get canvas, is the id different from 'canvas'?");
    let e = setup_error(SetupFailure::NoContext);
    assert_eq!(e.error_kind(), ErrorKind::Context);
    assert_eq!(
        e.error_message(),
        "Unable to get webgl2 context for the given canvas. Maybe your browser doesn't support WebGL2?"
    );
    let e = setup_error(SetupFailure::NoPerformance);
    assert_eq!(e.error_kind(), ErrorKind::Performance);
    assert_eq!(e.error_message(), "Performance (for timing) is not found on the window.");
}

#[test]
fn setup_failures_with_a_reason() {
    let e = setup_error(SetupFailure::NotACanvas("JsValue(1)".to_string()));
    assert_eq!(e.error_kind(), ErrorKind::WindowCreation);
    assert_eq!(e.error_message(), "Unable to convert to HtmlCanvasElement. Error code: JsValue(1)");
    let e = setup_error(SetupFailure::ContextRefused("x".to_string()));
    assert_eq!(e.error_kind(), ErrorKind::Context);
    assert_eq!(
        e.error_message(),
        "Unable to get webgl2 context for the given canvas. Maybe your browser doesn't support WebGL2? Error code: x"
    );
    let e = setup_error(SetupFailure::NotWebGl2("y".to_string()));
    assert!(matches!(e, Error::ContextError { .. }));
    let e = setup_error(SetupFailure::NoColorBufferFloat("z".to_string()));
    assert_eq!(
        e.error_message(),
        "Unable to get EXT_color_buffer_float extension for the given context. Maybe your browser doesn't support the get color_buffer_float extension? Error code: z"
    );
    let e = setup_error(SetupFailure::NoTextureFloat("w".to_string()));
    assert_eq!(
        e.error_message(),
        "Unable to get OES_texture_float extension for the given context. Maybe your browser doesn't support the get OES_texture_float extension? Error code: w"
    );
}

#[test]
fn listener_registration_errors() {
    let e = Listener::MouseDown.registration_error(&"boom".to_string());
    assert_eq!(e.error_kind(), ErrorKind::EventListener);
    assert_eq!(e.error_message(), "Unable to add mouse down event listener. Error code: boom");
    let e = Listener::Wheel.registration_error(&"".to_string());
    assert_eq!(e.error_message(), "Unable to add wheel event listener. Error code: ");
    let e = Listener::KeyUp.registration_error(&"k".to_string());
    assert_eq!(e.error_message(), "Unable to add key up event listener. Error code: k");
}

#[test]
fn listeners_and_their_targets() {
    let all = Listener::all();
    assert_eq!(all.len(), 9);
    assert_eq!(all[0], Listener::MouseDown);
    assert_eq!(all[8], Listener::KeyUp);
    assert_eq!(Listener::MouseDown.event_type(), "mousedown");
    assert_eq!(Listener::TouchMove.event_type(), "touchmove");
    assert_eq!(Listener::Wheel.event_type(), "wheel");
    assert!(Listener::KeyDown.on_window());
    assert!(Listener::KeyUp.on_window());
    assert!(!Listener::MouseMove.on_window());
    assert!(!Listener::TouchEnd.on_window());
}

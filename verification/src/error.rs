use vstd::prelude::*;
use vstd::string::StringExecFns;

verus! {

/// Why the window could not be made or run.
#[derive(Debug)]
pub enum Error {
    WindowCreationError { message: String },
    ContextError { message: String },
    PerformanceError { message: String },
    EventListenerError { message: String },
}

/// The kinds of [`Error`].
#[derive(Clone, Copy, Debug, PartialEq, Eq, Structural)]
pub enum ErrorKind {
    WindowCreation,
    Context,
    Performance,
    EventListener,
}

impl Error {
    /// The kind of the error.
    pub open spec fn kind(&self) -> ErrorKind {
        match self {
            Error::WindowCreationError { .. } => ErrorKind::WindowCreation,
            Error::ContextError { .. } => ErrorKind::Context,
            Error::PerformanceError { .. } => ErrorKind::Performance,
            Error::EventListenerError { .. } => ErrorKind::EventListener,
        }
    }

    /// The message the error carries.
    pub open spec fn message(&self) -> Seq<char> {
        match self {
            Error::WindowCreationError { message } => message@,
            Error::ContextError { message } => message@,
            Error::PerformanceError { message } => message@,
            Error::EventListenerError { message } => message@,
        }
    }

    /// The kind of the error.
    pub fn error_kind(&self) -> (k: ErrorKind)
        ensures
            k == self.kind(),
    {
        match self {
            Error::WindowCreationError { .. } => ErrorKind::WindowCreation,
            Error::ContextError { .. } => ErrorKind::Context,
            Error::PerformanceError { .. } => ErrorKind::Performance,
            Error::EventListenerError { .. } => ErrorKind::EventListener,
        }
    }

    /// The message the error carries.
    pub fn error_message(&self) -> (m: &str)
        ensures
            m@ == self.message(),
    {
        match self {
            Error::WindowCreationError { message } => message.as_str(),
            Error::ContextError { message } => message.as_str(),
            Error::PerformanceError { message } => message.as_str(),
            Error::EventListenerError { message } => message.as_str(),
        }
    }
}

/// A step of setting the window up that failed. Where the browser gave a reason,
/// the variant holds its debug text.
pub enum SetupFailure {
    NoWindow,
    NoDocument,
    NoCanvas,
    NotACanvas(String),
    ContextRefused(String),
    NoContext,
    NotWebGl2(String),
    NoColorBufferFloat(String),
    NoTextureFloat(String),
    NoPerformance,
}

/// The kind of error a failed setup step gives.
pub open spec fn setup_error_kind(f: SetupFailure) -> ErrorKind {
    match f {
        SetupFailure::NoWindow => ErrorKind::WindowCreation,
        SetupFailure::NoDocument => ErrorKind::WindowCreation,
        SetupFailure::NoCanvas => ErrorKind::WindowCreation,
        SetupFailure::NotACanvas(_) => ErrorKind::WindowCreation,
        SetupFailure::NoPerformance => ErrorKind::Performance,
        _ => ErrorKind::Context,
    }
}

/// The message a failed setup step gives.
pub open spec fn setup_error_message(f: SetupFailure) -> Seq<char> {
    match f {
        SetupFailure::NoWindow => "Unable to create web window"@,
        SetupFailure::NoDocument => "Unable to get document"@,
        SetupFailure::NoCanvas => "Unable to get canvas, is the id different from 'canvas'?"@,
        SetupFailure::NotACanvas(d) => "Unable to convert to HtmlCanvasElement. Error code: "@ + d@,
        SetupFailure::ContextRefused(d) => "Unable to get webgl2 context for the given canvas. Maybe your browser doesn't support WebGL2? Error code: "@
            + d@,
        SetupFailure::NoContext => "Unable to get webgl2 context for the given canvas. Maybe your browser doesn't support WebGL2?"@,
        SetupFailure::NotWebGl2(d) => "Unable to get webgl2 context for the given canvas. Maybe your browser doesn't support WebGL2? Error code: "@
            + d@,
        SetupFailure::NoColorBufferFloat(d) => "Unable to get EXT_color_buffer_float extension for the given context. Maybe your browser doesn't support the get color_buffer_float extension? Error code: "@
            + d@,
        SetupFailure::NoTextureFloat(d) => "Unable to get OES_texture_float extension for the given context. Maybe your browser doesn't support the get OES_texture_float extension? Error code: "@
            + d@,
        SetupFailure::NoPerformance => "Performance (for timing) is not found on the window."@,
    }
}

/// A message: a fixed text, then the browser's reason.
fn with_detail(text: &str, detail: &String) -> (m: String)
    ensures
        m@ == text@ + detail@,
{
    let mut m = String::from_str(text);
    m.append(detail.as_str());
    m
}

/// The error that a failed setup step gives.
pub fn setup_error(failure: SetupFailure) -> (e: Error)
    ensures
        e.kind() == setup_error_kind(failure),
        e.message() == setup_error_message(failure),
{
    match failure {
        SetupFailure::NoWindow => Error::WindowCreationError {
            message: String::from_str("Unable to create web window"),
        },
        SetupFailure::NoDocument => Error::WindowCreationError {
            message: String::from_str("Unable to get document"),
        },
        SetupFailure::NoCanvas => Error::WindowCreationError {
            message: String::from_str("Unable to get canvas, is the id different from 'canvas'?"),
        },
        SetupFailure::NotACanvas(d) => Error::WindowCreationError {
            message: with_detail("Unable to convert to HtmlCanvasElement. Error code: ", &d),
        },
        SetupFailure::ContextRefused(d) => Error::ContextError {
            message: with_detail(
                "Unable to get webgl2 context for the given canvas. Maybe your browser doesn't support WebGL2? Error code: ",
                &d,
            ),
        },
        SetupFailure::NoContext => Error::ContextError {
            message: String::from_str(
                "Unable to get webgl2 context for the given canvas. Maybe your browser doesn't support WebGL2?",
            ),
        },
        SetupFailure::NotWebGl2(d) => Error::ContextError {
            message: with_detail(
                "Unable to get webgl2 context for the given canvas. Maybe your browser doesn't support WebGL2? Error code: ",
                &d,
            ),
        },
        SetupFailure::NoColorBufferFloat(d) => Error::ContextError {
            message: with_detail(
                "Unable to get EXT_color_buffer_float extension for the given context. Maybe your browser doesn't support the get color_buffer_float extension? Error code: ",
                &d,
            ),
        },
        SetupFailure::NoTextureFloat(d) => Error::ContextError {
            message: with_detail(
                "Unable to get OES_texture_float extension for the given context. Maybe your browser doesn't support the get OES_texture_float extension? Error code: ",
                &d,
            ),
        },
        SetupFailure::NoPerformance => Error::PerformanceError {
            message: String::from_str("Performance (for timing) is not found on the window."),
        },
    }
}

/// An event listener that the window registers.
#[derive(Clone, Copy, Debug, PartialEq, Eq, Structural)]
pub enum Listener {
    MouseDown,
    MouseUp,
    MouseMove,
    Wheel,
    TouchStart,
    TouchEnd,
    TouchMove,
    KeyDown,
    KeyUp,
}

/// The listeners in the order the render loop registers them.
pub open spec fn listener_order() -> Seq<Listener> {
    seq![
        Listener::MouseDown,
        Listener::TouchStart,
        Listener::MouseUp,
        Listener::TouchEnd,
        Listener::MouseMove,
        Listener::TouchMove,
        Listener::Wheel,
        Listener::KeyDown,
        Listener::KeyUp,
    ]
}

impl Listener {
    /// The browser event type that the listener listens to.
    pub open spec fn spec_event_type(self) -> Seq<char> {
        match self {
            Listener::MouseDown => "mousedown"@,
            Listener::MouseUp => "mouseup"@,
            Listener::MouseMove => "mousemove"@,
            Listener::Wheel => "wheel"@,
            Listener::TouchStart => "touchstart"@,
            Listener::TouchEnd => "touchend"@,
            Listener::TouchMove => "touchmove"@,
            Listener::KeyDown => "keydown"@,
            Listener::KeyUp => "keyup"@,
        }
    }

    /// How the listener is named in the error that a failed registration gives.
    pub open spec fn spec_description(self) -> Seq<char> {
        match self {
            Listener::MouseDown => "mouse down"@,
            Listener::MouseUp => "mouse up"@,
            Listener::MouseMove => "mouse move"@,
            Listener::Wheel => "wheel"@,
            Listener::TouchStart => "touch start"@,
            Listener::TouchEnd => "touch end"@,
            Listener::TouchMove => "touch move"@,
            Listener::KeyDown => "key down"@,
            Listener::KeyUp => "key up"@,
        }
    }

    /// Key listeners listen on the browser window; the others on the canvas.
    pub open spec fn spec_on_window(self) -> bool {
        self is KeyDown || self is KeyUp
    }

    /// The browser event type that the listener listens to.
    pub fn event_type(&self) -> (t: &'static str)
        ensures
            t@ == self.spec_event_type(),
    {
        match self {
            Listener::MouseDown => "mousedown",
            Listener::MouseUp => "mouseup",
            Listener::MouseMove => "mousemove",
            Listener::Wheel => "wheel",
            Listener::TouchStart => "touchstart",
            Listener::TouchEnd => "touchend",
            Listener::TouchMove => "touchmove",
            Listener::KeyDown => "keydown",
            Listener::KeyUp => "keyup",
        }
    }

    fn description(&self) -> (t: &'static str)
        ensures
            t@ == self.spec_description(),
    {
        match self {
            Listener::MouseDown => "mouse down",
            Listener::MouseUp => "mouse up",
            Listener::MouseMove => "mouse move",
            Listener::Wheel => "wheel",
            Listener::TouchStart => "touch start",
            Listener::TouchEnd => "touch end",
            Listener::TouchMove => "touch move",
            Listener::KeyDown => "key down",
            Listener::KeyUp => "key up",
        }
    }

    /// Whether the listener listens on the browser window rather than the canvas.
    pub fn on_window(&self) -> (w: bool)
        ensures
            w == self.spec_on_window(),
    {
        match self {
            Listener::KeyDown | Listener::KeyUp => true,
            _ => false,
        }
    }

    /// The error that a failed registration of the listener gives, with the
    /// browser's reason.
    pub fn registration_error(&self, detail: &String) -> (e: Error)
        ensures
            e.kind() == ErrorKind::EventListener,
            e.message() == "Unable to add "@ + self.spec_description()
                + " event listener. Error code: "@ + detail@,
    {
        let mut message = String::from_str("Unable to add ");
        message.append(self.description());
        message.append(" event listener. Error code: ");
        message.append(detail.as_str());
        Error::EventListenerError { message }
    }

    /// The listeners in the order the render loop registers them.
    pub fn all() -> (v: Vec<Listener>)
        ensures
            v@ == listener_order(),
    {
        vec![
            Listener::MouseDown,
            Listener::TouchStart,
            Listener::MouseUp,
            Listener::TouchEnd,
            Listener::MouseMove,
            Listener::TouchMove,
            Listener::Wheel,
            Listener::KeyDown,
            Listener::KeyUp,
        ]
    }
}

} // verus!

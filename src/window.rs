use vstd::prelude::*;

verus! {

/// A window event, reduced to what the frame loop acts on.
#[derive(Clone, Copy, Debug, PartialEq, Eq, Structural)]
pub enum WindowInput {
    /// The framebuffer now has this size, in pixels.
    FramebufferResized { width: i32, height: i32 },
    /// A key changed state.
    Key { escape: bool, pressed: bool },
    /// Anything else.
    Other,
}

/// What the frame loop does in response to a window event.
#[derive(Clone, Copy, Debug, PartialEq, Eq, Structural)]
pub enum WindowResponse {
    /// Make the viewport cover the framebuffer: origin (0, 0), this size.
    SetViewport { width: i32, height: i32 },
    /// Ask the window to close.
    Close,
    Ignore,
}

/// The viewport follows the framebuffer; pressing Escape closes the window; all else is ignored.
pub fn respond_to(input: WindowInput) -> (r: WindowResponse)
    ensures
        r == (match input {
            WindowInput::FramebufferResized { width, height } => WindowResponse::SetViewport {
                width,
                height,
            },
            WindowInput::Key { escape: true, pressed: true } => WindowResponse::Close,
            _ => WindowResponse::Ignore,
        }),
{
    match input {
        WindowInput::FramebufferResized { width, height } => WindowResponse::SetViewport {
            width,
            height,
        },
        WindowInput::Key { escape, pressed } => {
            if escape && pressed {
                WindowResponse::Close
            } else {
                WindowResponse::Ignore
            }
        },
        WindowInput::Other => WindowResponse::Ignore,
    }
}

} // verus!

//! The protocol requests the core decides to issue. The engine computes
//! these values; the unverified shell around the library encodes and sends
//! them on the display connection, in order.
use vstd::prelude::*;

verus! {

/// Compositing operator for a composite request.
#[derive(Clone, Copy, Debug, PartialEq, Eq)]
pub enum CompositeOp {
    /// Plain copy, no blending.
    Source,
    /// Source-over alpha blending.
    Over,
    /// Clear the destination rectangle to transparent.
    Clear,
}

/// One outgoing display-protocol request, with every parameter the protocol
/// needs and the core decides. Identifiers are the protocol's 32-bit
/// resource identifiers.
#[derive(Debug, PartialEq, Eq)]
pub enum Request {
    /// Create the undecorated overlay window at the given geometry, with
    /// override-redirect semantics and the pointer/notify event mask.
    CreateWindow { window: u32, x: i16, y: i16, width: u16, height: u16 },
    /// Set the overlay's opacity property.
    SetOpacity { window: u32, opacity: u32 },
    /// Set the overlay's window-classification property.
    SetWmClass { window: u32 },
    /// Add the always-above state hint to the overlay.
    SetStateAbove { window: u32 },
    /// Map (show) a window.
    MapWindow { window: u32 },
    /// Unmap (hide) a window.
    UnmapWindow { window: u32 },
    /// Move a window to a new top-left position.
    ConfigureWindow { window: u32, x: i16, y: i16 },
    /// Destroy a window.
    DestroyWindow { window: u32 },
    /// Create a solid-fill compositing source of the given color.
    CreateSolidFill { picture: u32, color: crate::config::Color },
    /// Bind a compositing surface to a drawable with a pixel format.
    CreatePicture { picture: u32, drawable: u32, format: u32 },
    /// Release a compositing surface.
    FreePicture { picture: u32 },
    /// Allocate an offscreen pixel buffer.
    CreatePixmap { depth: u8, pixmap: u32, width: u16, height: u16 },
    /// Release an offscreen pixel buffer.
    FreePixmap { pixmap: u32 },
    /// Create a text-drawing context on a drawable with a font and
    /// premultiplied foreground/background colors.
    CreateGc { gc: u32, drawable: u32, font: u32, foreground: u32, background: u32 },
    /// Release a text-drawing context.
    FreeGc { gc: u32 },
    /// Register a change-notification subscription on a window, with
    /// raw-rectangle granularity.
    DamageCreate { damage: u32, drawable: u32 },
    /// Release a change-notification subscription.
    DamageDestroy { damage: u32 },
    /// Acknowledge a change notification.
    DamageSubtract { damage: u32 },
    /// Set the linear transform of a capture surface: independent
    /// horizontal/vertical scale factors in 16.16 fixed point.
    SetPictureTransform { picture: u32, scale_x: i32, scale_y: i32 },
    /// Composite a `width` by `height` rectangle from `src` onto `dst`,
    /// placed at `(dst_x, dst_y)` in the destination.
    Composite { op: CompositeOp, src: u32, dst: u32, dst_x: i16, dst_y: i16, width: u16, height: u16 },
    /// Draw text onto a drawable with a text-drawing context.
    ImageText { drawable: u32, gc: u32, x: i16, y: i16, text: Vec<u8> },
    /// Broadcast a window-activation request to the root scope on behalf of
    /// `window`.
    Activate { window: u32, root: u32 },
    /// Flush the outgoing request queue.
    Flush,
}

} // verus!

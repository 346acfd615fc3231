//! Per-thumbnail state and the compositing pipeline: each method decides a
//! state transition and computes, exactly, the protocol requests that carry
//! it out. The unverified shell sends the requests and supplies the values
//! only the display server knows (geometry, text extents, identifiers).
use vstd::prelude::*;

use crate::config::{Color, Config};
use crate::requests::{CompositeOp, Request};

verus! {

/// The ghost model of a [`Request`]: the same data with text as a byte
/// sequence, so contracts can state whole request sequences.
pub ghost enum RequestModel {
    CreateWindow { window: u32, x: i16, y: i16, width: u16, height: u16 },
    SetOpacity { window: u32, opacity: u32 },
    SetWmClass { window: u32 },
    SetStateAbove { window: u32 },
    MapWindow { window: u32 },
    UnmapWindow { window: u32 },
    ConfigureWindow { window: u32, x: i16, y: i16 },
    DestroyWindow { window: u32 },
    CreateSolidFill { picture: u32, color: Color },
    CreatePicture { picture: u32, drawable: u32, format: u32 },
    FreePicture { picture: u32 },
    CreatePixmap { depth: u8, pixmap: u32, width: u16, height: u16 },
    FreePixmap { pixmap: u32 },
    CreateGc { gc: u32, drawable: u32, font: u32, foreground: u32, background: u32 },
    FreeGc { gc: u32 },
    DamageCreate { damage: u32, drawable: u32 },
    DamageDestroy { damage: u32 },
    DamageSubtract { damage: u32 },
    SetPictureTransform { picture: u32, scale_x: i32, scale_y: i32 },
    Composite { op: CompositeOp, src: u32, dst: u32, dst_x: i16, dst_y: i16, width: u16, height: u16 },
    ImageText { drawable: u32, gc: u32, x: i16, y: i16, text: Seq<u8> },
    Activate { window: u32, root: u32 },
    Flush,
}

impl View for Request {
    type V = RequestModel;

    open spec fn view(&self) -> RequestModel {
        match *self {
            Request::CreateWindow { window, x, y, width, height } => (RequestModel::CreateWindow {
                window, x, y, width, height }),
            Request::SetOpacity { window, opacity } => (RequestModel::SetOpacity { window, opacity }),
            Request::SetWmClass { window } => (RequestModel::SetWmClass { window }),
            Request::SetStateAbove { window } => (RequestModel::SetStateAbove { window }),
            Request::MapWindow { window } => (RequestModel::MapWindow { window }),
            Request::UnmapWindow { window } => (RequestModel::UnmapWindow { window }),
            Request::ConfigureWindow { window, x, y } => (RequestModel::ConfigureWindow {
                window, x, y }),
            Request::DestroyWindow { window } => (RequestModel::DestroyWindow { window }),
            Request::CreateSolidFill { picture, color } => (RequestModel::CreateSolidFill {
                picture, color }),
            Request::CreatePicture { picture, drawable, format } => (RequestModel::CreatePicture {
                picture, drawable, format }),
            Request::FreePicture { picture } => (RequestModel::FreePicture { picture }),
            Request::CreatePixmap { depth, pixmap, width, height } => (RequestModel::CreatePixmap {
                depth, pixmap, width, height }),
            Request::FreePixmap { pixmap } => (RequestModel::FreePixmap { pixmap }),
            Request::CreateGc { gc, drawable, font, foreground, background } => (
            RequestModel::CreateGc { gc, drawable, font, foreground, background }),
            Request::FreeGc { gc } => (RequestModel::FreeGc { gc }),
            Request::DamageCreate { damage, drawable } => (RequestModel::DamageCreate {
                damage, drawable }),
            Request::DamageDestroy { damage } => (RequestModel::DamageDestroy { damage }),
            Request::DamageSubtract { damage } => (RequestModel::DamageSubtract { damage }),
            Request::SetPictureTransform { picture, scale_x, scale_y } => (
            RequestModel::SetPictureTransform { picture, scale_x, scale_y }),
            Request::Composite { op, src, dst, dst_x, dst_y, width, height } => (
            RequestModel::Composite { op, src, dst, dst_x, dst_y, width, height }),
            Request::ImageText { drawable, gc, x, y, ref text } => (RequestModel::ImageText {
                drawable, gc, x, y, text: text@ }),
            Request::Activate { window, root } => (RequestModel::Activate { window, root }),
            Request::Flush => RequestModel::Flush,
        }
    }
}

/// The models of a batch of requests, in order.
pub open spec fn reqs(v: Seq<Request>) -> Seq<RequestModel> {
    v.map_values(|r: Request| r@)
}

/// One entry of the server's supported pixel-format list: its identifier,
/// its depth, and the alpha mask of its direct encoding.
#[derive(Clone, Copy, Debug, PartialEq, Eq)]
pub struct PictFormatInfo {
    pub id: u32,
    pub depth: u8,
    pub alpha_mask: u32,
}

/// Whether a pixel format has the wanted depth and, as asked, an alpha
/// channel or none.
pub open spec fn format_matches(f: PictFormatInfo, depth: u8, alpha: bool) -> bool {
    f.depth == depth && (if alpha {
        f.alpha_mask != 0
    } else {
        f.alpha_mask == 0
    })
}

/// Resolves a pixel format: the first of the server's supported formats
/// with the wanted depth and alpha presence, or none when the server offers
/// no suitable format.
pub fn pick_pictformat(formats: &Vec<PictFormatInfo>, depth: u8, alpha: bool) -> (r: Option<u32>)
    ensures
        match r {
            Some(id) => exists|i: int|
                0 <= i < formats@.len() && #[trigger] format_matches(formats@[i], depth, alpha)
                    && formats@[i].id == id && (forall|j: int|
                    0 <= j < i ==> !format_matches(formats@[j], depth, alpha)),
            None => forall|i: int|
                0 <= i < formats@.len() ==> !(#[trigger] format_matches(formats@[i], depth, alpha)),
        },
{
    let mut i: usize = 0;
    while i < formats.len()
        invariant
            0 <= i <= formats@.len(),
            forall|j: int| 0 <= j < i ==> !(#[trigger] format_matches(formats@[j], depth, alpha)),
        decreases formats@.len() - i,
    {
        let f = *formats.get(i).unwrap();
        if f.depth == depth && (if alpha {
            f.alpha_mask != 0
        } else {
            f.alpha_mask == 0
        }) {
            proof {
                assert(format_matches(formats@[i as int], depth, alpha));
            }
            return Some(f.id);
        }
        i = i + 1;
    }
    None
}

/// An active drag: whether one is in progress, the pointer position at the
/// press, and the overlay window's position at the press.
#[derive(Clone, Copy, Debug, PartialEq, Eq)]
pub struct InputState {
    pub dragging: bool,
    pub drag_start: (i16, i16),
    pub win_start: (i16, i16),
}

/// The protocol resource identifiers a thumbnail owns, allocated by the
/// shell before construction.
#[derive(Clone, Copy, Debug)]
pub struct ThumbnailIds {
    pub window: u32,
    pub border_fill: u32,
    pub src_picture: u32,
    pub dst_picture: u32,
    pub overlay_gc: u32,
    pub overlay_pixmap: u32,
    pub overlay_picture: u32,
    pub damage: u32,
}

/// A window geometry as the server reports it.
#[derive(Clone, Copy, Debug)]
pub struct SourceGeometry {
    pub x: i16,
    pub y: i16,
    pub width: u16,
    pub height: u16,
}

/// The rendered extent of a text, as the server reports it.
#[derive(Clone, Copy, Debug)]
pub struct TextExtents {
    pub overall_width: i32,
    pub font_ascent: i16,
    pub font_descent: i16,
}

/// One tracked source window and its overlay: identities, resource handles,
/// last requested position, display name, and the three state flags plus
/// the drag sub-state.
#[derive(Debug)]
pub struct Thumbnail {
    /// The overlay window.
    pub window: u32,
    /// Last requested top-left position of the overlay.
    pub x: i16,
    pub y: i16,
    /// Solid border fill surface.
    pub border_fill: u32,
    /// Capture surface bound to the source window.
    pub src_picture: u32,
    /// Destination surface bound to the overlay window.
    pub dst_picture: u32,
    /// Text-drawing context on the offscreen buffer.
    pub overlay_gc: u32,
    /// Offscreen pixel buffer holding border, name and banner.
    pub overlay_pixmap: u32,
    /// Compositing surface bound to the offscreen buffer.
    pub overlay_picture: u32,
    /// Display name drawn onto the overlay.
    pub character_name: Vec<u8>,
    pub focused: bool,
    pub visible: bool,
    pub minimized: bool,
    /// The mirrored source window.
    pub src: u32,
    /// The root window of the screen.
    pub root: u32,
    /// Change-notification subscription on the source window.
    pub damage: u32,
    pub input_state: InputState,
}

/// `v` clamped to the range of the protocol's 16-bit coordinates.
pub open spec fn spec_clamp_i16(v: int) -> int {
    if v < -0x8000 {
        -0x8000
    } else if v > 0x7FFF {
        0x7FFF
    } else {
        v
    }
}

/// A coordinate centering a span of `dim` over a span of `src_dim` that
/// starts at `base`, clamped to protocol coordinates.
pub open spec fn spec_center(base: i16, src_dim: u16, dim: u16) -> int {
    if src_dim >= dim {
        spec_clamp_i16(base + (src_dim - dim) / 2)
    } else {
        spec_clamp_i16(base - (dim - src_dim) / 2)
    }
}

/// Centers a span of `dim` over a span of `src_dim` starting at `base`.
pub fn center_coord(base: i16, src_dim: u16, dim: u16) -> (r: i16)
    ensures r == spec_center(base, src_dim, dim),
{
    let half: i32 = if src_dim >= dim {
        (((src_dim - dim) as u32) / 2) as i32
    } else {
        -((((dim - src_dim) as u32) / 2) as i32)
    };
    let v: i32 = base as i32 + half;
    if v < -0x8000 {
        -0x8000
    } else if v > 0x7FFF {
        0x7FFF
    } else {
        v as i16
    }
}

/// The ratio `num / den` in the protocol's 16.16 fixed-point encoding,
/// rounded to nearest (half away from zero) and saturated at the largest
/// fixed-point value.
pub open spec fn spec_ratio_fixed(num: u16, den: u16) -> int
    recommends den > 0,
{
    let rounded = (num * 0x10000 + (den as int) / 2) / (den as int);
    if rounded > 0x7FFF_FFFF {
        0x7FFF_FFFF
    } else {
        rounded
    }
}

/// Computes [`spec_ratio_fixed`], the scale factor mapping a source span of
/// `num` pixels onto a destination span of `den` pixels.
pub fn ratio_fixed(num: u16, den: u16) -> (r: i32)
    requires den > 0,
    ensures r == spec_ratio_fixed(num, den),
{
    let q: u64 = ((num as u64) * 0x10000 + (den as u64) / 2) / (den as u64);
    if q > 0x7FFF_FFFF {
        0x7FFF_FFFF
    } else {
        q as i32
    }
}

/// The bytes of the label drawn over a minimized source window.
pub open spec fn minimized_label() -> Seq<u8> {
    seq![77u8, 73u8, 78u8, 73u8, 77u8, 73u8, 90u8, 69u8, 68u8]
}

/// Builds the `"MINIMIZED"` banner label.
pub fn minimized_label_bytes() -> (r: Vec<u8>)
    ensures r@ == minimized_label(),
{
    let mut v: Vec<u8> = Vec::new();
    v.push(77u8);
    v.push(73u8);
    v.push(78u8);
    v.push(73u8);
    v.push(77u8);
    v.push(73u8);
    v.push(90u8);
    v.push(69u8);
    v.push(68u8);
    proof {
        assert(v@ =~= minimized_label());
    }
    v
}

/// Whether a reported text extent is sane for banner placement inside the
/// configured overlay: nonnegative metrics that keep the centered position
/// within protocol coordinates.
pub open spec fn extents_ok(c: Config, e: TextExtents) -> bool {
    &&& 0 <= e.overall_width <= c.width
    &&& 0 <= e.font_ascent
    &&& 0 <= e.font_descent
    &&& c.height + e.font_ascent + e.font_descent <= 0x7FFF
}

/// Horizontal banner position: the label centered in the overlay.
pub open spec fn banner_x(c: Config, e: TextExtents) -> int {
    (c.width - e.overall_width) / 2
}

/// Vertical banner position: centered using the font ascent plus descent.
pub open spec fn banner_y(c: Config, e: TextExtents) -> int {
    (c.height + e.font_ascent + e.font_descent) / 2
}

/// The requests that redraw the display name: clear the border-width inset
/// content rectangle (keeping the border margin), then draw the name at its
/// configured position.
pub open spec fn update_name_requests(t: Thumbnail, c: Config) -> Seq<RequestModel> {
    seq![
        (RequestModel::Composite {
            op: CompositeOp::Clear,
            src: t.overlay_picture,
            dst: t.overlay_picture,
            dst_x: c.border_size as i16,
            dst_y: c.border_size as i16,
            width: (c.width - 2 * c.border_size) as u16,
            height: (c.height - 2 * c.border_size) as u16,
        }),
        (RequestModel::ImageText {
            drawable: t.overlay_pixmap,
            gc: t.overlay_gc,
            x: c.text_x,
            y: c.text_y,
            text: t.character_name@,
        }),
    ]
}

/// The requests that draw or clear the focus border and then redraw the
/// name: focused fills the whole offscreen buffer with the border color
/// (later cleared inside to leave a margin), unfocused clears it all.
pub open spec fn border_requests(t: Thumbnail, c: Config, focused: bool) -> Seq<RequestModel> {
    seq![
        if focused {
            (RequestModel::Composite {
                op: CompositeOp::Source,
                src: t.border_fill,
                dst: t.overlay_picture,
                dst_x: 0i16,
                dst_y: 0i16,
                width: c.width,
                height: c.height,
            })
        } else {
            (RequestModel::Composite {
                op: CompositeOp::Clear,
                src: t.overlay_picture,
                dst: t.overlay_picture,
                dst_x: 0i16,
                dst_y: 0i16,
                width: c.width,
                height: c.height,
            })
        },
    ] + update_name_requests(t, c)
}

/// The requests that capture the source window: scale its current
/// dimensions onto the overlay dimensions and copy (no blending) the
/// transformed pixels into the destination surface.
pub open spec fn capture_requests(t: Thumbnail, c: Config, src_width: u16, src_height: u16) -> Seq<
    RequestModel,
> {
    seq![
        (RequestModel::SetPictureTransform {
            picture: t.src_picture,
            scale_x: spec_ratio_fixed(src_width, c.width) as i32,
            scale_y: spec_ratio_fixed(src_height, c.height) as i32,
        }),
        (RequestModel::Composite {
            op: CompositeOp::Source,
            src: t.src_picture,
            dst: t.dst_picture,
            dst_x: 0i16,
            dst_y: 0i16,
            width: c.width,
            height: c.height,
        }),
    ]
}

/// The request that floats the offscreen content (border, name, banner)
/// over the captured frame with source-over alpha blending.
pub open spec fn overlay_requests(t: Thumbnail, c: Config) -> Seq<RequestModel> {
    seq![
        (RequestModel::Composite {
            op: CompositeOp::Over,
            src: t.overlay_picture,
            dst: t.dst_picture,
            dst_x: 0i16,
            dst_y: 0i16,
            width: c.width,
            height: c.height,
        }),
    ]
}

/// A full redraw: capture, then overlay.
pub open spec fn update_requests(t: Thumbnail, c: Config, src_width: u16, src_height: u16) -> Seq<
    RequestModel,
> {
    capture_requests(t, c, src_width, src_height) + overlay_requests(t, c)
}

/// The requests that draw the minimized banner: clear the border, draw the
/// centered label, then redraw the whole overlay at once — a minimized
/// source produces no further change notifications.
pub open spec fn banner_requests(t: Thumbnail, c: Config, e: TextExtents) -> Seq<RequestModel> {
    border_requests(t, c, false) + seq![
        (RequestModel::ImageText {
            drawable: t.overlay_pixmap,
            gc: t.overlay_gc,
            x: banner_x(c, e) as i16,
            y: banner_y(c, e) as i16,
            text: minimized_label(),
        }),
    ]
}

/// The requests that release every resource a thumbnail owns, in dependency
/// order, ending with a flush. The shell attempts each independently.
pub open spec fn teardown_requests(t: Thumbnail) -> Seq<RequestModel> {
    seq![
        (RequestModel::DamageDestroy { damage: t.damage }),
        (RequestModel::FreeGc { gc: t.overlay_gc }),
        (RequestModel::FreePicture { picture: t.overlay_picture }),
        (RequestModel::FreePicture { picture: t.src_picture }),
        (RequestModel::FreePicture { picture: t.dst_picture }),
        (RequestModel::FreePicture { picture: t.border_fill }),
        (RequestModel::FreePixmap { pixmap: t.overlay_pixmap }),
        (RequestModel::DestroyWindow { window: t.window }),
        RequestModel::Flush,
    ]
}

/// The requests that allocate every resource of a fresh thumbnail, in
/// order: the overlay window with its properties, mapped immediately; the
/// border fill; capture and destination surfaces; the offscreen buffer with
/// its surface and text context; the change-notification subscription; and
/// the initial name rendering.
pub open spec fn creation_requests(
    t: Thumbnail,
    c: Config,
    root_format: u32,
    alpha_format: u32,
    font: u32,
) -> Seq<RequestModel> {
    seq![
        (RequestModel::CreateWindow { window: t.window, x: t.x, y: t.y, width: c.width, height: c.height }),
        (RequestModel::SetOpacity { window: t.window, opacity: c.opacity }),
        (RequestModel::SetWmClass { window: t.window }),
        (RequestModel::SetStateAbove { window: t.window }),
        (RequestModel::MapWindow { window: t.window }),
        (RequestModel::CreateSolidFill { picture: t.border_fill, color: c.border_color }),
        (RequestModel::CreatePicture { picture: t.src_picture, drawable: t.src, format: root_format }),
        (RequestModel::CreatePicture { picture: t.dst_picture, drawable: t.window, format: root_format }),
        (RequestModel::CreatePixmap { depth: 32u8, pixmap: t.overlay_pixmap, width: c.width, height: c.height }),
        (RequestModel::CreatePicture { picture: t.overlay_picture, drawable: t.overlay_pixmap, format: alpha_format }),
        (RequestModel::CreateGc {
            gc: t.overlay_gc,
            drawable: t.overlay_pixmap,
            font: font,
            foreground: c.text_foreground,
            background: c.text_background,
        }),
        (RequestModel::DamageCreate { damage: t.damage, drawable: t.src }),
    ] + update_name_requests(t, c)
}

/// Whether the point `(x, y)` lies inside the thumbnail's bounding
/// rectangle, inclusive on all edges, using the last known position and the
/// configured size.
pub open spec fn spec_hovered(t: Thumbnail, c: Config, x: i16, y: i16) -> bool {
    &&& t.x <= x
    &&& x <= t.x + c.width
    &&& t.y <= y
    &&& y <= t.y + c.height
}

impl Thumbnail {
    /// Builds the state of a fresh thumbnail over source window `src` and
    /// the requests that allocate its resources. The shell supplies the
    /// queried source geometry, the allocated identifiers, the resolved
    /// pixel formats and the opened font. The overlay is centered over the
    /// source, the thumbnail starts visible, unfocused, not minimized and
    /// not dragging.
    pub fn new(
        config: &Config,
        character_name: Vec<u8>,
        src: u32,
        root: u32,
        src_geom: SourceGeometry,
        ids: ThumbnailIds,
        root_format: u32,
        alpha_format: u32,
        font: u32,
    ) -> (r: (Thumbnail, Vec<Request>))
        requires config.wf(),
        ensures
            r.0 == (Thumbnail {
                window: ids.window,
                x: spec_center(src_geom.x, src_geom.width, config.width) as i16,
                y: spec_center(src_geom.y, src_geom.height, config.height) as i16,
                border_fill: ids.border_fill,
                src_picture: ids.src_picture,
                dst_picture: ids.dst_picture,
                overlay_gc: ids.overlay_gc,
                overlay_pixmap: ids.overlay_pixmap,
                overlay_picture: ids.overlay_picture,
                character_name: character_name,
                focused: false,
                visible: true,
                minimized: false,
                src: src,
                root: root,
                damage: ids.damage,
                input_state: (InputState { dragging: false, drag_start: (0i16, 0i16), win_start: (0i16, 0i16) }),
            }),
            reqs(r.1@) =~~= creation_requests(r.0, *config, root_format, alpha_format, font),
    {
        let x = center_coord(src_geom.x, src_geom.width, config.width);
        let y = center_coord(src_geom.y, src_geom.height, config.height);
        let t = Thumbnail {
            window: ids.window,
            x,
            y,
            border_fill: ids.border_fill,
            src_picture: ids.src_picture,
            dst_picture: ids.dst_picture,
            overlay_gc: ids.overlay_gc,
            overlay_pixmap: ids.overlay_pixmap,
            overlay_picture: ids.overlay_picture,
            character_name,
            focused: false,
            visible: true,
            minimized: false,
            src,
            root,
            damage: ids.damage,
            input_state: InputState { dragging: false, drag_start: (0i16, 0i16), win_start: (0i16, 0i16) },
        };
        let mut v: Vec<Request> = Vec::new();
        v.push(Request::CreateWindow { window: t.window, x, y, width: config.width, height: config.height });
        v.push(Request::SetOpacity { window: t.window, opacity: config.opacity });
        v.push(Request::SetWmClass { window: t.window });
        v.push(Request::SetStateAbove { window: t.window });
        v.push(Request::MapWindow { window: t.window });
        v.push(Request::CreateSolidFill { picture: t.border_fill, color: config.border_color });
        v.push(Request::CreatePicture { picture: t.src_picture, drawable: t.src, format: root_format });
        v.push(Request::CreatePicture { picture: t.dst_picture, drawable: t.window, format: root_format });
        v.push(Request::CreatePixmap { depth: 32u8, pixmap: t.overlay_pixmap, width: config.width, height: config.height });
        v.push(Request::CreatePicture { picture: t.overlay_picture, drawable: t.overlay_pixmap, format: alpha_format });
        v.push(Request::CreateGc {
            gc: t.overlay_gc,
            drawable: t.overlay_pixmap,
            font,
            foreground: config.text_foreground,
            background: config.text_background,
        });
        v.push(Request::DamageCreate { damage: t.damage, drawable: t.src });
        let mut name_reqs = t.update_name(config);
        v.append(&mut name_reqs);
        proof {
            assert(reqs(v@) =~~= creation_requests(t, *config, root_format, alpha_format, font));
        }
        (t, v)
    }

    /// Redraws the display name into the offscreen buffer, preserving the
    /// border margin.
    pub fn update_name(&self, config: &Config) -> (r: Vec<Request>)
        requires config.wf(),
        ensures reqs(r@) =~~= update_name_requests(*self, *config),
    {
        let mut v: Vec<Request> = Vec::new();
        v.push(Request::Composite {
            op: CompositeOp::Clear,
            src: self.overlay_picture,
            dst: self.overlay_picture,
            dst_x: config.border_size as i16,
            dst_y: config.border_size as i16,
            width: config.width - 2 * config.border_size,
            height: config.height - 2 * config.border_size,
        });
        v.push(Request::ImageText {
            drawable: self.overlay_pixmap,
            gc: self.overlay_gc,
            x: config.text_x,
            y: config.text_y,
            text: self.clone_name(),
        });
        proof {
            assert(reqs(v@) =~~= update_name_requests(*self, *config));
        }
        v
    }

    /// A copy of the display name bytes.
    fn clone_name(&self) -> (r: Vec<u8>)
        ensures r@ == self.character_name@,
    {
        let mut v: Vec<u8> = Vec::new();
        let mut i: usize = 0;
        while i < self.character_name.len()
            invariant
                0 <= i <= self.character_name@.len(),
                v@ == self.character_name@.take(i as int),
            decreases self.character_name@.len() - i,
        {
            v.push(*self.character_name.get(i).unwrap());
            proof {
                assert(v@ =~= self.character_name@.take(i + 1 as int));
            }
            i = i + 1;
        }
        proof {
            assert(v@ =~= self.character_name@);
        }
        v
    }

    /// Draws the focus border (or clears it) and redraws the name; the two
    /// share the offscreen buffer, so they are coupled.
    pub fn border(&self, config: &Config, focused: bool) -> (r: Vec<Request>)
        requires config.wf(),
        ensures reqs(r@) =~~= border_requests(*self, *config, focused),
    {
        let mut v: Vec<Request> = Vec::new();
        if focused {
            v.push(Request::Composite {
                op: CompositeOp::Source,
                src: self.border_fill,
                dst: self.overlay_picture,
                dst_x: 0i16,
                dst_y: 0i16,
                width: config.width,
                height: config.height,
            });
        } else {
            v.push(Request::Composite {
                op: CompositeOp::Clear,
                src: self.overlay_picture,
                dst: self.overlay_picture,
                dst_x: 0i16,
                dst_y: 0i16,
                width: config.width,
                height: config.height,
            });
        }
        let mut name_reqs = self.update_name(config);
        v.append(&mut name_reqs);
        proof {
            assert(reqs(v@) =~~= border_requests(*self, *config, focused));
        }
        v
    }

    /// Captures the source window's pixels, scaled from its current
    /// dimensions onto the overlay dimensions.
    pub fn capture(&self, config: &Config, src_width: u16, src_height: u16) -> (r: Vec<Request>)
        requires config.wf(),
        ensures reqs(r@) =~~= capture_requests(*self, *config, src_width, src_height),
    {
        let mut v: Vec<Request> = Vec::new();
        v.push(Request::SetPictureTransform {
            picture: self.src_picture,
            scale_x: ratio_fixed(src_width, config.width),
            scale_y: ratio_fixed(src_height, config.height),
        });
        v.push(Request::Composite {
            op: CompositeOp::Source,
            src: self.src_picture,
            dst: self.dst_picture,
            dst_x: 0i16,
            dst_y: 0i16,
            width: config.width,
            height: config.height,
        });
        proof {
            assert(reqs(v@) =~~= capture_requests(*self, *config, src_width, src_height));
        }
        v
    }

    /// Floats the offscreen content over the captured frame.
    pub fn overlay(&self, config: &Config) -> (r: Vec<Request>)
        requires config.wf(),
        ensures reqs(r@) =~~= overlay_requests(*self, *config),
    {
        let mut v: Vec<Request> = Vec::new();
        v.push(Request::Composite {
            op: CompositeOp::Over,
            src: self.overlay_picture,
            dst: self.dst_picture,
            dst_x: 0i16,
            dst_y: 0i16,
            width: config.width,
            height: config.height,
        });
        proof {
            assert(reqs(v@) =~~= overlay_requests(*self, *config));
        }
        v
    }

    /// A full redraw: capture then overlay; issued on every change
    /// notification for this thumbnail and after any offscreen change.
    pub fn update(&self, config: &Config, src_width: u16, src_height: u16) -> (r: Vec<Request>)
        requires config.wf(),
        ensures reqs(r@) =~~= update_requests(*self, *config, src_width, src_height),
    {
        let mut v = self.capture(config, src_width, src_height);
        let mut o = self.overlay(config);
        v.append(&mut o);
        proof {
            assert(reqs(v@) =~~= update_requests(*self, *config, src_width, src_height));
        }
        v
    }

    /// Sets the visibility flag and maps or unmaps the overlay accordingly.
    /// Idempotent: a call matching the current value issues no request and
    /// changes nothing.
    pub fn visibility(&mut self, visible: bool) -> (r: Option<Request>)
        ensures
            visible == old(self).visible ==> *final(self) == *old(self) && r is None,
            visible != old(self).visible ==> {
                &&& *final(self) == (Thumbnail { visible, ..*old(self) })
                &&& visible ==> r == Some(Request::MapWindow { window: old(self).window })
                &&& !visible ==> r == Some(Request::UnmapWindow { window: old(self).window })
            },
    {
        if visible == self.visible {
            return None;
        }
        self.visible = visible;
        if visible {
            Some(Request::MapWindow { window: self.window })
        } else {
            Some(Request::UnmapWindow { window: self.window })
        }
    }

    /// Marks the thumbnail minimized and draws the banner over a cleared
    /// border, followed immediately by a full redraw.
    pub fn mark_minimized(
        &mut self,
        config: &Config,
        extents: TextExtents,
        src_width: u16,
        src_height: u16,
    ) -> (r: Vec<Request>)
        requires
            config.wf(),
            extents_ok(*config, extents),
        ensures
            *final(self) == (Thumbnail { minimized: true, ..*old(self) }),
            reqs(r@) =~~= banner_requests(*old(self), *config, extents) + update_requests(
                *old(self), *config, src_width, src_height),
    {
        self.minimized = true;
        let mut v = self.border(config, false);
        let bx: i32 = (config.width as i32 - extents.overall_width) / 2;
        let by: i32 = (config.height as i32 + extents.font_ascent as i32
            + extents.font_descent as i32) / 2;
        v.push(Request::ImageText {
            drawable: self.overlay_pixmap,
            gc: self.overlay_gc,
            x: bx as i16,
            y: by as i16,
            text: minimized_label_bytes(),
        });
        let mut u = self.update(config, src_width, src_height);
        v.append(&mut u);
        proof {
            assert(reqs(v@) =~~= banner_requests(*old(self), *config, extents) + update_requests(
                *old(self), *config, src_width, src_height));
        }
        v
    }

    /// The activation broadcast for this thumbnail's source window,
    /// addressed to the root scope, flushed immediately for prompt
    /// delivery.
    pub fn focus(&self) -> (r: Vec<Request>)
        ensures
            reqs(r@) =~~= seq![
                (RequestModel::Activate { window: self.src, root: self.root }),
                RequestModel::Flush,
            ],
    {
        let mut v: Vec<Request> = Vec::new();
        v.push(Request::Activate { window: self.src, root: self.root });
        v.push(Request::Flush);
        proof {
            assert(reqs(v@) =~~= seq![
                (RequestModel::Activate { window: self.src, root: self.root }),
                RequestModel::Flush,
            ]);
        }
        v
    }

    /// Moves the overlay window and records the new position; the stored
    /// position always mirrors the last requested one.
    pub fn reposition(&mut self, x: i16, y: i16) -> (r: Vec<Request>)
        ensures
            *final(self) == (Thumbnail { x, y, ..*old(self) }),
            reqs(r@) =~~= seq![
                (RequestModel::ConfigureWindow { window: old(self).window, x, y }),
                RequestModel::Flush,
            ],
    {
        let mut v: Vec<Request> = Vec::new();
        v.push(Request::ConfigureWindow { window: self.window, x, y });
        v.push(Request::Flush);
        self.x = x;
        self.y = y;
        proof {
            assert(reqs(v@) =~~= seq![
                (RequestModel::ConfigureWindow { window: old(self).window, x, y }),
                RequestModel::Flush,
            ]);
        }
        v
    }

    /// Whether the point `(x, y)` lies inside this thumbnail's bounding
    /// rectangle, inclusive on all edges.
    pub fn is_hovered(&self, config: &Config, x: i16, y: i16) -> (r: bool)
        ensures r == spec_hovered(*self, *config, x, y),
    {
        x >= self.x && (x as i32) <= (self.x as i32) + (config.width as i32) && y >= self.y && (y
            as i32) <= (self.y as i32) + (config.height as i32)
    }

    /// The best-effort teardown of every resource this thumbnail owns, in
    /// dependency order.
    pub fn destroy(&self) -> (r: Vec<Request>)
        ensures reqs(r@) =~~= teardown_requests(*self),
    {
        let mut v: Vec<Request> = Vec::new();
        v.push(Request::DamageDestroy { damage: self.damage });
        v.push(Request::FreeGc { gc: self.overlay_gc });
        v.push(Request::FreePicture { picture: self.overlay_picture });
        v.push(Request::FreePicture { picture: self.src_picture });
        v.push(Request::FreePicture { picture: self.dst_picture });
        v.push(Request::FreePicture { picture: self.border_fill });
        v.push(Request::FreePixmap { pixmap: self.overlay_pixmap });
        v.push(Request::DestroyWindow { window: self.window });
        v.push(Request::Flush);
        proof {
            assert(reqs(v@) =~~= teardown_requests(*self));
        }
        v
    }
}

} // verus!

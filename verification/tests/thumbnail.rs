use eve_preview::config::Config;
use eve_preview::requests::{CompositeOp, Request};
use eve_preview::thumbnail::{
    center_coord, pick_pictformat, ratio_fixed, InputState, PictFormatInfo, SourceGeometry,
    TextExtents, Thumbnail, ThumbnailIds,
};

fn ids() -> ThumbnailIds {
    ThumbnailIds {
        window: 100,
        border_fill: 101,
        src_picture: 102,
        dst_picture: 103,
        overlay_gc: 104,
        overlay_pixmap: 105,
        overlay_picture: 106,
        damage: 107,
    }
}

fn make(src: u32, name: &[u8]) -> Thumbnail {
    let config = Config::defaults();
    let geom = SourceGeometry { x: 0, y: 0, width: 1280, height: 720 };
    Thumbnail::new(&config, name.to_vec(), src, 1, geom, ids(), 7, 8, 9).0
}

#[test]
fn new_thumbnail_state() {
    let t = make(500, b"Pilot1");
    assert_eq!(t.window, 100);
    assert_eq!(t.src, 500);
    assert_eq!(t.root, 1);
    assert_eq!(t.damage, 107);
    assert_eq!(t.character_name, b"Pilot1".to_vec());
    assert!(t.visible);
    assert!(!t.focused);
    assert!(!t.minimized);
    assert!(!t.input_state.dragging);
    // centered over a 1280x720 source at (0,0) with a 240x135 overlay
    assert_eq!(t.x, (1280 - 240) / 2);
    assert_eq!(t.y, (720 - 135) / 2);
}

#[test]
fn creation_requests_order() {
    let config = Config::defaults();
    let geom = SourceGeometry { x: 10, y: 20, width: 1280, height: 720 };
    let (t, v) = Thumbnail::new(&config, b"P".to_vec(), 500, 1, geom, ids(), 7, 8, 9);
    assert_eq!(v.len(), 14);
    assert_eq!(
        v[0],
        Request::CreateWindow { window: 100, x: t.x, y: t.y, width: 240, height: 135 }
    );
    assert_eq!(v[1], Request::SetOpacity { window: 100, opacity: 0xC000_0000 });
    assert_eq!(v[2], Request::SetWmClass { window: 100 });
    assert_eq!(v[3], Request::SetStateAbove { window: 100 });
    // mapped immediately, before any other resource is allocated
    assert_eq!(v[4], Request::MapWindow { window: 100 });
    assert_eq!(
        v[5],
        Request::CreateSolidFill { picture: 101, color: config.border_color }
    );
    assert_eq!(v[6], Request::CreatePicture { picture: 102, drawable: 500, format: 7 });
    assert_eq!(v[7], Request::CreatePicture { picture: 103, drawable: 100, format: 7 });
    assert_eq!(
        v[8],
        Request::CreatePixmap { depth: 32, pixmap: 105, width: 240, height: 135 }
    );
    assert_eq!(v[9], Request::CreatePicture { picture: 106, drawable: 105, format: 8 });
    assert_eq!(
        v[10],
        Request::CreateGc {
            gc: 104,
            drawable: 105,
            font: 9,
            foreground: 0xFFFF_FFFF,
            background: 0x7F00_0000
        }
    );
    assert_eq!(v[11], Request::DamageCreate { damage: 107, drawable: 500 });
    // the initial name rendering: clear the inset, draw the name
    assert_eq!(
        v[12],
        Request::Composite {
            op: CompositeOp::Clear,
            src: 106,
            dst: 106,
            dst_x: 5,
            dst_y: 5,
            width: 230,
            height: 125
        }
    );
    assert_eq!(
        v[13],
        Request::ImageText { drawable: 105, gc: 104, x: 10, y: 125, text: b"P".to_vec() }
    );
}

#[test]
fn visibility_is_idempotent() {
    let mut t = make(500, b"");
    assert!(t.visible);
    // matching call: no request, no state change
    assert_eq!(t.visibility(true), None);
    assert!(t.visible);
    // hiding a visible thumbnail unmaps it
    assert_eq!(t.visibility(false), Some(Request::UnmapWindow { window: 100 }));
    assert!(!t.visible);
    // matching call again: nothing
    assert_eq!(t.visibility(false), None);
    assert!(!t.visible);
    // showing maps it again
    assert_eq!(t.visibility(true), Some(Request::MapWindow { window: 100 }));
    assert!(t.visible);
}

#[test]
fn border_focused_fills_then_redraws_name() {
    let config = Config::defaults();
    let t = make(500, b"Pilot1");
    let v = t.border(&config, true);
    assert_eq!(v.len(), 3);
    assert_eq!(
        v[0],
        Request::Composite {
            op: CompositeOp::Source,
            src: 101,
            dst: 106,
            dst_x: 0,
            dst_y: 0,
            width: 240,
            height: 135
        }
    );
    assert!(matches!(v[1], Request::Composite { op: CompositeOp::Clear, .. }));
    assert_eq!(
        v[2],
        Request::ImageText { drawable: 105, gc: 104, x: 10, y: 125, text: b"Pilot1".to_vec() }
    );
}

#[test]
fn border_unfocused_clears() {
    let config = Config::defaults();
    let t = make(500, b"");
    let v = t.border(&config, false);
    assert_eq!(
        v[0],
        Request::Composite {
            op: CompositeOp::Clear,
            src: 106,
            dst: 106,
            dst_x: 0,
            dst_y: 0,
            width: 240,
            height: 135
        }
    );
}

#[test]
fn update_scales_then_copies_then_overlays() {
    let config = Config::defaults();
    let t = make(500, b"");
    // a 480x270 source scales by exactly 2 in both directions
    let v = t.update(&config, 480, 270);
    assert_eq!(v.len(), 3);
    assert_eq!(
        v[0],
        Request::SetPictureTransform { picture: 102, scale_x: 2 << 16, scale_y: 2 << 16 }
    );
    assert_eq!(
        v[1],
        Request::Composite {
            op: CompositeOp::Source,
            src: 102,
            dst: 103,
            dst_x: 0,
            dst_y: 0,
            width: 240,
            height: 135
        }
    );
    assert_eq!(
        v[2],
        Request::Composite {
            op: CompositeOp::Over,
            src: 106,
            dst: 103,
            dst_x: 0,
            dst_y: 0,
            width: 240,
            height: 135
        }
    );
}

#[test]
fn ratio_fixed_values() {
    // equal spans: identity transform, 1.0 in 16.16 fixed point
    assert_eq!(ratio_fixed(240, 240), 1 << 16);
    assert_eq!(ratio_fixed(480, 240), 2 << 16);
    // rounding: 1/3 of 65536 is 21845.33..., plus half a denominator
    assert_eq!(ratio_fixed(1, 3), (1 * 65536 + 1) / 3);
    assert_eq!(ratio_fixed(0, 240), 0);
    // saturates at the largest fixed-point value
    assert_eq!(ratio_fixed(65535, 1), 0x7FFF_FFFF);
}

#[test]
fn banner_centered_and_update_follows() {
    let config = Config::defaults();
    let mut t = make(500, b"Pilot1");
    let extents = TextExtents { overall_width: 54, font_ascent: 10, font_descent: 2 };
    let v = t.mark_minimized(&config, extents, 480, 270);
    assert!(t.minimized);
    // clear border (1) + redraw name (2) + banner (1) + update (3)
    assert_eq!(v.len(), 7);
    assert_eq!(
        v[3],
        Request::ImageText {
            drawable: 105,
            gc: 104,
            x: (240 - 54) / 2,
            y: (135 + 10 + 2) / 2,
            text: b"MINIMIZED".to_vec()
        }
    );
    assert!(matches!(v[4], Request::SetPictureTransform { .. }));
    assert!(matches!(v[6], Request::Composite { op: CompositeOp::Over, .. }));
}

#[test]
fn hover_is_inclusive_on_all_edges() {
    let config = Config::defaults();
    let mut t = make(500, b"");
    t.x = 90;
    t.y = 90;
    assert!(t.is_hovered(&config, 90, 90));
    assert!(t.is_hovered(&config, 90 + 240, 90 + 135));
    assert!(t.is_hovered(&config, 100, 100));
    assert!(!t.is_hovered(&config, 89, 100));
    assert!(!t.is_hovered(&config, 90 + 241, 100));
    assert!(!t.is_hovered(&config, 100, 89));
    assert!(!t.is_hovered(&config, 100, 90 + 136));
}

#[test]
fn teardown_releases_in_dependency_order() {
    let t = make(500, b"");
    let v = t.destroy();
    assert_eq!(
        v,
        vec![
            Request::DamageDestroy { damage: 107 },
            Request::FreeGc { gc: 104 },
            Request::FreePicture { picture: 106 },
            Request::FreePicture { picture: 102 },
            Request::FreePicture { picture: 103 },
            Request::FreePicture { picture: 101 },
            Request::FreePixmap { pixmap: 105 },
            Request::DestroyWindow { window: 100 },
            Request::Flush,
        ]
    );
}

#[test]
fn centering_handles_small_sources() {
    // source narrower than the overlay: the overlay extends to the left
    assert_eq!(center_coord(100, 100, 240), 100 - 70);
    // equal spans: no offset
    assert_eq!(center_coord(100, 240, 240), 100);
    // saturates at the protocol coordinate range
    assert_eq!(center_coord(32000, 40000, 240), 32767);
}

#[test]
fn pictformat_takes_first_match() {
    let formats = vec![
        PictFormatInfo { id: 1, depth: 24, alpha_mask: 0xFF },
        PictFormatInfo { id: 2, depth: 32, alpha_mask: 0 },
        PictFormatInfo { id: 3, depth: 32, alpha_mask: 0xFF },
        PictFormatInfo { id: 4, depth: 32, alpha_mask: 0xFF },
    ];
    assert_eq!(pick_pictformat(&formats, 32, true), Some(3));
    assert_eq!(pick_pictformat(&formats, 32, false), Some(2));
    assert_eq!(pick_pictformat(&formats, 24, true), Some(1));
    assert_eq!(pick_pictformat(&formats, 24, false), None);
    assert_eq!(pick_pictformat(&Vec::new(), 32, true), None);
}

#[test]
fn reposition_records_position_and_flushes() {
    let mut t = make(500, b"");
    let v = t.reposition(-15, 44);
    assert_eq!(t.x, -15);
    assert_eq!(t.y, 44);
    assert_eq!(
        v,
        vec![
            Request::ConfigureWindow { window: 100, x: -15, y: 44 },
            Request::Flush,
        ]
    );
}

#[test]
fn focus_broadcasts_activation_for_source() {
    let t = make(500, b"");
    let v = t.focus();
    assert_eq!(
        v,
        vec![Request::Activate { window: 500, root: 1 }, Request::Flush]
    );
}

#[test]
fn input_state_defaults_to_not_dragging() {
    let s = InputState { dragging: false, drag_start: (0, 0), win_start: (0, 0) };
    let t = make(500, b"");
    assert_eq!(t.input_state, s);
}

use eve_preview::classify::extract_display_name;
use eve_preview::config::Config;
use eve_preview::registry::Registry;
use eve_preview::requests::Request;
use eve_preview::thumbnail::{SourceGeometry, TextExtents, Thumbnail, ThumbnailIds};

fn ids(base: u32) -> ThumbnailIds {
    ThumbnailIds {
        window: base,
        border_fill: base + 1,
        src_picture: base + 2,
        dst_picture: base + 3,
        overlay_gc: base + 4,
        overlay_pixmap: base + 5,
        overlay_picture: base + 6,
        damage: base + 7,
    }
}

fn make(config: &Config, src: u32, name: &[u8], id_base: u32) -> Thumbnail {
    let geom = SourceGeometry { x: 0, y: 0, width: 1280, height: 720 };
    Thumbnail::new(config, name.to_vec(), src, 1, geom, ids(id_base), 7, 8, 9).0
}

#[test]
fn registry_tracks_each_live_window_once() {
    let config = Config::defaults();
    let mut reg = Registry::new();
    assert_eq!(reg.len(), 0);

    // two qualifying windows appear
    reg.register(make(&config, 500, b"Pilot1", 100));
    reg.register(make(&config, 600, b"Pilot2", 200));
    assert_eq!(reg.len(), 2);
    assert!(reg.find_by_src(500).is_some());
    assert!(reg.find_by_src(600).is_some());
    assert_ne!(reg.find_by_src(500), reg.find_by_src(600));

    // one is destroyed: exactly its entry leaves, with its teardown
    let torn = reg.handle_destroyed(500);
    assert!(torn.is_some());
    assert_eq!(reg.len(), 1);
    assert!(reg.find_by_src(500).is_none());
    assert!(reg.find_by_src(600).is_some());

    // destroying an untracked window changes nothing
    assert!(reg.handle_destroyed(500).is_none());
    assert_eq!(reg.len(), 1);
}

#[test]
fn destroyed_window_releases_its_resources() {
    let config = Config::defaults();
    let mut reg = Registry::new();
    reg.register(make(&config, 500, b"Pilot1", 100));
    let v = reg.handle_destroyed(500).unwrap();
    assert_eq!(v[0], Request::DamageDestroy { damage: 107 });
    assert_eq!(v[7], Request::DestroyWindow { window: 100 });
    assert_eq!(v[8], Request::Flush);
    assert_eq!(v.len(), 9);
}

#[test]
fn title_change_renames_in_place() {
    // a window titled "EVE - Pilot1" appears
    let config = Config::defaults();
    let title = b"EVE - Pilot1".to_vec();
    let name = extract_display_name(&title).unwrap();
    assert_eq!(name, b"Pilot1".to_vec());

    let mut reg = Registry::new();
    reg.register(make(&config, 500, &name, 100));
    assert_eq!(reg.len(), 1);
    let idx = reg.find_by_src(500).unwrap();
    assert_eq!(reg.thumbs[idx].character_name, b"Pilot1".to_vec());

    // its title changes while tracked: same entry, new name, same size
    let new_name = extract_display_name(&b"EVE - Pilot2".to_vec()).unwrap();
    let v = reg.handle_title(500, new_name, &config).unwrap();
    assert_eq!(reg.len(), 1);
    let idx2 = reg.find_by_src(500).unwrap();
    assert_eq!(idx2, idx);
    assert_eq!(reg.thumbs[idx2].character_name, b"Pilot2".to_vec());
    assert_eq!(reg.thumbs[idx2].window, 100);
    // the redraw writes the new name, with no border request
    assert_eq!(v.len(), 2);
    assert_eq!(
        v[1],
        Request::ImageText { drawable: 105, gc: 104, x: 10, y: 125, text: b"Pilot2".to_vec() }
    );
}

#[test]
fn exact_eve_title_gives_empty_name() {
    let config = Config::defaults();
    let name = extract_display_name(&b"EVE".to_vec()).unwrap();
    assert_eq!(name, Vec::new());
    let mut reg = Registry::new();
    reg.register(make(&config, 500, &name, 100));
    let idx = reg.find_by_src(500).unwrap();
    assert_eq!(reg.thumbs[idx].character_name, Vec::new());
}

#[test]
fn hide_mode_hides_on_focus_out_and_reveals_on_focus_in() {
    let mut config = Config::defaults();
    config.hide_when_no_focus = true;
    let mut reg = Registry::new();
    reg.register(make(&config, 500, b"Pilot1", 100));
    assert!(reg.thumbs[0].visible);

    // focus-out with nothing focused or minimized: the thumbnail is hidden
    let v = reg.handle_focus_out(500, &config).unwrap();
    assert!(!reg.thumbs[0].visible);
    assert!(!reg.thumbs[0].focused);
    assert!(v.contains(&Request::UnmapWindow { window: 100 }));

    // a later focus-in reveals it again
    let v = reg.handle_focus_in(500, &config).unwrap();
    assert!(reg.thumbs[0].visible);
    assert!(reg.thumbs[0].focused);
    assert!(v.contains(&Request::MapWindow { window: 100 }));
}

#[test]
fn focus_in_reveals_every_hidden_thumbnail() {
    let mut config = Config::defaults();
    config.hide_when_no_focus = true;
    let mut reg = Registry::new();
    reg.register(make(&config, 500, b"Pilot1", 100));
    reg.register(make(&config, 600, b"Pilot2", 200));

    // with nothing focused or minimized, a focus-out hides both
    let v = reg.handle_focus_out(500, &config).unwrap();
    assert!(!reg.thumbs[0].visible);
    assert!(!reg.thumbs[1].visible);
    assert!(v.contains(&Request::UnmapWindow { window: 100 }));
    assert!(v.contains(&Request::UnmapWindow { window: 200 }));

    // a focus-in on one reveals both again
    let v = reg.handle_focus_in(600, &config).unwrap();
    assert!(reg.thumbs[0].visible);
    assert!(reg.thumbs[1].visible);
    assert!(v.contains(&Request::MapWindow { window: 100 }));
    assert!(v.contains(&Request::MapWindow { window: 200 }));

    // a second focus-in finds nothing hidden: no further map requests
    let v = reg.handle_focus_in(600, &config).unwrap();
    assert!(!v.iter().any(|r| matches!(r, Request::MapWindow { .. })));
}

#[test]
fn focus_out_keeps_all_visible_while_one_is_minimized() {
    let mut config = Config::defaults();
    config.hide_when_no_focus = true;
    let mut reg = Registry::new();
    reg.register(make(&config, 500, b"Pilot1", 100));
    reg.register(make(&config, 600, b"Pilot2", 200));
    let extents = TextExtents { overall_width: 54, font_ascent: 10, font_descent: 2 };
    reg.handle_minimized(600, &config, extents, 480, 270).unwrap();

    // one thumbnail is minimized, so losing focus hides nothing
    let v = reg.handle_focus_out(500, &config).unwrap();
    assert!(reg.thumbs[0].visible);
    assert!(reg.thumbs[1].visible);
    assert!(!v.iter().any(|r| matches!(r, Request::UnmapWindow { .. })));
}

#[test]
fn focus_in_unminimizes_and_draws_border() {
    let config = Config::defaults();
    let mut reg = Registry::new();
    reg.register(make(&config, 500, b"Pilot1", 100));
    let extents = TextExtents { overall_width: 54, font_ascent: 10, font_descent: 2 };
    reg.handle_minimized(500, &config, extents, 480, 270).unwrap();
    assert!(reg.thumbs[0].minimized);

    let v = reg.handle_focus_in(500, &config).unwrap();
    assert!(!reg.thumbs[0].minimized);
    assert!(reg.thumbs[0].focused);
    // border fill comes first; without hide-mode no map/unmap is issued
    assert!(matches!(v[0], Request::Composite { .. }));
    assert!(!v.contains(&Request::MapWindow { window: 100 }));
}

#[test]
fn focus_events_for_untracked_windows_do_nothing() {
    let config = Config::defaults();
    let mut reg = Registry::new();
    reg.register(make(&config, 500, b"Pilot1", 100));
    assert!(reg.handle_focus_in(999, &config).is_none());
    assert!(reg.handle_focus_out(999, &config).is_none());
    assert!(reg.handle_title(999, Vec::new(), &config).is_none());
    let extents = TextExtents { overall_width: 54, font_ascent: 10, font_descent: 2 };
    assert!(reg.handle_minimized(999, &config, extents, 480, 270).is_none());
    assert_eq!(reg.len(), 1);
}

#[test]
fn drag_moves_by_pointer_travel_and_plain_release_does_not_activate() {
    let config = Config::defaults();
    let mut reg = Registry::new();
    let mut t = make(&config, 500, b"Pilot1", 100);
    t.x = 90;
    t.y = 90;
    reg.register(t);

    // press at (100,100), inside the thumbnail at (90,90)
    let i = reg.find_press_target(&config, 100, 100).unwrap();
    reg.begin_drag(i, 100, 100, 90, 90);
    assert!(reg.thumbs[i].input_state.dragging);

    // motion to (130,115): the thumbnail moves by (+30,+15)
    let j = reg.find_drag_target(&config, 130, 115).unwrap();
    assert_eq!(j, i);
    let v = reg.drag_motion(j, 130, 115);
    assert_eq!(reg.thumbs[j].x, 120);
    assert_eq!(reg.thumbs[j].y, 105);
    assert_eq!(
        v,
        vec![
            Request::ConfigureWindow { window: 100, x: 120, y: 105 },
            Request::Flush,
        ]
    );

    // release at (130,115): press and release differ, so no activation
    let k = reg.find_drag_target(&config, 130, 115).unwrap();
    let v = reg.end_drag(k, 130, 115, 1);
    assert!(!reg.thumbs[k].input_state.dragging);
    assert!(v.is_empty());
}

#[test]
fn click_in_place_activates_exactly_once() {
    let config = Config::defaults();
    let mut reg = Registry::new();
    let mut t = make(&config, 500, b"Pilot1", 100);
    t.x = 90;
    t.y = 90;
    reg.register(t);

    let i = reg.find_press_target(&config, 100, 100).unwrap();
    reg.begin_drag(i, 100, 100, 90, 90);
    let j = reg.find_drag_target(&config, 100, 100).unwrap();
    let v = reg.end_drag(j, 100, 100, 1);
    assert!(!reg.thumbs[j].input_state.dragging);
    // exactly one activation broadcast, addressed for the source window
    let activations: Vec<&Request> = v
        .iter()
        .filter(|r| matches!(r, Request::Activate { .. }))
        .collect();
    assert_eq!(activations.len(), 1);
    assert_eq!(v[0], Request::Activate { window: 500, root: 1 });
    assert_eq!(v[1], Request::Flush);
}

#[test]
fn secondary_button_click_does_not_activate() {
    let config = Config::defaults();
    let mut reg = Registry::new();
    let mut t = make(&config, 500, b"Pilot1", 100);
    t.x = 90;
    t.y = 90;
    reg.register(t);
    let i = reg.find_press_target(&config, 100, 100).unwrap();
    reg.begin_drag(i, 100, 100, 90, 90);
    let v = reg.end_drag(i, 100, 100, 3);
    assert!(v.is_empty());
    assert!(!reg.thumbs[i].input_state.dragging);
}

#[test]
fn press_outside_or_on_hidden_thumbnail_finds_nothing() {
    let config = Config::defaults();
    let mut reg = Registry::new();
    let mut t = make(&config, 500, b"Pilot1", 100);
    t.x = 90;
    t.y = 90;
    reg.register(t);
    assert!(reg.find_press_target(&config, 50, 50).is_none());
    reg.thumbs[0].visible = false;
    assert!(reg.find_press_target(&config, 100, 100).is_none());
}

#[test]
fn damage_triggers_redraw_and_acknowledgement() {
    let config = Config::defaults();
    let mut reg = Registry::new();
    reg.register(make(&config, 500, b"Pilot1", 100));
    assert!(reg.find_by_damage(12345).is_none());
    let i = reg.find_by_damage(107).unwrap();
    let v = reg.damage_requests(i, &config, 480, 270);
    assert_eq!(v.len(), 5);
    assert!(matches!(v[0], Request::SetPictureTransform { .. }));
    assert_eq!(v[3], Request::DamageSubtract { damage: 107 });
    assert_eq!(v[4], Request::Flush);
}

//! The registry of tracked windows and the event dispatch logic: one entry
//! per live qualifying source window, updated by create/destroy
//! notifications, with the per-event state transitions and their requests.
use vstd::prelude::*;

use crate::config::Config;
use crate::requests::Request;
use crate::thumbnail::{
    banner_requests, border_requests, extents_ok, reqs, spec_clamp_i16, spec_hovered,
    teardown_requests, update_name_requests, update_requests, InputState, RequestModel,
    TextExtents, Thumbnail,
};

verus! {

/// Every thumbnail shown.
pub open spec fn all_visible(s: Seq<Thumbnail>) -> Seq<Thumbnail> {
    s.map_values(|t: Thumbnail| (Thumbnail { visible: true, ..t }))
}

/// Every thumbnail hidden.
pub open spec fn all_hidden(s: Seq<Thumbnail>) -> Seq<Thumbnail> {
    s.map_values(|t: Thumbnail| (Thumbnail { visible: false, ..t }))
}

/// The map requests that reveal every hidden thumbnail, in registry order;
/// already-visible ones get none (visibility is idempotent).
pub open spec fn show_all_requests(s: Seq<Thumbnail>) -> Seq<RequestModel>
    decreases s.len(),
{
    if s.len() == 0 {
        Seq::empty()
    } else {
        show_all_requests(s.drop_last()) + (if !s.last().visible {
            seq![(RequestModel::MapWindow { window: s.last().window })]
        } else {
            Seq::<RequestModel>::empty()
        })
    }
}

/// The unmap requests that hide every visible thumbnail, in registry order;
/// already-hidden ones get none.
pub open spec fn hide_all_requests(s: Seq<Thumbnail>) -> Seq<RequestModel>
    decreases s.len(),
{
    if s.len() == 0 {
        Seq::empty()
    } else {
        hide_all_requests(s.drop_last()) + (if s.last().visible {
            seq![(RequestModel::UnmapWindow { window: s.last().window })]
        } else {
            Seq::<RequestModel>::empty()
        })
    }
}

/// No entry among the first `n` is focused or minimized.
pub open spec fn calm(s: Seq<Thumbnail>, n: int) -> bool {
    forall|j: int| 0 <= j < n ==> !(#[trigger] s[j].focused) && !s[j].minimized
}

/// Whether some entry of `s` tracks source window `w`.
pub open spec fn tracks(s: Seq<Thumbnail>, w: u32) -> bool {
    exists|i: int| 0 <= i < s.len() && (#[trigger] s[i].src) == w
}

/// The index of the entry tracking `w`; meaningful only under
/// [`Registry::wf`], which makes it unique.
pub open spec fn index_of(s: Seq<Thumbnail>, w: u32) -> int {
    choose|i: int| 0 <= i < s.len() && (#[trigger] s[i].src) == w
}

/// The registry of tracked windows: at most one entry per live source
/// window at any time.
pub struct Registry {
    pub thumbs: Vec<Thumbnail>,
}

impl Registry {
    /// No two entries track the same source window.
    pub open spec fn wf(self) -> bool {
        forall|i: int, j: int|
            0 <= i < j < self.thumbs@.len() ==> self.thumbs@[i].src != self.thumbs@[j].src
    }

    /// An empty registry, built at startup before the scan of the open
    /// window list.
    pub fn new() -> (r: Registry)
        ensures
            r.thumbs@ =~= Seq::<Thumbnail>::empty(),
            r.wf(),
    {
        Registry { thumbs: Vec::new() }
    }

    /// The number of tracked windows.
    pub fn len(&self) -> (r: usize)
        ensures r == self.thumbs@.len(),
    {
        self.thumbs.len()
    }

    /// Finds the entry tracking source window `w`.
    pub fn find_by_src(&self, w: u32) -> (r: Option<usize>)
        ensures
            match r {
                Some(i) => i < self.thumbs@.len() && self.thumbs@[i as int].src == w,
                None => !tracks(self.thumbs@, w),
            },
    {
        let mut i: usize = 0;
        while i < self.thumbs.len()
            invariant
                0 <= i <= self.thumbs@.len(),
                forall|j: int| 0 <= j < i ==> (#[trigger] self.thumbs@[j].src) != w,
            decreases self.thumbs@.len() - i,
        {
            if self.thumbs.get(i).unwrap().src == w {
                return Some(i);
            }
            i = i + 1;
        }
        None
    }

    /// Inserts a freshly created thumbnail for a window not yet tracked:
    /// the registry grows by exactly this one entry.
    pub fn register(&mut self, t: Thumbnail)
        requires
            old(self).wf(),
            !tracks(old(self).thumbs@, t.src),
        ensures
            final(self).thumbs@ =~= old(self).thumbs@.push(t),
            final(self).wf(),
    {
        self.thumbs.push(t);
        proof {
            assert forall|i: int, j: int|
                0 <= i < j < self.thumbs@.len() implies self.thumbs@[i].src != self.thumbs@[j].src
            by {
                if j + 1 == self.thumbs@.len() {
                    assert(!(old(self).thumbs@[i].src == t.src));
                }
            }
        }
    }

    /// Removes the thumbnail of a destroyed source window, if tracked, and
    /// returns the requests that release all its resources. An untracked
    /// window changes nothing.
    pub fn handle_destroyed(&mut self, w: u32) -> (r: Option<Vec<Request>>)
        requires old(self).wf(),
        ensures
            final(self).wf(),
            !tracks(old(self).thumbs@, w) ==> final(self).thumbs@ == old(self).thumbs@
                && r is None,
            tracks(old(self).thumbs@, w) ==> {
                let i = index_of(old(self).thumbs@, w);
                &&& final(self).thumbs@ =~= old(self).thumbs@.remove(i)
                &&& match r {
                    Some(v) => reqs(v@) =~~= teardown_requests(old(self).thumbs@[i]),
                    None => false,
                }
            },
    {
        let found = self.find_by_src(w);
        match found {
            None => None,
            Some(i) => {
                let t = self.thumbs.remove(i);
                proof {
                    let gi = index_of(old(self).thumbs@, w);
                    assert(0 <= gi < old(self).thumbs@.len() && old(self).thumbs@[gi].src == w);
                    assert(gi == i as int);
                }
                Some(t.destroy())
            },
        }
    }

    /// Stores the new display name of a tracked window after a title
    /// change and returns the requests that redraw the name (no border
    /// change). An untracked window changes nothing.
    pub fn handle_title(&mut self, w: u32, name: Vec<u8>, config: &Config) -> (r: Option<
        Vec<Request>,
    >)
        requires
            old(self).wf(),
            config.wf(),
        ensures
            final(self).wf(),
            !tracks(old(self).thumbs@, w) ==> final(self).thumbs@ == old(self).thumbs@
                && r is None,
            tracks(old(self).thumbs@, w) ==> {
                let i = index_of(old(self).thumbs@, w);
                let renamed = (Thumbnail { character_name: name, ..old(self).thumbs@[i] });
                &&& final(self).thumbs@ =~~= old(self).thumbs@.update(i, renamed)
                &&& match r {
                    Some(v) => reqs(v@) =~~= update_name_requests(renamed, *config),
                    None => false,
                }
            },
    {
        let found = self.find_by_src(w);
        match found {
            None => None,
            Some(i) => {
                proof {
                    let gi = index_of(old(self).thumbs@, w);
                    assert(0 <= gi < old(self).thumbs@.len() && old(self).thumbs@[gi].src == w);
                    assert(gi == i as int);
                }
                self.thumbs[i].character_name = name;
                let v = self.thumbs.get(i).unwrap().update_name(config);
                Some(v)
            },
        }
    }

    /// Marks a tracked window minimized after its iconic state was
    /// asserted, and returns the requests that draw the banner and redraw
    /// the overlay. An untracked window changes nothing.
    pub fn handle_minimized(
        &mut self,
        w: u32,
        config: &Config,
        extents: TextExtents,
        src_width: u16,
        src_height: u16,
    ) -> (r: Option<Vec<Request>>)
        requires
            old(self).wf(),
            config.wf(),
            extents_ok(*config, extents),
        ensures
            final(self).wf(),
            !tracks(old(self).thumbs@, w) ==> final(self).thumbs@ == old(self).thumbs@
                && r is None,
            tracks(old(self).thumbs@, w) ==> {
                let i = index_of(old(self).thumbs@, w);
                let marked = (Thumbnail { minimized: true, ..old(self).thumbs@[i] });
                &&& final(self).thumbs@ =~~= old(self).thumbs@.update(i, marked)
                &&& match r {
                    Some(v) => reqs(v@) =~~= banner_requests(old(self).thumbs@[i], *config, extents)
                        + update_requests(old(self).thumbs@[i], *config, src_width, src_height),
                    None => false,
                }
            },
    {
        let found = self.find_by_src(w);
        match found {
            None => None,
            Some(i) => {
                proof {
                    let gi = index_of(old(self).thumbs@, w);
                    assert(0 <= gi < old(self).thumbs@.len() && old(self).thumbs@[gi].src == w);
                    assert(gi == i as int);
                }
                let v = self.thumbs[i].mark_minimized(config, extents, src_width, src_height);
                Some(v)
            },
        }
    }
    /// Whether any thumbnail is currently hidden.
    fn any_hidden(&self) -> (r: bool)
        ensures
            r == exists|j: int| 0 <= j < self.thumbs@.len() && !(#[trigger] self.thumbs@[j].visible),
    {
        let mut i: usize = 0;
        while i < self.thumbs.len()
            invariant
                0 <= i <= self.thumbs@.len(),
                forall|j: int| 0 <= j < i ==> (#[trigger] self.thumbs@[j].visible),
            decreases self.thumbs@.len() - i,
        {
            if !self.thumbs.get(i).unwrap().visible {
                return true;
            }
            i = i + 1;
        }
        false
    }

    /// Whether no thumbnail is focused or minimized.
    fn none_focused_or_minimized(&self) -> (r: bool)
        ensures r == calm(self.thumbs@, self.thumbs@.len() as int),
    {
        let mut i: usize = 0;
        while i < self.thumbs.len()
            invariant
                0 <= i <= self.thumbs@.len(),
                calm(self.thumbs@, i as int),
            decreases self.thumbs@.len() - i,
        {
            let t = self.thumbs.get(i).unwrap();
            if t.focused || t.minimized {
                proof {
                    assert(self.thumbs@[i as int].focused || self.thumbs@[i as int].minimized);
                    assert(!calm(self.thumbs@, self.thumbs@.len() as int));
                }
                return false;
            }
            proof {
                assert(!self.thumbs@[i as int].focused && !self.thumbs@[i as int].minimized);
                assert(calm(self.thumbs@, i + 1 as int)) by {
                    assert forall|j: int| 0 <= j < i + 1 implies !(#[trigger] self.thumbs@[j].focused)
                        && !self.thumbs@[j].minimized by {
                        if j < i {
                            assert(calm(self.thumbs@, i as int));
                        }
                    }
                }
            }
            i = i + 1;
        }
        true
    }

    /// Shows every thumbnail, returning the map requests for those that
    /// were hidden.
    fn show_all(&mut self) -> (r: Vec<Request>)
        requires old(self).wf(),
        ensures
            final(self).wf(),
            final(self).thumbs@ =~~= all_visible(old(self).thumbs@),
            reqs(r@) =~~= show_all_requests(old(self).thumbs@),
    {
        let ghost start = self.thumbs@;
        let mut r: Vec<Request> = Vec::new();
        let mut j: usize = 0;
        while j < self.thumbs.len()
            invariant
                0 <= j <= start.len(),
                self.thumbs@.len() == start.len(),
                forall|k: int| j <= k < start.len() ==> self.thumbs@[k] == start[k],
                forall|k: int|
                    0 <= k < j ==> self.thumbs@[k] == (Thumbnail { visible: true, ..start[k] }),
                reqs(r@) =~~= show_all_requests(start.take(j as int)),
            decreases start.len() - j,
        {
            proof {
                assert(start.take(j + 1 as int).drop_last() =~= start.take(j as int));
                assert(start.take(j + 1 as int).last() == start[j as int]);
            }
            match self.thumbs[j].visibility(true) {
                Some(q) => {
                    r.push(q);
                },
                None => {},
            }
            proof {
                assert(reqs(r@) =~~= show_all_requests(start.take(j + 1 as int)));
            }
            j = j + 1;
        }
        proof {
            assert(start.take(start.len() as int) =~= start);
            assert(final(self).wf()) by {
                assert forall|i: int, k: int|
                    0 <= i < k < self.thumbs@.len() implies self.thumbs@[i].src
                    != self.thumbs@[k].src by {
                    assert(self.thumbs@[i].src == start[i].src);
                    assert(self.thumbs@[k].src == start[k].src);
                }
            }
        }
        r
    }

    /// Hides every thumbnail, returning the unmap requests for those that
    /// were visible.
    fn hide_all(&mut self) -> (r: Vec<Request>)
        requires old(self).wf(),
        ensures
            final(self).wf(),
            final(self).thumbs@ =~~= all_hidden(old(self).thumbs@),
            reqs(r@) =~~= hide_all_requests(old(self).thumbs@),
    {
        let ghost start = self.thumbs@;
        let mut r: Vec<Request> = Vec::new();
        let mut j: usize = 0;
        while j < self.thumbs.len()
            invariant
                0 <= j <= start.len(),
                self.thumbs@.len() == start.len(),
                forall|k: int| j <= k < start.len() ==> self.thumbs@[k] == start[k],
                forall|k: int|
                    0 <= k < j ==> self.thumbs@[k] == (Thumbnail { visible: false, ..start[k] }),
                reqs(r@) =~~= hide_all_requests(start.take(j as int)),
            decreases start.len() - j,
        {
            proof {
                assert(start.take(j + 1 as int).drop_last() =~= start.take(j as int));
                assert(start.take(j + 1 as int).last() == start[j as int]);
            }
            match self.thumbs[j].visibility(false) {
                Some(q) => {
                    r.push(q);
                },
                None => {},
            }
            proof {
                assert(reqs(r@) =~~= hide_all_requests(start.take(j + 1 as int)));
            }
            j = j + 1;
        }
        proof {
            assert(start.take(start.len() as int) =~= start);
            assert(final(self).wf()) by {
                assert forall|i: int, k: int|
                    0 <= i < k < self.thumbs@.len() implies self.thumbs@[i].src
                    != self.thumbs@[k].src by {
                    assert(self.thumbs@[i].src == start[i].src);
                    assert(self.thumbs@[k].src == start[k].src);
                }
            }
        }
        r
    }

    /// Handles a focus-gained notification for source window `w`: the
    /// tracked thumbnail leaves the minimized state, becomes focused, and
    /// gets its border drawn; with hide-mode enabled and any thumbnail
    /// hidden, all are revealed. An untracked window changes nothing.
    pub fn handle_focus_in(&mut self, w: u32, config: &Config) -> (r: Option<Vec<Request>>)
        requires
            old(self).wf(),
            config.wf(),
        ensures
            final(self).wf(),
            !tracks(old(self).thumbs@, w) ==> final(self).thumbs@ == old(self).thumbs@
                && r is None,
            tracks(old(self).thumbs@, w) ==> {
                let i = index_of(old(self).thumbs@, w);
                let flagged = (Thumbnail { focused: true, minimized: false, ..old(self).thumbs@[i] });
                let upd = old(self).thumbs@.update(i, flagged);
                let show = config.hide_when_no_focus && exists|j: int|
                    0 <= j < upd.len() && !(#[trigger] upd[j].visible);
                &&& (show ==> final(self).thumbs@ =~~= all_visible(upd))
                &&& (!show ==> final(self).thumbs@ =~~= upd)
                &&& match r {
                    Some(v) => reqs(v@) =~~= border_requests(flagged, *config, true) + (if show {
                        show_all_requests(upd)
                    } else {
                        Seq::<RequestModel>::empty()
                    }),
                    None => false,
                }
            },
    {
        let found = self.find_by_src(w);
        match found {
            None => None,
            Some(i) => {
                proof {
                    let gi = index_of(old(self).thumbs@, w);
                    assert(0 <= gi < old(self).thumbs@.len() && old(self).thumbs@[gi].src == w);
                    assert(gi == i as int);
                }
                self.thumbs[i].minimized = false;
                self.thumbs[i].focused = true;
                proof {
                    assert(self.thumbs@ =~= old(self).thumbs@.update(i as int, (Thumbnail {
                        focused: true,
                        minimized: false,
                        ..old(self).thumbs@[i as int]
                    })));
                }
                let mut v = self.thumbs.get(i).unwrap().border(config, true);
                if config.hide_when_no_focus && self.any_hidden() {
                    let mut extra = self.show_all();
                    v.append(&mut extra);
                }
                proof {
                    assert(final(self).wf()) by {
                        assert forall|a: int, b: int|
                            0 <= a < b < self.thumbs@.len() implies self.thumbs@[a].src
                            != self.thumbs@[b].src by {
                            assert(self.thumbs@[a].src == old(self).thumbs@[a].src);
                            assert(self.thumbs@[b].src == old(self).thumbs@[b].src);
                        }
                    }
                }
                Some(v)
            },
        }
    }

    /// Handles a focus-lost notification for source window `w`: the
    /// tracked thumbnail loses focus and its border is cleared; with
    /// hide-mode enabled and no thumbnail focused or minimized afterwards,
    /// all are hidden. An untracked window changes nothing.
    pub fn handle_focus_out(&mut self, w: u32, config: &Config) -> (r: Option<Vec<Request>>)
        requires
            old(self).wf(),
            config.wf(),
        ensures
            final(self).wf(),
            !tracks(old(self).thumbs@, w) ==> final(self).thumbs@ == old(self).thumbs@
                && r is None,
            tracks(old(self).thumbs@, w) ==> {
                let i = index_of(old(self).thumbs@, w);
                let flagged = (Thumbnail { focused: false, ..old(self).thumbs@[i] });
                let upd = old(self).thumbs@.update(i, flagged);
                let hide = config.hide_when_no_focus && calm(upd, upd.len() as int);
                &&& (hide ==> final(self).thumbs@ =~~= all_hidden(upd))
                &&& (!hide ==> final(self).thumbs@ =~~= upd)
                &&& match r {
                    Some(v) => reqs(v@) =~~= border_requests(flagged, *config, false) + (if hide {
                        hide_all_requests(upd)
                    } else {
                        Seq::<RequestModel>::empty()
                    }),
                    None => false,
                }
            },
    {
        let found = self.find_by_src(w);
        match found {
            None => None,
            Some(i) => {
                proof {
                    let gi = index_of(old(self).thumbs@, w);
                    assert(0 <= gi < old(self).thumbs@.len() && old(self).thumbs@[gi].src == w);
                    assert(gi == i as int);
                }
                self.thumbs[i].focused = false;
                let mut v = self.thumbs.get(i).unwrap().border(config, false);
                if config.hide_when_no_focus && self.none_focused_or_minimized() {
                    let mut extra = self.hide_all();
                    v.append(&mut extra);
                }
                proof {
                    assert(final(self).wf()) by {
                        assert forall|a: int, b: int|
                            0 <= a < b < self.thumbs@.len() implies self.thumbs@[a].src
                            != self.thumbs@[b].src by {
                            assert(self.thumbs@[a].src == old(self).thumbs@[a].src);
                            assert(self.thumbs@[b].src == old(self).thumbs@[b].src);
                        }
                    }
                }
                Some(v)
            },
        }
    }
    /// Finds the topmost thumbnail a button press at root coordinates
    /// `(x, y)` lands on: the first visible entry whose bounding rectangle
    /// holds the point.
    pub fn find_press_target(&self, config: &Config, x: i16, y: i16) -> (r: Option<usize>)
        ensures
            match r {
                Some(i) => i < self.thumbs@.len() && self.thumbs@[i as int].visible
                    && spec_hovered(self.thumbs@[i as int], *config, x, y),
                None => forall|j: int|
                    0 <= j < self.thumbs@.len() ==> !((#[trigger] self.thumbs@[j].visible)
                        && spec_hovered(self.thumbs@[j], *config, x, y)),
            },
    {
        let mut i: usize = 0;
        while i < self.thumbs.len()
            invariant
                0 <= i <= self.thumbs@.len(),
                forall|j: int|
                    0 <= j < i ==> !((#[trigger] self.thumbs@[j].visible) && spec_hovered(
                        self.thumbs@[j], *config, x, y)),
            decreases self.thumbs@.len() - i,
        {
            let t = self.thumbs.get(i).unwrap();
            if t.visible && t.is_hovered(config, x, y) {
                return Some(i);
            }
            i = i + 1;
        }
        None
    }

    /// Finds the thumbnail an in-progress drag follows: the first visible,
    /// dragging entry whose bounding rectangle holds the pointer.
    pub fn find_drag_target(&self, config: &Config, x: i16, y: i16) -> (r: Option<usize>)
        ensures
            match r {
                Some(i) => i < self.thumbs@.len() && self.thumbs@[i as int].visible
                    && self.thumbs@[i as int].input_state.dragging
                    && spec_hovered(self.thumbs@[i as int], *config, x, y),
                None => forall|j: int|
                    0 <= j < self.thumbs@.len() ==> !((#[trigger] self.thumbs@[j].visible)
                        && self.thumbs@[j].input_state.dragging
                        && spec_hovered(self.thumbs@[j], *config, x, y)),
            },
    {
        let mut i: usize = 0;
        while i < self.thumbs.len()
            invariant
                0 <= i <= self.thumbs@.len(),
                forall|j: int|
                    0 <= j < i ==> !((#[trigger] self.thumbs@[j].visible)
                        && self.thumbs@[j].input_state.dragging && spec_hovered(
                        self.thumbs@[j], *config, x, y)),
            decreases self.thumbs@.len() - i,
        {
            let t = self.thumbs.get(i).unwrap();
            if t.visible && t.input_state.dragging && t.is_hovered(config, x, y) {
                return Some(i);
            }
            i = i + 1;
        }
        None
    }

    /// Starts a drag on the thumbnail at index `i`: records the press
    /// coordinates and the overlay window's queried position (the shell
    /// supplies the latter).
    pub fn begin_drag(&mut self, i: usize, press_x: i16, press_y: i16, win_x: i16, win_y: i16)
        requires
            old(self).wf(),
            i < old(self).thumbs@.len(),
        ensures
            final(self).wf(),
            final(self).thumbs@ =~~= old(self).thumbs@.update(i as int, (Thumbnail {
                input_state: (InputState {
                    dragging: true,
                    drag_start: (press_x, press_y),
                    win_start: (win_x, win_y),
                }),
                ..old(self).thumbs@[i as int]
            })),
    {
        self.thumbs[i].input_state = InputState {
            dragging: true,
            drag_start: (press_x, press_y),
            win_start: (win_x, win_y),
        };
        proof {
            assert(final(self).wf()) by {
                assert forall|a: int, b: int|
                    0 <= a < b < self.thumbs@.len() implies self.thumbs@[a].src
                    != self.thumbs@[b].src by {
                    assert(self.thumbs@[a].src == old(self).thumbs@[a].src);
                    assert(self.thumbs@[b].src == old(self).thumbs@[b].src);
                }
            }
        }
    }

    /// Moves the dragged thumbnail at index `i` with the pointer: the new
    /// position is the drag-start window position plus the pointer's travel
    /// since the press, unclamped to screen bounds (positions only saturate
    /// at the protocol coordinate range).
    pub fn drag_motion(&mut self, i: usize, x: i16, y: i16) -> (r: Vec<Request>)
        requires
            old(self).wf(),
            i < old(self).thumbs@.len(),
        ensures
            final(self).wf(),
            ({
                let t = old(self).thumbs@[i as int];
                let nx = spec_clamp_i16(t.input_state.win_start.0 + x
                    - t.input_state.drag_start.0) as i16;
                let ny = spec_clamp_i16(t.input_state.win_start.1 + y
                    - t.input_state.drag_start.1) as i16;
                &&& final(self).thumbs@ =~~= old(self).thumbs@.update(i as int, (Thumbnail {
                    x: nx,
                    y: ny,
                    ..t
                }))
                &&& reqs(r@) =~~= seq![
                    (RequestModel::ConfigureWindow { window: t.window, x: nx, y: ny }),
                    RequestModel::Flush,
                ]
            }),
    {
        let t = self.thumbs.get(i).unwrap();
        let dx: i32 = x as i32 - t.input_state.drag_start.0 as i32;
        let dy: i32 = y as i32 - t.input_state.drag_start.1 as i32;
        let nx = clamp_i16(t.input_state.win_start.0 as i32 + dx);
        let ny = clamp_i16(t.input_state.win_start.1 as i32 + dy);
        let r = self.thumbs[i].reposition(nx, ny);
        proof {
            assert(final(self).wf()) by {
                assert forall|a: int, b: int|
                    0 <= a < b < self.thumbs@.len() implies self.thumbs@[a].src
                    != self.thumbs@[b].src by {
                    assert(self.thumbs@[a].src == old(self).thumbs@[a].src);
                    assert(self.thumbs@[b].src == old(self).thumbs@[b].src);
                }
            }
        }
        r
    }

    /// Ends the drag on the thumbnail at index `i`. When the release sits
    /// exactly where the press was and the primary button was used, the
    /// click activates the source window: exactly one activation broadcast,
    /// flushed immediately. Any other release just ends the drag.
    pub fn end_drag(&mut self, i: usize, x: i16, y: i16, button: u8) -> (r: Vec<Request>)
        requires
            old(self).wf(),
            i < old(self).thumbs@.len(),
        ensures
            final(self).wf(),
            ({
                let t = old(self).thumbs@[i as int];
                let click = button == 1 && t.input_state.drag_start.0 == x
                    && t.input_state.drag_start.1 == y;
                &&& final(self).thumbs@ =~~= old(self).thumbs@.update(i as int, (Thumbnail {
                    input_state: (InputState { dragging: false, ..t.input_state }),
                    ..t
                }))
                &&& (click ==> reqs(r@) =~~= seq![
                    (RequestModel::Activate { window: t.src, root: t.root }),
                    RequestModel::Flush,
                ])
                &&& (!click ==> reqs(r@) =~~= Seq::<RequestModel>::empty())
            }),
    {
        let t = self.thumbs.get(i).unwrap();
        let click = button == 1 && t.input_state.drag_start.0 == x && t.input_state.drag_start.1
            == y;
        let r: Vec<Request> = if click {
            self.thumbs.get(i).unwrap().focus()
        } else {
            Vec::new()
        };
        self.thumbs[i].input_state = InputState { dragging: false, ..t.input_state };
        proof {
            assert(final(self).wf()) by {
                assert forall|a: int, b: int|
                    0 <= a < b < self.thumbs@.len() implies self.thumbs@[a].src
                    != self.thumbs@[b].src by {
                    assert(self.thumbs@[a].src == old(self).thumbs@[a].src);
                    assert(self.thumbs@[b].src == old(self).thumbs@[b].src);
                }
            }
        }
        r
    }

    /// Finds the thumbnail whose change-notification subscription fired.
    pub fn find_by_damage(&self, damage: u32) -> (r: Option<usize>)
        ensures
            match r {
                Some(i) => i < self.thumbs@.len() && self.thumbs@[i as int].damage == damage,
                None => forall|j: int|
                    0 <= j < self.thumbs@.len() ==> (#[trigger] self.thumbs@[j].damage) != damage,
            },
    {
        let mut i: usize = 0;
        while i < self.thumbs.len()
            invariant
                0 <= i <= self.thumbs@.len(),
                forall|j: int| 0 <= j < i ==> (#[trigger] self.thumbs@[j].damage) != damage,
            decreases self.thumbs@.len() - i,
        {
            if self.thumbs.get(i).unwrap().damage == damage {
                return Some(i);
            }
            i = i + 1;
        }
        None
    }

    /// The requests answering a change notification for the thumbnail at
    /// index `i`: a full redraw, the acknowledgement of the notification,
    /// and a flush.
    pub fn damage_requests(
        &self,
        i: usize,
        config: &Config,
        src_width: u16,
        src_height: u16,
    ) -> (r: Vec<Request>)
        requires
            config.wf(),
            i < self.thumbs@.len(),
        ensures
            reqs(r@) =~~= update_requests(self.thumbs@[i as int], *config, src_width, src_height)
                + seq![
                (RequestModel::DamageSubtract { damage: self.thumbs@[i as int].damage }),
                RequestModel::Flush,
            ],
    {
        let t = self.thumbs.get(i).unwrap();
        let mut v = t.update(config, src_width, src_height);
        v.push(Request::DamageSubtract { damage: t.damage });
        v.push(Request::Flush);
        proof {
            assert(reqs(v@) =~~= update_requests(self.thumbs@[i as int], *config, src_width,
                src_height) + seq![
                (RequestModel::DamageSubtract { damage: self.thumbs@[i as int].damage }),
                RequestModel::Flush,
            ]);
        }
        v
    }
}

/// Clamps a coordinate to the protocol's 16-bit range.
fn clamp_i16(v: i32) -> (r: i16)
    ensures r == spec_clamp_i16(v as int),
{
    if v < -0x8000 {
        -0x8000
    } else if v > 0x7FFF {
        0x7FFF
    } else {
        v as i16
    }
}

/// In a well-formed registry no source window maps to more than one
/// thumbnail: two entries tracking the same source are the same entry.
pub proof fn lemma_at_most_one_entry(r: Registry, i: int, j: int)
    requires
        r.wf(),
        0 <= i < r.thumbs@.len(),
        0 <= j < r.thumbs@.len(),
        r.thumbs@[i].src == r.thumbs@[j].src,
    ensures i == j,
{
}

} // verus!

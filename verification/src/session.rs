//! The interactive move/resize session controller.
//!
//! At most one interactive operation — a move or a resize — is active
//! across all windows at any time. A session is begun by a start request,
//! is driven by pointer motion events that recompute the grabbed window's
//! geometry, and ends only on an explicit stop (pointer button release).
//! The empty edge set marks a session as a plain move; a non-empty edge
//! set marks it as a resize along those edges.

use vstd::prelude::*;

verus! {

use crate::output::{
    has_window,
    raise_spec,
    set_geometry_spec,
    set_state_spec,
    window_of,
    Output,
    Window,
};
use crate::types::{Geometry, GeometryModel, Point, ResizeEdge, Size, ViewState};

/// The narrowest a resize may make a window, in pixels of width.
pub const MIN_WIDTH: u32 = 80;

/// The narrowest a resize may make a window, in pixels of height.
pub const MIN_HEIGHT: u32 = 40;

/// The session state of the controller: the grabbed window, the pointer
/// coordinate last seen, and the engaged resize edges.
#[derive(Debug, Copy, Clone, PartialEq, Eq, Structural)]
pub struct Compositor {
    /// The handle of the window being moved or resized; `None` when no
    /// session is active
    pub view: Option<u32>,
    /// The pointer coordinate captured at session start and refreshed on
    /// every motion event; doubles as the last known pointer position
    pub grab: Point,
    /// The engaged resize edges; the empty set marks a move
    pub edges: ResizeEdge,
}

impl Compositor {
    /// The session invariant: edges are engaged only while a session is
    /// active.
    pub open spec fn wf(self) -> bool {
        self.view is None ==> self.edges.spec_is_empty()
    }

    /// A fresh controller with no active session.
    pub fn new() -> (r: Compositor)
        ensures
            r == (Compositor {
                view: None::<u32>,
                grab: Point { x: 0, y: 0 },
                edges: ResizeEdge { top: false, bottom: false, left: false, right: false },
            }),
            r.wf(),
    {
        Compositor { view: None, grab: Point { x: 0, y: 0 }, edges: ResizeEdge::empty() }
    }
}

/// The session state after a start request for `view` at `origin`: a
/// request arriving while a session is active is rejected and changes
/// nothing; otherwise the window is grabbed at `origin`.
pub open spec fn start_action_spec(c: Compositor, view: u32, origin: Point) -> Compositor {
    if c.view is Some {
        c
    } else {
        Compositor { view: Some(view), grab: origin, edges: c.edges }
    }
}

/// The resize edges inferred from the quadrant of `geometry` that `origin`
/// falls into: the horizontal component is `left` or `right` of the
/// vertical midline, the vertical component `top` or `bottom` of the
/// horizontal midline, and a coordinate exactly on a midline contributes
/// no edge.
pub open spec fn infer_edges(geometry: GeometryModel, origin: Point) -> ResizeEdge {
    let halfw = geometry.x + geometry.w / 2;
    let halfh = geometry.y + geometry.h / 2;
    ResizeEdge {
        top: origin.y < halfh,
        bottom: origin.y > halfh,
        left: origin.x < halfw,
        right: origin.x > halfw,
    }
}

/// The edges a resize session is started with: the requested ones, or,
/// when none are requested, the ones inferred from the quadrant of the
/// window's geometry the origin falls into.
pub open spec fn resize_edges_spec(
    requested: ResizeEdge,
    geometry: GeometryModel,
    origin: Point,
) -> ResizeEdge {
    if !requested.spec_is_empty() {
        requested
    } else {
        infer_edges(geometry, origin)
    }
}

/// The session state after a resize request for `view` at `origin` on a
/// window of geometry `geometry`: rejected while a session is active,
/// otherwise grabbed with the requested or inferred edges.
pub open spec fn start_resize_comp_spec(
    c: Compositor,
    view: u32,
    requested: ResizeEdge,
    origin: Point,
    geometry: GeometryModel,
) -> Compositor {
    if c.view is Some {
        c
    } else {
        Compositor {
            view: Some(view),
            grab: origin,
            edges: resize_edges_spec(requested, geometry, origin),
        }
    }
}

/// The session state after a stop: inactive, with no edges engaged; a
/// stop with no session active changes nothing.
pub open spec fn stop_comp_spec(c: Compositor) -> Compositor {
    if c.view is Some {
        Compositor {
            view: None,
            grab: c.grab,
            edges: ResizeEdge { top: false, bottom: false, left: false, right: false },
        }
    } else {
        c
    }
}

/// The window list after a stop: the grabbed window (if any) loses its
/// resize-in-progress flag.
pub open spec fn stop_windows_spec(s: Seq<Window>, c: Compositor) -> Seq<Window> {
    match c.view {
        Some(v) => set_state_spec(s, v, ViewState::spec_resizing_flag(), false),
        None => s,
    }
}

/// Begin an interactive session on `view`, grabbing the pointer at
/// `origin`. The sole gate for beginning either a move or a resize: while
/// a session is active the request is rejected — `false` is returned and
/// nothing changes. On success the window is raised to the top of the
/// stacking order and `true` is returned.
pub fn start_interactive_action(
    comp: &mut Compositor,
    output: &mut Output,
    view: u32,
    origin: Point,
) -> (started: bool)
    requires
        old(comp).wf(),
        old(output).wf(),
        has_window(old(output).views@, view),
    ensures
        final(comp).wf(),
        final(output).wf(),
        started == (old(comp).view is None),
        *final(comp) == start_action_spec(*old(comp), view, origin),
        final(output).resolution == old(output).resolution,
        started ==> final(output).views@ == raise_spec(old(output).views@, view),
        !started ==> *final(output) == *old(output),
{
    if comp.view.is_some() {
        return false;
    }
    comp.grab = origin;
    comp.view = Some(view);
    output.bring_to_front(view);
    true
}

/// Begin an interactive move of `view`, grabbing the pointer at `origin`.
/// No resize edges are engaged, so motion events translate the window. A
/// request arriving while a session is active does nothing.
pub fn start_interactive_move(comp: &mut Compositor, output: &mut Output, view: u32, origin: Point)
    requires
        old(comp).wf(),
        old(output).wf(),
        has_window(old(output).views@, view),
    ensures
        final(comp).wf(),
        final(output).wf(),
        *final(comp) == start_action_spec(*old(comp), view, origin),
        final(output).resolution == old(output).resolution,
        old(comp).view is None ==> final(output).views@ == raise_spec(old(output).views@, view),
        old(comp).view is Some ==> *final(output) == *old(output),
{
    let _started = start_interactive_action(comp, output, view, origin);
}

/// Begin an interactive resize of `view` along `edges`, grabbing the
/// pointer at `origin`. When `edges` is empty the edges are inferred from
/// the quadrant of the window's geometry that `origin` falls into. The
/// grabbed window is raised and marked as resizing. Nothing happens when
/// the window is not listed (its geometry cannot be read) or while another
/// session is active.
pub fn start_interactive_resize(
    comp: &mut Compositor,
    output: &mut Output,
    view: u32,
    edges: ResizeEdge,
    origin: Point,
)
    requires
        old(comp).wf(),
        old(output).wf(),
    ensures
        final(comp).wf(),
        final(output).wf(),
        final(output).resolution == old(output).resolution,
        !has_window(old(output).views@, view) ==> *final(comp) == *old(comp) && *final(output)
            == *old(output),
        has_window(old(output).views@, view) && old(comp).view is Some ==> *final(comp) == *old(
            comp,
        ) && *final(output) == *old(output),
        has_window(old(output).views@, view) && old(comp).view is None ==> *final(comp)
            == start_resize_comp_spec(
            *old(comp),
            view,
            edges,
            origin,
            window_of(old(output).views@, view).geometry@,
        ) && final(output).views@ == set_state_spec(
            raise_spec(old(output).views@, view),
            view,
            ViewState::spec_resizing_flag(),
            true,
        ),
{
    let geometry = match output.get_geometry(view) {
        Some(g) => g,
        None => {
            return ;
        },
    };
    if !start_interactive_action(comp, output, view, origin) {
        return ;
    }
    comp.edges = edges;
    if comp.edges.is_empty() {
        let halfw: i64 = geometry.origin.x as i64 + geometry.size.w as i64 / 2;
        let halfh: i64 = geometry.origin.y as i64 + geometry.size.h as i64 / 2;
        let flag_x = ResizeEdge::new(
            false,
            false,
            (origin.x as i64) < halfw,
            (origin.x as i64) > halfw,
        );
        let flag_y = ResizeEdge::new(
            (origin.y as i64) < halfh,
            (origin.y as i64) > halfh,
            false,
            false,
        );
        comp.edges = flag_x.union(flag_y);
    }
    output.set_view_state(view, ViewState::resizing_flag(), true);
}

/// End the active interactive session: the grabbed window loses its
/// resize-in-progress flag and the session becomes inactive. Calling this
/// with no session active is a harmless no-op, however often repeated.
pub fn stop_interactive_action(comp: &mut Compositor, output: &mut Output)
    requires
        old(comp).wf(),
        old(output).wf(),
    ensures
        final(comp).wf(),
        final(output).wf(),
        final(output).resolution == old(output).resolution,
        *final(comp) == stop_comp_spec(*old(comp)),
        final(output).views@ == stop_windows_spec(old(output).views@, *old(comp)),
        old(comp).view is None ==> *final(comp) == *old(comp) && *final(output) == *old(output),
{
    let v = match comp.view {
        Some(v) => v,
        None => {
            return ;
        },
    };
    output.set_view_state(v, ViewState::resizing_flag(), false);
    comp.view = None;
    comp.edges = ResizeEdge::empty();
}

/// The geometry a motion event with deltas `(dx, dy)` recomputes for the
/// grabbed window, in mathematical integers.
///
/// With no edge engaged the window translates by the deltas. With edges
/// engaged, the engaged side follows the pointer: the left edge moves the
/// origin and shrinks the width by `dx` (the left edge takes precedence
/// over the right), the right edge grows the width by `dx`; top and bottom
/// act the same way on `dy`, the origin's y and the height. A candidate
/// width under the floor discards the width and x change of this event,
/// keeping the prior values; the height and y are clamped the same way,
/// independently per axis.
pub open spec fn motion_geometry(
    g: GeometryModel,
    edges: ResizeEdge,
    dx: int,
    dy: int,
) -> GeometryModel {
    if edges.spec_is_empty() {
        GeometryModel { x: g.x + dx, y: g.y + dy, w: g.w, h: g.h }
    } else {
        let cw = if edges.left {
            g.w - dx
        } else if edges.right {
            g.w + dx
        } else {
            g.w
        };
        let cx = if edges.left {
            g.x + dx
        } else {
            g.x
        };
        let ch = if edges.top {
            g.h - dy
        } else if edges.bottom {
            g.h + dy
        } else {
            g.h
        };
        let cy = if edges.top {
            g.y + dy
        } else {
            g.y
        };
        GeometryModel {
            x: if cw >= MIN_WIDTH {
                cx
            } else {
                g.x
            },
            w: if cw >= MIN_WIDTH {
                cw
            } else {
                g.w
            },
            y: if ch >= MIN_HEIGHT {
                cy
            } else {
                g.y
            },
            h: if ch >= MIN_HEIGHT {
                ch
            } else {
                g.h
            },
        }
    }
}

/// Whether a mathematical geometry fits the machine types of a stored
/// geometry: signed 32-bit origin, unsigned 32-bit extent.
pub open spec fn geometry_fits(m: GeometryModel) -> bool {
    i32::MIN <= m.x <= i32::MAX && i32::MIN <= m.y <= i32::MAX && 0 <= m.w <= u32::MAX && 0 <= m.h
        <= u32::MAX
}

/// The stored geometry carrying the mathematical value `m`; meaningful
/// when `geometry_fits(m)` holds.
pub open spec fn geom_of_model(m: GeometryModel) -> Geometry {
    Geometry {
        origin: Point { x: m.x as i32, y: m.y as i32 },
        size: Size { w: m.w as u32, h: m.h as u32 },
    }
}

/// Whether the geometry a motion event to `point` would recompute for the
/// grabbed window fits the stored geometry's machine types. Holds
/// vacuously when no session is active or the grabbed window is not
/// listed.
pub open spec fn motion_fits(c: Compositor, s: Seq<Window>, point: Point) -> bool {
    match c.view {
        None => true,
        Some(v) => !has_window(s, v) || geometry_fits(
            motion_geometry(
                window_of(s, v).geometry@,
                c.edges,
                point.x - c.grab.x,
                point.y - c.grab.y,
            ),
        ),
    }
}

/// The four components of the recomputed geometry, in 64-bit arithmetic
/// that cannot overflow for deltas of 32-bit differences.
fn motion_candidate(geo: Geometry, edges: ResizeEdge, dx: i64, dy: i64) -> (r: (i64, i64, i64, i64))
    requires
        -0x1_0000_0000 <= dx <= 0x1_0000_0000,
        -0x1_0000_0000 <= dy <= 0x1_0000_0000,
    ensures
        r.0 == motion_geometry(geo@, edges, dx as int, dy as int).x,
        r.1 == motion_geometry(geo@, edges, dx as int, dy as int).y,
        r.2 == motion_geometry(geo@, edges, dx as int, dy as int).w,
        r.3 == motion_geometry(geo@, edges, dx as int, dy as int).h,
{
    if edges.is_empty() {
        (geo.origin.x as i64 + dx, geo.origin.y as i64 + dy, geo.size.w as i64, geo.size.h as i64)
    } else {
        let (cw, cx): (i64, i64) = if edges.left {
            (geo.size.w as i64 - dx, geo.origin.x as i64 + dx)
        } else if edges.right {
            (geo.size.w as i64 + dx, geo.origin.x as i64)
        } else {
            (geo.size.w as i64, geo.origin.x as i64)
        };
        let (ch, cy): (i64, i64) = if edges.top {
            (geo.size.h as i64 - dy, geo.origin.y as i64 + dy)
        } else if edges.bottom {
            (geo.size.h as i64 + dy, geo.origin.y as i64)
        } else {
            (geo.size.h as i64, geo.origin.y as i64)
        };
        let (rw, rx): (i64, i64) = if cw >= MIN_WIDTH as i64 {
            (cw, cx)
        } else {
            (geo.size.w as i64, geo.origin.x as i64)
        };
        let (rh, ry): (i64, i64) = if ch >= MIN_HEIGHT as i64 {
            (ch, cy)
        } else {
            (geo.size.h as i64, geo.origin.y as i64)
        };
        (rx, ry, rw, rh)
    }
}

/// Whether a motion event to `point`, handled now, would keep the grabbed
/// window's recomputed geometry within the stored geometry's machine
/// types. An embedder calls this before handing the event to
/// `on_pointer_motion`.
pub fn check_motion_fits(comp: &Compositor, output: &Output, point: Point) -> (r: bool)
    requires
        output.wf(),
    ensures
        r == motion_fits(*comp, output.views@, point),
{
    match comp.view {
        None => true,
        Some(v) => match output.get_geometry(v) {
            None => true,
            Some(geo) => {
                let dx: i64 = point.x as i64 - comp.grab.x as i64;
                let dy: i64 = point.y as i64 - comp.grab.y as i64;
                let (nx, ny, nw, nh) = motion_candidate(geo, comp.edges, dx, dy);
                nx >= i32::MIN as i64 && nx <= i32::MAX as i64 && ny >= i32::MIN as i64 && ny
                    <= i32::MAX as i64 && nw >= 0 && nw <= u32::MAX as i64 && nh >= 0 && nh
                    <= u32::MAX as i64
            },
        },
    }
}

/// Handle a pointer motion event, whether or not a session is active.
///
/// The cursor is always repositioned to `point` first, and the last known
/// pointer position is always refreshed to `point`, so that a later
/// session start sees a consistent grab point. While a session is active,
/// the grabbed window's geometry is recomputed from the motion deltas —
/// translated for a move, resized along the engaged edges with the
/// per-axis size floor for a resize — and written back tagged with the
/// engaged edges. Returns whether a session was active when the event
/// arrived: the event is then consumed and must not be forwarded further.
pub fn on_pointer_motion(comp: &mut Compositor, output: &mut Output, point: Point) -> (consumed:
    bool)
    requires
        old(comp).wf(),
        old(output).wf(),
        motion_fits(*old(comp), old(output).views@, point),
    ensures
        final(comp).wf(),
        final(output).wf(),
        consumed == (old(comp).view is Some),
        final(comp).view == old(comp).view,
        final(comp).edges == old(comp).edges,
        final(comp).grab == point,
        final(output).resolution == old(output).resolution,
        match old(comp).view {
            None => *final(output) == *old(output),
            Some(v) => final(output).views@ == (if has_window(old(output).views@, v) {
                set_geometry_spec(
                    old(output).views@,
                    v,
                    geom_of_model(
                        motion_geometry(
                            window_of(old(output).views@, v).geometry@,
                            old(comp).edges,
                            point.x - old(comp).grab.x,
                            point.y - old(comp).grab.y,
                        ),
                    ),
                )
            } else {
                old(output).views@
            }),
        },
{
    crate::input::pointer::set_position(point);
    let consumed = comp.view.is_some();
    if let Some(v) = comp.view {
        if let Some(geo) = output.get_geometry(v) {
            let dx: i64 = point.x as i64 - comp.grab.x as i64;
            let dy: i64 = point.y as i64 - comp.grab.y as i64;
            let (nx, ny, nw, nh) = motion_candidate(geo, comp.edges, dx, dy);
            let new_geo = Geometry {
                origin: Point { x: nx as i32, y: ny as i32 },
                size: Size { w: nw as u32, h: nh as u32 },
            };
            output.set_geometry(v, comp.edges, new_geo);
        }
    }
    comp.grab = point;
    consumed
}

/// One start request as the controller sees it: a move request, or a
/// resize request together with the geometry the window registry reported
/// for the window (`None` when it could not be read).
#[derive(Debug, Copy, Clone, PartialEq, Eq, Structural)]
pub enum StartRequest {
    /// A request to begin an interactive move
    Move {
        /// The window to move
        view: u32,
        /// The pointer coordinate at the request
        origin: Point,
    },
    /// A request to begin an interactive resize
    Resize {
        /// The window to resize
        view: u32,
        /// The requested edges; empty to infer them from the origin
        edges: ResizeEdge,
        /// The pointer coordinate at the request
        origin: Point,
        /// The window's geometry as the registry reported it
        geometry: Option<Geometry>,
    },
}

/// The window a start request names.
pub open spec fn request_window(r: StartRequest) -> u32 {
    match r {
        StartRequest::Move { view, .. } => view,
        StartRequest::Resize { view, .. } => view,
    }
}

/// Whether a start request can take effect at all: a resize request whose
/// window's geometry could not be read starts nothing.
pub open spec fn request_effective(r: StartRequest) -> bool {
    match r {
        StartRequest::Move { .. } => true,
        StartRequest::Resize { geometry, .. } => geometry is Some,
    }
}

/// The session state after one start request.
pub open spec fn apply_start(c: Compositor, r: StartRequest) -> Compositor {
    match r {
        StartRequest::Move { view, origin } => start_action_spec(c, view, origin),
        StartRequest::Resize { view, edges, origin, geometry } => match geometry {
            Some(g) => start_resize_comp_spec(c, view, edges, origin, g@),
            None => c,
        },
    }
}

/// The session state after a sequence of start requests, applied in
/// order.
pub open spec fn apply_starts(c: Compositor, rs: Seq<StartRequest>) -> Compositor
    decreases rs.len(),
{
    if rs.len() == 0 {
        c
    } else {
        apply_starts(apply_start(c, rs[0]), rs.drop_first())
    }
}

/// Mutual exclusion: while a session is active, start requests of either
/// kind, in any number and order, are all rejected and leave the session
/// state exactly as it is.
pub proof fn lemma_start_exclusive(c: Compositor, rs: Seq<StartRequest>)
    requires
        c.view is Some,
    ensures
        apply_starts(c, rs) == c,
    decreases rs.len(),
{
    if rs.len() > 0 {
        assert(apply_start(c, rs[0]) == c);
        lemma_start_exclusive(c, rs.drop_first());
    }
}

/// Of start requests reaching an idle controller, only the first
/// effective one has any effect: it grabs its window, and however many
/// requests follow without an intervening stop, the session state stays
/// what that first request made it.
pub proof fn lemma_first_start_wins(c: Compositor, r: StartRequest, rs: Seq<StartRequest>)
    requires
        c.view is None,
        request_effective(r),
    ensures
        apply_start(c, r).view == Some(request_window(r)),
        apply_starts(c, seq![r] + rs) == apply_start(c, r),
{
    let first = apply_start(c, r);
    assert((seq![r] + rs)[0] == r);
    assert((seq![r] + rs).drop_first() =~= rs);
    lemma_start_exclusive(first, rs);
}

/// Stopping with no active session alters nothing, and stopping twice is
/// the same as stopping once, on the session state and on the windows:
/// the stop operation is an idempotent no-op whenever the controller is
/// idle.
pub proof fn lemma_stop_idempotent(c: Compositor, s: Seq<Window>)
    ensures
        c.view is None ==> stop_comp_spec(c) == c && stop_windows_spec(s, c) == s,
        stop_comp_spec(stop_comp_spec(c)) == stop_comp_spec(c),
        stop_windows_spec(stop_windows_spec(s, c), stop_comp_spec(c)) == stop_windows_spec(s, c),
{
}

/// The geometry after a sequence of motion events, each event's deltas
/// measured from the grab point the previous event left behind.
pub open spec fn motions_fold(
    g: GeometryModel,
    edges: ResizeEdge,
    grab: Point,
    pts: Seq<Point>,
) -> GeometryModel
    decreases pts.len(),
{
    if pts.len() == 0 {
        g
    } else {
        motions_fold(
            motion_geometry(g, edges, pts[0].x - grab.x, pts[0].y - grab.y),
            edges,
            pts[0],
            pts.drop_first(),
        )
    }
}

/// The sum of the horizontal deltas of a motion sequence begun at `grab`.
pub open spec fn total_dx(grab: Point, pts: Seq<Point>) -> int
    decreases pts.len(),
{
    if pts.len() == 0 {
        0
    } else {
        (pts[0].x - grab.x) + total_dx(pts[0], pts.drop_first())
    }
}

/// The sum of the vertical deltas of a motion sequence begun at `grab`.
pub open spec fn total_dy(grab: Point, pts: Seq<Point>) -> int
    decreases pts.len(),
{
    if pts.len() == 0 {
        0
    } else {
        (pts[0].y - grab.y) + total_dy(pts[0], pts.drop_first())
    }
}

/// Move invariant: during a move session (no edge engaged), a sequence of
/// motion events translates the window by the sum of the per-event
/// deltas, and its size never changes.
pub proof fn lemma_move_accumulates(
    g: GeometryModel,
    edges: ResizeEdge,
    grab: Point,
    pts: Seq<Point>,
)
    requires
        edges.spec_is_empty(),
    ensures
        motions_fold(g, edges, grab, pts).x == g.x + total_dx(grab, pts),
        motions_fold(g, edges, grab, pts).y == g.y + total_dy(grab, pts),
        motions_fold(g, edges, grab, pts).w == g.w,
        motions_fold(g, edges, grab, pts).h == g.h,
    decreases pts.len(),
{
    if pts.len() > 0 {
        let g1 = motion_geometry(g, edges, pts[0].x - grab.x, pts[0].y - grab.y);
        lemma_move_accumulates(g1, edges, pts[0], pts.drop_first());
    }
}

/// The deltas of a motion sequence telescope: their sum is the last
/// pointer coordinate minus the grab point the sequence began at.
pub proof fn lemma_deltas_telescope(grab: Point, pts: Seq<Point>)
    requires
        pts.len() > 0,
    ensures
        total_dx(grab, pts) == pts.last().x - grab.x,
        total_dy(grab, pts) == pts.last().y - grab.y,
    decreases pts.len(),
{
    if pts.len() == 1 {
        assert(pts.drop_first().len() == 0);
        assert(total_dx(pts[0], pts.drop_first()) == 0);
        assert(total_dy(pts[0], pts.drop_first()) == 0);
        assert(pts.last() == pts[0]);
    } else {
        lemma_deltas_telescope(pts[0], pts.drop_first());
        assert(pts.drop_first().last() == pts.last());
    }
}

/// Resize floor: one motion event never drives the width below the width
/// floor nor the height below the height floor, however large or negative
/// the deltas and whichever edges are engaged.
pub proof fn lemma_resize_floor(g: GeometryModel, edges: ResizeEdge, dx: int, dy: int)
    requires
        g.w >= MIN_WIDTH,
        g.h >= MIN_HEIGHT,
    ensures
        motion_geometry(g, edges, dx, dy).w >= MIN_WIDTH,
        motion_geometry(g, edges, dx, dy).h >= MIN_HEIGHT,
{
}

/// Resize floor over a whole session: however long the motion sequence,
/// a window's size stays at or above the floors once it is there.
pub proof fn lemma_resize_floor_fold(
    g: GeometryModel,
    edges: ResizeEdge,
    grab: Point,
    pts: Seq<Point>,
)
    requires
        g.w >= MIN_WIDTH,
        g.h >= MIN_HEIGHT,
    ensures
        motions_fold(g, edges, grab, pts).w >= MIN_WIDTH,
        motions_fold(g, edges, grab, pts).h >= MIN_HEIGHT,
    decreases pts.len(),
{
    if pts.len() > 0 {
        let dx = pts[0].x - grab.x;
        let dy = pts[0].y - grab.y;
        lemma_resize_floor(g, edges, dx, dy);
        lemma_resize_floor_fold(
            motion_geometry(g, edges, dx, dy),
            edges,
            pts[0],
            pts.drop_first(),
        );
    }
}

} // verus!

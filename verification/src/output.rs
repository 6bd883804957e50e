//! The window registry of one output (display surface): the windows it
//! hosts in stacking order, their geometries and state flags, and the
//! operations the windowing system performs on them — lookup, geometry and
//! state mutation, restacking, focus, and the example tiling layout.

use vstd::prelude::*;

verus! {

use crate::types::{Geometry, Point, ResizeEdge, Size, ViewState};

/// One window of the windowing system: its handle, its rectangle and its
/// state flags. Handle `0` is reserved for the root (background) surface,
/// which is never listed in a registry.
#[derive(Debug, Copy, Clone, PartialEq, Eq, Structural)]
pub struct Window {
    /// The window's handle; nonzero for every listed window
    pub id: u32,
    /// The window's current rectangle
    pub geometry: Geometry,
    /// The window's state flags
    pub state: ViewState,
}

/// Whether some window in `s` carries the handle `id`.
pub open spec fn has_window(s: Seq<Window>, id: u32) -> bool {
    exists|i: int| 0 <= i < s.len() && s[i].id == id
}

/// Whether no two windows in `s` share a handle.
pub open spec fn windows_unique(s: Seq<Window>) -> bool {
    forall|i: int, j: int|
        0 <= i < s.len() && 0 <= j < s.len() && i != j ==> s[i].id != s[j].id
}

/// Well-formedness of a window list: handles are unique and nonzero.
pub open spec fn windows_wf(s: Seq<Window>) -> bool {
    windows_unique(s) && (forall|i: int| 0 <= i < s.len() ==> s[i].id != 0)
}

/// The index at which the window with handle `id` stands in `s`;
/// meaningful only when `has_window(s, id)` holds.
pub open spec fn index_of_window(s: Seq<Window>, id: u32) -> int {
    choose|i: int| 0 <= i < s.len() && s[i].id == id
}

/// The window with handle `id` in `s`; meaningful only when
/// `has_window(s, id)` holds.
pub open spec fn window_of(s: Seq<Window>, id: u32) -> Window {
    s[index_of_window(s, id)]
}

/// With unique handles, `index_of_window` is the one index carrying `id`.
pub proof fn lemma_index_of_window(s: Seq<Window>, id: u32)
    requires
        windows_unique(s),
        has_window(s, id),
    ensures
        0 <= index_of_window(s, id) < s.len(),
        s[index_of_window(s, id)].id == id,
        window_of(s, id).id == id,
        forall|j: int| 0 <= j < s.len() && s[j].id == id ==> j == index_of_window(s, id),
{
    let i = choose|i: int| 0 <= i < s.len() && s[i].id == id;
    assert(0 <= i < s.len() && s[i].id == id);
}

/// `s` with the geometry of the window with handle `id` (if listed)
/// replaced by `g`.
pub open spec fn set_geometry_spec(s: Seq<Window>, id: u32, g: Geometry) -> Seq<Window> {
    s.map_values(
        |v: Window|
            if v.id == id {
                Window { geometry: g, ..v }
            } else {
                v
            },
    )
}

/// `s` with the state flags named in `mask` forced to `toggle` on the
/// window with handle `id` (if listed).
pub open spec fn set_state_spec(s: Seq<Window>, id: u32, mask: ViewState, toggle: bool) -> Seq<
    Window,
> {
    s.map_values(
        |v: Window|
            if v.id == id {
                Window { state: v.state.spec_apply(mask, toggle), ..v }
            } else {
                v
            },
    )
}

/// `s` with exactly the window with handle `id` activated: that window
/// gains the activated flag and every other window loses it.
pub open spec fn focus_spec(s: Seq<Window>, id: u32) -> Seq<Window> {
    s.map_values(
        |v: Window| Window { state: ViewState { activated: v.id == id, ..v.state }, ..v },
    )
}

/// `s` with the window with handle `id` (if listed) moved to the end, the
/// top of the stacking order.
pub open spec fn raise_spec(s: Seq<Window>, id: u32) -> Seq<Window> {
    if has_window(s, id) {
        let i = index_of_window(s, id);
        s.remove(i).push(s[i])
    } else {
        s
    }
}

/// `s` with the window with handle `id` (if listed) moved to the start,
/// the bottom of the stacking order.
pub open spec fn send_back_spec(s: Seq<Window>, id: u32) -> Seq<Window> {
    if has_window(s, id) {
        let i = index_of_window(s, id);
        s.remove(i).insert(0, s[i])
    } else {
        s
    }
}

/// `s` without the window with handle `id` (if listed).
pub open spec fn close_spec(s: Seq<Window>, id: u32) -> Seq<Window> {
    if has_window(s, id) {
        s.remove(index_of_window(s, id))
    } else {
        s
    }
}

/// A transformation that keeps every handle in place keeps
/// well-formedness and membership.
pub proof fn lemma_same_ids_wf(s1: Seq<Window>, s2: Seq<Window>)
    requires
        s1.len() == s2.len(),
        forall|i: int| 0 <= i < s1.len() ==> s1[i].id == s2[i].id,
        windows_wf(s1),
    ensures
        windows_wf(s2),
        forall|id: u32| #[trigger] has_window(s2, id) <==> has_window(s1, id),
{
    assert forall|id: u32| #[trigger] has_window(s2, id) <==> has_window(s1, id) by {
        if has_window(s1, id) {
            let i = choose|i: int| 0 <= i < s1.len() && s1[i].id == id;
            assert(s2[i].id == id);
        }
        if has_window(s2, id) {
            let i = choose|i: int| 0 <= i < s2.len() && s2[i].id == id;
            assert(s1[i].id == id);
        }
    }
}

/// Raising a listed window keeps well-formedness and membership.
pub proof fn lemma_raise_wf(s: Seq<Window>, id: u32)
    requires
        windows_wf(s),
    ensures
        windows_wf(raise_spec(s, id)),
        raise_spec(s, id).len() == s.len(),
        forall|x: u32| #[trigger] has_window(raise_spec(s, id), x) <==> has_window(s, x),
        has_window(s, id) ==> raise_spec(s, id).last() == window_of(s, id),
{
    if has_window(s, id) {
        lemma_index_of_window(s, id);
        let i = index_of_window(s, id);
        let r = raise_spec(s, id);
        assert forall|j: int| 0 <= j < r.len() implies r[j] == (if j < i {
            s[j]
        } else if j < s.len() - 1 {
            s[j + 1]
        } else {
            s[i]
        }) by {}
        assert forall|x: u32| #[trigger] has_window(r, x) <==> has_window(s, x) by {
            if has_window(s, x) {
                let k = choose|k: int| 0 <= k < s.len() && s[k].id == x;
                if k < i {
                    assert(r[k].id == x);
                } else if k == i {
                    assert(r[s.len() - 1].id == x);
                } else {
                    assert(r[k - 1].id == x);
                }
            }
            if has_window(r, x) {
                let k = choose|k: int| 0 <= k < r.len() && r[k].id == x;
                if k < i {
                    assert(s[k].id == x);
                } else if k < s.len() - 1 {
                    assert(s[k + 1].id == x);
                } else {
                    assert(s[i].id == x);
                }
            }
        }
    }
}

/// Sending a listed window to the back keeps well-formedness and
/// membership.
pub proof fn lemma_send_back_wf(s: Seq<Window>, id: u32)
    requires
        windows_wf(s),
    ensures
        windows_wf(send_back_spec(s, id)),
        send_back_spec(s, id).len() == s.len(),
        forall|x: u32| #[trigger] has_window(send_back_spec(s, id), x) <==> has_window(s, x),
{
    if has_window(s, id) {
        lemma_index_of_window(s, id);
        let i = index_of_window(s, id);
        let r = send_back_spec(s, id);
        assert forall|j: int| 0 <= j < r.len() implies r[j] == (if j == 0 {
            s[i]
        } else if j <= i {
            s[j - 1]
        } else {
            s[j]
        }) by {}
        assert forall|x: u32| #[trigger] has_window(r, x) <==> has_window(s, x) by {
            if has_window(s, x) {
                let k = choose|k: int| 0 <= k < s.len() && s[k].id == x;
                if k == i {
                    assert(r[0].id == x);
                } else if k < i {
                    assert(r[k + 1].id == x);
                } else {
                    assert(r[k].id == x);
                }
            }
            if has_window(r, x) {
                let k = choose|k: int| 0 <= k < r.len() && r[k].id == x;
                if k == 0 {
                    assert(s[i].id == x);
                } else if k <= i {
                    assert(s[k - 1].id == x);
                } else {
                    assert(s[k].id == x);
                }
            }
        }
    }
}

/// Closing a window keeps well-formedness and removes exactly that
/// window's handle from the registry.
pub proof fn lemma_close_wf(s: Seq<Window>, id: u32)
    requires
        windows_wf(s),
    ensures
        windows_wf(close_spec(s, id)),
        forall|x: u32| #[trigger] has_window(close_spec(s, id), x) <==> has_window(s, x) && x
            != id,
{
    if has_window(s, id) {
        lemma_index_of_window(s, id);
        let i = index_of_window(s, id);
        let r = close_spec(s, id);
        assert forall|j: int| 0 <= j < r.len() implies r[j] == (if j < i {
            s[j]
        } else {
            s[j + 1]
        }) by {}
        assert forall|x: u32| #[trigger] has_window(r, x) <==> has_window(s, x) && x != id by {
            if has_window(s, x) && x != id {
                let k = choose|k: int| 0 <= k < s.len() && s[k].id == x;
                if k < i {
                    assert(r[k].id == x);
                } else {
                    assert(r[k - 1].id == x);
                }
            }
            if has_window(r, x) {
                let k = choose|k: int| 0 <= k < r.len() && r[k].id == x;
                if k < i {
                    assert(s[k].id == x);
                } else {
                    assert(s[k + 1].id == x);
                }
            }
        }
    } else {
        assert forall|x: u32| #[trigger] has_window(close_spec(s, id), x) <==> has_window(s, x)
            && x != id by {
            if has_window(s, x) && x == id {
                assert(has_window(s, id));
            }
        }
    }
}

/// The height of every tile of the example layout: the output's height
/// divided over the rows, two tiles to a row.
pub open spec fn tile_h(res: Size, n: int) -> int {
    let rows = (n + 1) / 2;
    if rows > 1 {
        res.h as int / rows
    } else {
        res.h as int
    }
}

/// The width of the tile at stack position `i` of `n`: half the output's
/// width, except that a final tile standing alone on its row takes the
/// whole width.
pub open spec fn tile_w(res: Size, n: int, i: int) -> int {
    if i % 2 == 0 && i == n - 1 {
        res.w as int
    } else {
        res.w as int / 2
    }
}

/// The x origin of the tile at stack position `i`: tiles alternate between
/// the left and the right column.
pub open spec fn tile_x(res: Size, i: int) -> int {
    if i % 2 == 1 {
        res.w as int / 2
    } else {
        0
    }
}

/// The y origin of the tile at stack position `i` of `n`: the first row
/// starts at the top, every later tile starts one tile height down.
pub open spec fn tile_y(res: Size, n: int, i: int) -> int {
    if i >= 2 {
        tile_h(res, n)
    } else {
        0
    }
}

/// The rectangle of the tile at stack position `i` of `n` on an output of
/// resolution `res`.
pub open spec fn tile_geometry(res: Size, n: int, i: int) -> Geometry {
    Geometry {
        origin: Point { x: tile_x(res, i) as i32, y: tile_y(res, n, i) as i32 },
        size: Size { w: tile_w(res, n, i) as u32, h: tile_h(res, n) as u32 },
    }
}

/// `s` with every window's geometry replaced by its tile of the example
/// layout (empty lists are left alone).
pub open spec fn render_spec(s: Seq<Window>, res: Size) -> Seq<Window> {
    if s.len() == 0 {
        s
    } else {
        s.map(|i: int, v: Window| Window { geometry: tile_geometry(res, s.len() as int, i), ..v })
    }
}

/// A display surface and the windows it hosts, listed bottom to top in
/// stacking order.
#[derive(Debug, Clone)]
pub struct Output {
    /// The hosted windows, in stacking order (last is topmost)
    pub views: Vec<Window>,
    /// The resolution of the surface
    pub resolution: Size,
}

impl Output {
    /// Well-formedness: window handles are unique and nonzero, and the
    /// resolution fits the signed coordinate space of window origins.
    pub open spec fn wf(self) -> bool {
        windows_wf(self.views@) && self.resolution.w <= i32::MAX && self.resolution.h <= i32::MAX
    }

    /// A new output with the given resolution and no windows yet.
    pub fn new(resolution: Size) -> (r: Output)
        requires
            resolution.w <= i32::MAX,
            resolution.h <= i32::MAX,
        ensures
            r.wf(),
            r.views@.len() == 0,
            r.resolution == resolution,
    {
        Output { views: Vec::new(), resolution }
    }

    /// List a freshly created window on this output, on top of the stack.
    pub fn add_window(&mut self, window: Window)
        requires
            old(self).wf(),
            window.id != 0,
            !has_window(old(self).views@, window.id),
        ensures
            final(self).wf(),
            final(self).resolution == old(self).resolution,
            final(self).views@ == old(self).views@.push(window),
    {
        self.views.push(window);
    }

    /// Whether a window with handle `id` is listed on this output.
    pub fn contains_view(&self, id: u32) -> (r: bool)
        ensures
            r == has_window(self.views@, id),
    {
        let n = self.views.len();
        let mut i: usize = 0;
        while i < n
            invariant
                i <= n,
                n == self.views@.len(),
                forall|j: int| 0 <= j < i ==> self.views@[j].id != id,
            decreases n - i,
        {
            if self.views[i].id == id {
                return true;
            }
            i += 1;
        }
        false
    }

    /// The current geometry of the window with handle `id`, or `None` when
    /// no such window is listed.
    pub fn get_geometry(&self, id: u32) -> (r: Option<Geometry>)
        requires
            self.wf(),
        ensures
            r is Some <==> has_window(self.views@, id),
            has_window(self.views@, id) ==> r == Some(window_of(self.views@, id).geometry),
    {
        let n = self.views.len();
        let mut i: usize = 0;
        while i < n
            invariant
                i <= n,
                n == self.views@.len(),
                self.wf(),
                forall|j: int| 0 <= j < i ==> self.views@[j].id != id,
            decreases n - i,
        {
            if self.views[i].id == id {
                proof {
                    lemma_index_of_window(self.views@, id);
                }
                return Some(self.views[i].geometry);
            }
            i += 1;
        }
        None
    }

    /// Set the geometry of the window with handle `id` (a no-op when no
    /// such window is listed). The edge set tags the change for clients —
    /// which edges of the rectangle moved — and does not affect the stored
    /// geometry.
    pub fn set_geometry(&mut self, id: u32, edges: ResizeEdge, geometry: Geometry)
        requires
            old(self).wf(),
        ensures
            final(self).wf(),
            final(self).resolution == old(self).resolution,
            final(self).views@ == set_geometry_spec(old(self).views@, id, geometry),
    {
        let _ = edges;
        let n = self.views.len();
        let mut i: usize = 0;
        while i < n
            invariant
                i <= n,
                n == self.views@.len(),
                n == old(self).views@.len(),
                self.resolution == old(self).resolution,
                forall|j: int|
                    0 <= j < i ==> self.views@[j] == (if old(self).views@[j].id == id {
                        Window { geometry, ..old(self).views@[j] }
                    } else {
                        old(self).views@[j]
                    }),
                forall|j: int| i <= j < n ==> self.views@[j] == old(self).views@[j],
            decreases n - i,
        {
            if self.views[i].id == id {
                self.views[i].geometry = geometry;
            }
            i += 1;
        }
        proof {
            assert(self.views@ =~= set_geometry_spec(old(self).views@, id, geometry));
            lemma_same_ids_wf(old(self).views@, self.views@);
        }
    }

    /// Force the state flags named in `mask` to `toggle` on the window
    /// with handle `id` (a no-op when no such window is listed).
    pub fn set_view_state(&mut self, id: u32, mask: ViewState, toggle: bool)
        requires
            old(self).wf(),
        ensures
            final(self).wf(),
            final(self).resolution == old(self).resolution,
            final(self).views@ == set_state_spec(old(self).views@, id, mask, toggle),
    {
        let n = self.views.len();
        let mut i: usize = 0;
        while i < n
            invariant
                i <= n,
                n == self.views@.len(),
                n == old(self).views@.len(),
                self.resolution == old(self).resolution,
                forall|j: int|
                    0 <= j < i ==> self.views@[j] == (if old(self).views@[j].id == id {
                        Window {
                            state: old(self).views@[j].state.spec_apply(mask, toggle),
                            ..old(self).views@[j]
                        }
                    } else {
                        old(self).views@[j]
                    }),
                forall|j: int| i <= j < n ==> self.views@[j] == old(self).views@[j],
            decreases n - i,
        {
            if self.views[i].id == id {
                let s = self.views[i].state;
                self.views[i].state = s.apply(mask, toggle);
            }
            i += 1;
        }
        proof {
            assert(self.views@ =~= set_state_spec(old(self).views@, id, mask, toggle));
            lemma_same_ids_wf(old(self).views@, self.views@);
        }
    }

    /// Give focus to the window with handle `id`: it gains the activated
    /// flag and every other window loses it.
    pub fn focus_view(&mut self, id: u32)
        requires
            old(self).wf(),
        ensures
            final(self).wf(),
            final(self).resolution == old(self).resolution,
            final(self).views@ == focus_spec(old(self).views@, id),
    {
        let n = self.views.len();
        let mut i: usize = 0;
        while i < n
            invariant
                i <= n,
                n == self.views@.len(),
                n == old(self).views@.len(),
                self.resolution == old(self).resolution,
                forall|j: int|
                    0 <= j < i ==> self.views@[j] == (Window {
                        state: ViewState {
                            activated: old(self).views@[j].id == id,
                            ..old(self).views@[j].state
                        },
                        ..old(self).views@[j]
                    }),
                forall|j: int| i <= j < n ==> self.views@[j] == old(self).views@[j],
            decreases n - i,
        {
            let focused = self.views[i].id == id;
            let s = self.views[i].state;
            self.views[i].state = ViewState { activated: focused, ..s };
            i += 1;
        }
        proof {
            assert(self.views@ =~= focus_spec(old(self).views@, id));
            lemma_same_ids_wf(old(self).views@, self.views@);
        }
    }

    /// Raise the window with handle `id` to the top of the stacking order
    /// (a no-op when no such window is listed).
    #[verifier::loop_isolation(false)]
    pub fn bring_to_front(&mut self, id: u32)
        requires
            old(self).wf(),
        ensures
            final(self).wf(),
            final(self).resolution == old(self).resolution,
            final(self).views@ == raise_spec(old(self).views@, id),
    {
        proof {
            lemma_raise_wf(old(self).views@, id);
        }
        let n = self.views.len();
        let mut i: usize = 0;
        while i < n
            invariant
                i <= n,
                n == self.views@.len(),
                *self == *old(self),
                forall|j: int| 0 <= j < i ==> self.views@[j].id != id,
            decreases n - i,
        {
            if self.views[i].id == id {
                proof {
                    lemma_index_of_window(self.views@, id);
                }
                let v = self.views.remove(i);
                self.views.push(v);
                return ;
            }
            i += 1;
        }
    }

    /// Send the window with handle `id` to the bottom of the stacking
    /// order (a no-op when no such window is listed).
    #[verifier::loop_isolation(false)]
    pub fn send_to_back(&mut self, id: u32)
        requires
            old(self).wf(),
        ensures
            final(self).wf(),
            final(self).resolution == old(self).resolution,
            final(self).views@ == send_back_spec(old(self).views@, id),
    {
        proof {
            lemma_send_back_wf(old(self).views@, id);
        }
        let n = self.views.len();
        let mut i: usize = 0;
        while i < n
            invariant
                i <= n,
                n == self.views@.len(),
                *self == *old(self),
                forall|j: int| 0 <= j < i ==> self.views@[j].id != id,
            decreases n - i,
        {
            if self.views[i].id == id {
                proof {
                    lemma_index_of_window(self.views@, id);
                }
                let v = self.views.remove(i);
                self.views.insert(0, v);
                return ;
            }
            i += 1;
        }
    }

    /// Remove the window with handle `id` from the registry (a no-op when
    /// no such window is listed).
    #[verifier::loop_isolation(false)]
    pub fn close_view(&mut self, id: u32)
        requires
            old(self).wf(),
        ensures
            final(self).wf(),
            final(self).resolution == old(self).resolution,
            final(self).views@ == close_spec(old(self).views@, id),
    {
        proof {
            lemma_close_wf(old(self).views@, id);
        }
        let n = self.views.len();
        let mut i: usize = 0;
        while i < n
            invariant
                i <= n,
                n == self.views@.len(),
                *self == *old(self),
                forall|j: int| 0 <= j < i ==> self.views@[j].id != id,
            decreases n - i,
        {
            if self.views[i].id == id {
                proof {
                    lemma_index_of_window(self.views@, id);
                }
                let _ = self.views.remove(i);
                return ;
            }
            i += 1;
        }
    }

    /// The handle of the window `offset` places below the top of the
    /// stacking order, wrapping around; `None` when no window is listed.
    pub fn get_topmost_view(&self, offset: usize) -> (r: Option<u32>)
        ensures
            self.views@.len() == 0 ==> r is None,
            self.views@.len() > 0 ==> r == Some(
                self.views@[(self.views@.len() - 1 + offset) % self.views@.len() as int].id,
            ),
    {
        let n = self.views.len();
        if n == 0 {
            None
        } else {
            let k = offset % n;
            let idx = if k == 0 {
                n - 1
            } else {
                k - 1
            };
            proof {
                let ni = n as int;
                let o = offset as int;
                vstd::arithmetic::div_mod::lemma_add_mod_noop_right(ni - 1, o, ni);
                if o % ni == 0 {
                    vstd::arithmetic::div_mod::lemma_small_mod((ni - 1) as nat, ni as nat);
                } else {
                    vstd::arithmetic::div_mod::lemma_mod_sub_multiples_vanish(ni - 1 + o % ni, ni);
                    vstd::arithmetic::div_mod::lemma_small_mod((o % ni - 1) as nat, ni as nat);
                }
                assert(idx as int == (ni - 1 + o) % ni);
            }
            Some(self.views[idx].id)
        }
    }

    /// Lay the windows out in the example tiling pattern: two columns of
    /// half the output's width, rows sharing the output's height, a final
    /// window alone on its row taking the whole width.
    pub fn render_output(&mut self)
        requires
            old(self).wf(),
        ensures
            final(self).wf(),
            final(self).resolution == old(self).resolution,
            final(self).views@ == render_spec(old(self).views@, old(self).resolution),
    {
        let n = self.views.len();
        if n == 0 {
            return ;
        }
        let w: u32 = self.resolution.w / 2;
        let rows: usize = n / 2 + n % 2;
        let h: u32 = if rows > 1 {
            ((self.resolution.h as usize) / rows) as u32
        } else {
            self.resolution.h
        };
        assert(h as int == tile_h(self.resolution, n as int));
        let ghost res = self.resolution;
        let mut toggle: bool = false;
        let mut y: i32 = 0;
        let mut i: usize = 0;
        while i < n
            invariant
                i <= n,
                n >= 1,
                n == self.views@.len(),
                n == old(self).views@.len(),
                self.resolution == old(self).resolution,
                res == old(self).resolution,
                res.w <= i32::MAX,
                res.h <= i32::MAX,
                w == res.w as int / 2,
                h as int == tile_h(res, n as int),
                toggle == (i % 2 == 1),
                y as int == tile_y(res, n as int, i as int),
                forall|j: int|
                    0 <= j < i ==> self.views@[j] == (Window {
                        geometry: tile_geometry(res, n as int, j),
                        ..old(self).views@[j]
                    }),
                forall|j: int| i <= j < n ==> self.views@[j] == old(self).views@[j],
            decreases n - i,
        {
            let full = !toggle && i == n - 1;
            let gw: u32 = if full {
                self.resolution.w
            } else {
                w
            };
            let gx: i32 = if toggle {
                w as i32
            } else {
                0
            };
            self.views[i].geometry = Geometry {
                origin: Point { x: gx, y },
                size: Size { w: gw, h },
            };
            toggle = !toggle;
            y = if y > 0 || !toggle {
                h as i32
            } else {
                0
            };
            i += 1;
        }
        proof {
            assert(self.views@ =~= render_spec(old(self).views@, old(self).resolution));
            lemma_same_ids_wf(old(self).views@, self.views@);
        }
    }
}

} // verus!

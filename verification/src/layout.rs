//! Multi-screen layout: where each peer's screen sits relative to the server.
//!
//! Coordinate model: the server screen is the origin (0,0) at top-left,
//! extending `width × height`. Other screens are placed by `Edge`
//! (Left/Right/Top/Bottom) relative to the server, each with its own size.
//! The cursor "leaves" through an edge when it crosses x<0, x>=w, y<0, y>=h.

use vstd::prelude::*;

verus! {

#[derive(Debug, Clone, Copy, PartialEq, Eq)]
pub struct Screen {
    pub width: u32,
    pub height: u32,
}

impl Default for Screen {
    fn default() -> (s: Screen)
        ensures
            s.width == 1920 && s.height == 1080,
    {
        Screen { width: 1920, height: 1080 }
    }
}

#[derive(Debug, Clone)]
pub struct PeerScreen {
    pub peer_id: uuid::Uuid,
    pub name: String,
    pub edge: Edge,
    /// Offset along the shared edge, in pixels. 0 means flush at the top
    /// (for Left/Right) or flush at the left (for Top/Bottom).
    pub offset: i32,
    pub screen: Screen,
}

#[derive(Debug, Clone, Copy, PartialEq, Eq)]
pub enum Edge {
    Left,
    Right,
    Top,
    Bottom,
}

/// Result of a cursor movement check.
#[derive(Debug, Clone, Copy, PartialEq, Eq)]
pub enum EdgeCross {
    Stay,
    Cross { peer_index: usize, entry_x: i32, entry_y: i32 },
}

#[derive(Debug, Clone)]
pub struct Layout {
    pub server_screen: Screen,
    pub peers: Vec<PeerScreen>,
}

impl Default for Layout {
    fn default() -> (l: Layout)
        ensures
            l.server_screen.width == 1920 && l.server_screen.height == 1080,
            l.peers@.len() == 0,
    {
        Layout { server_screen: Screen::default(), peers: Vec::new() }
    }
}

/// `v` brought into `[lo, hi]`, as `Ord::clamp` does.
pub open spec fn clamp_int(v: int, lo: int, hi: int) -> int {
    if v < lo {
        lo
    } else if v > hi {
        hi
    } else {
        v
    }
}

/// `v` brought into `[lo, hi]`: `Ord::clamp` on `i32`, which panics when
/// `lo > hi`.
pub fn clamp_i32(v: i32, lo: i32, hi: i32) -> (r: i32)
    requires
        lo <= hi,
    ensures
        r == clamp_int(v as int, lo as int, hi as int),
{
    if v < lo {
        lo
    } else if v > hi {
        hi
    } else {
        v
    }
}

pub open spec fn fits_i32(v: int) -> bool {
    i32::MIN <= v <= i32::MAX
}

/// Whether the cursor at `(x, y)` lies beyond the server edge `edge`, on a
/// server screen `w` wide and `h` tall.
pub open spec fn passes_edge(w: i32, h: i32, edge: Edge, x: i32, y: i32) -> bool {
    match edge {
        Edge::Left => x < 0,
        Edge::Right => x >= w,
        Edge::Top => y < 0,
        Edge::Bottom => y >= h,
    }
}

/// Where the cursor enters the screen of `p`: at the peer's edge that faces
/// the server, and along it at the cursor's position shifted by the peer's
/// offset, clamped to the peer's size.
pub open spec fn entry_point(p: PeerScreen, x: i32, y: i32) -> (int, int) {
    let pw = p.screen.width as i32;
    let ph = p.screen.height as i32;
    match p.edge {
        Edge::Left => (pw - 1, clamp_int(y - p.offset, 0, ph - 1)),
        Edge::Right => (0, clamp_int(y - p.offset, 0, ph - 1)),
        Edge::Top => (clamp_int(x - p.offset, 0, pw - 1), ph - 1),
        Edge::Bottom => (clamp_int(x - p.offset, 0, pw - 1), 0),
    }
}

/// The entry point on `p` is computed without overflow and with a clamp range
/// that is not empty.
pub open spec fn entry_defined(p: PeerScreen, x: i32, y: i32) -> bool {
    let pw = p.screen.width as i32;
    let ph = p.screen.height as i32;
    match p.edge {
        Edge::Left => fits_i32(y - p.offset) && ph >= 1 && pw > i32::MIN,
        Edge::Right => fits_i32(y - p.offset) && ph >= 1,
        Edge::Top => fits_i32(x - p.offset) && pw >= 1 && ph > i32::MIN,
        Edge::Bottom => fits_i32(x - p.offset) && pw >= 1,
    }
}

/// The outcome of checking the peers from index `i` on: the first of them
/// whose edge the cursor has passed is crossed into.
pub open spec fn edge_cross_from(
    w: i32,
    h: i32,
    peers: Seq<PeerScreen>,
    x: i32,
    y: i32,
    i: nat,
) -> EdgeCross
    decreases peers.len() - i,
{
    if i >= peers.len() {
        EdgeCross::Stay
    } else if passes_edge(w, h, peers[i as int].edge, x, y) {
        let (ex, ey) = entry_point(peers[i as int], x, y);
        EdgeCross::Cross { peer_index: i as usize, entry_x: ex as i32, entry_y: ey as i32 }
    } else {
        edge_cross_from(w, h, peers, x, y, i + 1)
    }
}

/// The check from index `i` on runs without overflow: the peer it stops at,
/// if any, has a defined entry point.
pub open spec fn edge_cross_defined_from(
    w: i32,
    h: i32,
    peers: Seq<PeerScreen>,
    x: i32,
    y: i32,
    i: nat,
) -> bool
    decreases peers.len() - i,
{
    if i >= peers.len() {
        true
    } else if passes_edge(w, h, peers[i as int].edge, x, y) {
        entry_defined(peers[i as int], x, y)
    } else {
        edge_cross_defined_from(w, h, peers, x, y, i + 1)
    }
}

/// A new peer screen as the layout editor adds it.
pub open spec fn is_new_peer(p: PeerScreen, peer_id: uuid::Uuid) -> bool {
    &&& p.peer_id == peer_id
    &&& p.name@ == "peer"@
    &&& p.edge == Edge::Right
    &&& p.offset == 0
    &&& p.screen.width == 1920
    &&& p.screen.height == 1080
}

impl Layout {
    /// The server screen's width as the edge check reads it.
    pub open spec fn server_w(&self) -> i32 {
        self.server_screen.width as i32
    }

    /// The server screen's height as the edge check reads it.
    pub open spec fn server_h(&self) -> i32 {
        self.server_screen.height as i32
    }

    pub open spec fn spec_check_edge(&self, x: i32, y: i32) -> EdgeCross {
        edge_cross_from(self.server_w(), self.server_h(), self.peers@, x, y, 0)
    }

    pub open spec fn check_edge_defined(&self, x: i32, y: i32) -> bool {
        edge_cross_defined_from(self.server_w(), self.server_h(), self.peers@, x, y, 0)
    }

    /// Appends a new peer screen, as the layout editor creates one: called
    /// "peer", on the server's right edge, flush, with the default screen size.
    pub fn add_peer(&mut self, peer_id: uuid::Uuid)
        ensures
            final(self).server_screen == old(self).server_screen,
            final(self).peers@.len() == old(self).peers@.len() + 1,
            final(self).peers@.drop_last() == old(self).peers@,
            is_new_peer(final(self).peers@.last(), peer_id),
    {
        let peer = PeerScreen {
            peer_id,
            name: "peer".to_owned(),
            edge: Edge::Right,
            offset: 0,
            screen: Screen::default(),
        };
        self.peers.push(peer);
        proof {
            assert(final(self).peers@.drop_last() =~= old(self).peers@);
        }
    }

    /// Removes the peer screen at `index`; the ones after it move up.
    pub fn remove_peer(&mut self, index: usize)
        requires
            index < old(self).peers@.len(),
        ensures
            final(self).server_screen == old(self).server_screen,
            final(self).peers@ == old(self).peers@.remove(index as int),
    {
        self.peers.remove(index);
    }

    /// Determine if cursor at `(x, y)` on the server screen crosses to a peer.
    /// Returns the peer's local entry coordinates clamped to the peer's size.
    pub fn check_edge(&self, x: i32, y: i32) -> (res: EdgeCross)
        requires
            self.check_edge_defined(x, y),
        ensures
            res == self.spec_check_edge(x, y),
    {
        let w = self.server_screen.width as i32;
        let h = self.server_screen.height as i32;
        let n = self.peers.len();
        let mut i: usize = 0;
        while i < n
            invariant
                n == self.peers@.len(),
                i <= n,
                w == self.server_w(),
                h == self.server_h(),
                self.spec_check_edge(x, y) == edge_cross_from(w, h, self.peers@, x, y, i as nat),
                edge_cross_defined_from(w, h, self.peers@, x, y, i as nat),
            decreases n - i,
        {
            let peer = &self.peers[i];
            let pw = peer.screen.width as i32;
            let ph = peer.screen.height as i32;

            let crossed: Option<(i32, i32)> = match peer.edge {
                Edge::Left if x < 0 => {
                    let local_y = clamp_i32(y - peer.offset, 0, ph - 1);
                    Some((pw - 1, local_y))
                },
                Edge::Right if x >= w => {
                    let local_y = clamp_i32(y - peer.offset, 0, ph - 1);
                    Some((0, local_y))
                },
                Edge::Top if y < 0 => {
                    let local_x = clamp_i32(x - peer.offset, 0, pw - 1);
                    Some((local_x, ph - 1))
                },
                Edge::Bottom if y >= h => {
                    let local_x = clamp_i32(x - peer.offset, 0, pw - 1);
                    Some((local_x, 0))
                },
                _ => None,
            };

            if let Some((ex, ey)) = crossed {
                return EdgeCross::Cross { peer_index: i, entry_x: ex, entry_y: ey };
            }
            i += 1;
        }
        EdgeCross::Stay
    }
}

/// What the check from index `i` on yields: the first peer at or after `i`
/// whose edge the cursor has passed, entered at its entry point, or `Stay`
/// when there is none.
proof fn lemma_edge_cross_from(w: i32, h: i32, peers: Seq<PeerScreen>, x: i32, y: i32, i: nat)
    requires
        peers.len() <= usize::MAX,
    ensures
        match edge_cross_from(w, h, peers, x, y, i) {
            EdgeCross::Cross { peer_index, entry_x, entry_y } => {
                &&& i <= peer_index < peers.len()
                &&& passes_edge(w, h, peers[peer_index as int].edge, x, y)
                &&& forall|j: int|
                    i <= j < peer_index ==> !passes_edge(w, h, #[trigger] peers[j].edge, x, y)
                &&& entry_x == entry_point(peers[peer_index as int], x, y).0 as i32
                &&& entry_y == entry_point(peers[peer_index as int], x, y).1 as i32
                &&& edge_cross_defined_from(w, h, peers, x, y, i) ==> entry_defined(
                    peers[peer_index as int],
                    x,
                    y,
                )
            },
            EdgeCross::Stay => forall|j: int|
                i <= j < peers.len() ==> !passes_edge(w, h, #[trigger] peers[j].edge, x, y),
        },
    decreases peers.len() - i,
{
    if i < peers.len() && !passes_edge(w, h, peers[i as int].edge, x, y) {
        lemma_edge_cross_from(w, h, peers, x, y, i + 1);
    }
}

/// The cursor inside the server screen never leaves it.
pub proof fn lemma_inside_server_stays(layout: &Layout, x: i32, y: i32)
    requires
        0 <= x < layout.server_w(),
        0 <= y < layout.server_h(),
    ensures
        layout.spec_check_edge(x, y) == EdgeCross::Stay,
{
    assert(layout.peers@.len() == layout.peers.len());
    lemma_edge_cross_from(layout.server_w(), layout.server_h(), layout.peers@, x, y, 0);
    let r = layout.spec_check_edge(x, y);
    if let EdgeCross::Cross { peer_index, .. } = r {
        assert(passes_edge(
            layout.server_w(),
            layout.server_h(),
            layout.peers@[peer_index as int].edge,
            x,
            y,
        ));
    }
}

/// The cursor crosses into the first peer, in the layout's order, whose edge
/// it has passed, and stays on the server when it has passed none.
pub proof fn lemma_crosses_first_passed_peer(layout: &Layout, x: i32, y: i32)
    ensures
        match layout.spec_check_edge(x, y) {
            EdgeCross::Cross { peer_index, .. } => {
                &&& peer_index < layout.peers@.len()
                &&& passes_edge(
                    layout.server_w(),
                    layout.server_h(),
                    layout.peers@[peer_index as int].edge,
                    x,
                    y,
                )
                &&& forall|j: int|
                    0 <= j < peer_index ==> !passes_edge(
                        layout.server_w(),
                        layout.server_h(),
                        #[trigger] layout.peers@[j].edge,
                        x,
                        y,
                    )
            },
            EdgeCross::Stay => forall|j: int|
                0 <= j < layout.peers@.len() ==> !passes_edge(
                    layout.server_w(),
                    layout.server_h(),
                    #[trigger] layout.peers@[j].edge,
                    x,
                    y,
                ),
        },
{
    assert(layout.peers@.len() == layout.peers.len());
    lemma_edge_cross_from(layout.server_w(), layout.server_h(), layout.peers@, x, y, 0);
}

/// The cursor crosses into a peer only past the server edge that the peer
/// sits on, and enters it on the peer's edge that faces the server: a peer
/// on the right is entered at its left column, one on the left at its right
/// column, one above at its bottom row, one below at its top row. Along that
/// edge the cursor keeps its position shifted by the peer's offset; a
/// position before the peer's first row (column) enters at the first, and one
/// past its last enters at the last.
pub proof fn lemma_entry_on_facing_edge(layout: &Layout, x: i32, y: i32)
    requires
        layout.check_edge_defined(x, y),
    ensures
        layout.spec_check_edge(x, y) matches EdgeCross::Cross { peer_index, entry_x, entry_y } ==> {
            let p = layout.peers@[peer_index as int];
            let pw = p.screen.width as i32;
            let ph = p.screen.height as i32;
            let along_y = y - p.offset;
            let along_x = x - p.offset;
            &&& p.edge == Edge::Left ==> x < 0 && entry_x == pw - 1
            &&& p.edge == Edge::Right ==> x >= layout.server_screen.width as i32 && entry_x == 0
            &&& p.edge == Edge::Top ==> y < 0 && entry_y == ph - 1
            &&& p.edge == Edge::Bottom ==> y >= layout.server_screen.height as i32 && entry_y == 0
            &&& (p.edge == Edge::Left || p.edge == Edge::Right) ==> {
                &&& along_y < 0 ==> entry_y == 0
                &&& along_y >= ph ==> entry_y == ph - 1
                &&& 0 <= along_y < ph ==> entry_y == along_y
            }
            &&& (p.edge == Edge::Top || p.edge == Edge::Bottom) ==> {
                &&& along_x < 0 ==> entry_x == 0
                &&& along_x >= pw ==> entry_x == pw - 1
                &&& 0 <= along_x < pw ==> entry_x == along_x
            }
        },
{
    assert(layout.peers@.len() == layout.peers.len());
    lemma_edge_cross_from(layout.server_w(), layout.server_h(), layout.peers@, x, y, 0);
}

/// The cursor stays on the server exactly when it has passed no edge that a
/// peer sits on: left of the server for a peer on the left, right of it for
/// one on the right, above it for one above, below it for one below.
pub proof fn lemma_stays_iff_no_peer_edge_passed(layout: &Layout, x: i32, y: i32)
    ensures
        (layout.spec_check_edge(x, y) == EdgeCross::Stay) <==> forall|j: int|
            0 <= j < layout.peers@.len() ==> {
                let e = #[trigger] layout.peers@[j].edge;
                &&& e == Edge::Left ==> x >= 0
                &&& e == Edge::Right ==> x < layout.server_screen.width as i32
                &&& e == Edge::Top ==> y >= 0
                &&& e == Edge::Bottom ==> y < layout.server_screen.height as i32
            },
{
    assert(layout.peers@.len() == layout.peers.len());
    lemma_edge_cross_from(layout.server_w(), layout.server_h(), layout.peers@, x, y, 0);
    if let EdgeCross::Cross { peer_index, .. } = layout.spec_check_edge(x, y) {
        let e = layout.peers@[peer_index as int].edge;
        assert(passes_edge(layout.server_w(), layout.server_h(), e, x, y));
    }
}

/// Moving the cursor down (right) along the server's side edge (top or bottom
/// edge) never moves its entry point on the same peer up (left): the entry
/// point follows the cursor.
pub proof fn lemma_entry_follows_cursor(layout: &Layout, x1: i32, y1: i32, x2: i32, y2: i32)
    requires
        layout.check_edge_defined(x1, y1),
        layout.check_edge_defined(x2, y2),
    ensures
        layout.spec_check_edge(x1, y1) matches EdgeCross::Cross { peer_index: i1, entry_x: ex1, entry_y: ey1 }
            ==> layout.spec_check_edge(x2, y2) matches EdgeCross::Cross { peer_index: i2, entry_x: ex2, entry_y: ey2 }
            ==> i1 == i2 ==> {
                let e = layout.peers@[i1 as int].edge;
                &&& (e == Edge::Left || e == Edge::Right) && y1 <= y2 ==> ey1 <= ey2
                &&& (e == Edge::Top || e == Edge::Bottom) && x1 <= x2 ==> ex1 <= ex2
            },
{
    lemma_entry_on_facing_edge(layout, x1, y1);
    lemma_entry_on_facing_edge(layout, x2, y2);
    lemma_entry_inside_peer_sizes(layout, x1, y1);
    lemma_entry_inside_peer_sizes(layout, x2, y2);
}

/// Along the facing edge the entry point lies on the peer: between its first
/// and last row (column).
proof fn lemma_entry_inside_peer_sizes(layout: &Layout, x: i32, y: i32)
    requires
        layout.check_edge_defined(x, y),
    ensures
        layout.spec_check_edge(x, y) matches EdgeCross::Cross { peer_index, entry_x, entry_y } ==> {
            let p = layout.peers@[peer_index as int];
            &&& (p.edge == Edge::Left || p.edge == Edge::Right) ==> 0 <= entry_y <= (p.screen.height as i32) - 1
            &&& (p.edge == Edge::Top || p.edge == Edge::Bottom) ==> 0 <= entry_x <= (p.screen.width as i32) - 1
        },
{
    assert(layout.peers@.len() == layout.peers.len());
    lemma_edge_cross_from(layout.server_w(), layout.server_h(), layout.peers@, x, y, 0);
}

/// The cursor enters the peer it crosses into at that peer's entry point:
/// at the peer's edge that faces the server, and along it at the cursor's
/// position shifted by the peer's offset, clamped to the peer's size.
pub proof fn lemma_entry_is_entry_point(layout: &Layout, x: i32, y: i32)
    requires
        layout.check_edge_defined(x, y),
    ensures
        layout.spec_check_edge(x, y) matches EdgeCross::Cross { peer_index, entry_x, entry_y } ==> {
            &&& peer_index < layout.peers@.len()
            &&& entry_x == entry_point(layout.peers@[peer_index as int], x, y).0
            &&& entry_y == entry_point(layout.peers@[peer_index as int], x, y).1
        },
{
    assert(layout.peers@.len() == layout.peers.len());
    lemma_edge_cross_from(layout.server_w(), layout.server_h(), layout.peers@, x, y, 0);
}

/// The entry point lies on the peer's screen whenever that screen has a size
/// the check can read: a width and a height between 1 and `i32::MAX`.
pub proof fn lemma_entry_inside_peer(layout: &Layout, x: i32, y: i32)
    requires
        layout.check_edge_defined(x, y),
    ensures
        layout.spec_check_edge(x, y) matches EdgeCross::Cross { peer_index, entry_x, entry_y } ==> {
            let p = layout.peers@[peer_index as int];
            1 <= p.screen.width <= i32::MAX && 1 <= p.screen.height <= i32::MAX ==> {
                &&& 0 <= entry_x < p.screen.width
                &&& 0 <= entry_y < p.screen.height
            }
        },
{
    assert(layout.peers@.len() == layout.peers.len());
    lemma_edge_cross_from(layout.server_w(), layout.server_h(), layout.peers@, x, y, 0);
}

} // verus!

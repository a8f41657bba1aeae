use dshare::layout::{Edge, EdgeCross, Layout, PeerScreen, Screen};
use uuid::Uuid;

fn layout_with_right_peer() -> Layout {
    Layout {
        server_screen: Screen { width: 1920, height: 1080 },
        peers: vec![PeerScreen {
            peer_id: Uuid::nil(),
            name: "ubuntu".into(),
            edge: Edge::Right,
            offset: 0,
            screen: Screen { width: 2560, height: 1440 },
        }],
    }
}

fn peer(edge: Edge, offset: i32, width: u32, height: u32) -> PeerScreen {
    PeerScreen { peer_id: Uuid::nil(), name: "p".into(), edge, offset, screen: Screen { width, height } }
}

#[test]
fn cursor_within_server_stays() {
    let l = layout_with_right_peer();
    assert_eq!(l.check_edge(100, 100), EdgeCross::Stay);
}

#[test]
fn cursor_crosses_right_edge() {
    let l = layout_with_right_peer();
    match l.check_edge(1920, 500) {
        EdgeCross::Cross { peer_index: 0, entry_x: 0, entry_y: 500 } => {}
        other => panic!("expected right cross, got {other:?}"),
    }
}

#[test]
fn cursor_clamped_below_peer_height() {
    let l = layout_with_right_peer();
    // Server is 1080 tall, peer is 1440 — y=1079 maps to 1079 on peer.
    if let EdgeCross::Cross { entry_y, .. } = l.check_edge(1920, 1079) {
        assert_eq!(entry_y, 1079);
    } else {
        panic!("expected cross");
    }
}

#[test]
fn left_edge_enters_at_right_column() {
    let l = Layout {
        server_screen: Screen { width: 1920, height: 1080 },
        peers: vec![peer(Edge::Left, 100, 1280, 720)],
    };
    assert_eq!(l.check_edge(-1, 50), EdgeCross::Cross { peer_index: 0, entry_x: 1279, entry_y: 0 });
    assert_eq!(l.check_edge(-1, 300), EdgeCross::Cross { peer_index: 0, entry_x: 1279, entry_y: 200 });
    assert_eq!(l.check_edge(-1, 5000), EdgeCross::Cross { peer_index: 0, entry_x: 1279, entry_y: 719 });
    assert_eq!(l.check_edge(0, 300), EdgeCross::Stay);
}

#[test]
fn top_and_bottom_edges() {
    let l = Layout {
        server_screen: Screen { width: 1920, height: 1080 },
        peers: vec![peer(Edge::Top, 0, 800, 600), peer(Edge::Bottom, -200, 1024, 768)],
    };
    assert_eq!(l.check_edge(900, -1), EdgeCross::Cross { peer_index: 0, entry_x: 799, entry_y: 599 });
    assert_eq!(l.check_edge(100, 1080), EdgeCross::Cross { peer_index: 1, entry_x: 300, entry_y: 0 });
    assert_eq!(l.check_edge(-5, 500), EdgeCross::Stay);
}

#[test]
fn first_matching_peer_wins() {
    let l = Layout {
        server_screen: Screen { width: 1920, height: 1080 },
        peers: vec![peer(Edge::Top, 0, 800, 600), peer(Edge::Right, 0, 800, 600), peer(Edge::Right, 0, 100, 100)],
    };
    assert_eq!(l.check_edge(2000, 10), EdgeCross::Cross { peer_index: 1, entry_x: 0, entry_y: 10 });
}

#[test]
fn no_peers_always_stays() {
    let l = Layout::default();
    assert_eq!(l.check_edge(-100, -100), EdgeCross::Stay);
    assert_eq!(l.server_screen, Screen { width: 1920, height: 1080 });
}

#[test]
fn add_and_remove_peers() {
    let mut l = Layout::default();
    l.add_peer(Uuid::nil());
    l.add_peer(Uuid::from_u128(7));
    assert_eq!(l.peers.len(), 2);
    assert_eq!(l.peers[1].peer_id, Uuid::from_u128(7));
    assert_eq!(l.peers[1].name, "peer");
    assert_eq!(l.peers[1].edge, Edge::Right);
    assert_eq!(l.peers[1].offset, 0);
    assert_eq!(l.peers[1].screen, Screen::default());
    l.remove_peer(0);
    assert_eq!(l.peers.len(), 1);
    assert_eq!(l.peers[0].peer_id, Uuid::from_u128(7));
}

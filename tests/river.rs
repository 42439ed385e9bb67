use openciv::tile::RiverEdges;

#[test]
fn test_none() {
    let river = RiverEdges::none();
    assert_eq!(river.0, 0);
    assert!(!river.has_river());
}

#[test]
fn test_all() {
    let river = RiverEdges::all();
    assert_eq!(river.0, 0b0011_1111);
    assert!(river.has_river());
    assert_eq!(river.edge_count(), 6);
}

#[test]
fn river_test_new() {
    let river = RiverEdges::new(RiverEdges::EDGE_E | RiverEdges::EDGE_W);
    assert!(river.has_edge(RiverEdges::EDGE_E));
    assert!(river.has_edge(RiverEdges::EDGE_W));
    assert!(!river.has_edge(RiverEdges::EDGE_NE));
}

#[test]
fn test_new_masks_high_bits() {
    // High bits should be masked off
    let river = RiverEdges::new(0xFF);
    assert_eq!(river.0, 0b0011_1111);
}

#[test]
fn test_from_edges() {
    let river =
        RiverEdges::from_edges(&[RiverEdges::EDGE_NE, RiverEdges::EDGE_E, RiverEdges::EDGE_SE]);
    assert!(river.has_edge(RiverEdges::EDGE_NE));
    assert!(river.has_edge(RiverEdges::EDGE_E));
    assert!(river.has_edge(RiverEdges::EDGE_SE));
    assert!(!river.has_edge(RiverEdges::EDGE_W));
    assert_eq!(river.edge_count(), 3);
}

#[test]
fn river_test_default() {
    let river = RiverEdges::default();
    assert_eq!(river, RiverEdges::none());
}

#[test]
fn test_set_edge() {
    let mut river = RiverEdges::none();
    river.set_edge(RiverEdges::EDGE_NE);
    assert!(river.has_edge(RiverEdges::EDGE_NE));
    assert!(!river.has_edge(RiverEdges::EDGE_E));
}

#[test]
fn test_clear_edge() {
    let mut river = RiverEdges::all();
    river.clear_edge(RiverEdges::EDGE_NE);
    assert!(!river.has_edge(RiverEdges::EDGE_NE));
    assert!(river.has_edge(RiverEdges::EDGE_E));
    assert_eq!(river.edge_count(), 5);
}

#[test]
fn test_toggle_edge() {
    let mut river = RiverEdges::none();

    // Toggle on
    river.toggle_edge(RiverEdges::EDGE_NE);
    assert!(river.has_edge(RiverEdges::EDGE_NE));

    // Toggle off
    river.toggle_edge(RiverEdges::EDGE_NE);
    assert!(!river.has_edge(RiverEdges::EDGE_NE));
}

#[test]
fn test_has_river() {
    assert!(!RiverEdges::none().has_river());
    assert!(RiverEdges::new(RiverEdges::EDGE_E).has_river());
    assert!(RiverEdges::all().has_river());
}

#[test]
fn test_has_edge() {
    let river = RiverEdges::new(RiverEdges::EDGE_NE | RiverEdges::EDGE_SW);
    assert!(river.has_edge(RiverEdges::EDGE_NE));
    assert!(river.has_edge(RiverEdges::EDGE_SW));
    assert!(!river.has_edge(RiverEdges::EDGE_E));
    assert!(!river.has_edge(RiverEdges::EDGE_W));
    assert!(!river.has_edge(RiverEdges::EDGE_NW));
    assert!(!river.has_edge(RiverEdges::EDGE_SE));
}

#[test]
fn test_edge_count() {
    assert_eq!(RiverEdges::none().edge_count(), 0);
    assert_eq!(RiverEdges::new(RiverEdges::EDGE_E).edge_count(), 1);
    assert_eq!(
        RiverEdges::new(RiverEdges::EDGE_E | RiverEdges::EDGE_W).edge_count(),
        2
    );
    assert_eq!(RiverEdges::all().edge_count(), 6);
}

#[test]
fn test_iter_edges_empty() {
    let river = RiverEdges::none();
    let edges: Vec<u8> = river.iter_edges();
    assert!(edges.is_empty());
}

#[test]
fn test_iter_edges_single() {
    let river = RiverEdges::new(RiverEdges::EDGE_NE);
    let edges: Vec<u8> = river.iter_edges();
    assert_eq!(edges.len(), 1);
    assert_eq!(edges[0], RiverEdges::EDGE_NE);
}

#[test]
fn test_iter_edges_multiple() {
    let river = RiverEdges::from_edges(&[RiverEdges::EDGE_E, RiverEdges::EDGE_NW, RiverEdges::EDGE_SW]);
    let edges: Vec<u8> = river.iter_edges();
    assert_eq!(edges.len(), 3);
    assert!(edges.contains(&RiverEdges::EDGE_E));
    assert!(edges.contains(&RiverEdges::EDGE_NW));
    assert!(edges.contains(&RiverEdges::EDGE_SW));
}

#[test]
fn test_iter_edges_all() {
    let river = RiverEdges::all();
    let edges: Vec<u8> = river.iter_edges();
    assert_eq!(edges.len(), 6);
}

#[test]
fn test_opposite_edge() {
    assert_eq!(RiverEdges::opposite_edge(RiverEdges::EDGE_E), RiverEdges::EDGE_W);
    assert_eq!(RiverEdges::opposite_edge(RiverEdges::EDGE_W), RiverEdges::EDGE_E);
    assert_eq!(RiverEdges::opposite_edge(RiverEdges::EDGE_NE), RiverEdges::EDGE_SW);
    assert_eq!(RiverEdges::opposite_edge(RiverEdges::EDGE_SW), RiverEdges::EDGE_NE);
    assert_eq!(RiverEdges::opposite_edge(RiverEdges::EDGE_NW), RiverEdges::EDGE_SE);
    assert_eq!(RiverEdges::opposite_edge(RiverEdges::EDGE_SE), RiverEdges::EDGE_NW);
}

#[test]
fn test_opposite_edge_invalid() {
    assert_eq!(RiverEdges::opposite_edge(0), 0);
    assert_eq!(RiverEdges::opposite_edge(0xFF), 0);
}

#[test]
fn test_edge_to_index() {
    assert_eq!(RiverEdges::edge_to_index(RiverEdges::EDGE_E), Some(0));
    assert_eq!(RiverEdges::edge_to_index(RiverEdges::EDGE_NE), Some(1));
    assert_eq!(RiverEdges::edge_to_index(RiverEdges::EDGE_NW), Some(2));
    assert_eq!(RiverEdges::edge_to_index(RiverEdges::EDGE_W), Some(3));
    assert_eq!(RiverEdges::edge_to_index(RiverEdges::EDGE_SW), Some(4));
    assert_eq!(RiverEdges::edge_to_index(RiverEdges::EDGE_SE), Some(5));
    assert_eq!(RiverEdges::edge_to_index(0), None);
    assert_eq!(RiverEdges::edge_to_index(0xFF), None);
}

#[test]
fn test_index_to_edge() {
    assert_eq!(RiverEdges::index_to_edge(0), Some(RiverEdges::EDGE_E));
    assert_eq!(RiverEdges::index_to_edge(1), Some(RiverEdges::EDGE_NE));
    assert_eq!(RiverEdges::index_to_edge(2), Some(RiverEdges::EDGE_NW));
    assert_eq!(RiverEdges::index_to_edge(3), Some(RiverEdges::EDGE_W));
    assert_eq!(RiverEdges::index_to_edge(4), Some(RiverEdges::EDGE_SW));
    assert_eq!(RiverEdges::index_to_edge(5), Some(RiverEdges::EDGE_SE));
    assert_eq!(RiverEdges::index_to_edge(6), None);
}

#[test]
fn test_bits() {
    let river = RiverEdges::new(RiverEdges::EDGE_E | RiverEdges::EDGE_NE);
    assert_eq!(river.bits(), 0b00000011);
}

use eki::topology::{
    check_steady, check_transient, create_id_to_index, edge_indices, incidence_matrix, index,
    k_matrix, kminus_matrix, kplus_matrix, position_of_edge, position_of_id,
};
use eki::NetworkError;

#[test]
fn id_to_index_follows_node_order() {
    let ids = vec![7, 3, 12, 0];
    let map = create_id_to_index(&ids);
    assert_eq!(map.len(), 4);
    assert_eq!(index(&map, 7), Ok(0));
    assert_eq!(index(&map, 3), Ok(1));
    assert_eq!(index(&map, 12), Ok(2));
    assert_eq!(index(&map, 0), Ok(3));
    assert_eq!(index(&map, 5), Err(NetworkError::UnknownId(5)));
}

#[test]
fn id_to_index_of_empty_network() {
    let map = create_id_to_index(&vec![]);
    assert!(map.is_empty());
    assert_eq!(index(&map, 0), Err(NetworkError::UnknownId(0)));
}

#[test]
fn edge_indices_resolve_ids() {
    // Three reservoirs 0, 1, 2 feeding junction 3.
    let map = create_id_to_index(&vec![0, 1, 2, 3]);
    let ends = vec![(0, 3), (1, 3), (3, 2)];
    assert_eq!(edge_indices(&map, &ends), Ok(vec![(0, 3), (1, 3), (3, 2)]));
    let map = create_id_to_index(&vec![10, 20]);
    assert_eq!(edge_indices(&map, &vec![(20, 10)]), Ok(vec![(1, 0)]));
}

#[test]
fn edge_indices_report_first_unknown_id() {
    let map = create_id_to_index(&vec![0, 1]);
    assert_eq!(edge_indices(&map, &vec![(0, 1), (1, 9), (8, 0)]), Err(NetworkError::UnknownId(9)));
    assert_eq!(edge_indices(&map, &vec![(6, 7)]), Err(NetworkError::UnknownId(6)));
}

#[test]
fn incidence_operators_of_three_reservoirs() {
    let edges = vec![(0, 3), (1, 3), (3, 2)];
    let k = k_matrix(&edges, 4);
    assert_eq!(k, vec![vec![1, 0, 0, -1], vec![0, 1, 0, -1], vec![0, 0, -1, 1]]);
    let kp = kplus_matrix(&edges, 4);
    assert_eq!(kp, vec![vec![1, 0, 0, 0], vec![0, 1, 0, 0], vec![0, 0, 0, 1]]);
    let km = kminus_matrix(&edges, 4);
    assert_eq!(km, vec![vec![0, 0, 0, 1], vec![0, 0, 0, 1], vec![0, 0, 1, 0]]);
    let kt = incidence_matrix(&edges, 4);
    assert_eq!(kt, vec![vec![1, 0, 0], vec![0, 1, 0], vec![0, 0, -1], vec![-1, -1, 1]]);
    for j in 0..3 {
        for i in 0..4 {
            assert_eq!(k[j][i], kp[j][i] - km[j][i]);
            assert_eq!(k[j][i], kt[i][j]);
        }
    }
}

#[test]
fn incidence_of_no_edges() {
    assert!(k_matrix(&vec![], 3).is_empty());
    assert_eq!(incidence_matrix(&vec![], 2), vec![Vec::<i8>::new(), Vec::new()]);
}

#[test]
fn positions_by_id() {
    assert_eq!(position_of_id(&vec![4, 2, 9, 2], 2), Some(1));
    assert_eq!(position_of_id(&vec![4, 2, 9], 5), None);
    let ends = vec![(0, 1), (1, 2), (1, 0)];
    assert_eq!(position_of_edge(&ends, 1, 0), Some(2));
    assert_eq!(position_of_edge(&ends, 2, 1), None);
}

#[test]
fn checks_before_solving() {
    assert_eq!(check_steady(2, 1), Ok(()));
    assert_eq!(check_steady(0, 0), Err(NetworkError::EmptyNetwork));
    assert_eq!(check_steady(2, 0), Err(NetworkError::EmptyNetwork));
    assert_eq!(check_transient(2, 1, true), Ok(()));
    assert_eq!(check_transient(2, 1, false), Err(NetworkError::MissingSteady));
    assert_eq!(check_transient(2, 0, false), Err(NetworkError::EmptyNetwork));
}

use blocker::cfg::{successor_edges, Edge, EdgeLabel, Terminator};

fn ok_edges(term: Option<Terminator>) -> Vec<Edge> {
    successor_edges(&term).expect("terminator should be recognized")
}

#[test]
fn zero_edge_terminators() {
    assert_eq!(ok_edges(None), vec![]);
    assert_eq!(ok_edges(Some(Terminator::Resume)), vec![]);
    assert_eq!(ok_edges(Some(Terminator::Return)), vec![]);
    assert_eq!(ok_edges(Some(Terminator::Unreachable)), vec![]);
}

#[test]
fn goto_single_edge() {
    let edges = ok_edges(Some(Terminator::Goto { target: 4 }));
    assert_eq!(edges, vec![Edge { target: 4, label: EdgeLabel::Goto }]);
}

#[test]
fn call_no_targets() {
    let edges = ok_edges(Some(Terminator::Call { destination: None, cleanup: None }));
    assert_eq!(edges, vec![]);
}

#[test]
fn call_destination_only() {
    let edges = ok_edges(Some(Terminator::Call { destination: Some(1), cleanup: None }));
    assert_eq!(edges, vec![Edge { target: 1, label: EdgeLabel::Call }]);
}

#[test]
fn call_cleanup_only() {
    let edges = ok_edges(Some(Terminator::Call { destination: None, cleanup: Some(2) }));
    assert_eq!(edges, vec![Edge { target: 2, label: EdgeLabel::Cleanup }]);
}

#[test]
fn call_normal_edge_before_cleanup_edge() {
    let edges = ok_edges(Some(Terminator::Call { destination: Some(1), cleanup: Some(2) }));
    assert_eq!(
        edges,
        vec![
            Edge { target: 1, label: EdgeLabel::Call },
            Edge { target: 2, label: EdgeLabel::Cleanup },
        ]
    );
}

#[test]
fn switch_edges_in_target_order_default_last() {
    let edges = ok_edges(Some(Terminator::SwitchInt {
        targets: vec![3, 1, 4],
        otherwise: Some(9),
    }));
    assert_eq!(
        edges,
        vec![
            Edge { target: 3, label: EdgeLabel::SwitchInt },
            Edge { target: 1, label: EdgeLabel::SwitchInt },
            Edge { target: 4, label: EdgeLabel::SwitchInt },
            Edge { target: 9, label: EdgeLabel::SwitchInt },
        ]
    );
}

#[test]
fn switch_without_default() {
    let edges = ok_edges(Some(Terminator::SwitchInt { targets: vec![5, 6], otherwise: None }));
    assert_eq!(
        edges,
        vec![
            Edge { target: 5, label: EdgeLabel::SwitchInt },
            Edge { target: 6, label: EdgeLabel::SwitchInt },
        ]
    );
}

#[test]
fn switch_with_no_targets_at_all() {
    let edges = ok_edges(Some(Terminator::SwitchInt { targets: vec![], otherwise: None }));
    assert_eq!(edges, vec![]);
}

#[test]
fn drop_with_unwind() {
    let edges = ok_edges(Some(Terminator::Drop { target: 1, unwind: Some(2) }));
    assert_eq!(
        edges,
        vec![
            Edge { target: 1, label: EdgeLabel::Drop },
            Edge { target: 2, label: EdgeLabel::Unwind },
        ]
    );
}

#[test]
fn drop_without_unwind() {
    let edges = ok_edges(Some(Terminator::Drop { target: 1, unwind: None }));
    assert_eq!(edges, vec![Edge { target: 1, label: EdgeLabel::Drop }]);
}

#[test]
fn drop_and_replace_edges() {
    let edges = ok_edges(Some(Terminator::DropAndReplace { target: 3, unwind: Some(7) }));
    assert_eq!(
        edges,
        vec![
            Edge { target: 3, label: EdgeLabel::DropReplace },
            Edge { target: 7, label: EdgeLabel::Unwind },
        ]
    );
}

#[test]
fn assertion_with_cleanup() {
    let edges = ok_edges(Some(Terminator::Assertion { target: 1, cleanup: Some(2) }));
    assert_eq!(
        edges,
        vec![
            Edge { target: 1, label: EdgeLabel::Assertion },
            Edge { target: 2, label: EdgeLabel::Cleanup },
        ]
    );
}

#[test]
fn assertion_without_cleanup() {
    let edges = ok_edges(Some(Terminator::Assertion { target: 1, cleanup: None }));
    assert_eq!(edges, vec![Edge { target: 1, label: EdgeLabel::Assertion }]);
}

#[test]
fn unknown_terminator_rejected() {
    let term = Some(Terminator::Unknown);
    assert!(successor_edges(&term).is_err());
}

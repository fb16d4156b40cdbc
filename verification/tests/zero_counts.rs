use lib::labels::Authority;
use lib::zero_counts::{
    CellSample, GainRead, cell_ledger, cells_arm, distinct_zero_counts, insert_distinct,
    zero_law_holds, zeros_by_authority,
};

fn s(inc: bool, authority: Authority, zeros: usize) -> CellSample {
    CellSample { inc, authority, zeros, parent: true }
}

#[test]
fn distinct_counts_are_sorted_and_deduplicated() {
    assert_eq!(distinct_zero_counts(&vec![2, 1, 2, 0, 1, 2]), vec![0, 1, 2]);
    assert_eq!(distinct_zero_counts(&vec![1, 1, 1]), vec![1]);
    assert_eq!(distinct_zero_counts(&Vec::new()), Vec::<usize>::new());
}

#[test]
fn insert_keeps_a_sorted_set() {
    let mut v = vec![1, 4, 9];
    insert_distinct(&mut v, 4);
    assert_eq!(v, vec![1, 4, 9]);
    insert_distinct(&mut v, 5);
    assert_eq!(v, vec![1, 4, 5, 9]);
    insert_distinct(&mut v, 0);
    insert_distinct(&mut v, 10);
    assert_eq!(v, vec![0, 1, 4, 5, 9, 10]);
}

#[test]
fn ledger_files_live_points_in_first_seen_order() {
    let samples = vec![
        s(false, Authority::Dormant, 3),
        s(false, Authority::Gov, 1),
        s(false, Authority::Fuel, 2),
        s(false, Authority::Gov, 1),
        s(false, Authority::Tie, 0),
        s(true, Authority::Fuel, 1),
        s(false, Authority::Fuel, 2),
        s(true, Authority::Gov, 0),
    ];
    let cells = cell_ledger(&samples);
    let keys: Vec<(bool, Authority, usize)> =
        cells.iter().map(|c| (c.inc, c.authority, c.n)).collect();
    assert_eq!(keys, vec![
        (false, Authority::Gov, 2),
        (false, Authority::Fuel, 2),
        (true, Authority::Fuel, 1),
        (true, Authority::Gov, 1),
    ]);
    assert_eq!(cells[0].zeros, vec![1]);
    assert_eq!(cells[1].zeros, vec![2]);
    assert_eq!(cells[3].zeros, vec![0]);
    assert!(zero_law_holds(&cells));
    let filed: usize = cells.iter().map(|c| c.n).sum();
    assert_eq!(filed, 6);
}

#[test]
fn a_cell_that_saw_two_zero_counts_breaks_the_law() {
    let samples = vec![
        s(false, Authority::Fuel, 2),
        s(false, Authority::Fuel, 1),
        s(false, Authority::Fuel, 2),
    ];
    let cells = cell_ledger(&samples);
    assert_eq!(cells.len(), 1);
    assert_eq!(cells[0].n, 3);
    assert_eq!(cells[0].zeros, vec![1, 2]);
    assert!(!zero_law_holds(&cells));
}

#[test]
fn ledger_of_dormant_points_is_empty() {
    let samples = vec![s(true, Authority::Dormant, 0), s(false, Authority::Tie, 1)];
    assert!(cell_ledger(&samples).is_empty());
    assert!(zero_law_holds(&Vec::new()));
}

#[test]
fn zero_table_is_listed_in_label_order() {
    let samples = vec![
        (Authority::Gov, 0),
        (Authority::Fuel, 1),
        (Authority::Gov, 1),
        (Authority::Fuel, 1),
        (Authority::Gov, 0),
        (Authority::Tie, 2),
    ];
    let t = zeros_by_authority(&samples);
    let rows: Vec<(Authority, Vec<usize>)> =
        t.into_iter().map(|r| (r.authority, r.zeros)).collect();
    assert_eq!(rows, vec![
        (Authority::Tie, vec![2]),
        (Authority::Fuel, vec![1]),
        (Authority::Gov, vec![0, 1]),
    ]);
    assert!(zeros_by_authority(&Vec::new()).is_empty());
}

#[test]
fn arm_tally_counts_why_each_read_was_passed_over() {
    let reads = vec![
        GainRead::Dropped { near_switch: true },
        GainRead::Interior { authority: Authority::Fuel, zeros: 1, parent: true },
        GainRead::Dropped { near_switch: false },
        GainRead::Interior { authority: Authority::Fuel, zeros: 1, parent: false },
        GainRead::Interior { authority: Authority::Tie, zeros: 2, parent: false },
        GainRead::Dropped { near_switch: true },
        GainRead::Interior { authority: Authority::Gov, zeros: 0, parent: true },
    ];
    let t = cells_arm(&reads, true);
    assert_eq!((t.skipped_switch, t.skipped_regime, t.skipped_parent), (2, 1, 1));
    let cells: Vec<(bool, Authority, usize, usize, Vec<usize>)> = t
        .cells
        .iter()
        .map(|c| (c.inc, c.authority, c.n, c.n_parent, c.zeros.clone()))
        .collect();
    assert_eq!(cells, vec![
        (true, Authority::Fuel, 2, 1, vec![1]),
        (true, Authority::Gov, 1, 1, vec![0]),
    ]);
}

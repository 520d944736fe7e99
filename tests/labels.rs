use bayes_mixture::group::Group;
use bayes_mixture::labels::{check_populated, count_groups, parse_groups, DataError, GroupCounts, Labels};

#[test]
fn group_codes_round_trip() {
    for code in 1u8..=4 {
        let g = Group::from_code(code).unwrap();
        assert_eq!(g.code(), code);
    }
    assert_eq!(Group::from_code(3), Some(Group::Three));
}

#[test]
fn group_code_out_of_range_is_rejected() {
    assert_eq!(Group::from_code(0), None);
    assert_eq!(Group::from_code(5), None);
    assert_eq!(Group::from_code(255), None);
}

#[test]
fn parse_groups_reads_each_row() {
    let gs = parse_groups(&vec![4, 1, 1, 3, 2]).unwrap();
    assert_eq!(gs, vec![Group::Four, Group::One, Group::One, Group::Three, Group::Two]);
}

#[test]
fn parse_groups_reports_first_invalid_row() {
    let r = parse_groups(&vec![1, 2, 7, 0, 3]);
    assert_eq!(r, Err(DataError::InvalidGroup { row: 2, code: 7 }));
}

#[test]
fn parse_groups_of_empty_column() {
    assert_eq!(parse_groups(&vec![]), Ok(vec![]));
}

#[test]
fn count_groups_counts_each_label() {
    let gs = vec![Group::One, Group::Four, Group::Four, Group::Three, Group::Four];
    let c = count_groups(&gs);
    assert_eq!(c, GroupCounts { n1: 1, n2: 0, n3: 1, n4: 3 });
    assert_eq!(c.count(Group::Four), 3);
    assert_eq!(c.count(Group::Two), 0);
}

#[test]
fn check_populated_names_first_empty_group() {
    let c = GroupCounts { n1: 2, n2: 0, n3: 0, n4: 1 };
    assert_eq!(check_populated(&c), Err(DataError::EmptyGroup { group: Group::Two }));
    let full = GroupCounts { n1: 2, n2: 1, n3: 5, n4: 1 };
    assert_eq!(check_populated(&full), Ok(()));
}

#[test]
fn labels_one_row_per_group() {
    let l = Labels::from_codes(&vec![1, 2, 3, 4]).unwrap();
    assert_eq!(l.len(), 4);
    assert_eq!(l.group(0), Group::One);
    assert_eq!(l.group(3), Group::Four);
    assert_eq!(l.counts(), GroupCounts { n1: 1, n2: 1, n3: 1, n4: 1 });
}

#[test]
fn labels_reject_invalid_code() {
    match Labels::from_codes(&vec![1, 2, 3, 4, 9]) {
        Err(e) => assert_eq!(e, DataError::InvalidGroup { row: 4, code: 9 }),
        Ok(_) => panic!("an invalid code was accepted"),
    }
}

#[test]
fn labels_reject_missing_group() {
    match Labels::from_codes(&vec![1, 2, 2, 1, 4]) {
        Err(e) => assert_eq!(e, DataError::EmptyGroup { group: Group::Three }),
        Ok(_) => panic!("a dataset without group three was accepted"),
    }
}

#[test]
fn labels_reject_empty_dataset() {
    match Labels::from_codes(&vec![]) {
        Err(e) => assert_eq!(e, DataError::EmptyGroup { group: Group::One }),
        Ok(_) => panic!("an empty dataset was accepted"),
    }
}

use dashboard_core::app::data_farmer::DataCollection;
use dashboard_core::app::data_harvester::Data;
use dashboard_core::app::frozen_state::FrozenState;

fn collection(times: &[u64]) -> DataCollection {
    let mut dc = DataCollection::default();
    for &t in times {
        dc.eat_data(Box::new(Data { collection_time: t }));
    }
    dc
}

fn times(dc: &DataCollection) -> Vec<u64> {
    dc.data.iter().map(|d| d.collection_time).collect()
}

#[test]
fn eat_data_appends_and_advances_the_clock() {
    let mut dc = DataCollection::default();
    assert!(dc.data.is_empty());
    assert_eq!(dc.current_time, 0);
    dc.eat_data(Box::new(Data { collection_time: 700 }));
    dc.eat_data(Box::new(Data { collection_time: 900 }));
    assert_eq!(times(&dc), vec![700, 900]);
    assert_eq!(dc.current_time, 900);
}

#[test]
fn clean_removes_stale_points_and_keeps_order() {
    let mut dc = collection(&[0, 400, 600, 1000]);
    assert_eq!(dc.current_time, 1000);
    dc.clean_data(500);
    // Points more than 500 ms older than the last harvest (1000) go.
    assert_eq!(times(&dc), vec![600, 1000]);
    assert_eq!(dc.current_time, 1000);
}

#[test]
fn clean_keeps_points_exactly_at_the_age_limit() {
    let mut dc = collection(&[499, 500, 1000]);
    dc.clean_data(500);
    assert_eq!(times(&dc), vec![500, 1000]);
}

#[test]
fn clean_of_empty_collection_is_a_no_op() {
    let mut dc = DataCollection::default();
    dc.clean_data(500);
    assert!(dc.data.is_empty());
    assert_eq!(dc.current_time, 0);
}

#[test]
fn deep_copy_matches_the_original() {
    let dc = collection(&[1, 2, 3]);
    let copy = dc.deep_copy();
    assert_eq!(times(&copy), vec![1, 2, 3]);
    assert_eq!(copy.current_time, 3);
}

#[test]
fn toggling_freeze_twice_restores_occupancy() {
    let mut frozen = FrozenState::NotFrozen;
    let first = collection(&[1, 2]);
    frozen.toggle(&first);
    // The copy reflects the instant of the freeze.
    match &frozen {
        FrozenState::Frozen(copy) => {
            assert_eq!(times(copy), vec![1, 2]);
            assert_eq!(copy.current_time, 2);
        }
        FrozenState::NotFrozen => panic!("expected a frozen copy"),
    }
    // The second toggle discards the copy, whatever is live by then.
    let second = collection(&[1, 2, 3]);
    frozen.toggle(&second);
    assert!(matches!(frozen, FrozenState::NotFrozen));
}

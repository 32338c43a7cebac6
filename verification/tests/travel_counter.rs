use travel_counter::counter::{AccountingError, CountsByRegion, TravelCounter};
use travel_counter::disease::{InfectionSeverity, State};
use travel_counter::travel::{Traveller, TravellersByRegion};

fn traveller_with(state: State) -> Traveller {
    let mut t = Traveller::new();
    t.state = state;
    t
}

fn create_travellers(region: &str) -> TravellersByRegion {
    let mut travellers = TravellersByRegion::create(&region.to_string());
    for _i in 0..2 {
        travellers.alloc_citizen(traveller_with(State::Susceptible));
        travellers.alloc_citizen(traveller_with(State::Exposed { at_hour: 10 }));
        travellers.alloc_citizen(traveller_with(State::Infected {
            symptoms: true,
            severity: InfectionSeverity::Mild,
        }));
        travellers.alloc_citizen(traveller_with(State::Recovered));
    }
    travellers
}

#[test]
fn should_add_outgoing_travellers() {
    let mut counter = TravelCounter::new("test_travel.csv".to_string());

    let travellers_by_region = vec![create_travellers("engine2"), create_travellers("engine3")];
    counter.outgoing_travellers_added(24, &travellers_by_region);
    counter.outgoing_travellers_added(48, &vec![create_travellers("engine2")]);
    counter.simulation_ended();

    assert_eq!(3, counter.counts.len());

    let row1 = CountsByRegion::new(24, "engine2".to_string(), 2, 2, 2, 2);
    let row2 = CountsByRegion::new(24, "engine3".to_string(), 2, 2, 2, 2);
    let row3 = CountsByRegion::new(48, "engine2".to_string(), 2, 2, 2, 2);

    assert_eq!(row1, *counter.counts.get(0).unwrap());
    assert_eq!(row2, *counter.counts.get(1).unwrap());
    assert_eq!(row3, *counter.counts.get(2).unwrap());
}

#[test]
fn counters_sum_to_batch_size_for_mixed_batches() {
    let mut batch = TravellersByRegion::create(&"engine9".to_string());
    batch.alloc_citizen(traveller_with(State::Susceptible));
    batch.alloc_citizen(traveller_with(State::Recovered));
    batch.alloc_citizen(traveller_with(State::Recovered));
    batch.alloc_citizen(traveller_with(State::Exposed { at_hour: 3 }));
    batch.alloc_citizen(traveller_with(State::Infected {
        symptoms: false,
        severity: InfectionSeverity::Severe,
    }));
    let rec = CountsByRegion::create_from(7, &batch);
    assert_eq!(rec.hr, 7);
    assert_eq!(rec.destination, "engine9".to_string());
    assert_eq!(rec.susceptible, 1);
    assert_eq!(rec.exposed, 1);
    assert_eq!(rec.infected, 1);
    assert_eq!(rec.recovered, 2);
    assert_eq!(
        rec.susceptible + rec.exposed + rec.infected + rec.recovered,
        batch.get_travellers_slice().len() as i32
    );
}

#[test]
fn empty_batch_yields_all_zero_record() {
    let batch = TravellersByRegion::create(&"engine1".to_string());
    let rec = CountsByRegion::create_from(0, &batch);
    let expected = CountsByRegion::new(0, "engine1".to_string(), 0, 0, 0, 0);
    assert_eq!(expected, rec);
}

#[test]
fn deceased_traveller_is_detected() {
    let mut batch = create_travellers("engine2");
    assert!(!batch.contains_deceased());
    batch.alloc_citizen(traveller_with(State::Deceased));
    assert!(batch.contains_deceased());
}

#[test]
fn batch_of_only_deceased_is_detected() {
    let mut batch = TravellersByRegion::create(&"engine4".to_string());
    batch.alloc_citizen(traveller_with(State::Deceased));
    assert!(batch.contains_deceased());
}

#[test]
fn deceased_traveller_fails_record_construction() {
    let mut batch = create_travellers("engine2");
    batch.alloc_citizen(traveller_with(State::Deceased));
    let result = CountsByRegion::try_create_from(24, &batch);
    match result {
        Ok(_) => panic!("a batch holding a deceased traveller must be refused"),
        Err(e) => {
            assert_eq!(e, AccountingError::DeceasedTraveller);
            assert_eq!(
                e.message(),
                "a deceased agent must never be included in an outgoing-travel batch"
            );
        }
    }
}

#[test]
fn clean_batch_passes_record_construction() {
    let batch = create_travellers("engine2");
    let rec = CountsByRegion::try_create_from(24, &batch).expect("clean batch must be counted");
    let expected = CountsByRegion::new(24, "engine2".to_string(), 2, 2, 2, 2);
    assert_eq!(expected, rec);
}

#[test]
fn ledger_appends_in_call_order_then_batch_order() {
    let mut counter = TravelCounter::new("travel.csv".to_string());
    counter.outgoing_travellers_added(1, &vec![create_travellers("b"), create_travellers("a")]);
    counter.outgoing_travellers_added(1, &vec![create_travellers("c")]);
    counter.outgoing_travellers_added(2, &vec![create_travellers("a")]);
    let destinations: Vec<&str> =
        counter.counts.iter().map(|r| r.destination.as_str()).collect();
    assert_eq!(destinations, vec!["b", "a", "c", "a"]);
    let hours: Vec<i32> = counter.counts.iter().map(|r| r.hr).collect();
    assert_eq!(hours, vec![1, 1, 1, 2]);
}

#[test]
fn empty_notification_leaves_ledger_unchanged() {
    let mut counter = TravelCounter::new("travel.csv".to_string());
    counter.outgoing_travellers_added(5, &vec![create_travellers("engine2")]);
    let before: Vec<String> = counter.counts.iter().map(|r| r.destination.clone()).collect();
    counter.outgoing_travellers_added(6, &vec![]);
    assert_eq!(counter.counts.len(), 1);
    let after: Vec<String> = counter.counts.iter().map(|r| r.destination.clone()).collect();
    assert_eq!(before, after);
}

#[test]
fn finalization_reproduces_ledger_in_order_with_column_order() {
    let mut counter = TravelCounter::new("travel.csv".to_string());
    let travellers_by_region = vec![create_travellers("engine2"), create_travellers("engine3")];
    counter.outgoing_travellers_added(24, &travellers_by_region);
    counter.outgoing_travellers_added(48, &vec![create_travellers("engine2")]);
    let rows = counter.simulation_ended();
    assert_eq!(rows.len(), 4);
    assert_eq!(rows[0], "hour,destination,susceptible,exposed,infected,recovered");
    assert_eq!(rows[1], "24,engine2,2,2,2,2");
    assert_eq!(rows[2], "24,engine3,2,2,2,2");
    assert_eq!(rows[3], "48,engine2,2,2,2,2");
    assert!(counter.finalized);
    assert_eq!(counter.counts.len(), 3);
}

#[test]
fn finalizing_an_empty_ledger_yields_only_the_header() {
    let mut counter = TravelCounter::new("travel.csv".to_string());
    let rows = counter.simulation_ended();
    assert_eq!(rows.len(), 1);
    assert_eq!(rows[0], "hour,destination,susceptible,exposed,infected,recovered");
}

#[test]
fn rendering_a_record_uses_the_stable_column_order() {
    let rec = CountsByRegion::new(3, "left-region".to_string(), 10, 0, 205, 7);
    let line = travel_counter::report::csv_line_of(&rec);
    assert_eq!(line, "3,left-region,10,0,205,7");
}

#[test]
fn decimal_rendering_handles_zero_negatives_and_extremes() {
    assert_eq!(travel_counter::report::i32_to_string(0), "0");
    assert_eq!(travel_counter::report::i32_to_string(7), "7");
    assert_eq!(travel_counter::report::i32_to_string(-42), "-42");
    assert_eq!(travel_counter::report::i32_to_string(i32::MAX), "2147483647");
    assert_eq!(travel_counter::report::i32_to_string(i32::MIN), "-2147483648");
}

use timetable::stations::StationCatalog;

#[test]
fn catalogue_keeps_the_lines_in_order() {
    let catalog = StationCatalog::load_station_names(vec![
        "Aberdeen".to_string(),
        "".to_string(),
        "Zennor Halt".to_string(),
    ])
    .unwrap();
    assert_eq!(catalog.len(), 3);
    assert_eq!(catalog.station_name(0), "Aberdeen");
    assert_eq!(catalog.station_name(1), "");
    assert_eq!(catalog.station_name(2), "Zennor Halt");
}

#[test]
fn empty_list_makes_no_catalogue() {
    assert!(StationCatalog::load_station_names(Vec::new()).is_none());
    assert!(StationCatalog::load_station_names(vec![String::new()]).is_some());
}

#[test]
fn single_name_is_always_drawn() {
    let catalog = StationCatalog::load_station_names(vec!["Abc".to_string()]).unwrap();
    for _ in 0..50 {
        assert_eq!(catalog.get_random_station_name(), "Abc");
    }
}

#[test]
fn every_name_is_drawn_and_no_other() {
    let names = vec!["Ayr".to_string(), "Bude".to_string(), "Crewe".to_string(), "Deal".to_string()];
    let catalog = StationCatalog::load_station_names(names.clone()).unwrap();
    let mut counts = [0usize; 4];
    for _ in 0..2000 {
        let name = catalog.get_random_station_name();
        let index = names.iter().position(|n| n == name).unwrap();
        counts[index] += 1;
    }
    for count in counts {
        // Each of four names is drawn about 500 times out of 2000.
        assert!(count > 300 && count < 700);
    }
}

use rdbg_launcher::port::{PortSearch, MAX_PORT, MIN_PORT};

#[test]
fn the_range_starts_above_the_system_ports() {
    assert_eq!(MIN_PORT, 1024);
    assert_eq!(MAX_PORT, 65535);
}

#[test]
fn candidates_lie_in_the_range() {
    for _ in 0..500 {
        let search = PortSearch::start();
        assert!(search.candidate() >= 1024);
    }
}

#[test]
fn a_bindable_candidate_is_the_port() {
    let mut search = PortSearch::start();
    let candidate = search.candidate();
    assert_eq!(search.report(true), Some(candidate));
    assert_eq!(search.candidate(), candidate);
}

#[test]
fn an_occupied_candidate_is_given_up() {
    let mut search = PortSearch::start();
    assert_eq!(search.report(false), None);
    assert!(search.candidate() >= 1024);
}

#[test]
fn the_search_goes_on_until_a_candidate_can_be_bound() {
    let mut search = PortSearch::start();
    for _ in 0..100 {
        assert_eq!(search.report(false), None);
    }
    let candidate = search.candidate();
    assert_eq!(search.report(true), Some(candidate));
}

#[test]
fn candidates_differ_from_draw_to_draw() {
    let mut search = PortSearch::start();
    let first = search.candidate();
    let mut changed = false;
    for _ in 0..200 {
        assert_eq!(search.report(false), None);
        let next = search.candidate();
        assert!(next >= 1024);
        if next != first {
            changed = true;
        }
    }
    assert!(changed);
}

#[test]
fn draws_reach_beyond_the_lower_bound() {
    let mut above = false;
    for _ in 0..200 {
        if PortSearch::start().candidate() > 1024 {
            above = true;
        }
    }
    assert!(above);
}

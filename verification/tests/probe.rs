use twitch_link::probe::{Probe, ProbeBoard, Resolution};

fn fourteen() -> Vec<String> {
    (0..14).map(|i| format!("https://host{}/key/720p60/index-dvr.m3u8", i)).collect()
}

fn board_of(outcomes: &[Probe], order: &[usize]) -> ProbeBoard {
    let links: Vec<String> = (0..outcomes.len()).map(|i| format!("link{}", i)).collect();
    let mut board = ProbeBoard::new(links);
    for &i in order {
        assert!(board.record(i, outcomes[i]));
    }
    board
}

#[test]
fn a_probe_succeeds_on_the_success_range_only() {
    assert!(!Probe::Status(199).is_success());
    assert!(Probe::Status(200).is_success());
    assert!(Probe::Status(204).is_success());
    assert!(Probe::Status(299).is_success());
    assert!(!Probe::Status(300).is_success());
    assert!(!Probe::Status(404).is_success());
    assert!(!Probe::Status(0).is_success());
    assert!(!Probe::Status(u16::MAX).is_success());
    assert!(!Probe::Failed.is_success());
}

#[test]
fn no_success_is_not_found() {
    let mut board = ProbeBoard::new(fourteen());
    for i in 0..14 {
        let outcome = if i % 2 == 0 { Probe::Status(403) } else { Probe::Failed };
        assert!(board.record(i, outcome));
    }
    assert_eq!(board.successes(), Vec::<String>::new());
    assert_eq!(board.resolution(), Some(Resolution::NotFound));
}

#[test]
fn two_successes_in_candidate_order() {
    let mut board = ProbeBoard::new(fourteen());
    for i in 0..14 {
        let outcome = if i == 3 || i == 9 { Probe::Status(200) } else { Probe::Status(403) };
        assert!(board.record(i, outcome));
    }
    let expected = vec![
        "https://host3/key/720p60/index-dvr.m3u8".to_string(),
        "https://host9/key/720p60/index-dvr.m3u8".to_string(),
    ];
    assert_eq!(board.successes(), expected);
    assert_eq!(board.resolution(), Some(Resolution::Found(expected)));
}

#[test]
fn two_successes_whatever_the_order_of_arrival() {
    let arrival = [9usize, 13, 0, 3, 12, 1, 11, 2, 10, 4, 8, 5, 7, 6];
    let mut board = ProbeBoard::new(fourteen());
    for &i in arrival.iter() {
        let outcome = if i == 3 || i == 9 { Probe::Status(206) } else { Probe::Failed };
        assert!(board.record(i, outcome));
    }
    assert_eq!(
        board.resolution(),
        Some(Resolution::Found(vec![
            "https://host3/key/720p60/index-dvr.m3u8".to_string(),
            "https://host9/key/720p60/index-dvr.m3u8".to_string(),
        ]))
    );
}

#[test]
fn two_arrivals_commute() {
    let outcomes = [Probe::Status(200), Probe::Status(500), Probe::Status(201)];
    let forward = board_of(&outcomes, &[0, 1, 2]);
    let backward = board_of(&outcomes, &[2, 1, 0]);
    assert_eq!(forward.successes(), backward.successes());
    assert_eq!(forward.successes(), vec!["link0".to_string(), "link2".to_string()]);
    assert_eq!(forward.resolution(), backward.resolution());
}

#[test]
fn the_first_outcome_counts() {
    let mut board = ProbeBoard::new(vec!["a".to_string(), "b".to_string()]);
    assert!(board.record(1, Probe::Status(404)));
    assert!(!board.record(1, Probe::Status(200)));
    assert!(board.record(0, Probe::Status(200)));
    assert!(!board.record(0, Probe::Failed));
    assert_eq!(board.resolution(), Some(Resolution::Found(vec!["a".to_string()])));
}

#[test]
fn an_outcome_for_no_candidate_is_refused() {
    let mut board = ProbeBoard::new(vec!["a".to_string()]);
    assert!(!board.record(1, Probe::Status(200)));
    assert!(!board.record(usize::MAX, Probe::Status(200)));
    assert_eq!(board.next_unprobed(), Some(0));
    assert_eq!(board.successes(), Vec::<String>::new());
}

#[test]
fn next_unprobed_is_the_first_gap() {
    let mut board = ProbeBoard::new(vec!["a".to_string(), "b".to_string(), "c".to_string()]);
    assert_eq!(board.next_unprobed(), Some(0));
    assert!(board.record(0, Probe::Failed));
    assert_eq!(board.next_unprobed(), Some(1));
    assert!(board.record(2, Probe::Status(200)));
    assert_eq!(board.next_unprobed(), Some(1));
    assert_eq!(board.resolution(), None);
    assert_eq!(board.successes(), vec!["c".to_string()]);
    assert!(board.record(1, Probe::Status(200)));
    assert_eq!(board.next_unprobed(), None);
    assert_eq!(
        board.resolution(),
        Some(Resolution::Found(vec!["b".to_string(), "c".to_string()]))
    );
}

#[test]
fn a_round_without_candidates_finds_nothing() {
    let board = ProbeBoard::new(Vec::new());
    assert_eq!(board.next_unprobed(), None);
    assert_eq!(board.resolution(), Some(Resolution::NotFound));
    assert_eq!(board.links(), &Vec::<String>::new());
}

#[test]
fn a_failure_aborts_nothing() {
    let mut board = ProbeBoard::new(vec!["a".to_string(), "b".to_string()]);
    assert!(board.record(0, Probe::Failed));
    assert_eq!(board.next_unprobed(), Some(1));
    assert!(board.record(1, Probe::Status(200)));
    assert_eq!(board.resolution(), Some(Resolution::Found(vec!["b".to_string()])));
}

#[test]
fn equal_links_are_each_reported() {
    let mut board = ProbeBoard::new(vec!["a".to_string(), "a".to_string()]);
    assert!(board.record(0, Probe::Status(200)));
    assert!(board.record(1, Probe::Status(200)));
    assert_eq!(board.successes(), vec!["a".to_string(), "a".to_string()]);
}

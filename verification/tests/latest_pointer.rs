use screenshot_sorter::entry::{Entry, EntryKind};
use screenshot_sorter::latest::{
    day_path, latest_path, month_path, partition_name, update_latest, year_path, LatestAction,
    LatestEvent, LatestOutcome, LatestState, LinkProbe,
};
use screenshot_sorter::numbers::{decimal_name, max_name, parse_number, two_digit_name};

fn names(list: &[&str]) -> Vec<Entry> {
    list.iter().map(|s| Entry { name: s.to_string(), kind: EntryKind::Directory }).collect()
}

#[test]
fn parse_reads_decimal_names() {
    assert_eq!(parse_number("2023"), Some(2023));
    assert_eq!(parse_number("05"), Some(5));
    assert_eq!(parse_number("0"), Some(0));
    assert_eq!(parse_number("+7"), Some(7));
    assert_eq!(parse_number("4294967295"), Some(u32::MAX));
}

#[test]
fn parse_refuses_what_is_no_number() {
    assert_eq!(parse_number(""), None);
    assert_eq!(parse_number("+"), None);
    assert_eq!(parse_number("other"), None);
    assert_eq!(parse_number("-1"), None);
    assert_eq!(parse_number("12a"), None);
    assert_eq!(parse_number(" 12"), None);
    assert_eq!(parse_number("4294967296"), None);
    assert_eq!(parse_number("99999999999999999999999"), None);
}

#[test]
fn parse_agrees_with_the_standard_parser() {
    for text in ["1", "01", "+1", "++1", "1+", "", "x", "4294967295", "4294967296", "٣"] {
        assert_eq!(parse_number(text), text.parse::<u32>().ok());
    }
}

#[test]
fn max_name_takes_the_greatest_number() {
    assert_eq!(max_name(&names(&["2022", "2023", "other", "latest"])), 2023);
    assert_eq!(max_name(&names(&["12", "01"])), 12);
    assert_eq!(max_name(&names(&["other"])), 0);
    assert_eq!(max_name(&names(&[])), 0);
}

#[test]
fn max_name_passes_over_what_is_no_directory() {
    let mut entries = names(&["2022", "2023"]);
    entries.push(Entry { name: "2024".to_string(), kind: EntryKind::File });
    entries.push(Entry { name: "2025".to_string(), kind: EntryKind::Other });
    assert_eq!(max_name(&entries), 2023);
}

#[test]
fn written_names_are_read_back() {
    for n in [0u32, 7, 10, 99, 100, 2024, u32::MAX] {
        assert_eq!(parse_number(&decimal_name(n)), Some(n));
        assert_eq!(parse_number(&two_digit_name(n)), Some(n));
    }
}

#[test]
fn numbers_are_written_as_directory_names() {
    assert_eq!(decimal_name(0), "0");
    assert_eq!(decimal_name(2023), "2023");
    assert_eq!(decimal_name(u32::MAX), "4294967295");
    assert_eq!(two_digit_name(0), "00");
    assert_eq!(two_digit_name(5), "05");
    assert_eq!(two_digit_name(12), "12");
    assert_eq!(two_digit_name(123), "123");
}

#[test]
fn formatting_agrees_with_the_standard_formatter() {
    for n in [0u32, 1, 9, 10, 11, 99, 100, 2024, u32::MAX] {
        assert_eq!(decimal_name(n), n.to_string());
        assert_eq!(two_digit_name(n), format!("{:0>2}", n));
    }
}

#[test]
fn paths_of_a_partition() {
    assert_eq!(year_path("/shots", 2023), "/shots/2023");
    assert_eq!(month_path("/shots", 2023, 1), "/shots/2023/01");
    assert_eq!(day_path("/shots", 2023, 1, 5), "/shots/2023/01/05");
    assert_eq!(partition_name(2023, 12, 31), "2023/12/31");
    assert_eq!(latest_path("/shots"), "/shots/latest");
}

#[test]
fn latest_selects_greatest_year_then_month_then_day() {
    let (state, action) = update_latest(LatestState::Idle, &LatestEvent::Begin);
    assert_eq!(action, LatestAction::ListRoot);
    let (state, action) = update_latest(state, &LatestEvent::Listed(names(&["2022", "2023"])));
    assert_eq!(action, LatestAction::ListYear { year: 2023 });
    let (state, action) = update_latest(state, &LatestEvent::Listed(names(&["12", "01"])));
    assert_eq!(action, LatestAction::ListMonth { year: 2023, month: 12 });
    let (state, action) = update_latest(state, &LatestEvent::Listed(names(&["31"])));
    assert_eq!(action, LatestAction::ProbeLink);
    let (state, action) = update_latest(state, &LatestEvent::Link(LinkProbe::Symlink));
    assert_eq!(action, LatestAction::RemoveLink);
    let (state, action) = update_latest(state, &LatestEvent::Removed);
    assert_eq!(action, LatestAction::ProbeTarget { year: 2023, month: 12, day: 31 });
    let (state, action) = update_latest(state, &LatestEvent::Target(true));
    assert_eq!(action, LatestAction::CreateLink { year: 2023, month: 12, day: 31 });
    assert_eq!(partition_name(2023, 12, 31), "2023/12/31");
    let (state, action) = update_latest(state, &LatestEvent::Linked);
    assert_eq!(action, LatestAction::Stop(LatestOutcome::Linked));
    assert_eq!(state, LatestState::Done(LatestOutcome::Linked));
    assert!(!LatestOutcome::Linked.is_error());
}

#[test]
fn latest_on_empty_root_makes_no_link_and_no_error() {
    let (state, _) = update_latest(LatestState::Idle, &LatestEvent::Begin);
    let (state, action) = update_latest(state, &LatestEvent::Listed(Vec::new()));
    assert_eq!(action, LatestAction::ListYear { year: 0 });
    let (state, action) = update_latest(state, &LatestEvent::Missing);
    assert_eq!(action, LatestAction::ListMonth { year: 0, month: 0 });
    let (state, action) = update_latest(state, &LatestEvent::Missing);
    assert_eq!(action, LatestAction::ProbeLink);
    let (state, action) = update_latest(state, &LatestEvent::Link(LinkProbe::Absent));
    assert_eq!(action, LatestAction::ProbeTarget { year: 0, month: 0, day: 0 });
    assert_eq!(day_path("/shots", 0, 0, 0), "/shots/0/00/00");
    let (state, action) = update_latest(state, &LatestEvent::Target(false));
    assert_eq!(action, LatestAction::Stop(LatestOutcome::TargetMissing));
    assert_eq!(state, LatestState::Done(LatestOutcome::TargetMissing));
    assert!(!LatestOutcome::TargetMissing.is_error());
}

#[test]
fn latest_leaves_a_regular_file_alone() {
    let state = LatestState::ProbingLink { year: 2023, month: 12, day: 31 };
    let (state, action) = update_latest(state, &LatestEvent::Link(LinkProbe::Other));
    assert_eq!(action, LatestAction::Stop(LatestOutcome::LinkBlocked));
    assert_eq!(state, LatestState::Done(LatestOutcome::LinkBlocked));
    assert!(!LatestOutcome::LinkBlocked.is_error());
    for event in [LatestEvent::Removed, LatestEvent::Target(true), LatestEvent::Linked] {
        let (next, action) = update_latest(state, &event);
        assert_eq!(action, LatestAction::Stop(LatestOutcome::LinkBlocked));
        assert_eq!(next, state);
    }
}

#[test]
fn latest_fails_where_a_step_fails() {
    let (state, _) = update_latest(LatestState::Idle, &LatestEvent::Begin);
    let (state, action) = update_latest(state, &LatestEvent::Failed);
    assert_eq!(action, LatestAction::Stop(LatestOutcome::Failed));
    assert_eq!(state, LatestState::Done(LatestOutcome::Failed));
    assert!(LatestOutcome::Failed.is_error());
    let (_, action) = update_latest(LatestState::ScanningYears, &LatestEvent::Missing);
    assert_eq!(action, LatestAction::Stop(LatestOutcome::Failed));
    let linking = LatestState::Linking { year: 1, month: 1, day: 1 };
    let (_, action) = update_latest(linking, &LatestEvent::Failed);
    assert_eq!(action, LatestAction::Stop(LatestOutcome::Failed));
}

#[test]
fn latest_refuses_an_answer_out_of_turn() {
    let (_, action) = update_latest(LatestState::Idle, &LatestEvent::Linked);
    assert_eq!(action, LatestAction::Stop(LatestOutcome::Failed));
    let probing = LatestState::ProbingTarget { year: 1, month: 1, day: 1 };
    let (_, action) = update_latest(probing, &LatestEvent::Removed);
    assert_eq!(action, LatestAction::Stop(LatestOutcome::Failed));
}

use screenshot_sorter::classify::{classify, destination_for, NAME_PATTERN, OTHER};
use screenshot_sorter::mover::{join, move_files, update_file, MoveStep};

#[test]
fn dated_name_goes_to_its_partition() {
    assert_eq!(classify("2023-05-09-shot.png"), "2023/05/09");
}

#[test]
fn undated_name_goes_to_other() {
    assert_eq!(classify("random.png"), "other");
}

#[test]
fn single_digit_month_and_day_do_not_match() {
    assert_eq!(classify("2023-5-9.png"), "other");
}

#[test]
fn parts_are_taken_verbatim() {
    assert_eq!(classify("0001-00-99.png"), "0001/00/99");
    assert_eq!(classify("2024-03-01-a.png"), "2024/03/01");
}

#[test]
fn suffix_is_anchored_to_the_end() {
    assert_eq!(classify("2023-05-09.png.bak"), "other");
    assert_eq!(classify("2023-05-09.PNG"), "other");
    assert_eq!(classify("2023-05-09.jpg"), "other");
    assert_eq!(classify("2023-05-09png"), "other");
}

#[test]
fn date_must_stand_at_the_beginning() {
    assert_eq!(classify("shot-2023-05-09.png"), "other");
    assert_eq!(classify("12023-05-09.png"), "other");
    assert_eq!(classify(" 2023-05-09.png"), "other");
}

#[test]
fn anything_but_a_line_break_may_follow_the_date() {
    assert_eq!(classify("2023-05-09 at 10.11.12 (copy).png"), "2023/05/09");
    assert_eq!(classify("2023-05-09.png.png"), "2023/05/09");
    assert_eq!(classify("2023-05-09\n.png"), "other");
}

#[test]
fn leftmost_date_wins() {
    assert_eq!(classify("2021-01-02_2022-03-04.png"), "2021/01/02");
}

#[test]
fn empty_name_goes_to_other() {
    assert_eq!(classify(""), "other");
}

#[test]
fn destination_joins_the_captured_parts() {
    let groups = Some(("2023".to_string(), "05".to_string(), "09".to_string()));
    assert_eq!(destination_for(groups), "2023/05/09");
    assert_eq!(destination_for(None), OTHER);
}

#[test]
fn pattern_names_its_groups() {
    assert!(NAME_PATTERN.contains("YEAR"));
    assert!(NAME_PATTERN.starts_with("^"));
    assert!(NAME_PATTERN.ends_with("$"));
}

#[test]
fn join_puts_a_separator_between() {
    assert_eq!(join("/shots", "other"), "/shots/other");
}

#[test]
fn move_keeps_the_file_name() {
    let plan = move_files("/shots", "a.png", "2024/03/01");
    assert_eq!(plan.from, "/shots/a.png");
    assert_eq!(plan.directory, "/shots/2024/03/01");
    assert_eq!(plan.end_file, "/shots/2024/03/01/a.png");
}

#[test]
fn update_file_plans_by_the_name() {
    let plan = update_file("/shots", "2023-05-09-shot.png", true).unwrap();
    assert_eq!(plan.from, "/shots/2023-05-09-shot.png");
    assert_eq!(plan.directory, "/shots/2023/05/09");
    assert_eq!(plan.end_file, "/shots/2023/05/09/2023-05-09-shot.png");
    let plan = update_file("/shots", "notes.txt", true).unwrap();
    assert_eq!(plan.directory, "/shots/other");
    assert_eq!(plan.end_file, "/shots/other/notes.txt");
}

#[test]
fn update_file_skips_what_is_no_file() {
    assert!(update_file("/shots", "2023", false).is_none());
    assert!(update_file("/shots", "2023-05-09-shot.png", false).is_none());
}

#[test]
fn directory_is_created_only_where_absent() {
    let plan = move_files("/shots", "a.png", "other");
    assert_eq!(plan.steps(false), vec![MoveStep::CreateDirectory, MoveStep::Rename]);
    assert_eq!(plan.steps(true), vec![MoveStep::Rename]);
}

#[test]
fn failure_names_the_offending_path() {
    let plan = move_files("/shots", "a.png", "other");
    assert_eq!(plan.offending_path(MoveStep::CreateDirectory), "/shots/other");
    assert_eq!(plan.offending_path(MoveStep::Rename), "/shots/a.png");
}

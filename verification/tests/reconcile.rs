use renamer::action::ActionType;
use renamer::file::{
    classify_line, create_action, read_file_names, read_lines, reconcile_lines, FsItem,
    FsItemType, ReadFileError, NOT_ENOUGH_FILE_NAMES, TOO_MANY_FILE_NAMES,
};

fn file(name: &str) -> FsItem {
    FsItem { item_type: FsItemType::File, name: name.to_string() }
}

fn files(names: &[&str]) -> Vec<FsItem> {
    names.iter().map(|n| file(n)).collect()
}

fn lines(raw: &[&str]) -> Vec<String> {
    raw.iter().map(|l| l.to_string()).collect()
}

fn parse_message(result: Result<Vec<renamer::action::Action>, ReadFileError>) -> &'static str {
    match result {
        Err(ReadFileError::Parse(message)) => message,
        Err(ReadFileError::Io(_)) => panic!("unexpected io error"),
        Ok(_) => panic!("expected a parse error"),
    }
}

#[test]
fn delete_and_rename_are_derived_by_position() {
    let entries = files(&["a.txt", "b.txt", "c.txt"]);
    let edited = read_lines("a.txt\n#b.txt\nc2.txt");
    let actions = read_file_names(&edited, &entries).unwrap();
    assert_eq!(actions.len(), 2);
    assert!(matches!(actions[0].action_type(), ActionType::Delete));
    assert_eq!(actions[0].target().name, "b.txt");
    match actions[1].action_type() {
        ActionType::Rename(to) => assert_eq!(to, "c2.txt"),
        ActionType::Delete => panic!("expected a rename"),
    }
    assert_eq!(actions[1].target().name, "c.txt");
}

#[test]
fn an_added_line_is_too_many() {
    let entries = files(&["x", "y"]);
    let edited = read_lines("x\ny\nz");
    assert_eq!(parse_message(read_file_names(&edited, &entries)), "file contained too many file names");
}

#[test]
fn a_removed_line_is_too_few() {
    let entries = files(&["x", "y", "z"]);
    let edited = read_lines("x\nz");
    assert_eq!(
        parse_message(read_file_names(&edited, &entries)),
        "file did not contain enough file names"
    );
}

#[test]
fn error_messages_are_the_published_constants() {
    assert_eq!(TOO_MANY_FILE_NAMES, "file contained too many file names");
    assert_eq!(NOT_ENOUGH_FILE_NAMES, "file did not contain enough file names");
    assert_eq!(parse_message(read_file_names(&lines(&["a"]), &[])), TOO_MANY_FILE_NAMES);
    assert_eq!(parse_message(read_file_names(&[], &files(&["a"]))), NOT_ENOUGH_FILE_NAMES);
}

#[test]
fn any_count_mismatch_fails_whatever_the_lines_say() {
    let entries = files(&["a", "b", "c"]);
    for n in 0..7usize {
        let raw: Vec<String> = (0..n).map(|i| format!("#line{}", i)).collect();
        let result = read_file_names(&raw, &entries);
        if n == 3 {
            assert_eq!(result.unwrap().len(), 3);
        } else if n > 3 {
            assert_eq!(parse_message(result), TOO_MANY_FILE_NAMES);
        } else {
            assert_eq!(parse_message(result), NOT_ENOUGH_FILE_NAMES);
        }
    }
}

#[test]
fn blank_lines_take_no_position() {
    let entries = files(&["a", "b"]);
    let raw = lines(&["", "a", "   ", "\t", "b2", ""]);
    let actions = read_file_names(&raw, &entries).unwrap();
    assert_eq!(actions.len(), 1);
    assert_eq!(actions[0].target().name, "b");
    assert_eq!(actions[0].to_string(), "b -> b2");
}

#[test]
fn raw_lines_are_trimmed_before_they_are_compared() {
    let entries = files(&["a", "b", "c"]);
    let raw = lines(&["  a  ", "\tb\r", " # gone "]);
    let actions = read_file_names(&raw, &entries).unwrap();
    assert_eq!(actions.len(), 1);
    assert!(matches!(actions[0].action_type(), ActionType::Delete));
    assert_eq!(actions[0].target().name, "c");
}

#[test]
fn nothing_against_nothing_is_no_action() {
    assert!(read_file_names(&[], &[]).unwrap().is_empty());
    assert!(read_file_names(&lines(&["", " "]), &[]).unwrap().is_empty());
}

#[test]
fn actions_come_in_the_order_of_the_entries() {
    let entries = files(&["1", "2", "3", "4", "5"]);
    let raw = lines(&["one", "2", "#", "4", "five"]);
    let actions = read_file_names(&raw, &entries).unwrap();
    let told: Vec<String> = actions.iter().map(|a| a.to_string()).collect();
    assert_eq!(told, vec!["1 -> one", "Remove 3", "5 -> five"]);
}

#[test]
fn swapped_lines_are_two_renames() {
    let entries = files(&["a", "b"]);
    let actions = read_file_names(&lines(&["b", "a"]), &entries).unwrap();
    let told: Vec<String> = actions.iter().map(|a| a.to_string()).collect();
    assert_eq!(told, vec!["a -> b", "b -> a"]);
}

#[test]
fn unchanged_line_gives_no_action() {
    let item = file("same.txt");
    assert!(create_action("same.txt", &item).is_none());
    assert!(create_action("  same.txt\n", &item).is_none());
}

#[test]
fn marked_line_deletes_whatever_follows_the_marker() {
    let item = file("victim");
    for line in ["#", "#victim", "# anything else", "  #x", "##", "#victim -> y"] {
        let action = create_action(line, &item).unwrap();
        assert!(matches!(action.action_type(), ActionType::Delete));
        assert_eq!(action.target().name, "victim");
    }
}

#[test]
fn marked_line_deletes_even_when_it_is_the_path() {
    let item = file("#odd");
    let action = create_action("#odd", &item).unwrap();
    assert!(matches!(action.action_type(), ActionType::Delete));
}

#[test]
fn changed_line_renames_to_the_trimmed_line() {
    let item = file("old.txt");
    let action = create_action("  new name.txt \r", &item).unwrap();
    match action.action_type() {
        ActionType::Rename(to) => assert_eq!(to, "new name.txt"),
        ActionType::Delete => panic!("expected a rename"),
    }
    assert_eq!(action.target().name, "old.txt");
}

#[test]
fn marker_inside_the_line_is_part_of_the_name() {
    let item = file("a");
    match create_action("a#b", &item).unwrap().action_type() {
        ActionType::Rename(to) => assert_eq!(to, "a#b"),
        ActionType::Delete => panic!("expected a rename"),
    }
}

#[test]
fn case_change_is_a_rename() {
    let item = file("A.txt");
    match create_action("a.txt", &item).unwrap().action_type() {
        ActionType::Rename(to) => assert_eq!(to, "a.txt"),
        ActionType::Delete => panic!("expected a rename"),
    }
}

#[test]
fn a_blank_line_against_an_entry_renames_to_nothing() {
    let item = file("a");
    match create_action("   ", &item).unwrap().action_type() {
        ActionType::Rename(to) => assert_eq!(to, ""),
        ActionType::Delete => panic!("expected a rename"),
    }
}

#[test]
fn edited_lines_are_classified_as_they_are() {
    let item = file("a");
    assert!(classify_line("a", &item).is_none());
    assert!(matches!(classify_line("#a", &item).unwrap().action_type(), ActionType::Delete));
    match classify_line(" a", &item).unwrap().action_type() {
        ActionType::Rename(to) => assert_eq!(to, " a"),
        ActionType::Delete => panic!("expected a rename"),
    }
    match classify_line(" #a", &item).unwrap().action_type() {
        ActionType::Rename(to) => assert_eq!(to, " #a"),
        ActionType::Delete => panic!("expected a rename"),
    }
    match classify_line("", &item).unwrap().action_type() {
        ActionType::Rename(to) => assert_eq!(to, ""),
        ActionType::Delete => panic!("expected a rename"),
    }
}

#[test]
fn edited_lines_are_reconciled_as_they_are() {
    let entries = files(&["a.txt", "b.txt", "c.txt"]);
    let actions = reconcile_lines(&lines(&["a.txt", "#b.txt", "c2.txt"]), &entries).unwrap();
    let told: Vec<String> = actions.iter().map(|a| a.to_string()).collect();
    assert_eq!(told, vec!["Remove b.txt", "c.txt -> c2.txt"]);
    assert_eq!(
        parse_message(reconcile_lines(&lines(&["a.txt", "", "b.txt", "c.txt"]), &entries)),
        TOO_MANY_FILE_NAMES
    );
    assert_eq!(
        parse_message(reconcile_lines(&lines(&["a.txt", "b.txt"]), &entries)),
        NOT_ENOUGH_FILE_NAMES
    );
    let actions = reconcile_lines(&lines(&["a.txt", "", " c.txt"]), &entries).unwrap();
    let told: Vec<String> = actions.iter().map(|a| a.to_string()).collect();
    assert_eq!(told, vec!["b.txt -> ", "c.txt ->  c.txt"]);
}

#[test]
fn io_errors_convert_into_the_io_variant() {
    let error = std::io::Error::new(std::io::ErrorKind::Other, "boom");
    assert!(matches!(ReadFileError::from(error), ReadFileError::Io(_)));
}

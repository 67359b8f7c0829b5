use renamer::file::{read_file_names, read_lines, write_file_names, FsItem, FsItemType};

fn file(name: &str) -> FsItem {
    FsItem { item_type: FsItemType::File, name: name.to_string() }
}

fn dir(name: &str) -> FsItem {
    FsItem { item_type: FsItemType::Directory, name: name.to_string() }
}

fn listing(files: &[FsItem]) -> String {
    let mut text = String::new();
    write_file_names(&mut text, files);
    text
}

#[test]
fn listing_is_newline_joined_without_trailing_newline() {
    let files = vec![file("a.txt"), dir("b"), file("c.txt")];
    assert_eq!(listing(&files), "a.txt\nb\nc.txt");
}

#[test]
fn listing_of_nothing_is_empty() {
    assert_eq!(listing(&[]), "");
}

#[test]
fn listing_of_one_entry_is_its_path() {
    assert_eq!(listing(&[file("only.txt")]), "only.txt");
}

#[test]
fn listing_is_appended_to_what_the_writer_holds() {
    let mut text = String::from("seen\n");
    write_file_names(&mut text, &[file("x"), file("y")]);
    assert_eq!(text, "seen\nx\ny");
}

#[test]
fn listing_is_deterministic() {
    let files = vec![file("b"), file("a"), dir("c/d")];
    assert_eq!(listing(&files), listing(&files));
    assert_eq!(listing(&files), "b\na\nc/d");
}

#[test]
fn read_lines_splits_trims_and_drops_blank_lines() {
    assert_eq!(read_lines("a.txt\n#b.txt\nc2.txt"), vec!["a.txt", "#b.txt", "c2.txt"]);
    assert_eq!(read_lines("  a  \n\n\t\nb\n"), vec!["a", "b"]);
    assert_eq!(read_lines(""), Vec::<String>::new());
    assert_eq!(read_lines("\n\n \n"), Vec::<String>::new());
    assert_eq!(read_lines("one"), vec!["one"]);
}

#[test]
fn read_lines_takes_carriage_returns_as_whitespace() {
    assert_eq!(read_lines("a\r\nb\r\n\r\nc"), vec!["a", "b", "c"]);
}

#[test]
fn read_lines_keeps_inner_whitespace() {
    assert_eq!(read_lines(" my file.txt \n other\tname "), vec!["my file.txt", "other\tname"]);
}

#[test]
fn read_lines_agrees_with_the_standard_library() {
    let text = "a\n  b \r\n\n#c\n\u{a0}\nlast ";
    let expected: Vec<String> = text
        .lines()
        .map(|l| l.trim().to_string())
        .filter(|l| !l.is_empty())
        .collect();
    assert_eq!(read_lines(text), expected);
}

#[test]
fn unedited_listing_reads_back_as_the_paths() {
    let files = vec![file("a.txt"), dir("sub dir"), file("sub dir/b.txt"), file("ünï.txt")];
    let lines = read_lines(&listing(&files));
    assert_eq!(lines.len(), files.len());
    for (line, item) in lines.iter().zip(files.iter()) {
        assert_eq!(line, &item.name);
    }
}

#[test]
fn unedited_listing_asks_for_nothing() {
    let files = vec![file("a.txt"), dir("b"), file("c.txt")];
    let lines = read_lines(&listing(&files));
    let actions = read_file_names(&lines, &files).unwrap();
    assert!(actions.is_empty());
}

#[test]
fn unedited_listing_of_nothing_asks_for_nothing() {
    let files: Vec<FsItem> = Vec::new();
    let lines = read_lines(&listing(&files));
    assert!(lines.is_empty());
    assert!(read_file_names(&lines, &files).unwrap().is_empty());
}

#[test]
fn unedited_listing_with_added_blank_lines_asks_for_nothing() {
    let files = vec![file("a.txt"), file("b.txt")];
    let lines = read_lines("\n\na.txt\n\n   \nb.txt\n\n");
    assert!(read_file_names(&lines, &files).unwrap().is_empty());
}

#[test]
fn a_path_that_begins_with_the_marker_does_not_survive_unedited() {
    let files = vec![file("#notes")];
    let lines = read_lines(&listing(&files));
    let actions = read_file_names(&lines, &files).unwrap();
    assert_eq!(actions.len(), 1);
    assert_eq!(actions[0].to_string(), "Remove #notes");
}

#[test]
fn a_path_with_outer_whitespace_does_not_survive_unedited() {
    let files = vec![file(" padded")];
    let lines = read_lines(&listing(&files));
    let actions = read_file_names(&lines, &files).unwrap();
    assert_eq!(actions.len(), 1);
    assert_eq!(actions[0].to_string(), " padded -> padded");
}

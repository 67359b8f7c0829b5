//! Filesystem entries and the text listing that the user edits.

use crate::action::{Action, ActionType, ActionTypeView, ActionView};
use crate::text::{
    edit_lines, edited_lines, lemma_edited_lines_keep_edited, lemma_lines_append_line_feed,
    lemma_lines_append_stretch, lemma_trim_keeps_trimmed, lines, split_lines, texts, trim,
    trimmed, white_space,
};
use vstd::prelude::*;

verus! {

/// Whether an entry is a plain file or a directory.
#[derive(Debug, Copy, Clone, PartialEq, Eq, Structural)]
pub enum FsItemType {
    File,
    Directory,
}

/// One filesystem entry captured by the traversal: its kind and its path.
#[derive(Debug)]
pub struct FsItem {
    pub item_type: FsItemType,
    pub name: String,
}

/// What an [`FsItem`] is to the contracts: its kind and the characters of its
/// path.
pub struct FsItemView {
    pub item_type: FsItemType,
    pub name: Seq<char>,
}

impl View for FsItem {
    type V = FsItemView;

    open spec fn view(&self) -> FsItemView {
        FsItemView { item_type: self.item_type, name: self.name@ }
    }
}

/// The views of a sequence of entries, position by position.
pub open spec fn item_views(files: Seq<FsItem>) -> Seq<FsItemView> {
    files.map_values(|f: FsItem| f@)
}

/// The paths of a sequence of entries, position by position.
pub open spec fn names_of(files: Seq<FsItemView>) -> Seq<Seq<char>> {
    files.map_values(|f: FsItemView| f.name)
}

/// The listing of `names`: one name per line, in order, with a line feed
/// between two names and none after the last.
pub open spec fn listing_text(names: Seq<Seq<char>>) -> Seq<char>
    decreases names.len(),
{
    if names.len() == 0 {
        Seq::empty()
    } else if names.len() == 1 {
        names[0]
    } else {
        listing_text(names.drop_last()) + seq!['\n'] + names.last()
    }
}

/// Appends the listing of `files` to `writer`: one path per line, in the
/// order of `files`.
pub fn write_file_names(writer: &mut String, files: &[FsItem])
    ensures
        final(writer)@ == old(writer)@ + listing_text(names_of(item_views(files@))),
{
    let ghost names = names_of(item_views(files@));
    let mut first = true;
    let mut i: usize = 0;
    while i < files.len()
        invariant
            i <= files.len(),
            names == names_of(item_views(files@)),
            first == (i == 0),
            writer@ == old(writer)@ + listing_text(names.take(i as int)),
        decreases files.len() - i,
    {
        proof {
            assert(names.take(i + 1).drop_last() =~= names.take(i as int));
            reveal_strlit("\n");
        }
        if !first {
            writer.append("\n");
        }
        writer.append(files[i].name.as_str());
        first = false;
        i += 1;
    }
    assert(names.take(files.len() as int) =~= names);
}

/// The edited lines of `text`: its lines, each trimmed, without those that
/// are empty after trimming.
pub open spec fn parse_text(text: Seq<char>) -> Seq<Seq<char>> {
    edited_lines(lines(text))
}

/// Reads the edited lines out of `text`. Blank lines are dropped and take no
/// position.
pub fn read_lines(text: &str) -> (edited: Vec<String>)
    ensures
        texts(edited@) == parse_text(text@),
{
    let raw = split_lines(text);
    edit_lines(raw.as_slice())
}

/// The error type of the standard library's input and output.
#[verifier::external_type_specification]
#[verifier::external_body]
pub struct ExIoError(std::io::Error);

/// Why the edited listing could not be read back.
#[derive(Debug)]
pub enum ReadFileError {
    /// The listing could not be read at all.
    Io(std::io::Error),
    /// The listing does not have one line per entry; the message says how.
    Parse(&'static str),
}

impl From<std::io::Error> for ReadFileError {
    fn from(error: std::io::Error) -> (r: Self) {
        ReadFileError::Io(error)
    }
}

impl vstd::std_specs::convert::FromSpecImpl<std::io::Error> for ReadFileError {
    open spec fn obeys_from_spec() -> bool {
        true
    }

    open spec fn from_spec(error: std::io::Error) -> Self {
        ReadFileError::Io(error)
    }
}

/// The message of the error for a listing with more lines than entries.
pub const TOO_MANY_FILE_NAMES: &'static str = "file contained too many file names";

/// The message of the error for a listing with fewer lines than entries.
pub const NOT_ENOUGH_FILE_NAMES: &'static str = "file did not contain enough file names";

/// How the number of edited lines can disagree with the number of entries.
pub enum Mismatch {
    /// There are more edited lines than entries.
    TooManyLines,
    /// There are fewer edited lines than entries.
    TooFewLines,
}

/// Whether `line` begins with the delete marker `#`.
pub open spec fn delete_marked(line: Seq<char>) -> bool {
    line.len() > 0 && line[0] == '#'
}

/// What the edited line `line` asks for the entry whose path is `name`:
/// deletion if the line begins with the delete marker, whatever follows it;
/// nothing if the line is the path itself; otherwise a rename to the line.
pub open spec fn classify(line: Seq<char>, name: Seq<char>) -> Option<ActionTypeView> {
    if delete_marked(line) {
        Some(ActionTypeView::Delete)
    } else if line != name {
        Some(ActionTypeView::Rename(line))
    } else {
        None
    }
}

/// The actions that the edited lines `edited` ask for the entries `files`,
/// line and entry paired by position, in the order of the entries. A pair
/// that asks for nothing contributes nothing.
pub open spec fn actions_of(edited: Seq<Seq<char>>, files: Seq<FsItemView>) -> Seq<ActionView>
    recommends
        edited.len() == files.len(),
    decreases edited.len(),
{
    if edited.len() == 0 || files.len() == 0 {
        Seq::empty()
    } else {
        let before = actions_of(edited.drop_last(), files.drop_last());
        match classify(edited.last(), files.last().name) {
            Some(act) => before.push(ActionView { act, item: files.last() }),
            None => before,
        }
    }
}

/// Reconciles the edited lines `edited` with the entries `files`: the actions
/// asked for when there is exactly one line per entry, and otherwise the way
/// in which the counts disagree.
pub open spec fn reconcile(edited: Seq<Seq<char>>, files: Seq<FsItemView>) -> Result<
    Seq<ActionView>,
    Mismatch,
> {
    if edited.len() > files.len() {
        Err(Mismatch::TooManyLines)
    } else if edited.len() < files.len() {
        Err(Mismatch::TooFewLines)
    } else {
        Ok(actions_of(edited, files))
    }
}

/// The views of a sequence of actions, position by position.
pub open spec fn action_views(actions: Seq<Action>) -> Seq<ActionView> {
    actions.map_values(|a: Action| a@)
}

/// Derives the action that the edited line `line` asks for `item`, if it
/// asks for any. The line is taken as it is.
pub fn classify_line<'a>(line: &str, item: &'a FsItem) -> (action: Option<Action<'a>>)
    ensures
        match classify(line@, item@.name) {
            Some(act) => action matches Some(a) && a@ == (ActionView { act, item: item@ }),
            None => action is None,
        },
{
    let delete = !line.is_empty() && line.get_char(0) == '#';
    let action_type = if delete {
        ActionType::Delete
    } else {
        let target = line.to_owned();
        if target == item.name {
            return None;
        }
        ActionType::Rename(target)
    };
    Some(Action::new(action_type, item))
}

/// Derives the action that the line `f`, once trimmed, asks for `item`, if it
/// asks for any.
pub fn create_action<'a>(f: &str, item: &'a FsItem) -> (action: Option<Action<'a>>)
    ensures
        match classify(trim(f@), item@.name) {
            Some(act) => action matches Some(a) && a@ == (ActionView { act, item: item@ }),
            None => action is None,
        },
{
    let line = trimmed(f);
    classify_line(line.as_str(), item)
}

/// Whether `name` can stand on a line of the listing and be read back as it
/// is: it is not empty, it neither begins nor ends with whitespace, and it
/// holds no line feed.
pub open spec fn plain_name(name: Seq<char>) -> bool {
    &&& name.len() > 0
    &&& !white_space(name[0])
    &&& !white_space(name.last())
    &&& !name.contains('\n')
}

/// The lines of the listing of at least one name, none of which holds a line
/// feed, are the names.
proof fn lemma_lines_of_listing(names: Seq<Seq<char>>)
    requires
        names.len() > 0,
        forall|i: int| 0 <= i < names.len() ==> !(#[trigger] names[i]).contains('\n'),
    ensures
        lines(listing_text(names)) == names,
    decreases names.len(),
{
    let empty = Seq::<char>::empty();
    if names.len() == 1 {
        lemma_lines_append_stretch(empty, names[0]);
    } else {
        let head = names.drop_last();
        assert forall|i: int| 0 <= i < head.len() implies !(#[trigger] head[i]).contains(
            '\n',
        ) by {
            assert(head[i] == names[i]);
        }
        lemma_lines_of_listing(head);
        lemma_lines_append_line_feed(listing_text(head));
        lemma_lines_append_stretch(listing_text(head) + seq!['\n'], names.last());
    }
}

/// Round trip of the unedited listing: reading the listing of `names` back
/// gives exactly one edited line per name, each equal to its name, provided
/// every name is a [`plain_name`].
pub proof fn lemma_listing_round_trip(names: Seq<Seq<char>>)
    requires
        forall|i: int| 0 <= i < names.len() ==> plain_name(#[trigger] names[i]),
    ensures
        parse_text(listing_text(names)) == names,
{
    if names.len() == 0 {
        let empty = Seq::<char>::empty();
        assert(seq![empty].drop_last() =~= Seq::<Seq<char>>::empty());
        assert(edited_lines(Seq::<Seq<char>>::empty()) =~= Seq::<Seq<char>>::empty());
    } else {
        lemma_lines_of_listing(names);
        assert forall|i: int| 0 <= i < names.len() implies trim(#[trigger] names[i])
            == names[i] && names[i].len() > 0 by {
            lemma_trim_keeps_trimmed(names[i]);
        }
        lemma_edited_lines_keep_edited(names);
    }
}

/// Lines that are the paths of their entries, none of them delete-marked,
/// ask for nothing.
proof fn lemma_own_names_ask_nothing(files: Seq<FsItemView>)
    requires
        forall|i: int| 0 <= i < files.len() ==> !delete_marked((#[trigger] files[i]).name),
    ensures
        actions_of(names_of(files), files) == Seq::<ActionView>::empty(),
    decreases files.len(),
{
    if files.len() > 0 {
        let head = files.drop_last();
        assert forall|i: int| 0 <= i < head.len() implies !delete_marked(
            (#[trigger] head[i]).name,
        ) by {
            assert(head[i] == files[i]);
        }
        lemma_own_names_ask_nothing(head);
        assert(names_of(files).drop_last() =~= names_of(head));
    }
}

/// Reconciling the unedited listing of `files` with `files` succeeds with no
/// action at all, provided every path is a [`plain_name`] and none begins
/// with the delete marker.
pub proof fn lemma_unedited_listing_asks_nothing(files: Seq<FsItemView>)
    requires
        forall|i: int|
            0 <= i < files.len() ==> plain_name((#[trigger] files[i]).name) && !delete_marked(
                files[i].name,
            ),
    ensures
        reconcile(parse_text(listing_text(names_of(files))), files) == Ok::<
            Seq<ActionView>,
            Mismatch,
        >(Seq::empty()),
{
    let names = names_of(files);
    assert forall|i: int| 0 <= i < names.len() implies plain_name(#[trigger] names[i]) by {
        assert(names[i] == files[i].name);
    }
    lemma_listing_round_trip(names);
    lemma_own_names_ask_nothing(files);
}

/// A count of edited lines that differs from the count of entries is always
/// a structural mismatch, which carries no action: too many lines if there
/// are more lines than entries, too few if there are fewer.
pub proof fn lemma_count_mismatch_fails(edited: Seq<Seq<char>>, files: Seq<FsItemView>)
    requires
        edited.len() != files.len(),
    ensures
        reconcile(edited, files) is Err,
        edited.len() > files.len() ==> reconcile(edited, files) == Err::<
            Seq<ActionView>,
            Mismatch,
        >(Mismatch::TooManyLines),
        edited.len() < files.len() ==> reconcile(edited, files) == Err::<
            Seq<ActionView>,
            Mismatch,
        >(Mismatch::TooFewLines),
{
}

/// An edited line that is the entry's own path asks for nothing, unless the
/// path itself begins with the delete marker.
pub proof fn lemma_unchanged_line_asks_nothing(name: Seq<char>)
    requires
        !delete_marked(name),
    ensures
        classify(name, name) is None,
{
}

/// An edited line that begins with the delete marker asks for deletion,
/// whatever follows the marker and whatever the entry's path is.
pub proof fn lemma_marked_line_deletes(line: Seq<char>, name: Seq<char>)
    requires
        delete_marked(line),
    ensures
        classify(line, name) == Some(ActionTypeView::Delete),
{
}

/// An edited line that differs from the entry's path and does not begin with
/// the delete marker asks for a rename to that line.
pub proof fn lemma_changed_line_renames(line: Seq<char>, name: Seq<char>)
    requires
        line != name,
        !delete_marked(line),
    ensures
        classify(line, name) == Some(ActionTypeView::Rename(line)),
{
}

/// Positional correspondence: with one edited line per entry, every action
/// asked for is what the line at some position asks for the entry at that
/// same position, and later actions stem from later positions.
pub proof fn lemma_actions_are_positional(edited: Seq<Seq<char>>, files: Seq<FsItemView>)
    requires
        edited.len() == files.len(),
    ensures
        actions_of(edited, files).len() <= files.len(),
        forall|k: int|
            0 <= k < actions_of(edited, files).len() ==> exists|i: int|
                k <= i < files.len() && classify(edited[i], files[i].name) == Some(
                    (#[trigger] actions_of(edited, files)[k]).act,
                ) && actions_of(edited, files)[k].item == files[i],
    decreases edited.len(),
{
    if edited.len() > 0 {
        let head_lines = edited.drop_last();
        let head_files = files.drop_last();
        lemma_actions_are_positional(head_lines, head_files);
        let before = actions_of(head_lines, head_files);
        let all = actions_of(edited, files);
        let last = files.len() - 1;
        assert forall|k: int| 0 <= k < all.len() implies exists|i: int|
            k <= i < files.len() && classify(edited[i], files[i].name) == Some(
                (#[trigger] all[k]).act,
            ) && all[k].item == files[i] by {
            if k < before.len() {
                let i = choose|i: int|
                    k <= i < head_files.len() && classify(head_lines[i], head_files[i].name)
                        == Some(before[k].act) && before[k].item == head_files[i];
                assert(edited[i] == head_lines[i] && files[i] == head_files[i]);
            } else {
                assert(edited[last] == edited.last() && files[last] == files.last());
            }
        }
    }
}

/// With one edited line per entry, a line that asks something of its entry
/// is answered: the action for that entry is among the actions asked for.
pub proof fn lemma_asking_line_is_answered(
    edited: Seq<Seq<char>>,
    files: Seq<FsItemView>,
    i: int,
)
    requires
        edited.len() == files.len(),
        0 <= i < files.len(),
        classify(edited[i], files[i].name) is Some,
    ensures
        actions_of(edited, files).contains(
            ActionView { act: classify(edited[i], files[i].name)->Some_0, item: files[i] },
        ),
    decreases edited.len(),
{
    let asked = ActionView { act: classify(edited[i], files[i].name)->Some_0, item: files[i] };
    let all = actions_of(edited, files);
    let before = actions_of(edited.drop_last(), files.drop_last());
    if i == files.len() - 1 {
        assert(all[all.len() - 1] == asked);
    } else {
        lemma_asking_line_is_answered(edited.drop_last(), files.drop_last(), i);
        let k = choose|k: int| 0 <= k < before.len() && before[k] == asked;
        assert(all[k] == asked);
    }
}

/// Reconciles the edited lines `edited` with the entries `files` that the
/// listing was written from. The lines are taken as they are, and paired
/// with the entries by position.
///
/// With exactly one line per entry the result is the actions asked for, in
/// the order of the entries; with more lines or fewer it is a
/// [`ReadFileError::Parse`] whose message says which, and no action.
pub fn reconcile_lines<'a>(edited: &[String], files: &'a [FsItem]) -> (result: Result<
    Vec<Action<'a>>,
    ReadFileError,
>)
    ensures
        match reconcile(texts(edited@), item_views(files@)) {
            Ok(asked) => result matches Ok(actions) && action_views(actions@) == asked,
            Err(Mismatch::TooManyLines) => result matches Err(ReadFileError::Parse(message))
                && message@ == TOO_MANY_FILE_NAMES@,
            Err(Mismatch::TooFewLines) => result matches Err(ReadFileError::Parse(message))
                && message@ == NOT_ENOUGH_FILE_NAMES@,
        },
{
    if edited.len() > files.len() {
        return Err(ReadFileError::Parse(TOO_MANY_FILE_NAMES));
    }
    if edited.len() < files.len() {
        return Err(ReadFileError::Parse(NOT_ENOUGH_FILE_NAMES));
    }
    let ghost lines = texts(edited@);
    let ghost items = item_views(files@);
    let mut actions: Vec<Action<'a>> = Vec::new();
    let mut i: usize = 0;
    while i < files.len()
        invariant
            i <= files.len() == edited.len(),
            lines == texts(edited@),
            items == item_views(files@),
            action_views(actions@) == actions_of(lines.take(i as int), items.take(i as int)),
        decreases files.len() - i,
    {
        proof {
            assert(lines.take(i + 1).drop_last() =~= lines.take(i as int));
            assert(items.take(i + 1).drop_last() =~= items.take(i as int));
        }
        if let Some(action) = classify_line(edited[i].as_str(), &files[i]) {
            actions.push(action);
        }
        i += 1;
    }
    proof {
        assert(lines.take(i as int) =~= lines);
        assert(items.take(i as int) =~= items);
    }
    Ok(actions)
}

/// Reconciles the raw lines `lines` of an edited listing with the entries
/// `files` that the listing was written from.
///
/// Each line is trimmed, and lines that are blank are passed over without
/// taking a position. What is left is paired with the entries by position,
/// as [`reconcile_lines`] does.
pub fn read_file_names<'a>(lines: &[String], files: &'a [FsItem]) -> (result: Result<
    Vec<Action<'a>>,
    ReadFileError,
>)
    ensures
        match reconcile(edited_lines(texts(lines@)), item_views(files@)) {
            Ok(asked) => result matches Ok(actions) && action_views(actions@) == asked,
            Err(Mismatch::TooManyLines) => result matches Err(ReadFileError::Parse(message))
                && message@ == TOO_MANY_FILE_NAMES@,
            Err(Mismatch::TooFewLines) => result matches Err(ReadFileError::Parse(message))
                && message@ == NOT_ENOUGH_FILE_NAMES@,
        },
{
    let edited = edit_lines(lines);
    reconcile_lines(edited.as_slice(), files)
}

} // verus!

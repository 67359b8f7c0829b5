//! Actions derived from an edited listing, and the filesystem operation that
//! carries each of them out.

use crate::file::{FsItem, FsItemType, FsItemView};
use vstd::prelude::*;

verus! {

/// `str::eq_ignore_ascii_case` compares the two strings character by
/// character after mapping the ASCII letters `A` to `Z` to lower case and
/// leaving every other character as it is.
pub assume_specification[ str::eq_ignore_ascii_case ](a: &str, b: &str) -> (r: bool)
    ensures
        r == same_ignoring_ascii_case(a@, b@),
;

/// `c` with the ASCII capitals mapped to their small letters.
pub open spec fn ascii_lowercase(c: char) -> char {
    if 'A' <= c && c <= 'Z' {
        ((c as u8 + 32) as u8) as char
    } else {
        c
    }
}

/// Whether `a` and `b` differ at most in the case of ASCII letters.
pub open spec fn same_ignoring_ascii_case(a: Seq<char>, b: Seq<char>) -> bool {
    a.map_values(|c: char| ascii_lowercase(c)) == b.map_values(|c: char| ascii_lowercase(c))
}

/// What is to happen to an entry.
#[derive(Debug)]
pub enum ActionType {
    /// The entry is removed.
    Delete,
    /// The entry is moved to the given path.
    Rename(String),
}

/// What an [`ActionType`] is to the contracts.
pub enum ActionTypeView {
    Delete,
    Rename(Seq<char>),
}

impl View for ActionType {
    type V = ActionTypeView;

    open spec fn view(&self) -> ActionTypeView {
        match self {
            ActionType::Delete => ActionTypeView::Delete,
            ActionType::Rename(path) => ActionTypeView::Rename(path@),
        }
    }
}

/// A decision about one entry of the listing. The action borrows the entry it
/// was derived from.
pub struct Action<'a> {
    act: ActionType,
    item: &'a FsItem,
}

/// What an [`Action`] is to the contracts: what happens, and to which entry.
pub struct ActionView {
    pub act: ActionTypeView,
    pub item: FsItemView,
}

impl<'a> View for Action<'a> {
    type V = ActionView;

    closed spec fn view(&self) -> ActionView {
        ActionView { act: self.act@, item: self.item@ }
    }
}

/// Whether a rename from `from` to `to` may go ahead: either the two paths
/// differ in letter case only, or nothing exists at `to` yet.
pub open spec fn rename_allowed(from: Seq<char>, to: Seq<char>, target_exists: bool) -> bool {
    same_ignoring_ascii_case(from, to) || !target_exists
}

/// Decides whether the rename from `from` to `to` may go ahead, given whether
/// something already exists at `to`.
pub fn should_rename(from: &str, to: &str, target_exists: bool) -> (r: bool)
    ensures
        r == rename_allowed(from@, to@, target_exists),
{
    from.eq_ignore_ascii_case(to) || !target_exists
}

/// One step on the filesystem. Paths are borrowed from the action that asked
/// for the step.
#[derive(Debug)]
pub enum Operation<'a> {
    /// Remove the single file at the path.
    RemoveFile(&'a str),
    /// Remove the directory at the path and everything below it.
    RemoveDirAll(&'a str),
    /// Move the entry at the first path to the second.
    Rename(&'a str, &'a str),
    /// Leave the filesystem alone: something unrelated already exists at the
    /// rename target, which is the path given.
    SkipRename(&'a str),
}

/// What an [`Operation`] is to the contracts.
pub enum OperationView {
    RemoveFile(Seq<char>),
    RemoveDirAll(Seq<char>),
    Rename(Seq<char>, Seq<char>),
    SkipRename(Seq<char>),
}

impl<'a> View for Operation<'a> {
    type V = OperationView;

    open spec fn view(&self) -> OperationView {
        match self {
            Operation::RemoveFile(path) => OperationView::RemoveFile(path@),
            Operation::RemoveDirAll(path) => OperationView::RemoveDirAll(path@),
            Operation::Rename(from, to) => OperationView::Rename(from@, to@),
            Operation::SkipRename(to) => OperationView::SkipRename(to@),
        }
    }
}

/// The operation that carries `action` out, where `target_exists` says
/// whether something is already found at the rename target.
///
/// A file is removed alone and a directory with its contents. A rename goes
/// ahead when [`rename_allowed`] and is skipped otherwise.
pub open spec fn operation_of(action: ActionView, target_exists: bool) -> OperationView {
    match action.act {
        ActionTypeView::Delete => match action.item.item_type {
            FsItemType::File => OperationView::RemoveFile(action.item.name),
            FsItemType::Directory => OperationView::RemoveDirAll(action.item.name),
        },
        ActionTypeView::Rename(to) => if rename_allowed(action.item.name, to, target_exists) {
            OperationView::Rename(action.item.name, to)
        } else {
            OperationView::SkipRename(to)
        },
    }
}

/// The path whose existence on the filesystem decides how `action` is
/// carried out: the target of a rename that changes more than the case of
/// ASCII letters. No other action waits for such an answer.
pub open spec fn probed_path(action: ActionView) -> Option<Seq<char>> {
    match action.act {
        ActionTypeView::Delete => None,
        ActionTypeView::Rename(to) => if same_ignoring_ascii_case(action.item.name, to) {
            None
        } else {
            Some(to)
        },
    }
}

/// Where no path is to be probed, the operation is the same whatever is
/// found on the filesystem.
pub proof fn lemma_unprobed_action_is_decided(action: ActionView)
    requires
        probed_path(action) is None,
    ensures
        operation_of(action, true) == operation_of(action, false),
{
}

/// A rename onto a path at which something already exists is skipped, and so
/// changes nothing on the filesystem, when the two paths differ by more than
/// the case of ASCII letters.
pub proof fn lemma_collision_is_skipped(item: FsItemView, to: Seq<char>)
    requires
        !same_ignoring_ascii_case(item.name, to),
    ensures
        operation_of(ActionView { act: ActionTypeView::Rename(to), item }, true)
            == OperationView::SkipRename(to),
{
}

/// A rename goes ahead when nothing exists at its target, and also when the
/// two paths differ in the case of ASCII letters only, whether or not
/// something is found at the target.
pub proof fn lemma_free_or_case_only_rename_proceeds(
    item: FsItemView,
    to: Seq<char>,
    target_exists: bool,
)
    requires
        !target_exists || same_ignoring_ascii_case(item.name, to),
    ensures
        operation_of(ActionView { act: ActionTypeView::Rename(to), item }, target_exists)
            == OperationView::Rename(item.name, to),
{
}

/// The line that announces `action` to the user: `Remove <path>` for a
/// deletion, `<path> -> <target>` for a rename.
pub open spec fn action_text(action: ActionView) -> Seq<char> {
    match action.act {
        ActionTypeView::Delete => "Remove "@ + action.item.name,
        ActionTypeView::Rename(to) => action.item.name + " -> "@ + to,
    }
}

impl<'a> Action<'a> {
    /// The path to look for on the filesystem before [`Action::apply`], if
    /// the operation depends on whether something exists there.
    pub fn probe(&self) -> (path: Option<&str>)
        ensures
            match probed_path(self@) {
                Some(to) => path matches Some(found) && found@ == to,
                None => path is None,
            },
    {
        match &self.act {
            ActionType::Delete => None,
            ActionType::Rename(to) => {
                if self.item.name.as_str().eq_ignore_ascii_case(to.as_str()) {
                    None
                } else {
                    Some(to.as_str())
                }
            },
        }
    }

    /// Decides the filesystem operation that carries the action out.
    /// `target_exists` says whether something is found at the rename target;
    /// it is not looked at for a deletion.
    pub fn apply(&self, target_exists: bool) -> (op: Operation<'_>)
        ensures
            op@ == operation_of(self@, target_exists),
    {
        match &self.act {
            ActionType::Delete => match self.item.item_type {
                FsItemType::File => Operation::RemoveFile(self.item.name.as_str()),
                FsItemType::Directory => Operation::RemoveDirAll(self.item.name.as_str()),
            },
            ActionType::Rename(path) => {
                if should_rename(self.item.name.as_str(), path.as_str(), target_exists) {
                    Operation::Rename(self.item.name.as_str(), path.as_str())
                } else {
                    Operation::SkipRename(path.as_str())
                }
            },
        }
    }

    /// The line that announces the action to the user.
    pub fn to_string(&self) -> (text: String)
        ensures
            text@ == action_text(self@),
    {
        match &self.act {
            ActionType::Delete => {
                let mut text = String::from_str("Remove ");
                text.append(self.item.name.as_str());
                text
            },
            ActionType::Rename(to) => {
                let mut text = self.item.name.clone();
                text.append(" -> ");
                text.append(to.as_str());
                text
            },
        }
    }

    /// What is to happen to the entry.
    pub fn action_type(&self) -> (act: &ActionType)
        ensures
            act@ == self@.act,
    {
        &self.act
    }

    /// The entry that the action is about.
    pub fn target(&self) -> (item: &FsItem)
        ensures
            item@ == self@.item,
    {
        self.item
    }

    /// The action that does `act` to `item`.
    pub fn new(act: ActionType, item: &'a FsItem) -> (action: Self)
        ensures
            action@ == (ActionView { act: act@, item: item@ }),
    {
        Action { act, item }
    }
}

} // verus!

//! What each command does to the cache, what it has to say, and what is
//! left for the caller to do.

use vstd::prelude::*;
use vstd::string::*;
use crate::cli::Command;
use crate::db::{
    appended, as_map, has_item, names_distinct, with_status, without_item, CacheView, Database,
};
use crate::error::{ErrorView, TodoResult};
use crate::models::{lists_view, Item, ItemView, List, ListView};
use crate::text::{decimal, decimal_string, text_of};

verus! {

/// What is left to the caller once a command has been carried out on the cache.
#[derive(Debug, PartialEq, Eq, Clone, Copy)]
pub enum FollowUp {
    /// Nothing.
    Nothing,
    /// The cache has changed: write it to its file.
    Persist,
    /// Run a push.
    Push,
    /// Run a pull.
    Pull,
    /// Log in.
    Login,
    /// Log out.
    Logout,
}

/// What a command has to say, line by line, and what is left to do.
#[derive(Debug, PartialEq, Eq)]
pub struct Outcome {
    pub lines: Vec<String>,
    pub follow_up: FollowUp,
}

/// The texts of a sequence of strings.
pub open spec fn texts(lines: Seq<String>) -> Seq<Seq<char>> {
    lines.map_values(|s: String| s@)
}

/// Whether an item is shown. With `all`, or with neither of the other two
/// flags, every item is; else the done ones with `completed` and the others
/// with `incomplete`.
pub open spec fn shows(all: bool, completed: bool, incomplete: bool, done: bool) -> bool {
    (all || (!completed && !incomplete)) || (completed && done) || (incomplete && !done)
}

/// The line that heads a list.
pub open spec fn heading(name: Seq<char>) -> Seq<char> {
    "List: "@ + name
}

/// The line of an item: its number, a box that is crossed if it is done, and
/// its text.
pub open spec fn entry_line(number: nat, item: ItemView) -> Seq<char> {
    "  "@ + decimal(number) + ". ["@ + (if item.completed {
        "x"@
    } else {
        " "@
    }) + "] "@ + item.description
}

/// The lines of the items that are shown, in their order. Each item keeps
/// the number it has in its list, whether or not the items before it are shown.
pub open spec fn entry_lines(
    items: Seq<ItemView>,
    all: bool,
    completed: bool,
    incomplete: bool,
) -> Seq<Seq<char>>
    decreases items.len(),
{
    if items.len() == 0 {
        Seq::empty()
    } else {
        let before = entry_lines(items.drop_last(), all, completed, incomplete);
        if shows(all, completed, incomplete, items.last().completed) {
            before.push(entry_line(items.len(), items.last()))
        } else {
            before
        }
    }
}

/// The lines of one list: its heading, its items that are shown, and an
/// empty line.
pub open spec fn list_lines(list: ListView, all: bool, completed: bool, incomplete: bool) -> Seq<
    Seq<char>,
> {
    seq![heading(list.name)] + entry_lines(list.items, all, completed, incomplete) + seq![
        Seq::<char>::empty(),
    ]
}

/// The lines of several lists, one list after the other.
pub open spec fn all_lines(
    docs: Seq<ListView>,
    all: bool,
    completed: bool,
    incomplete: bool,
) -> Seq<Seq<char>>
    decreases docs.len(),
{
    if docs.len() == 0 {
        Seq::empty()
    } else {
        all_lines(docs.drop_last(), all, completed, incomplete) + list_lines(
            docs.last(),
            all,
            completed,
            incomplete,
        )
    }
}

/// Whether an item is shown.
pub fn is_shown(all: bool, completed: bool, incomplete: bool, done: bool) -> (r: bool)
    ensures
        r == shows(all, completed, incomplete, done),
{
    (all || (!completed && !incomplete)) || (completed && done) || (incomplete && !done)
}

/// Three pieces of text in a row.
fn join3(first: &str, second: &str, third: &str) -> (r: String)
    ensures
        r@ == first@ + second@ + third@,
{
    String::from_str(first).concat(second).concat(third)
}

/// Writes the line of an item.
pub fn render_entry(number: usize, item: &Item) -> (r: String)
    ensures
        r@ == entry_line(number as nat, item@),
{
    let digits = decimal_string(number);
    let mark = if item.completed {
        "x"
    } else {
        " "
    };
    String::from_str("  ").concat(digits.as_str()).concat(". [").concat(mark).concat("] ").concat(
        item.description.as_str(),
    )
}

/// Appends the lines of one list to the lines written so far.
pub fn render_list(
    list: &List,
    all: bool,
    completed: bool,
    incomplete: bool,
    lines: &mut Vec<String>,
)
    ensures
        texts(final(lines)@) == texts(old(lines)@) + list_lines(list@, all, completed, incomplete),
{
    let ghost start = texts(lines@);
    let ghost items = list@.items;
    lines.push(String::from_str("List: ").concat(list.name.as_str()));
    let mut k: usize = 0;
    while k < list.items.len()
        invariant
            k <= list.items.len(),
            items == list@.items,
            texts(lines@) == start + seq![heading(list@.name)] + entry_lines(
                items.take(k as int),
                all,
                completed,
                incomplete,
            ),
        decreases list.items.len() - k,
    {
        let ghost so_far = texts(lines@);
        proof {
            assert(items.take(k as int + 1).drop_last() =~= items.take(k as int));
        }
        if is_shown(all, completed, incomplete, list.items[k].completed) {
            lines.push(render_entry(k + 1, &list.items[k]));
            assert(texts(lines@) =~= so_far.push(
                entry_line((k + 1) as nat, list.items@[k as int]@),
            ));
        }
        k += 1;
    }
    assert(items.take(k as int) =~= items);
    let ghost body = texts(lines@);
    lines.push(String::new());
    assert(texts(lines@) =~= body.push(Seq::<char>::empty()));
}

/// The number that an optional number holds, if it holds one.
pub open spec fn number_of(number: Option<usize>) -> Option<int> {
    match number {
        Some(n) => Some(n as int),
        None => None,
    }
}

/// What `show_tasks` owes: the lines of the list that was named, or of every
/// list, one after the other in some order; an error if the list that was
/// named is not there.
pub open spec fn shown(
    db: Database,
    all: bool,
    completed: bool,
    incomplete: bool,
    list_name: Option<Seq<char>>,
    r: TodoResult<Outcome>,
) -> bool {
    match list_name {
        Some(name) => if db@.contains_key(name) {
            r matches Ok(o) && o.follow_up is Nothing && texts(o.lines@) == list_lines(
                ListView { name, items: db@[name] },
                all,
                completed,
                incomplete,
            )
        } else {
            r matches Err(e) && e@ == ErrorView::ListNotFound(name)
        },
        None => r matches Ok(o) && o.follow_up is Nothing && exists|docs: Seq<ListView>|
            names_distinct(docs) && #[trigger] as_map(docs) == db@ && texts(o.lines@) == all_lines(
                docs,
                all,
                completed,
                incomplete,
            ),
    }
}

/// The lines of one list or of all of them. The cache is only read.
pub fn show_tasks(
    db: &Database,
    all: bool,
    completed: bool,
    incomplete: bool,
    list_name: Option<String>,
) -> (r: TodoResult<Outcome>)
    ensures
        shown(*db, all, completed, incomplete, text_of(list_name), r),
{
    let mut lines: Vec<String> = Vec::new();
    match list_name {
        Some(name) => match db.get_list(name.as_str()) {
            Err(e) => Err(e),
            Ok(list) => {
                render_list(&list, all, completed, incomplete, &mut lines);
                Ok(Outcome { lines, follow_up: FollowUp::Nothing })
            },
        },
        None => {
            let docs = db.documents();
            let ghost views = lists_view(docs@);
            let mut k: usize = 0;
            while k < docs.len()
                invariant
                    k <= docs.len(),
                    views == lists_view(docs@),
                    texts(lines@) == all_lines(views.take(k as int), all, completed, incomplete),
                decreases docs.len() - k,
            {
                proof {
                    assert(views.take(k as int + 1).drop_last() =~= views.take(k as int));
                }
                render_list(&docs[k], all, completed, incomplete, &mut lines);
                k += 1;
            }
            assert(views.take(k as int) =~= views);
            Ok(Outcome { lines, follow_up: FollowUp::Nothing })
        },
    }
}

/// What is said when an item has been added: that the list was created, if
/// it was; that the cache has changed; that the item is in.
pub open spec fn added_lines(name: Seq<char>, created: bool) -> Seq<Seq<char>> {
    let said = seq![
        "Local database updated and marked as dirty."@,
        "Task added to list '"@ + name + "'"@,
    ];
    if created {
        seq!["Created new list '"@ + name + "'"@] + said
    } else {
        said
    }
}

/// What `add_task` owes: the item, not done, at the end of the list, which
/// is created first if it is not there.
pub open spec fn added(
    before: Database,
    after: Database,
    name: Seq<char>,
    description: Seq<char>,
    r: TodoResult<Outcome>,
) -> bool {
    let base = if before@.contains_key(name) {
        before@
    } else {
        before@.insert(name, Seq::empty())
    };
    &&& r matches Ok(o) && o.follow_up is Persist && texts(o.lines@) == added_lines(
        name,
        !before@.contains_key(name),
    )
    &&& after@ == appended(base, name, ItemView { description, completed: false })
    &&& after.dirty()
    &&& after.same_origin(&before)
}

/// Adds an item that is not done to a list, and creates the list first if
/// it is not there.
pub fn add_task(db: &mut Database, list_name: &str, item_description: &str) -> (r: TodoResult<
    Outcome,
>)
    ensures
        added(*old(db), *final(db), list_name@, item_description@, r),
{
    let mut lines: Vec<String> = Vec::new();
    let ghost known = db@.contains_key(list_name@);
    let missing = match db.get_list(list_name) {
        Ok(_) => false,
        Err(_) => true,
    };
    if missing {
        let _ = db.create_list(list_name);
        lines.push(join3("Created new list '", list_name, "'"));
    }
    let item = Item { description: item_description.to_owned(), completed: false };
    match db.add_item(list_name, item) {
        Err(e) => Err(e),
        Ok(_) => {
            lines.push(String::from_str("Local database updated and marked as dirty."));
            lines.push(join3("Task added to list '", list_name, "'"));
            assert(texts(lines@) =~= added_lines(list_name@, !known));
            Ok(Outcome { lines, follow_up: FollowUp::Persist })
        },
    }
}

/// What is said when an item has been marked.
pub open spec fn marked_line(name: Seq<char>, number: nat, completed: bool) -> Seq<char> {
    "Task "@ + decimal(number) + " in list '"@ + name + (if completed {
        "' marked as completed"@
    } else {
        "' marked as incomplete"@
    })
}

/// What marking an item owes: the item marked and one line said, or the
/// error that says what is not there, with the cache as it was.
pub open spec fn marked(
    before: Database,
    after: Database,
    name: Seq<char>,
    number: usize,
    completed: bool,
    r: TodoResult<Outcome>,
) -> bool {
    &&& after.same_origin(&before)
    &&& if !before@.contains_key(name) {
        (r matches Err(e) && e@ == ErrorView::ListNotFound(name)) && after == before
    } else if !has_item(before@, name, number as int) {
        (r matches Err(e) && e@ == ErrorView::ItemNotFound(name, number as nat)) && after
            == before
    } else {
        &&& r matches Ok(o) && o.follow_up is Persist && texts(o.lines@) == seq![
            marked_line(name, number as nat, completed),
        ]
        &&& after@ == with_status(before@, name, number as int, completed)
        &&& after.dirty()
    }
}

/// Marks an item as done or as not done.
fn mark_task(db: &mut Database, list_name: &str, item_number: usize, completed: bool) -> (r:
    TodoResult<Outcome>)
    ensures
        marked(*old(db), *final(db), list_name@, item_number, completed, r),
{
    match db.update_item_status(list_name, item_number, completed) {
        Err(e) => Err(e),
        Ok(_) => {
            let digits = decimal_string(item_number);
            let ending = if completed {
                "' marked as completed"
            } else {
                "' marked as incomplete"
            };
            let line = String::from_str("Task ").concat(digits.as_str()).concat(
                " in list '",
            ).concat(list_name).concat(ending);
            let mut lines: Vec<String> = Vec::new();
            lines.push(line);
            assert(texts(lines@) =~= seq![marked_line(list_name@, item_number as nat, completed)]);
            Ok(Outcome { lines, follow_up: FollowUp::Persist })
        },
    }
}

/// Marks an item as done.
pub fn complete_task(db: &mut Database, list_name: &str, item_number: usize) -> (r: TodoResult<
    Outcome,
>)
    ensures
        marked(*old(db), *final(db), list_name@, item_number, true, r),
{
    mark_task(db, list_name, item_number, true)
}

/// Marks an item as not done.
pub fn incomplete_task(db: &mut Database, list_name: &str, item_number: usize) -> (r: TodoResult<
    Outcome,
>)
    ensures
        marked(*old(db), *final(db), list_name@, item_number, false, r),
{
    mark_task(db, list_name, item_number, false)
}

/// What `remove_task` owes. With a list and a number the item leaves the
/// list; with a list alone the list leaves the cache; with neither every
/// list does. A number without a list is answered with one line, and the
/// cache stays as it was. An error says what is not there, and the cache
/// stays as it was.
pub open spec fn removed(
    before: Database,
    after: Database,
    list_name: Option<Seq<char>>,
    item_number: Option<int>,
    r: TodoResult<Outcome>,
) -> bool {
    &&& after.same_origin(&before)
    &&& match (list_name, item_number) {
        (Some(name), Some(number)) => if !before@.contains_key(name) {
            (r matches Err(e) && e@ == ErrorView::ListNotFound(name)) && after == before
        } else if !has_item(before@, name, number) {
            (r matches Err(e) && e@ == ErrorView::ItemNotFound(name, number as nat)) && after
                == before
        } else {
            &&& r matches Ok(o) && o.follow_up is Persist && texts(o.lines@) == seq![
                "Task "@ + decimal(number as nat) + " removed from list '"@ + name + "'"@,
            ]
            &&& after@ == without_item(before@, name, number)
            &&& after.dirty()
        },
        (Some(name), None) => if !before@.contains_key(name) {
            (r matches Err(e) && e@ == ErrorView::ListNotFound(name)) && after == before
        } else {
            &&& r matches Ok(o) && o.follow_up is Persist && texts(o.lines@) == seq![
                "List '"@ + name + "' removed"@,
            ]
            &&& after@ == before@.remove(name)
            &&& after.dirty()
        },
        (None, None) => {
            &&& r matches Ok(o) && o.follow_up is Persist && texts(o.lines@) == seq![
                "All lists removed"@,
            ]
            &&& after@ == CacheView::empty()
            &&& after.dirty()
        },
        (None, Some(_)) => {
            &&& r matches Ok(o) && o.follow_up is Nothing && texts(o.lines@) == seq![
                "Invalid combination of arguments"@,
            ]
            &&& after == before
        },
    }
}

/// Removes an item, a list, or every list.
pub fn remove_task(db: &mut Database, list_name: Option<String>, item_number: Option<usize>) -> (r:
    TodoResult<Outcome>)
    ensures
        removed(*old(db), *final(db), text_of(list_name), number_of(item_number), r),
{
    let mut lines: Vec<String> = Vec::new();
    match (list_name, item_number) {
        (Some(list), Some(number)) => match db.remove_item(list.as_str(), number) {
            Err(e) => Err(e),
            Ok(_) => {
                let digits = decimal_string(number);
                lines.push(
                    String::from_str("Task ").concat(digits.as_str()).concat(
                        " removed from list '",
                    ).concat(list.as_str()).concat("'"),
                );
                assert(texts(lines@) =~= seq![
                    "Task "@ + decimal(number as nat) + " removed from list '"@ + list@ + "'"@,
                ]);
                Ok(Outcome { lines, follow_up: FollowUp::Persist })
            },
        },
        (Some(list), None) => match db.remove_list(list.as_str()) {
            Err(e) => Err(e),
            Ok(_) => {
                lines.push(join3("List '", list.as_str(), "' removed"));
                assert(texts(lines@) =~= seq!["List '"@ + list@ + "' removed"@]);
                Ok(Outcome { lines, follow_up: FollowUp::Persist })
            },
        },
        (None, None) => {
            let _ = db.remove_all_lists();
            lines.push(String::from_str("All lists removed"));
            assert(texts(lines@) =~= seq!["All lists removed"@]);
            Ok(Outcome { lines, follow_up: FollowUp::Persist })
        },
        (None, Some(_)) => {
            lines.push(String::from_str("Invalid combination of arguments"));
            assert(texts(lines@) =~= seq!["Invalid combination of arguments"@]);
            Ok(Outcome { lines, follow_up: FollowUp::Nothing })
        },
    }
}

/// What is left to the caller after a command that does not touch the cache.
pub open spec fn handed_on(
    before: Database,
    after: Database,
    follow_up: FollowUp,
    r: TodoResult<Outcome>,
) -> bool {
    r matches Ok(o) && o.follow_up == follow_up && o.lines@.len() == 0 && after == before
}

/// What `execute_command` owes, command by command.
pub open spec fn executed(
    before: Database,
    after: Database,
    command: Command,
    r: TodoResult<Outcome>,
) -> bool {
    match command {
        Command::Show { all, completed, incomplete, list_name } => shown(
            before,
            all,
            completed,
            incomplete,
            text_of(list_name),
            r,
        ) && after == before,
        Command::Add { list_name, item } => added(before, after, list_name@, item@, r),
        Command::Complete { list_name, item_number } => marked(
            before,
            after,
            list_name@,
            item_number,
            true,
            r,
        ),
        Command::Incomplete { list_name, item_number } => marked(
            before,
            after,
            list_name@,
            item_number,
            false,
            r,
        ),
        Command::Remove { list_name, item_number } => removed(
            before,
            after,
            text_of(list_name),
            number_of(item_number),
            r,
        ),
        Command::Push => handed_on(before, after, FollowUp::Push, r),
        Command::Pull => handed_on(before, after, FollowUp::Pull, r),
        Command::Login => handed_on(before, after, FollowUp::Login, r),
        Command::Logout => handed_on(before, after, FollowUp::Logout, r),
    }
}

/// Carries out a command on the cache, as far as the cache alone can do it.
/// What needs the file, the remote store or the login is named in the
/// outcome and left to the caller.
pub fn execute_command(db: &mut Database, command: Command) -> (r: TodoResult<Outcome>)
    ensures
        executed(*old(db), *final(db), command, r),
{
    match command {
        Command::Show { all, completed, incomplete, list_name } => show_tasks(
            db,
            all,
            completed,
            incomplete,
            list_name,
        ),
        Command::Add { list_name, item } => add_task(db, list_name.as_str(), item.as_str()),
        Command::Complete { list_name, item_number } => complete_task(
            db,
            list_name.as_str(),
            item_number,
        ),
        Command::Incomplete { list_name, item_number } => incomplete_task(
            db,
            list_name.as_str(),
            item_number,
        ),
        Command::Remove { list_name, item_number } => remove_task(db, list_name, item_number),
        Command::Push => Ok(Outcome { lines: Vec::new(), follow_up: FollowUp::Push }),
        Command::Pull => Ok(Outcome { lines: Vec::new(), follow_up: FollowUp::Pull }),
        Command::Login => Ok(Outcome { lines: Vec::new(), follow_up: FollowUp::Login }),
        Command::Logout => Ok(Outcome { lines: Vec::new(), follow_up: FollowUp::Logout }),
    }
}

} // verus!

use tasklist::db::Database;
use tasklist::error::TodoError;
use tasklist::models::{Item, List};

fn item(description: &str, completed: bool) -> Item {
    Item { description: description.to_string(), completed }
}

fn empty_cache() -> Database {
    Database::new_local_only(Vec::new()).expect("Failed to create database")
}

fn work_with_three() -> Database {
    let mut db = empty_cache();
    db.create_list("Work").unwrap();
    db.add_item("Work", item("one", false)).unwrap();
    db.add_item("Work", item("two", false)).unwrap();
    db.add_item("Work", item("three", true)).unwrap();
    db
}

fn sorted(mut lists: Vec<List>) -> Vec<List> {
    lists.sort_by(|a, b| a.name.cmp(&b.name));
    lists
}

#[test]
fn test_basic_local_operations() {
    let mut db = Database::new(Some("mongodb://example.invalid".to_string()), Vec::new())
        .expect("Failed to create database");

    db.create_list("Test List").expect("Failed to create list");

    let item = Item { description: "Test Item".to_string(), completed: false };
    db.add_item("Test List", item).expect("Failed to add item");

    let list = db.get_list("Test List").expect("Failed to get list");
    assert_eq!(list.name, "Test List");
    assert_eq!(list.items.len(), 1);
    assert_eq!(list.items[0].description, "Test Item");

    db.update_item_status("Test List", 1, true).expect("Failed to update item status");
    let updated_list = db.get_list("Test List").expect("Failed to get updated list");
    assert!(updated_list.items[0].completed);

    db.remove_list("Test List").expect("Failed to remove list");
    let lists = db.get_lists().expect("Failed to get lists");
    assert_eq!(lists.len(), 0);
}

#[test]
fn new_without_an_address_is_a_config_error() {
    let r = Database::new(None, Vec::new());
    match r {
        Err(e) => assert_eq!(e, TodoError::ConfigError("MONGODB_URI must be set".to_string())),
        Ok(_) => panic!("a cache was made without an address"),
    }
}

#[test]
fn new_keeps_the_address_and_names_the_database() {
    let db = Database::new(Some("mongodb://host:1".to_string()), Vec::new()).unwrap();
    assert_eq!(db.remote_address(), "mongodb://host:1");
    assert_eq!(db.remote_database(), "todo_app");
    assert!(!db.is_dirty());
}

#[test]
fn new_local_only_has_a_stand_in_remote() {
    let db = empty_cache();
    assert_eq!(db.remote_address(), "mongodb://localhost:27017");
    assert_eq!(db.remote_database(), "dummy_db");
    assert!(!db.is_dirty());
    assert_eq!(db.get_lists().unwrap().len(), 0);
}

#[test]
fn new_holds_the_lists_that_were_loaded() {
    let loaded = vec![
        List { name: "A".to_string(), items: vec![item("x", false)] },
        List { name: "B".to_string(), items: vec![item("y", true), item("z", false)] },
    ];
    let db = Database::new_local_only(loaded.clone()).unwrap();
    assert_eq!(sorted(db.get_lists().unwrap()), loaded);
    assert!(!db.is_dirty());
}

#[test]
fn add_milk_to_groceries() {
    let mut db = empty_cache();
    db.create_list("Groceries").unwrap();
    db.add_item("Groceries", item("Milk", false)).unwrap();
    let list = db.get_list("Groceries").unwrap();
    assert_eq!(list, List { name: "Groceries".to_string(), items: vec![item("Milk", false)] });
}

#[test]
fn remove_second_of_three_items() {
    let mut db = work_with_three();
    db.remove_item("Work", 2).unwrap();
    let list = db.get_list("Work").unwrap();
    assert_eq!(list.items.len(), 2);
    assert_eq!(list.items[0], item("one", false));
    assert_eq!(list.items[1], item("three", true));
}

#[test]
fn update_item_five_of_three_leaves_list() {
    let mut db = work_with_three();
    let before = db.get_list("Work").unwrap();
    let r = db.update_item_status("Work", 5, true);
    assert_eq!(r, Err(TodoError::ItemNotFound("Work".to_string(), 5)));
    assert_eq!(db.get_list("Work").unwrap(), before);
}

#[test]
fn add_item_appends_at_the_end_and_grows_by_one() {
    let mut db = work_with_three();
    db.add_item("Work", item("four", false)).unwrap();
    let list = db.get_list("Work").unwrap();
    assert_eq!(list.items.len(), 4);
    assert_eq!(list.items[3], item("four", false));
    assert_eq!(list.items[0], item("one", false));
    assert_eq!(list.items[1], item("two", false));
    assert_eq!(list.items[2], item("three", true));
}

#[test]
fn add_item_to_unknown_list_is_list_not_found() {
    let mut db = empty_cache();
    let r = db.add_item("Nowhere", item("x", false));
    assert_eq!(r, Err(TodoError::ListNotFound("Nowhere".to_string())));
    assert!(!db.is_dirty());
    assert_eq!(db.get_lists().unwrap().len(), 0);
}

#[test]
fn update_status_changes_only_completed() {
    let mut db = work_with_three();
    db.update_item_status("Work", 2, true).unwrap();
    let list = db.get_list("Work").unwrap();
    assert_eq!(list.items, vec![item("one", false), item("two", true), item("three", true)]);
    db.update_item_status("Work", 3, false).unwrap();
    let list = db.get_list("Work").unwrap();
    assert_eq!(list.items, vec![item("one", false), item("two", true), item("three", false)]);
}

#[test]
fn update_status_number_zero_is_item_not_found() {
    let mut db = work_with_three();
    let r = db.update_item_status("Work", 0, true);
    assert_eq!(r, Err(TodoError::ItemNotFound("Work".to_string(), 0)));
}

#[test]
fn update_status_number_one_past_the_end_is_item_not_found() {
    let mut db = work_with_three();
    let r = db.update_item_status("Work", 4, true);
    assert_eq!(r, Err(TodoError::ItemNotFound("Work".to_string(), 4)));
    assert!(db.update_item_status("Work", 3, true).is_ok());
}

#[test]
fn update_status_on_unknown_list_is_list_not_found() {
    let mut db = work_with_three();
    let r = db.update_item_status("Home", 1, true);
    assert_eq!(r, Err(TodoError::ListNotFound("Home".to_string())));
}

#[test]
fn remove_item_first_and_last() {
    let mut db = work_with_three();
    db.remove_item("Work", 1).unwrap();
    assert_eq!(db.get_list("Work").unwrap().items, vec![item("two", false), item("three", true)]);
    db.remove_item("Work", 2).unwrap();
    assert_eq!(db.get_list("Work").unwrap().items, vec![item("two", false)]);
    db.remove_item("Work", 1).unwrap();
    assert_eq!(db.get_list("Work").unwrap().items, Vec::<Item>::new());
}

#[test]
fn remove_item_out_of_range_is_item_not_found() {
    let mut db = work_with_three();
    assert_eq!(db.remove_item("Work", 0), Err(TodoError::ItemNotFound("Work".to_string(), 0)));
    assert_eq!(db.remove_item("Work", 4), Err(TodoError::ItemNotFound("Work".to_string(), 4)));
    assert_eq!(
        db.remove_item("Work", usize::MAX),
        Err(TodoError::ItemNotFound("Work".to_string(), usize::MAX))
    );
    assert_eq!(db.get_list("Work").unwrap().items.len(), 3);
}

#[test]
fn remove_item_from_empty_list_is_item_not_found() {
    let mut db = empty_cache();
    db.create_list("Empty").unwrap();
    assert_eq!(db.remove_item("Empty", 1), Err(TodoError::ItemNotFound("Empty".to_string(), 1)));
}

#[test]
fn remove_item_on_unknown_list_is_list_not_found() {
    let mut db = work_with_three();
    assert_eq!(db.remove_item("Home", 1), Err(TodoError::ListNotFound("Home".to_string())));
}

#[test]
fn remove_list_then_everything_on_it_is_list_not_found() {
    let mut db = work_with_three();
    db.remove_list("Work").unwrap();
    assert_eq!(db.get_list("Work"), Err(TodoError::ListNotFound("Work".to_string())));
    assert_eq!(db.add_item("Work", item("x", false)), Err(TodoError::ListNotFound("Work".to_string())));
    assert_eq!(db.update_item_status("Work", 1, true), Err(TodoError::ListNotFound("Work".to_string())));
    assert_eq!(db.remove_item("Work", 1), Err(TodoError::ListNotFound("Work".to_string())));
    assert_eq!(db.remove_list("Work"), Err(TodoError::ListNotFound("Work".to_string())));
}

#[test]
fn remove_list_leaves_the_other_lists() {
    let mut db = work_with_three();
    db.create_list("Home").unwrap();
    db.add_item("Home", item("sweep", false)).unwrap();
    db.remove_list("Work").unwrap();
    let lists = db.get_lists().unwrap();
    assert_eq!(lists, vec![List { name: "Home".to_string(), items: vec![item("sweep", false)] }]);
}

#[test]
fn create_list_again_empties_the_list() {
    let mut db = work_with_three();
    db.create_list("Work").unwrap();
    assert_eq!(db.get_list("Work").unwrap().items.len(), 0);
    assert_eq!(db.get_lists().unwrap().len(), 1);
}

#[test]
fn remove_all_lists_empties_the_cache() {
    let mut db = work_with_three();
    db.create_list("Home").unwrap();
    db.set_dirty(false);
    db.remove_all_lists().unwrap();
    assert_eq!(db.get_lists().unwrap().len(), 0);
    assert!(db.is_dirty());
    db.remove_all_lists().unwrap();
    assert_eq!(db.get_lists().unwrap().len(), 0);
}

#[test]
fn every_change_marks_the_cache_dirty() {
    let mut db = empty_cache();
    assert!(!db.is_dirty());
    db.create_list("Work").unwrap();
    assert!(db.is_dirty());
    db.set_dirty(false);
    db.add_item("Work", item("a", false)).unwrap();
    assert!(db.is_dirty());
    db.set_dirty(false);
    db.update_item_status("Work", 1, true).unwrap();
    assert!(db.is_dirty());
    db.set_dirty(false);
    db.remove_item("Work", 1).unwrap();
    assert!(db.is_dirty());
    db.set_dirty(false);
    db.remove_list("Work").unwrap();
    assert!(db.is_dirty());
}

#[test]
fn a_failed_change_leaves_the_flag() {
    let mut db = work_with_three();
    db.set_dirty(false);
    assert!(db.update_item_status("Work", 9, true).is_err());
    assert!(db.remove_item("Work", 9).is_err());
    assert!(db.remove_list("Home").is_err());
    assert!(db.add_item("Home", item("x", false)).is_err());
    assert!(!db.is_dirty());
}

#[test]
fn update_local_db_replaces_everything_and_keeps_the_flag() {
    let mut db = work_with_three();
    db.set_dirty(false);
    let fresh = vec![List { name: "Home".to_string(), items: vec![item("sweep", false)] }];
    db.update_local_db(fresh.clone()).unwrap();
    assert_eq!(db.get_local_db().unwrap(), fresh);
    assert!(!db.is_dirty());
    assert!(db.get_list("Work").is_err());
    db.set_dirty(true);
    db.update_local_db(Vec::new()).unwrap();
    assert!(db.is_dirty());
    assert_eq!(db.get_local_db().unwrap().len(), 0);
}

#[test]
fn update_local_db_lets_the_later_document_of_a_name_count() {
    let mut db = empty_cache();
    let docs = vec![
        List { name: "A".to_string(), items: vec![item("old", false)] },
        List { name: "B".to_string(), items: vec![item("b", false)] },
        List { name: "A".to_string(), items: vec![item("new", true), item("newer", false)] },
    ];
    db.update_local_db(docs).unwrap();
    let lists = sorted(db.get_lists().unwrap());
    assert_eq!(lists.len(), 2);
    assert_eq!(lists[0], List { name: "A".to_string(), items: vec![item("new", true), item("newer", false)] });
    assert_eq!(lists[1], List { name: "B".to_string(), items: vec![item("b", false)] });
}

#[test]
fn snapshot_put_back_gives_the_same_snapshot() {
    let mut db = work_with_three();
    db.create_list("Home").unwrap();
    db.add_item("Home", item("sweep", true)).unwrap();
    let first = db.get_local_db().unwrap();
    db.update_local_db(first.clone()).unwrap();
    let second = db.get_local_db().unwrap();
    assert_eq!(sorted(second.clone()), sorted(first));
    db.update_local_db(second.clone()).unwrap();
    assert_eq!(db.get_local_db().unwrap(), second);
}

#[test]
fn get_lists_is_a_copy() {
    let mut db = work_with_three();
    let mut lists = db.get_lists().unwrap();
    lists[0].items.clear();
    lists[0].name.push('!');
    assert_eq!(db.get_list("Work").unwrap().items.len(), 3);
    db.remove_item("Work", 1).unwrap();
    assert_eq!(db.get_lists().unwrap()[0].items.len(), 2);
}

#[test]
fn list_names_are_told_apart_exactly() {
    let mut db = empty_cache();
    db.create_list("work").unwrap();
    db.create_list("Work").unwrap();
    db.create_list("Work ").unwrap();
    db.create_list("").unwrap();
    assert_eq!(db.get_lists().unwrap().len(), 4);
    db.add_item("Work", item("x", false)).unwrap();
    assert_eq!(db.get_list("work").unwrap().items.len(), 0);
    assert_eq!(db.get_list("Work").unwrap().items.len(), 1);
    assert_eq!(db.get_list("").unwrap().name, "");
}

#[test]
fn update_last_modified_does_not_go_back_and_keeps_the_rest() {
    let mut db = work_with_three();
    db.set_dirty(false);
    let made = db.last_modified_time();
    db.update_last_modified();
    assert!(db.last_modified_time() >= made);
    assert!(!db.is_dirty());
    assert_eq!(db.get_list("Work").unwrap().items.len(), 3);
}

#[test]
fn set_last_modified_records_the_time_given() {
    let mut db = empty_cache();
    let t = std::time::UNIX_EPOCH + std::time::Duration::from_secs(1_000_000);
    db.set_last_modified(t);
    assert_eq!(db.last_modified_time(), t);
}

use safer_ffi_example::add_todo;
use safer_ffi_example::app_free;
use safer_ffi_example::app_new;
use safer_ffi_example::collection_append;
use safer_ffi_example::collection_new;
use safer_ffi_example::get_todo_count;
use safer_ffi_example::get_todo_id_at;
use safer_ffi_example::get_todo_note_at;
use safer_ffi_example::string_free;
use safer_ffi_example::string_in;
use safer_ffi_example::string_out;
use safer_ffi_example::App;
use safer_ffi_example::MarshalError;
use safer_ffi_example::Todo;

#[test]
fn string_round_trip_observes_same_text() {
    let owned = string_in("hello world").unwrap();
    let copy = string_out(&owned);
    assert_eq!(copy.to_str(), "hello world");
    assert_eq!(owned.to_str(), "hello world");
    string_free(copy);
    string_free(owned);
}

#[test]
fn string_round_trip_multibyte() {
    let owned = string_in("牛乳を買う").unwrap();
    let copy = string_out(&owned);
    assert_eq!(copy.to_str(), "牛乳を買う");
}

#[test]
fn string_in_rejects_interior_nul() {
    assert_eq!(string_in("a\0b").unwrap_err(), MarshalError::InvalidEncoding);
    assert_eq!(string_in("\0").unwrap_err(), MarshalError::InvalidEncoding);
    assert_eq!(string_in("ab\0").unwrap_err(), MarshalError::InvalidEncoding);
}

#[test]
fn string_in_accepts_empty_text() {
    let owned = string_in("").unwrap();
    assert_eq!(owned.to_str(), "");
    let copy = string_out(&owned);
    assert_eq!(copy.to_str(), "");
}

#[test]
fn add_todo_rejects_interior_nul_and_leaves_container_unchanged() {
    let mut app = App::default();
    assert!(add_todo(&mut app, 1, "first"));
    assert!(!add_todo(&mut app, 2, "bad\0note"));
    assert_eq!(get_todo_count(&app), 1);
    assert_eq!(get_todo_id_at(&app, 0), 1);
    assert_eq!(get_todo_note_at(&app, 0).to_str(), "first");
}

#[test]
fn appends_keep_insertion_order() {
    let mut app = App::default();
    for i in 0..5 {
        assert!(add_todo(&mut app, i, &format!("note {i}")));
        assert_eq!(get_todo_count(&app), (i + 1) as usize);
    }
    for i in 0..5 {
        assert_eq!(get_todo_id_at(&app, i as usize), i);
        assert_eq!(get_todo_note_at(&app, i as usize).to_str(), format!("note {i}"));
    }
}

#[test]
fn out_of_range_index_yields_sentinels() {
    let mut app = App::default();
    add_todo(&mut app, 10, "only one");
    assert_eq!(get_todo_id_at(&app, 1), -1);
    assert_eq!(get_todo_id_at(&app, usize::MAX), -1);
    assert_eq!(get_todo_note_at(&app, 1).to_str(), "");
    assert_eq!(get_todo_note_at(&app, usize::MAX).to_str(), "");
}

#[test]
fn note_out_is_a_fresh_copy() {
    let mut app = App::default();
    add_todo(&mut app, 1, "keep me");
    let first = get_todo_note_at(&app, 0);
    string_free(first);
    // The record keeps its own copy: reading again still observes the text.
    let second = get_todo_note_at(&app, 0);
    assert_eq!(second.to_str(), "keep me");
}

#[test]
fn todo_new_with_empty_note() {
    let todo = Todo::new(0, "");
    assert_eq!(todo.id, 0);
    assert_eq!(todo.note.to_str(), "");
}

#[test]
fn todo_clone_is_deep() {
    let todo = Todo::new(3, "original");
    let copy = todo.clone();
    drop(todo);
    assert_eq!(copy.id, 3);
    assert_eq!(copy.note.to_str(), "original");
}

#[test]
fn collection_ops_build_in_order() {
    let empty = collection_new();
    assert_eq!(empty.len(), 0);
    let one = collection_append(&empty, Todo::new(5, "x"));
    let two = collection_append(&one, Todo::new(6, "y"));
    assert_eq!(empty.len(), 0);
    assert_eq!(one.len(), 1);
    assert_eq!(two.len(), 2);
    assert_eq!(two[0].id, 5);
    assert_eq!(two[0].note.to_str(), "x");
    assert_eq!(two[1].id, 6);
    assert_eq!(two[1].note.to_str(), "y");
}

#[test]
fn handle_scenario_append_read_free() {
    let mut handle = app_new();
    assert_eq!(get_todo_count(&handle), 0);
    assert!(add_todo(&mut handle, 1, "buy milk"));
    assert!(add_todo(&mut handle, 2, "call mom"));
    assert_eq!(get_todo_count(&handle), 2);
    assert_eq!(get_todo_id_at(&handle, 0), 1);
    assert_eq!(get_todo_note_at(&handle, 0).to_str(), "buy milk");
    assert_eq!(get_todo_id_at(&handle, 1), 2);
    assert_eq!(get_todo_note_at(&handle, 1).to_str(), "call mom");
    assert_eq!(get_todo_id_at(&handle, 5), -1);
    assert_eq!(get_todo_note_at(&handle, 5).to_str(), "");
    app_free(handle);
}

#[test]
fn freeing_one_handle_leaves_others_untouched() {
    let mut first = app_new();
    let mut second = app_new();
    add_todo(&mut first, 1, "mine");
    add_todo(&mut second, 2, "yours");
    app_free(first);
    assert_eq!(get_todo_count(&second), 1);
    assert_eq!(get_todo_id_at(&second, 0), 2);
    assert_eq!(get_todo_note_at(&second, 0).to_str(), "yours");
    app_free(second);
}

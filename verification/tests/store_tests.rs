use clipboard_warrior::store::{Command, Store};

fn cmd(command: &str, menu: &str) -> Command {
    Command { command: command.to_string(), menu: menu.to_string() }
}

fn sample() -> Store {
    Store {
        commands: vec![
            cmd("git status", "git"),
            cmd("ls -la", "files"),
            cmd("git log", "git"),
            cmd("du -sh", "files"),
            cmd("git diff", "git"),
        ],
    }
}

#[test]
fn new_store_is_empty() {
    let store = Store::new();
    assert_eq!(store.len(), 0);
    assert_eq!(store.commands, Vec::<Command>::new());
}

#[test]
fn append_adds_one_trailing_command() {
    let mut store = sample();
    let before = store.commands.clone();
    store.append("files".to_string(), "pwd".to_string());
    assert_eq!(store.len(), before.len() + 1);
    assert_eq!(&store.commands[..before.len()], &before[..]);
    assert_eq!(store.commands[before.len()], cmd("pwd", "files"));
}

#[test]
fn append_to_empty_store() {
    let mut store = Store::new();
    store.append("m".to_string(), "c".to_string());
    assert_eq!(store.commands, vec![cmd("c", "m")]);
}

#[test]
fn appends_keep_their_order() {
    let mut store = Store::new();
    store.append("a".to_string(), "one".to_string());
    store.append("b".to_string(), "two".to_string());
    store.append("a".to_string(), "three".to_string());
    assert_eq!(store.commands, vec![cmd("one", "a"), cmd("two", "b"), cmd("three", "a")]);
}

#[test]
fn append_keeps_menu_and_text_apart() {
    let mut store = Store::new();
    store.append("the menu".to_string(), "the text".to_string());
    assert_eq!(store.commands[0].menu, "the menu");
    assert_eq!(store.commands[0].command, "the text");
}

#[test]
fn menus_lists_every_command() {
    assert_eq!(sample().menus(), vec!["git", "files", "git", "files", "git"]);
    assert_eq!(Store::new().menus(), Vec::<String>::new());
}

#[test]
fn commands_in_keeps_store_order() {
    let store = sample();
    assert_eq!(store.commands_in("git"), vec!["git status", "git log", "git diff"]);
    assert_eq!(store.commands_in("files"), vec!["ls -la", "du -sh"]);
}

#[test]
fn commands_in_unknown_menu_is_empty() {
    assert_eq!(sample().commands_in("Home"), Vec::<String>::new());
    assert_eq!(sample().commands_in(""), Vec::<String>::new());
    assert_eq!(sample().commands_in("Git"), Vec::<String>::new());
}

#[test]
fn count_in_counts_the_rows_of_a_menu() {
    let store = sample();
    assert_eq!(store.count_in("git"), 3);
    assert_eq!(store.count_in("files"), 2);
    assert_eq!(store.count_in("none"), 0);
    assert_eq!(Store::new().count_in("git"), 0);
}

#[test]
fn command_at_finds_rows_within_the_menu() {
    let store = sample();
    assert_eq!(store.command_at("git", 0), Some("git status".to_string()));
    assert_eq!(store.command_at("git", 2), Some("git diff".to_string()));
    assert_eq!(store.command_at("files", 1), Some("du -sh".to_string()));
}

#[test]
fn command_at_past_the_end_is_none() {
    let store = sample();
    assert_eq!(store.command_at("git", 3), None);
    assert_eq!(store.command_at("files", 2), None);
    assert_eq!(store.command_at("none", 0), None);
    assert_eq!(store.command_at("git", usize::MAX), None);
}

#[test]
fn remove_by_command_text_takes_the_matching_command() {
    let mut store = sample();
    assert_eq!(store.remove_by_command_text("git log"), Some(2));
    assert_eq!(
        store.commands,
        vec![
            cmd("git status", "git"),
            cmd("ls -la", "files"),
            cmd("du -sh", "files"),
            cmd("git diff", "git"),
        ]
    );
}

#[test]
fn remove_by_command_text_takes_first_and_last() {
    let mut store = sample();
    assert_eq!(store.remove_by_command_text("git status"), Some(0));
    assert_eq!(store.remove_by_command_text("git diff"), Some(3));
    assert_eq!(store.commands, vec![cmd("ls -la", "files"), cmd("git log", "git"), cmd("du -sh", "files")]);
}

#[test]
fn remove_by_command_text_takes_only_the_first_of_equal_texts() {
    let mut store = Store {
        commands: vec![cmd("a", "m1"), cmd("b", "m1"), cmd("a", "m2"), cmd("a", "m1")],
    };
    assert_eq!(store.remove_by_command_text("a"), Some(0));
    assert_eq!(store.commands, vec![cmd("b", "m1"), cmd("a", "m2"), cmd("a", "m1")]);
    assert_eq!(store.remove_by_command_text("a"), Some(1));
    assert_eq!(store.commands, vec![cmd("b", "m1"), cmd("a", "m1")]);
}

#[test]
fn remove_by_command_text_ignores_the_menu() {
    let mut store = Store { commands: vec![cmd("x", "other"), cmd("x", "mine")] };
    assert_eq!(store.remove_by_command_text("x"), Some(0));
    assert_eq!(store.commands, vec![cmd("x", "mine")]);
}

#[test]
fn remove_by_command_text_without_match_changes_nothing() {
    let mut store = sample();
    assert_eq!(store.remove_by_command_text("git"), None);
    assert_eq!(store, sample());
    let mut empty = Store::new();
    assert_eq!(empty.remove_by_command_text("anything"), None);
    assert_eq!(empty.len(), 0);
}

#[test]
fn remove_after_append_restores_the_store() {
    let mut store = sample();
    store.append("git".to_string(), "git push".to_string());
    assert_eq!(store.count_in("git"), 4);
    assert_eq!(store.remove_by_command_text("git push"), Some(5));
    assert_eq!(store, sample());
}

use editor::editor::{default_file, Command, Editor, Error, Event};
use editor::view::{position_text, syntax_for, Status};
use iced::widget::text_editor::{Action, Edit, Motion};

fn opened(path: &str, text: &str) -> Event {
    Event::FileOpened(Ok((path.to_string(), text.to_string())))
}

fn loaded_editor(path: &str, text: &str) -> Editor {
    let (mut e, _) = Editor::new("/project");
    let cmd = e.update(opened(path, text));
    assert!(matches!(cmd, Command::Idle));
    e
}

fn text_of(e: &Editor) -> String {
    e.content.content.text()
}

#[test]
fn default_file_is_main_under_project() {
    assert_eq!(default_file("/home/me/editor"), "/home/me/editor/src/main.rs");
    assert_eq!(default_file(""), "/src/main.rs");
}

#[test]
fn new_editor_loads_default_file() {
    let (e, cmd) = Editor::new("/project");
    assert!(e.path.is_none());
    assert!(e.error.is_none());
    assert_eq!(text_of(&e), "\n");
    match cmd {
        Command::LoadFile(p) => assert_eq!(p, "/project/src/main.rs"),
        _ => panic!("expected a load of the default file"),
    }
}

#[test]
fn load_then_save_round_trips() {
    let text = "fn main() {\n    println!(\"hi\");\n}\n";
    let mut e = loaded_editor("/tmp/a.rs", text);
    assert_eq!(e.path.as_deref(), Some("/tmp/a.rs"));
    match e.update(Event::Save) {
        Command::SaveFile(Some(p), t) => {
            assert_eq!(p, "/tmp/a.rs");
            assert_eq!(t.as_bytes(), text.as_bytes());
        }
        _ => panic!("expected a save to the loaded path"),
    }
    assert_eq!(e.path.as_deref(), Some("/tmp/a.rs"));
}

#[test]
fn saved_text_ends_with_line_feed() {
    let mut e = loaded_editor("/tmp/b.txt", "abc");
    match e.update(Event::Save) {
        Command::SaveFile(Some(p), t) => {
            assert_eq!(p, "/tmp/b.txt");
            assert_eq!(t, "abc\n");
        }
        _ => panic!("expected a save to the loaded path"),
    }
}

#[test]
fn save_without_path_asks_for_one() {
    let (mut e, _) = Editor::new("/project");
    match e.update(Event::Save) {
        Command::SaveFile(None, t) => assert_eq!(t, "\n"),
        _ => panic!("expected a save with no path"),
    }
}

#[test]
fn open_asks_for_a_file() {
    let mut e = loaded_editor("/tmp/a.rs", "x\n");
    assert!(matches!(e.update(Event::Open), Command::PickFile));
    assert_eq!(e.path.as_deref(), Some("/tmp/a.rs"));
    assert_eq!(text_of(&e), "x\n");
}

#[test]
fn cancelled_open_keeps_state() {
    let mut e = loaded_editor("/tmp/a.rs", "one\ntwo\n");
    e.update(Event::FileSaved(Err(Error::IOFailed("disk full".to_string()))));
    assert!(matches!(e.update(Event::Open), Command::PickFile));
    let cmd = e.update(Event::FileOpened(Err(Error::DialogClosed)));
    assert!(matches!(cmd, Command::Idle));
    assert_eq!(e.path.as_deref(), Some("/tmp/a.rs"));
    assert_eq!(text_of(&e), "one\ntwo\n");
    assert!(matches!(&e.error, Some(Error::IOFailed(m)) if m == "disk full"));
}

#[test]
fn cancelled_save_keeps_state() {
    let (mut e, _) = Editor::new("/project");
    assert!(matches!(e.update(Event::Save), Command::SaveFile(None, _)));
    let cmd = e.update(Event::FileSaved(Err(Error::DialogClosed)));
    assert!(matches!(cmd, Command::Idle));
    assert!(e.path.is_none());
    assert!(e.error.is_none());
    assert_eq!(text_of(&e), "\n");
    assert!(matches!(e.status(), Status::Untitled));
}

#[test]
fn failed_open_clears_path_and_shows_error() {
    let mut e = loaded_editor("/tmp/a.rs", "keep me\n");
    let cmd = e.update(Event::FileOpened(Err(Error::IOFailed("entity not found".to_string()))));
    assert!(matches!(cmd, Command::Idle));
    assert!(e.path.is_none());
    assert_eq!(text_of(&e), "keep me\n");
    match e.status() {
        Status::Failure(m) => assert_eq!(m, "entity not found"),
        _ => panic!("expected the failure in the status bar"),
    }
    assert_eq!(e.status().text(), "entity not found");
}

#[test]
fn failed_save_keeps_path_and_shows_error() {
    let mut e = loaded_editor("/tmp/a.rs", "x\n");
    e.update(Event::FileSaved(Err(Error::IOFailed("permission denied".to_string()))));
    assert_eq!(e.path.as_deref(), Some("/tmp/a.rs"));
    assert_eq!(e.status().text(), "permission denied");
}

#[test]
fn successful_save_binds_path_and_clears_error() {
    let (mut e, _) = Editor::new("/project");
    e.update(Event::FileSaved(Err(Error::IOFailed("permission denied".to_string()))));
    let cmd = e.update(Event::FileSaved(Ok("/tmp/new.txt".to_string())));
    assert!(matches!(cmd, Command::Idle));
    assert_eq!(e.path.as_deref(), Some("/tmp/new.txt"));
    assert!(e.error.is_none());
    assert_eq!(e.status().text(), "/tmp/new.txt");
}

#[test]
fn new_resets_path_buffer_and_error() {
    let mut e = loaded_editor("/tmp/a.rs", "some text\n");
    e.update(Event::FileSaved(Err(Error::IOFailed("broken pipe".to_string()))));
    assert!(matches!(e.update(Event::New), Command::Idle));
    assert!(e.path.is_none());
    assert!(e.error.is_none());
    assert_eq!(text_of(&e), "\n");
    assert_eq!(e.status().text(), "New file");
}

#[test]
fn edit_changes_buffer_and_clears_error() {
    let mut e = loaded_editor("/tmp/a.rs", "bc\n");
    e.update(Event::FileSaved(Err(Error::IOFailed("broken pipe".to_string()))));
    let cmd = e.update(Event::Edit(Action::Edit(Edit::Insert('a'))));
    assert!(matches!(cmd, Command::Idle));
    assert!(e.error.is_none());
    assert_eq!(e.path.as_deref(), Some("/tmp/a.rs"));
    assert_eq!(text_of(&e), "abc\n");
}

#[test]
fn position_label_is_one_based() {
    let mut e = loaded_editor("/tmp/a.rs", "ab\ncde");
    assert_eq!(e.position_label(), "1:1");
    e.update(Event::Edit(Action::Move(Motion::DocumentEnd)));
    let (line, column) = e.content.content.cursor_position();
    assert_eq!((line, column), (1, 3));
    assert_eq!(e.position_label(), format!("{}:{}", line + 1, column + 1));
    assert_eq!(e.position_label(), "2:4");
}

#[test]
fn position_text_values() {
    assert_eq!(position_text(0, 0), "1:1");
    assert_eq!(position_text(9, 99), "10:100");
    assert_eq!(position_text(41, 6), "42:7");
    assert_eq!(position_text(usize::MAX, 0), format!("{}:1", usize::MAX as u128 + 1));
}

#[test]
fn syntax_from_extension() {
    assert_eq!(syntax_for(Some("py".to_string())), "py");
    assert_eq!(syntax_for(None), "rs");
    let (e, _) = Editor::new("/project");
    assert_eq!(e.syntax(), "rs");
    assert_eq!(loaded_editor("/tmp/script.py", "x\n").syntax(), "py");
    assert_eq!(loaded_editor("/tmp/archive.tar.gz", "x\n").syntax(), "gz");
    assert_eq!(loaded_editor("/tmp/Makefile", "x\n").syntax(), "rs");
    assert_eq!(loaded_editor("/home/me/.bashrc", "x\n").syntax(), "rs");
}

#[test]
fn status_text_values() {
    assert_eq!(Status::Untitled.text(), "New file");
    assert_eq!(Status::File("/a/b".to_string()).text(), "/a/b");
    assert_eq!(Status::Failure("oops".to_string()).text(), "oops");
    let e = loaded_editor("/tmp/a.rs", "x\n");
    assert!(matches!(e.status(), Status::File(p) if p == "/tmp/a.rs"));
}

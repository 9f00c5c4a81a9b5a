//! The editor's state and how it reacts to events.
//!
//! The editor never does I/O itself. Each event yields a [`Command`] that the
//! host runs (show a dialog, read or write a file); the host hands the
//! outcome back as a later event.
use vstd::prelude::*;
use crate::buffer::{
    buffer_new, buffer_perform, buffer_text, buffer_text_of, buffer_with_text, loaded_text, Buffer,
    EditAction,
};

verus! {

/// Why an open or a save did not complete.
pub enum Error {
    /// The user closed the file dialog without choosing a file.
    DialogClosed,
    /// Reading or writing the file failed; the message says how.
    IOFailed(String),
}

/// What happened, as the host reports it to the editor.
pub enum Event {
    /// The user edited the buffer.
    Edit(EditAction),
    /// The user asked for a new, empty file.
    New,
    /// The user asked to open a file.
    Open,
    /// A file was read: its path and its text, or why it could not be.
    FileOpened(Result<(String, String), Error>),
    /// The user asked to save the buffer.
    Save,
    /// The buffer was written: the path it went to, or why it could not be.
    FileSaved(Result<String, Error>),
}

/// The work that the host is asked to do after an event.
pub enum Command {
    /// Nothing.
    Idle,
    /// Ask the user for a file, read it, and report [`Event::FileOpened`].
    PickFile,
    /// Read the file at this path and report [`Event::FileOpened`].
    LoadFile(String),
    /// Write the text to the path, asking the user for a path first where
    /// there is none, and report [`Event::FileSaved`].
    SaveFile(Option<String>, String),
}

/// The editor: the file it is bound to, its buffer, and the last failure.
pub struct Editor {
    pub path: Option<String>,
    pub content: Buffer,
    pub error: Option<Error>,
}

/// The file that an editor opens at startup: `src/main.rs` under the given
/// project directory.
pub fn default_file(project_dir: &str) -> (r: String)
    ensures
        r@ == project_dir@ + "/src/main.rs"@,
{
    let mut r = String::from_str(project_dir);
    r.append("/src/main.rs");
    r
}

/// How one event changes the editor (`pre` to `post`) and what it asks of
/// the host.
pub open spec fn update_post(pre: Editor, event: Event, post: Editor, cmd: Command) -> bool {
    match event {
        Event::Edit(_) => {
            &&& post.path == pre.path
            &&& post.error is None
            &&& cmd is Idle
        },
        Event::New => {
            &&& post.path is None
            &&& buffer_text(post.content) == loaded_text(Seq::empty())
            &&& post.error is None
            &&& cmd is Idle
        },
        Event::Open => post == pre && cmd is PickFile,
        Event::Save => {
            &&& post == pre
            &&& cmd matches Command::SaveFile(p, t)
            &&& p == pre.path
            &&& t@ == buffer_text(pre.content)
        },
        Event::FileOpened(Ok((p, s))) => {
            &&& post.path == Some(p)
            &&& buffer_text(post.content) == loaded_text(s@)
            &&& post.error is None
            &&& cmd is Idle
        },
        Event::FileSaved(Ok(p)) => {
            &&& post.path == Some(p)
            &&& post.content == pre.content
            &&& post.error is None
            &&& cmd is Idle
        },
        Event::FileOpened(Err(Error::DialogClosed)) | Event::FileSaved(Err(Error::DialogClosed)) => {
            post == pre && cmd is Idle
        },
        Event::FileOpened(Err(Error::IOFailed(m))) => {
            &&& post.path is None
            &&& post.content == pre.content
            &&& post.error == Some(Error::IOFailed(m))
            &&& cmd is Idle
        },
        Event::FileSaved(Err(Error::IOFailed(m))) => {
            &&& post.path == pre.path
            &&& post.content == pre.content
            &&& post.error == Some(Error::IOFailed(m))
            &&& cmd is Idle
        },
    }
}

impl Editor {
    /// An editor with an empty buffer and no file, and the command that loads
    /// the default file of the project directory.
    pub fn new(project_dir: &str) -> (r: (Editor, Command))
        ensures
            r.0.path is None,
            buffer_text(r.0.content) == loaded_text(Seq::empty()),
            r.0.error is None,
            r.1 matches Command::LoadFile(p) && p@ == project_dir@ + "/src/main.rs"@,
    {
        let editor = Editor { path: None, content: buffer_new(), error: None };
        (editor, Command::LoadFile(default_file(project_dir)))
    }

    /// Applies one event and returns the command that the host is to run.
    pub fn update(&mut self, event: Event) -> (cmd: Command)
        ensures
            update_post(*old(self), event, *final(self), cmd),
    {
        match event {
            Event::Edit(action) => {
                buffer_perform(&mut self.content, action);
                self.error = None;
                Command::Idle
            },
            Event::New => {
                self.path = None;
                self.content = buffer_new();
                self.error = None;
                Command::Idle
            },
            Event::Open => Command::PickFile,
            Event::Save => {
                let text = buffer_text_of(&self.content);
                let path = match &self.path {
                    Some(p) => Some(p.clone()),
                    None => None,
                };
                Command::SaveFile(path, text)
            },
            Event::FileOpened(Ok((path, contents))) => {
                self.content = buffer_with_text(contents.as_str());
                self.path = Some(path);
                self.error = None;
                Command::Idle
            },
            Event::FileSaved(Ok(path)) => {
                self.path = Some(path);
                self.error = None;
                Command::Idle
            },
            Event::FileOpened(Err(Error::DialogClosed)) | Event::FileSaved(
                Err(Error::DialogClosed),
            ) => Command::Idle,
            Event::FileOpened(Err(Error::IOFailed(message))) => {
                self.path = None;
                self.error = Some(Error::IOFailed(message));
                Command::Idle
            },
            Event::FileSaved(Err(Error::IOFailed(message))) => {
                self.error = Some(Error::IOFailed(message));
                Command::Idle
            },
        }
    }
}

} // verus!

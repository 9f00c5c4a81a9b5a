//! Properties that hold across several events.
use vstd::prelude::*;
use crate::buffer::loaded_text;
use crate::editor::{update_post, Command, Editor, Error, Event};
use crate::view::{status_of, Status};

verus! {

/// Opening a file and then saving with no edit in between writes the file
/// back to the path it came from, with the text that the buffer holds. That
/// text is the file's own text, byte for byte, wherever the buffer keeps the
/// text it was loaded with.
pub proof fn lemma_load_then_save(
    pre: Editor,
    path: String,
    text: String,
    mid: Editor,
    loaded: Command,
    post: Editor,
    saved: Command,
)
    requires
        update_post(pre, Event::FileOpened(Ok((path, text))), mid, loaded),
        update_post(mid, Event::Save, post, saved),
    ensures
        loaded is Idle,
        post == mid,
        saved matches Command::SaveFile(p, t) && p == Some(path) && t@ == loaded_text(text@),
        loaded_text(text@) == text@ ==> (saved matches Command::SaveFile(_, t) && t@ == text@),
{
}

/// Asking to open a file and then closing the dialog leaves the editor as it
/// was.
pub proof fn lemma_open_cancelled(
    pre: Editor,
    mid: Editor,
    asked: Command,
    post: Editor,
    cmd: Command,
)
    requires
        update_post(pre, Event::Open, mid, asked),
        update_post(mid, Event::FileOpened(Err(Error::DialogClosed)), post, cmd),
    ensures
        asked is PickFile,
        mid == pre,
        post == pre,
        cmd is Idle,
{
}

/// Asking to save and then closing the dialog leaves the editor as it was.
pub proof fn lemma_save_cancelled(
    pre: Editor,
    mid: Editor,
    asked: Command,
    post: Editor,
    cmd: Command,
)
    requires
        update_post(pre, Event::Save, mid, asked),
        update_post(mid, Event::FileSaved(Err(Error::DialogClosed)), post, cmd),
    ensures
        asked is SaveFile,
        mid == pre,
        post == pre,
        cmd is Idle,
{
}

/// A failed read of a file unbinds the editor from its file, keeps the
/// buffer, and shows the failure in the status bar.
pub proof fn lemma_open_failure(
    pre: Editor,
    message: String,
    post: Editor,
    cmd: Command,
)
    requires
        update_post(pre, Event::FileOpened(Err(Error::IOFailed(message))), post, cmd),
    ensures
        post.path is None,
        post.content == pre.content,
        post.error == Some(Error::IOFailed(message)),
        status_of(post) == Status::Failure(message),
        cmd is Idle,
{
}

} // verus!

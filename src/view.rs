//! What the editor shows, derived from its state alone.
use vstd::prelude::*;
use crate::buffer::{buffer_cursor, buffer_cursor_of};
use crate::editor::{Editor, Error};

verus! {

/// The left part of the status bar.
pub enum Status {
    /// The last read or write failed with this message.
    Failure(String),
    /// The buffer is bound to this file.
    File(String),
    /// The buffer is bound to no file.
    Untitled,
}

/// The status that an editor in this state shows: an I/O failure first, then
/// the file's path. A closed dialog is no failure to show.
pub open spec fn status_of(e: Editor) -> Status {
    match e.error {
        Some(Error::IOFailed(m)) => Status::Failure(m),
        _ => match e.path {
            Some(p) => Status::File(p),
            None => Status::Untitled,
        },
    }
}

impl Status {
    /// The words of the status.
    pub fn text(&self) -> (r: String)
        ensures
            r@ == match self {
                Status::Failure(m) => m@,
                Status::File(p) => p@,
                Status::Untitled => "New file"@,
            },
    {
        match self {
            Status::Failure(m) => m.clone(),
            Status::File(p) => p.clone(),
            Status::Untitled => String::from_str("New file"),
        }
    }
}

/// The extension of a path, as `std::path::Path::extension` finds it.
pub uninterp spec fn extension_of(p: Seq<char>) -> Option<Seq<char>>;

/// Relies on `Path::extension`: the part of the file name after its last dot,
/// where there is one that does not start the name. The extension of a `&str`
/// path is itself valid UTF-8, so the conversion back to a string keeps it.
#[verifier::external_body]
fn path_extension(p: &str) -> (r: Option<String>)
    ensures
        match r {
            Some(x) => extension_of(p@) == Some(x@),
            None => extension_of(p@) is None,
        },
{
    std::path::Path::new(p).extension().and_then(|e| e.to_str()).map(|e| e.to_string())
}

/// The syntax that the editor highlights, given the extension of its file
/// (if any): the extension itself, else Rust's.
pub fn syntax_for(extension: Option<String>) -> (r: String)
    ensures
        r@ == match extension {
            Some(x) => x@,
            None => "rs"@,
        },
{
    match extension {
        Some(x) => x,
        None => String::from_str("rs"),
    }
}

/// The syntax of the editor's file as `syntax_for` picks it from its
/// extension. A buffer with no file is highlighted as Rust.
pub open spec fn syntax_of(e: Editor) -> Seq<char> {
    match e.path {
        Some(p) => match extension_of(p@) {
            Some(x) => x,
            None => "rs"@,
        },
        None => "rs"@,
    }
}

/// The decimal digit of `d`, below ten.
pub open spec fn digit(d: nat) -> char {
    if d == 0 { '0' }
    else if d == 1 { '1' }
    else if d == 2 { '2' }
    else if d == 3 { '3' }
    else if d == 4 { '4' }
    else if d == 5 { '5' }
    else if d == 6 { '6' }
    else if d == 7 { '7' }
    else if d == 8 { '8' }
    else { '9' }
}

/// `n` written in decimal, with no leading zeros.
pub open spec fn decimal(n: nat) -> Seq<char>
    decreases n,
{
    if n < 10 {
        seq![digit(n)]
    } else {
        decimal(n / 10).push(digit(n % 10))
    }
}

/// The cursor label for a 0-based position: `line:column`, both 1-based.
pub open spec fn position_label_of(line: nat, column: nat) -> Seq<char> {
    decimal(line + 1) + ":"@ + decimal(column + 1)
}

fn digit_str(d: u8) -> (r: &'static str)
    requires
        d < 10,
    ensures
        r@ == seq![digit(d as nat)],
{
    proof {
        reveal_strlit("0");
        reveal_strlit("1");
        reveal_strlit("2");
        reveal_strlit("3");
        reveal_strlit("4");
        reveal_strlit("5");
        reveal_strlit("6");
        reveal_strlit("7");
        reveal_strlit("8");
        reveal_strlit("9");
    }
    if d == 0 { "0" }
    else if d == 1 { "1" }
    else if d == 2 { "2" }
    else if d == 3 { "3" }
    else if d == 4 { "4" }
    else if d == 5 { "5" }
    else if d == 6 { "6" }
    else if d == 7 { "7" }
    else if d == 8 { "8" }
    else { "9" }
}

fn append_decimal(s: &mut String, n: u128)
    ensures
        final(s)@ == old(s)@ + decimal(n as nat),
    decreases n,
{
    if n >= 10 {
        append_decimal(s, n / 10);
    }
    s.append(digit_str((n % 10) as u8));
    assert(final(s)@ =~= old(s)@ + decimal(n as nat));
}

/// The cursor label for a 0-based position, as the status bar shows it.
pub fn position_text(line: usize, column: usize) -> (r: String)
    ensures
        r@ == position_label_of(line as nat, column as nat),
{
    let mut r = String::new();
    append_decimal(&mut r, line as u128 + 1);
    r.append(":");
    append_decimal(&mut r, column as u128 + 1);
    proof {
        reveal_strlit(":");
    }
    assert(r@ =~= position_label_of(line as nat, column as nat));
    r
}

impl Editor {
    /// The status bar's message.
    pub fn status(&self) -> (r: Status)
        ensures
            r == status_of(*self),
    {
        match &self.error {
            Some(Error::IOFailed(m)) => Status::Failure(m.clone()),
            _ => match &self.path {
                Some(p) => Status::File(p.clone()),
                None => Status::Untitled,
            },
        }
    }

    /// The syntax that the buffer is highlighted with.
    pub fn syntax(&self) -> (r: String)
        ensures
            r@ == syntax_of(*self),
    {
        match &self.path {
            Some(p) => syntax_for(path_extension(p.as_str())),
            None => syntax_for(None),
        }
    }

    /// The cursor's position, 1-based, as `line:column`: one more than each
    /// coordinate that the buffer reports.
    pub fn position_label(&self) -> (r: String)
        ensures
            r@ == position_label_of(
                buffer_cursor(self.content).0 as nat,
                buffer_cursor(self.content).1 as nat,
            ),
    {
        let (line, column) = buffer_cursor_of(&self.content);
        position_text(line, column)
    }
}

} // verus!

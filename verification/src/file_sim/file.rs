//! The simulated file: its state, reading it, opening and closing it.

use vstd::prelude::*;
use vstd::string::StringExecFns;

verus! {

/// The state of a file.
#[derive(Clone, Copy, Debug, PartialEq, Eq, Structural)]
pub enum FileState {
    /// The file is open and can be read.
    Open,
    /// The file is closed.
    Closed,
}

impl FileState {
    /// The state in capitals.
    pub open spec fn text_chars(self) -> Seq<char> {
        match self {
            FileState::Open => "OPEN"@,
            FileState::Closed => "CLOSED"@,
        }
    }

    /// The state in capitals, as it is shown to the user.
    pub fn text(&self) -> (text: &'static str)
        ensures
            text@ == self.text_chars(),
    {
        match self {
            FileState::Open => "OPEN",
            FileState::Closed => "CLOSED",
        }
    }
}

/// A simulated file.
#[derive(Debug)]
pub struct File {
    /// The name of the file.
    pub name: String,
    /// What the file holds.
    pub data: Vec<u8>,
    /// The state of the file.
    pub state: FileState,
}

/// Reading what a source holds into a buffer.
pub trait Read {
    /// Whether the source can be read as it is.
    spec fn readable(&self) -> bool;

    /// What the source holds.
    spec fn content(&self) -> Seq<u8>;

    /// Appends what the source holds to `save_to` and gives the number of
    /// bytes added. A source that cannot be read leaves `save_to` as it was
    /// and gives an error.
    fn read(&self, save_to: &mut Vec<u8>) -> (result: Result<usize, String>)
        ensures
            match result {
                Ok(read_len) => {
                    &&& self.readable()
                    &&& read_len == self.content().len()
                    &&& final(save_to)@ == old(save_to)@ + self.content()
                },
                Err(_) => !self.readable() && final(save_to)@ == old(save_to)@,
            },
    ;
}

impl Read for File {
    open spec fn readable(&self) -> bool {
        self.state == FileState::Open
    }

    open spec fn content(&self) -> Seq<u8> {
        self.data@
    }

    fn read(&self, save_to: &mut Vec<u8>) -> (result: Result<usize, String>)
        ensures
            result matches Err(message) ==> message@ == "File must be open for reading"@,
    {
        if self.state != FileState::Open {
            return Err(String::from_str("File must be open for reading"));
        }
        let mut tmp = self.data.clone();
        let read_len = tmp.len();
        save_to.reserve(read_len);
        save_to.append(&mut tmp);
        Ok(read_len)
    }
}

impl File {
    /// The text that shows the file to the user: its name and its state in
    /// angle brackets.
    pub open spec fn text_chars(self) -> Seq<char> {
        seq!['<'] + self.name@ + seq![' '] + self.state.text_chars() + seq!['>']
    }

    /// A closed file of the given name that holds nothing.
    pub fn new(name: &str) -> (file: File)
        ensures
            file.name@ == name@,
            file.content() == Seq::<u8>::empty(),
            file.state == FileState::Closed,
    {
        File { name: String::from_str(name), data: Vec::new(), state: FileState::Closed }
    }

    /// A closed file of the given name that holds `data`.
    pub fn new_with_data(name: &str, data: &[u8]) -> (file: File)
        ensures
            file.name@ == name@,
            file.content() == data@,
            file.state == FileState::Closed,
    {
        let mut f = File::new(name);
        f.data = vstd::slice::slice_to_vec(data);
        f
    }

    /// The text that shows the file to the user.
    pub fn text(&self) -> (text: String)
        ensures
            text@ == self.text_chars(),
    {
        let mut text = String::from_str("<");
        text.append(self.name.as_str());
        text.append(" ");
        text.append(self.state.text());
        text.append(">");
        proof {
            reveal_strlit("<");
            reveal_strlit(" ");
            reveal_strlit(">");
        }
        assert(text@ =~= self.text_chars());
        text
    }
}

/// A draw that comes out `true` once in `denominator` times on average, by
/// `Rng::random_ratio` on the random number generator of the thread, `rand::rng`.
/// The result is left to chance, so nothing is claimed of it. The outside
/// function does not take a denominator of zero.
#[verifier::external_body]
fn one_in(denominator: u32) -> (hit: bool)
    requires
        denominator >= 1,
{
    rand::Rng::random_ratio(&mut rand::rng(), 1, denominator)
}

/// The file `f` in the state `state`, or the error `message` where `failed`
/// says that the change of state did not work.
pub open spec fn switched(f: File, state: FileState, failed: bool, message: Seq<char>, result: Result<
    File,
    String,
>) -> bool {
    match result {
        Ok(file) => {
            &&& !failed
            &&& file.name == f.name
            &&& file.content() == f.content()
            &&& file.state == state
        },
        Err(reason) => failed && reason@ == message,
    }
}

/// Opens `f`, unless `denied` says that permission is refused.
pub fn open_unless(f: File, denied: bool) -> (result: Result<File, String>)
    ensures
        switched(f, FileState::Open, denied, "Permission denied"@, result),
{
    let mut f = f;
    if denied {
        return Err(String::from_str("Permission denied"));
    }
    f.state = FileState::Open;
    Ok(f)
}

/// Closes `f`, unless `interrupted` says that a signal came in the way.
pub fn close_unless(f: File, interrupted: bool) -> (result: Result<File, String>)
    ensures
        switched(f, FileState::Closed, interrupted, "Interrupted by signal!"@, result),
{
    let mut f = f;
    if interrupted {
        return Err(String::from_str("Interrupted by signal!"));
    }
    f.state = FileState::Closed;
    Ok(f)
}

/// Opens a file for reading. Once in a hundred times, on average, permission
/// is refused; otherwise the file comes back open, with its name and what it
/// holds unchanged.
pub fn open(f: File) -> (result: Result<File, String>)
    ensures
        exists|denied: bool| switched(f, FileState::Open, denied, "Permission denied"@, result),
{
    let denied = one_in(100);
    open_unless(f, denied)
}

/// Closes a file. Once in a hundred times, on average, a signal comes in the
/// way; otherwise the file comes back closed, with its name and what it
/// holds unchanged.
pub fn close(f: File) -> (result: Result<File, String>)
    ensures
        exists|interrupted: bool|
            switched(f, FileState::Closed, interrupted, "Interrupted by signal!"@, result),
{
    let interrupted = one_in(100);
    close_unless(f, interrupted)
}

} // verus!

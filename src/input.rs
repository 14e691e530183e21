//! Text sources: where a source's bytes come from, its display name, and the
//! decisions taken while its lines are pulled one at a time.
use vstd::prelude::*;
use crate::stats::chars_of;

verus! {

/// A named source of text.
pub trait Input {
    /// The display name of the source.
    spec fn spec_name(&self) -> Seq<char>;

    /// The display name of the source.
    fn name(&self) -> (r: String)
        ensures
            r@ == self.spec_name(),
    ;
}

/// Why a file cannot be opened for reading.
#[derive(Debug, Clone, Copy, PartialEq, Eq, Structural)]
pub enum OpenError {
    /// The path names a directory.
    IsADirectory,
}

/// Opens a file by its path.
pub struct FileOpener {
    pub path: String,
}

impl FileOpener {
    /// An opener for the file at `path`.
    pub fn new(path: &str) -> (r: Self)
        ensures
            r.path@ == path@,
    {
        FileOpener { path: path.to_owned() }
    }

    /// Whether the target may be opened for reading, given whether it is a
    /// directory: a directory is refused before anything is read.
    pub fn check_target(&self, is_dir: bool) -> (r: Result<(), OpenError>)
        ensures
            r == (if is_dir {
                Err::<(), OpenError>(OpenError::IsADirectory)
            } else {
                Ok(())
            }),
    {
        if is_dir {
            Err(OpenError::IsADirectory)
        } else {
            Ok(())
        }
    }
}

/// Opens standard input.
pub struct StdinOpener {}

impl StdinOpener {
    /// An opener for standard input.
    pub fn new() -> (r: Self) {
        StdinOpener {  }
    }
}

/// Where a source's text comes from.
pub enum Origin {
    File(FileOpener),
    Stdin(StdinOpener),
}

/// A source under a display name, read through `opener`. It holds no open
/// handle: each read opens a fresh one from the start.
pub struct BufferedInput<O> {
    pub name: String,
    pub opener: O,
}

impl<O> BufferedInput<O> {
    /// A source named `name` that reads through `opener`.
    pub fn new(name: &str, opener: O) -> (r: Self)
        ensures
            r.name@ == name@,
            r.opener == opener,
    {
        BufferedInput { name: name.to_owned(), opener }
    }
}

impl<O> Input for BufferedInput<O> {
    open spec fn spec_name(&self) -> Seq<char> {
        self.name@
    }

    fn name(&self) -> (r: String) {
        self.name.clone()
    }
}

/// The name under which standard input is shown.
pub open spec fn stdin_name() -> Seq<char> {
    seq!['s', 't', 'a', 'n', 'd', 'a', 'r', 'd', ' ', 'i', 'n', 'p', 'u', 't']
}

/// The source that `path` requests: standard input for `-`, else the file at
/// `path`, shown under its path.
pub fn open(path: &str) -> (r: BufferedInput<Origin>)
    ensures
        path@ == seq!['-'] ==> r.name@ == stdin_name() && r.opener is Stdin,
        path@ != seq!['-'] ==> r.name@ == path@ && (r.opener matches Origin::File(f)
            && f.path@ == path@),
{
    let chars = chars_of(path);
    if chars.len() == 1 && chars[0] == '-' {
        assert(chars@ =~= seq!['-']);
        let name = "standard input";
        proof {
            reveal_strlit("standard input");
        }
        assert(name@ =~= stdin_name());
        return BufferedInput::new(name, Origin::Stdin(StdinOpener::new()));
    }
    BufferedInput::new(path, Origin::File(FileOpener::new(path)))
}

/// Pulls lines one at a time from a buffered handle. Once a read yields
/// nothing or fails, the reader is exhausted and yields nothing more.
pub struct LineReader<B> {
    pub buffer: B,
    pub exhausted: bool,
}

impl<B> LineReader<B> {
    /// A reader over `buffer`, not yet exhausted.
    pub fn new(buffer: B) -> (r: Self)
        ensures
            r.buffer == buffer,
            !r.exhausted,
    {
        LineReader { buffer, exhausted: false }
    }

    /// What one pull yields, given the outcome of reading from the buffer up
    /// to and including the next line terminator: nothing at the end of the
    /// input, the line read, or the error once.
    pub fn next_from<E>(&mut self, outcome: Result<String, E>) -> (r: Option<Result<String, E>>)
        ensures
            final(self).buffer == old(self).buffer,
            old(self).exhausted ==> r is None && final(self).exhausted,
            !old(self).exhausted ==> match outcome {
                Ok(s) => if s@.len() == 0 {
                    r is None && final(self).exhausted
                } else {
                    r == Some(Ok::<String, E>(s)) && !final(self).exhausted
                },
                Err(e) => r == Some(Err::<String, E>(e)) && final(self).exhausted,
            },
    {
        if self.exhausted {
            return None;
        }
        match outcome {
            Ok(s) => {
                if s.as_str().is_empty() {
                    self.exhausted = true;
                    None
                } else {
                    Some(Ok(s))
                }
            },
            Err(e) => {
                self.exhausted = true;
                Some(Err(e))
            },
        }
    }
}

} // verus!

//! What a run counts and which sources it reads.
use vstd::prelude::*;

verus! {

/// The run configuration: the sources to read, in order, and the counters
/// selected for display.
pub struct Options {
    pub files: Vec<String>,
    pub lines: bool,
    pub words: bool,
    pub chars: bool,
    pub bytes: bool,
}

impl Options {
    /// No counter was selected explicitly.
    pub open spec fn spec_no_selection(&self) -> bool {
        !self.lines && !self.words && !self.chars && !self.bytes
    }

    /// Whether the line count is displayed.
    pub open spec fn shows_lines(&self) -> bool {
        self.lines || self.spec_no_selection()
    }

    /// Whether the word count is displayed.
    pub open spec fn shows_words(&self) -> bool {
        self.words || self.spec_no_selection()
    }

    /// Whether the character count is displayed (never by default).
    pub open spec fn shows_chars(&self) -> bool {
        self.chars
    }

    /// Whether the byte count is displayed.
    pub open spec fn shows_bytes(&self) -> bool {
        self.bytes || self.spec_no_selection()
    }

    /// True when none of the four selectors is set.
    #[verifier::when_used_as_spec(spec_no_selection)]
    pub fn no_selection(&self) -> (r: bool)
        ensures
            r == self.spec_no_selection(),
    {
        let selectors = [self.lines, self.words, self.chars, self.bytes];
        let mut i: usize = 0;
        while i < 4
            invariant
                i <= 4,
                selectors@ == seq![self.lines, self.words, self.chars, self.bytes],
                forall|j: int| 0 <= j < i ==> !selectors@[j],
            decreases 4 - i,
        {
            if selectors[i] {
                return false;
            }
            i += 1;
        }
        true
    }
}

} // verus!

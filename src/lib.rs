//! Line, word, character and byte counts for text sources.
use vstd::prelude::*;

pub mod input;
pub mod options;
pub mod stats;

use crate::options::Options;
use crate::stats::{Counts, FileStatistics};

verus! {

/// The name of the row that sums all sources.
pub open spec fn total_name() -> Seq<char> {
    seq!['t', 'o', 't', 'a', 'l']
}

/// One run over the sources of `options`. The decisions of the run stand
/// here; the reading and the printing are the caller's.
pub struct Command<'a> {
    pub options: &'a Options,
}

impl<'a> Command<'a> {
    /// A run configured by `options`.
    pub fn from(options: &'a Options) -> (r: Self)
        ensures
            r.options == options,
    {
        Command { options }
    }

    /// The running total at the start of the run: empty counts named
    /// `total`.
    pub fn start_total(&self) -> (r: FileStatistics)
        ensures
            r.name@ == total_name(),
            r.counts() == Counts::zero(),
    {
        let name = "total";
        proof {
            reveal_strlit("total");
        }
        assert(name@ =~= total_name());
        FileStatistics::new(name)
    }

    /// Closes a source that was opened: returns its row and merges its
    /// counts into `total`. A source that could not be opened is never
    /// passed here, so it has no row and adds nothing to the total.
    pub fn finish_source(&self, total: &mut FileStatistics, stats: FileStatistics) -> (r: String)
        requires
            old(total).fits_sum(&stats),
        ensures
            r@ == stats.row(self.options),
            final(total).name == old(total).name,
            final(total).counts() == old(total).counts().plus(stats.counts()),
    {
        let row = stats.display_from_options(self.options);
        total.add_assign(stats);
        row
    }

    /// The row of the total, which is shown only when more than one source
    /// was requested.
    pub fn total_row(&self, total: &FileStatistics) -> (r: Option<String>)
        ensures
            r is Some <==> self.options.files.len() > 1,
            r matches Some(s) ==> s@ == total.row(self.options),
    {
        if self.options.files.len() > 1 {
            Some(total.display_from_options(self.options))
        } else {
            None
        }
    }
}

} // verus!

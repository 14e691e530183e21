//! Running counts for one source, their merge, and their rendering as a row.
use vstd::prelude::*;
use vstd::utf8::encode_utf8;
use crate::options::Options;

verus! {

/// Number of decimal digits of `n`, where zero has none.
pub open spec fn digit_count(n: nat) -> nat
    decreases n,
{
    if n == 0 {
        0
    } else {
        1 + digit_count(n / 10)
    }
}

/// Ten to the power `k`.
pub open spec fn pow10(k: nat) -> nat
    decreases k,
{
    if k == 0 {
        1
    } else {
        10 * pow10((k - 1) as nat)
    }
}

/// A value below `10^k` has at most `k` digits.
proof fn lemma_digit_count_bound(n: nat, k: nat)
    requires
        n < pow10(k),
    ensures
        digit_count(n) <= k,
    decreases k,
{
    if n > 0 {
        lemma_digit_count_bound(n / 10, (k - 1) as nat);
    }
}

/// Every `u64` has at most twenty digits.
proof fn lemma_u64_digits(n: u64)
    ensures
        digit_count(n as nat) <= 20,
{
    reveal_with_fuel(pow10, 21);
    assert(pow10(20) == 100000000000000000000nat);
    lemma_digit_count_bound(n as nat, 20);
}

/// Number of decimal digits of `num`; zero counts as having no digits.
pub fn digits(num: u64) -> (r: usize)
    ensures
        r == digit_count(num as nat),
{
    proof {
        lemma_u64_digits(num);
    }
    let mut count: usize = 0;
    let mut n: u64 = num;
    while n > 0
        invariant
            count + digit_count(n as nat) == digit_count(num as nat),
            digit_count(num as nat) <= 20,
        decreases n,
    {
        n = n / 10;
        count += 1;
    }
    count
}

/// The larger of `a` and `b`.
pub open spec fn max_nat(a: nat, b: nat) -> nat {
    if a >= b {
        a
    } else {
        b
    }
}

/// The largest digit count among `vals`, zero for none.
pub open spec fn max_digits(vals: Seq<u64>) -> nat
    decreases vals.len(),
{
    if vals.len() == 0 {
        0
    } else {
        max_nat(max_digits(vals.drop_last()), digit_count(vals.last() as nat))
    }
}

/// The character of the decimal digit `d`.
pub open spec fn digit_char(d: nat) -> char {
    seq!['0', '1', '2', '3', '4', '5', '6', '7', '8', '9'][d as int]
}

/// The decimal representation of `n`, without leading zeros; zero is `"0"`.
pub open spec fn decimal(n: nat) -> Seq<char>
    decreases n,
{
    if n < 10 {
        seq![digit_char(n)]
    } else {
        decimal(n / 10).push(digit_char(n % 10))
    }
}

/// `s` right-aligned in a field of `w` characters: spaces before it up to
/// that width, and nothing cut where `s` is longer.
pub open spec fn padded(s: Seq<char>, w: nat) -> Seq<char> {
    let fill: nat = if w > s.len() {
        (w - s.len()) as nat
    } else {
        0
    };
    Seq::new(fill, |i: int| ' ') + s
}

/// Each of `vals` in decimal, right-aligned to width `w` and followed by one
/// space.
pub open spec fn cells(vals: Seq<u64>, w: nat) -> Seq<char>
    decreases vals.len(),
{
    if vals.len() == 0 {
        Seq::empty()
    } else {
        cells(vals.drop_last(), w) + padded(decimal(vals.last() as nat), w).push(' ')
    }
}

/// Appends the decimal representation of `n` to `out`.
fn push_decimal(out: &mut Vec<char>, n: u64)
    ensures
        final(out)@ == old(out)@ + decimal(n as nat),
    decreases n,
{
    if n >= 10 {
        push_decimal(out, n / 10);
    }
    let table = ['0', '1', '2', '3', '4', '5', '6', '7', '8', '9'];
    assert(table@ == seq!['0', '1', '2', '3', '4', '5', '6', '7', '8', '9']);
    out.push(table[(n % 10) as usize]);
}

/// Appends `n` in decimal, right-aligned to width `w`, then one space.
fn push_cell(out: &mut Vec<char>, n: u64, w: usize)
    ensures
        final(out)@ == old(out)@ + padded(decimal(n as nat), w as nat).push(' '),
{
    let mut digits: Vec<char> = Vec::new();
    push_decimal(&mut digits, n);
    let ghost start = out@;
    let mut k: usize = digits.len();
    while k < w
        invariant
            digits@ == decimal(n as nat),
            digits.len() <= k,
            k <= w || k == digits.len(),
            out@ == start + Seq::new((k - digits.len()) as nat, |i: int| ' '),
        decreases w - k,
    {
        out.push(' ');
        k += 1;
        assert(out@ =~= start + Seq::new((k - digits.len()) as nat, |i: int| ' '));
    }
    let ghost spaces = out@;
    out.append(&mut digits);
    out.push(' ');
    assert(out@ =~= start + padded(decimal(n as nat), w as nat).push(' '));
}

/// Whether `char::is_whitespace` holds of `c`.
pub uninterp spec fn whitespace(c: char) -> bool;

/// Relies on `char::is_whitespace`: whether `c` has the Unicode White_Space
/// property, which depends on the character alone.
#[verifier::external_body]
fn is_whitespace(c: char) -> (r: bool)
    ensures
        r == whitespace(c),
{
    c.is_whitespace()
}

/// Number of maximal runs of `false` in `ws`. Where `ws[i]` tells whether the
/// i-th character of a text is white space, this is its number of words.
pub open spec fn word_runs(ws: Seq<bool>) -> nat
    decreases ws.len(),
{
    if ws.len() == 0 {
        0
    } else {
        let i = ws.len() - 1;
        word_runs(ws.drop_last()) + if !ws[i] && (i == 0 || ws[i - 1]) {
            1nat
        } else {
            0nat
        }
    }
}

/// For each character of `s`, whether it is white space.
pub open spec fn whitespace_flags(s: Seq<char>) -> Seq<bool> {
    s.map_values(|c: char| whitespace(c))
}

/// Number of whitespace-delimited words of `s`.
pub open spec fn word_count_of(s: Seq<char>) -> nat {
    word_runs(whitespace_flags(s))
}

/// Number of bytes of `s` encoded in UTF-8.
pub open spec fn byte_len(s: Seq<char>) -> nat {
    encode_utf8(s).len()
}

/// A text never has more words than characters.
pub proof fn lemma_word_runs_bound(ws: Seq<bool>)
    ensures
        word_runs(ws) <= ws.len(),
    decreases ws.len(),
{
    if ws.len() > 0 {
        lemma_word_runs_bound(ws.drop_last());
    }
}

/// Number of words in a text, given for each of its characters whether it is
/// white space: the number of maximal runs of non-whitespace characters.
pub fn count_words(ws: &[bool]) -> (r: usize)
    ensures
        r == word_runs(ws@),
{
    let mut count: usize = 0;
    let mut i: usize = 0;
    while i < ws.len()
        invariant
            i <= ws.len(),
            count == word_runs(ws@.subrange(0, i as int)),
            count <= i,
        decreases ws.len() - i,
    {
        assert(ws@.subrange(0, i + 1).drop_last() =~= ws@.subrange(0, i as int));
        if !ws[i] && (i == 0 || ws[i - 1]) {
            count += 1;
        }
        i += 1;
    }
    assert(ws@.subrange(0, ws.len() as int) =~= ws@);
    count
}

/// Total number of words over `lines`.
pub open spec fn total_words(lines: Seq<Seq<char>>) -> nat
    decreases lines.len(),
{
    if lines.len() == 0 {
        0
    } else {
        total_words(lines.drop_last()) + word_count_of(lines.last())
    }
}

/// Total number of characters over `lines`.
pub open spec fn total_chars(lines: Seq<Seq<char>>) -> nat
    decreases lines.len(),
{
    if lines.len() == 0 {
        0
    } else {
        total_chars(lines.drop_last()) + lines.last().len()
    }
}

/// Total number of UTF-8 bytes over `lines`.
pub open spec fn total_bytes(lines: Seq<Seq<char>>) -> nat
    decreases lines.len(),
{
    if lines.len() == 0 {
        0
    } else {
        total_bytes(lines.drop_last()) + byte_len(lines.last())
    }
}

/// The four counts of a source as mathematical integers.
pub struct Counts {
    pub lines: nat,
    pub words: nat,
    pub chars: nat,
    pub bytes: nat,
}

impl Counts {
    /// All four counts at zero.
    pub open spec fn zero() -> Counts {
        Counts { lines: 0, words: 0, chars: 0, bytes: 0 }
    }

    /// The counts after one more line.
    pub open spec fn after_line(self, line: Seq<char>) -> Counts {
        Counts {
            lines: self.lines + 1,
            words: self.words + word_count_of(line),
            chars: self.chars + line.len(),
            bytes: self.bytes + byte_len(line),
        }
    }

    /// The counts after each of `lines`, in order.
    pub open spec fn after_lines(self, lines: Seq<Seq<char>>) -> Counts
        decreases lines.len(),
    {
        if lines.len() == 0 {
            self
        } else {
            self.after_lines(lines.drop_last()).after_line(lines.last())
        }
    }

    /// Field-wise sum.
    pub open spec fn plus(self, o: Counts) -> Counts {
        Counts {
            lines: self.lines + o.lines,
            words: self.words + o.words,
            chars: self.chars + o.chars,
            bytes: self.bytes + o.bytes,
        }
    }
}

/// The counts of one source, or of several merged, under a display name.
#[derive(Debug, Clone)]
pub struct FileStatistics {
    pub name: String,
    pub line_count: u64,
    pub word_count: u64,
    pub char_count: u64,
    pub byte_count: u64,
}

/// Counting a sequence of lines from empty counts gives the number of lines,
/// the total of their whitespace-delimited words, the total of their
/// characters and the total of their UTF-8 bytes.
pub proof fn lemma_counts_of_lines(lines: Seq<Seq<char>>)
    ensures
        Counts::zero().after_lines(lines) == (Counts {
            lines: lines.len(),
            words: total_words(lines),
            chars: total_chars(lines),
            bytes: total_bytes(lines),
        }),
    decreases lines.len(),
{
    if lines.len() > 0 {
        lemma_counts_of_lines(lines.drop_last());
    }
}

/// Merging counts does not depend on the order of the two operands.
pub proof fn lemma_merge_commutative(a: FileStatistics, b: FileStatistics)
    ensures
        a.counts().plus(b.counts()) == b.counts().plus(a.counts()),
{
}

/// Merging counts does not depend on how three operands are grouped.
pub proof fn lemma_merge_associative(a: FileStatistics, b: FileStatistics, c: FileStatistics)
    ensures
        a.counts().plus(b.counts().plus(c.counts())) == a.counts().plus(b.counts()).plus(
            c.counts(),
        ),
{
}

/// With no selector set, a row shows the line, word and byte counts, in that
/// order, and never the character count.
pub proof fn lemma_default_display(stats: FileStatistics, options: Options)
    requires
        options.spec_no_selection(),
    ensures
        stats.shown_values(&options) == seq![stats.line_count, stats.word_count, stats.byte_count],
{
    assert(stats.shown_values(&options) =~= seq![
        stats.line_count,
        stats.word_count,
        stats.byte_count,
    ]);
}

/// Relies on `String`'s `FromIterator<&char>`: the string of the characters
/// of `v`, in order.
#[verifier::external_body]
fn string_from_chars(v: &Vec<char>) -> (r: String)
    ensures
        r@ == v@,
{
    v.iter().collect::<String>()
}

/// The characters of `s`, in order.
pub fn chars_of(s: &str) -> (r: Vec<char>)
    ensures
        r@ == s@,
{
    let mut out: Vec<char> = Vec::new();
    for c in it: s.chars()
        invariant
            out@ == it.seq().subrange(0, it.index() as int),
    {
        out.push(c);
    }
    out
}

impl FileStatistics {
    /// The counts as mathematical integers.
    pub open spec fn counts(&self) -> Counts {
        Counts {
            lines: self.line_count as nat,
            words: self.word_count as nat,
            chars: self.char_count as nat,
            bytes: self.byte_count as nat,
        }
    }

    /// The counts displayed under `options`, in display order: lines, words,
    /// characters, bytes, each where it is shown.
    pub open spec fn shown_values(&self, options: &Options) -> Seq<u64> {
        (if options.shows_lines() {
            seq![self.line_count]
        } else {
            seq![]
        }) + (if options.shows_words() {
            seq![self.word_count]
        } else {
            seq![]
        }) + (if options.shows_chars() {
            seq![self.char_count]
        } else {
            seq![]
        }) + (if options.shows_bytes() {
            seq![self.byte_count]
        } else {
            seq![]
        })
    }

    /// The column width of this row under `options`.
    pub open spec fn width(&self, options: &Options) -> nat {
        max_digits(self.shown_values(options))
    }

    /// The row that displays these counts under `options`.
    pub open spec fn row(&self, options: &Options) -> Seq<char> {
        cells(self.shown_values(options), self.width(options)) + self.name@
    }

    /// Whether one more `line` can be counted without any count passing
    /// `u64::MAX` (the last clause holds of every `str` in memory).
    pub open spec fn fits_line(&self, line: Seq<char>) -> bool {
        &&& self.line_count < u64::MAX
        &&& self.word_count + line.len() <= u64::MAX
        &&& self.char_count + line.len() <= u64::MAX
        &&& self.byte_count + byte_len(line) <= u64::MAX
        &&& byte_len(line) <= usize::MAX
    }

    /// Whether `self` and `o` can be added without any count passing
    /// `u64::MAX`.
    pub open spec fn fits_sum(&self, o: &FileStatistics) -> bool {
        &&& self.line_count + o.line_count <= u64::MAX
        &&& self.word_count + o.word_count <= u64::MAX
        &&& self.char_count + o.char_count <= u64::MAX
        &&& self.byte_count + o.byte_count <= u64::MAX
    }

    /// Empty counts under the name `name`.
    pub fn new(name: &str) -> (r: Self)
        ensures
            r.name@ == name@,
            r.counts() == Counts::zero(),
    {
        FileStatistics {
            name: name.to_owned(),
            line_count: 0,
            word_count: 0,
            char_count: 0,
            byte_count: 0,
        }
    }

    /// Counts `line`: one more line, its words, its characters and its
    /// bytes.
    pub fn count_line(&mut self, line: &str)
        requires
            old(self).fits_line(line@),
        ensures
            final(self).name == old(self).name,
            final(self).counts() == old(self).counts().after_line(line@),
    {
        let mut flags: Vec<bool> = Vec::new();
        for c in it: line.chars()
            invariant
                flags.len() == it.index(),
                forall|j: int| 0 <= j < flags.len() ==> flags@[j] == whitespace(it.seq()[j]),
        {
            flags.push(is_whitespace(c));
        }
        assert(flags@ =~= whitespace_flags(line@));
        let words = count_words(flags.as_slice());
        proof {
            lemma_word_runs_bound(flags@);
        }
        let nbytes = line.len();
        self.line_count = self.line_count + 1;
        self.word_count = self.word_count + words as u64;
        self.char_count = self.char_count + flags.len() as u64;
        self.byte_count = self.byte_count + nbytes as u64;
    }

    /// The counts displayed under `options`, in display order.
    fn shown(&self, options: &Options) -> (r: Vec<u64>)
        ensures
            r@ == self.shown_values(options),
    {
        let none = options.no_selection();
        let mut vals: Vec<u64> = Vec::new();
        if options.lines || none {
            vals.push(self.line_count);
        }
        if options.words || none {
            vals.push(self.word_count);
        }
        if options.chars {
            vals.push(self.char_count);
        }
        if options.bytes || none {
            vals.push(self.byte_count);
        }
        assert(vals@ =~= self.shown_values(options));
        vals
    }

    /// The width shared by the displayed counts of this row: the largest
    /// number of digits among them.
    fn min_width(&self, options: &Options) -> (r: usize)
        ensures
            r == self.width(options),
    {
        let vals = self.shown(options);
        let mut width: usize = 0;
        let mut i: usize = 0;
        while i < vals.len()
            invariant
                i <= vals.len(),
                width == max_digits(vals@.subrange(0, i as int)),
            decreases vals.len() - i,
        {
            assert(vals@.subrange(0, i + 1).drop_last() =~= vals@.subrange(0, i as int));
            let d = digits(vals[i]);
            if d > width {
                width = d;
            }
            i += 1;
        }
        assert(vals@.subrange(0, vals.len() as int) =~= vals@);
        width
    }

    /// Renders the displayed counts, each right-aligned to the row's width
    /// and followed by a space, then the name.
    pub fn display_from_options(&self, options: &Options) -> (r: String)
        ensures
            r@ == self.row(options),
    {
        let width = self.min_width(options);
        let vals = self.shown(options);
        let mut out: Vec<char> = Vec::new();
        let mut i: usize = 0;
        while i < vals.len()
            invariant
                i <= vals.len(),
                vals@ == self.shown_values(options),
                width == self.width(options),
                out@ == cells(vals@.subrange(0, i as int), width as nat),
            decreases vals.len() - i,
        {
            assert(vals@.subrange(0, i + 1).drop_last() =~= vals@.subrange(0, i as int));
            push_cell(&mut out, vals[i], width);
            i += 1;
        }
        assert(vals@.subrange(0, vals.len() as int) =~= vals@);
        let mut name = chars_of(self.name.as_str());
        out.append(&mut name);
        string_from_chars(&out)
    }

    /// Field-wise sum of the counts, under the name of `self`.
    pub fn add(self, rhs: Self) -> (r: Self)
        requires
            self.fits_sum(&rhs),
        ensures
            r.name == self.name,
            r.counts() == self.counts().plus(rhs.counts()),
    {
        FileStatistics {
            name: self.name,
            line_count: self.line_count + rhs.line_count,
            word_count: self.word_count + rhs.word_count,
            char_count: self.char_count + rhs.char_count,
            byte_count: self.byte_count + rhs.byte_count,
        }
    }

    /// Adds the counts of `rhs` to those of `self`, keeping the name.
    pub fn add_assign(&mut self, rhs: Self)
        requires
            old(self).fits_sum(&rhs),
        ensures
            final(self).name == old(self).name,
            final(self).counts() == old(self).counts().plus(rhs.counts()),
    {
        self.line_count = self.line_count + rhs.line_count;
        self.word_count = self.word_count + rhs.word_count;
        self.char_count = self.char_count + rhs.char_count;
        self.byte_count = self.byte_count + rhs.byte_count;
    }
}

} // verus!

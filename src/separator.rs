use vstd::prelude::*;

verus! {

/// Number of times `c` occurs in `s`.
pub open spec fn occurrences(s: Seq<char>, c: char) -> nat
    decreases s.len(),
{
    if s.len() == 0 {
        0
    } else {
        occurrences(s.drop_last(), c) + if s.last() == c {
            1nat
        } else {
            0nat
        }
    }
}

/// Keeps the current best unless the candidate occurs strictly more often.
pub open spec fn better(best: (char, nat), c: char, n: nat) -> (char, nat) {
    if n > best.1 {
        (c, n)
    } else {
        best
    }
}

/// The most frequent of `,` `;` tab `|` in the sample; on a tie the one listed
/// first wins, so a sample without any of them gives `,`.
pub open spec fn detected_separator(sample: Seq<char>) -> char {
    better(
        better(
            better((',', occurrences(sample, ',')), ';', occurrences(sample, ';')),
            '\t',
            occurrences(sample, '\t'),
        ),
        '|',
        occurrences(sample, '|'),
    ).0
}

/// Picks the field separator of delimited text from a sample of its first lines.
pub fn detect_separator_in(sample: &str) -> (r: char)
    ensures
        r == detected_separator(sample@),
{
    let n = sample.unicode_len();
    let mut comma: usize = 0;
    let mut semi: usize = 0;
    let mut tab: usize = 0;
    let mut pipe: usize = 0;
    let mut i: usize = 0;
    while i < n
        invariant
            n == sample@.len(),
            i <= n,
            comma == occurrences(sample@.subrange(0, i as int), ','),
            semi == occurrences(sample@.subrange(0, i as int), ';'),
            tab == occurrences(sample@.subrange(0, i as int), '\t'),
            pipe == occurrences(sample@.subrange(0, i as int), '|'),
            comma + semi + tab + pipe <= i,
        decreases n - i,
    {
        let c = sample.get_char(i);
        let ghost prefix = sample@.subrange(0, i as int + 1);
        assert(prefix.drop_last() =~= sample@.subrange(0, i as int));
        if c == ',' {
            comma = comma + 1;
        } else if c == ';' {
            semi = semi + 1;
        } else if c == '\t' {
            tab = tab + 1;
        } else if c == '|' {
            pipe = pipe + 1;
        }
        i = i + 1;
    }
    assert(sample@.subrange(0, n as int) =~= sample@);
    let mut best = ',';
    let mut best_n = comma;
    if semi > best_n {
        best = ';';
        best_n = semi;
    }
    if tab > best_n {
        best = '\t';
        best_n = tab;
    }
    if pipe > best_n {
        best = '|';
    }
    best
}

/// A sample where commas outnumber each other candidate is read as
/// comma-separated, and one where semicolons do is read as semicolon-separated.
pub proof fn lemma_majority_wins(sample: Seq<char>)
    ensures
        occurrences(sample, ',') > occurrences(sample, ';') && occurrences(sample, ',')
            > occurrences(sample, '\t') && occurrences(sample, ',') > occurrences(sample, '|')
            ==> detected_separator(sample) == ',',
        occurrences(sample, ';') > occurrences(sample, ',') && occurrences(sample, ';')
            > occurrences(sample, '\t') && occurrences(sample, ';') > occurrences(sample, '|')
            ==> detected_separator(sample) == ';',
{
}

} // verus!

//! Splitting character sequences at every occurrence of a delimiter, and joining them back.

use vstd::prelude::*;

verus! {

/// Whether the delimiter `d` occurs in `s` starting at position `i`.
pub open spec fn occurs_at(s: Seq<char>, d: Seq<char>, i: int) -> bool {
    0 <= i && i + d.len() <= s.len() && s.subrange(i, i + d.len()) == d
}

/// The position of the first occurrence of `d` in `s` at or after position `from`.
pub open spec fn find_from(s: Seq<char>, d: Seq<char>, from: int) -> Option<int>
    decreases s.len() + 1 - from,
{
    if from < 0 || from + d.len() > s.len() {
        None
    } else if occurs_at(s, d, from) {
        Some(from)
    } else {
        find_from(s, d, from + 1)
    }
}

/// The pieces of `s[from..]` between the occurrences of `d` (as `str::split` yields them).
pub open spec fn split_from(s: Seq<char>, d: Seq<char>, from: int) -> Seq<Seq<char>>
    decreases s.len() - from,
{
    if d.len() == 0 || from < 0 || from > s.len() {
        seq![]
    } else {
        match find_from(s, d, from) {
            Some(i) if from <= i && i + d.len() <= s.len() => seq![s.subrange(from, i)]
                + split_from(s, d, i + d.len()),
            _ => seq![s.subrange(from, s.len() as int)],
        }
    }
}

/// The pieces of `s` between the occurrences of the (non-empty) delimiter `d`.
pub open spec fn split(s: Seq<char>, d: Seq<char>) -> Seq<Seq<char>> {
    split_from(s, d, 0)
}

/// The tokens concatenated, with `d` between each two of them.
pub open spec fn join(tokens: Seq<Seq<char>>, d: Seq<char>) -> Seq<char>
    decreases tokens.len(),
{
    if tokens.len() == 0 {
        seq![]
    } else if tokens.len() == 1 {
        tokens[0]
    } else {
        tokens[0] + d + join(tokens.drop_first(), d)
    }
}

/// `d` does not occur in `t` at all.
pub open spec fn free_of(t: Seq<char>, d: Seq<char>) -> bool {
    forall|j: int| 0 <= j < t.len() ==> !occurs_at(t, d, j)
}

/// `t` followed by `d` contains no occurrence of `d` starting inside `t`.
pub open spec fn free_before(t: Seq<char>, d: Seq<char>) -> bool {
    forall|j: int| 0 <= j < t.len() ==> !occurs_at(t + d, d, j)
}

/// The tokens can be told apart again after joining them with `d`: no occurrence of `d` starts
/// inside a token (counting the delimiter that follows each token but the last).
pub open spec fn separable(tokens: Seq<Seq<char>>, d: Seq<char>) -> bool {
    &&& forall|i: int| 0 <= i < tokens.len() - 1 ==> free_before(#[trigger] tokens[i], d)
    &&& tokens.len() > 0 ==> free_of(tokens.last(), d)
}

proof fn lemma_find_from_found(s: Seq<char>, d: Seq<char>, from: int, k: int)
    requires
        0 <= from <= k,
        occurs_at(s, d, k),
        forall|j: int| from <= j < k ==> !occurs_at(s, d, j),
    ensures
        find_from(s, d, from) == Some(k),
    decreases k - from,
{
    if from < k {
        lemma_find_from_found(s, d, from + 1, k);
    }
}

proof fn lemma_find_from_none(s: Seq<char>, d: Seq<char>, from: int)
    requires
        0 <= from,
        forall|j: int| from <= j ==> !occurs_at(s, d, j),
    ensures
        find_from(s, d, from) is None,
    decreases s.len() + 1 - from,
{
    if from + d.len() <= s.len() {
        lemma_find_from_none(s, d, from + 1);
    }
}

/// A found occurrence is an occurrence, at or after the start, with none before it.
pub proof fn lemma_find_from_spec(s: Seq<char>, d: Seq<char>, from: int)
    requires
        0 <= from,
    ensures
        match find_from(s, d, from) {
            Some(i) => from <= i && occurs_at(s, d, i) && forall|j: int|
                from <= j < i ==> !occurs_at(s, d, j),
            None => forall|j: int| from <= j ==> !occurs_at(s, d, j),
        },
    decreases s.len() + 1 - from,
{
    if from + d.len() <= s.len() && !occurs_at(s, d, from) {
        lemma_find_from_spec(s, d, from + 1);
    }
}

/// Splitting the join of separable tokens gives the tokens back.
pub proof fn lemma_split_join(tokens: Seq<Seq<char>>, d: Seq<char>)
    requires
        tokens.len() > 0,
        d.len() > 0,
        separable(tokens, d),
    ensures
        split(join(tokens, d), d) == tokens,
    decreases tokens.len(),
{
    let s = join(tokens, d);
    if tokens.len() == 1 {
        assert(free_of(tokens[0], d));
        lemma_find_from_none(s, d, 0);
        assert(s.subrange(0, s.len() as int) =~= s);
        assert(split(s, d) =~= tokens);
    } else {
        let t0 = tokens[0];
        let rest = tokens.drop_first();
        let r = join(rest, d);
        assert(s == t0 + d + r);
        assert(free_before(t0, d));
        assert forall|j: int| 0 <= j < t0.len() implies !occurs_at(s, d, j) by {
            if j + d.len() <= s.len() {
                assert(s.subrange(j, j + d.len()) =~= (t0 + d).subrange(j, j + d.len()));
                assert(!occurs_at(t0 + d, d, j));
            }
        }
        assert(s.subrange(t0.len() as int, (t0.len() + d.len()) as int) =~= d);
        lemma_find_from_found(s, d, 0, t0.len() as int);
        assert(separable(rest, d)) by {
            assert forall|i: int| 0 <= i < rest.len() - 1 implies free_before(#[trigger] rest[i], d) by {
                assert(rest[i] == tokens[i + 1]);
            }
        }
        lemma_split_join(rest, d);
        lemma_split_from_shift(t0 + d, r, d, 0);
        assert(s.subrange(0, t0.len() as int) =~= t0);
        assert(split(s, d) =~= seq![t0] + split(r, d));
        assert(split(s, d) =~= tokens);
    }
}

/// Joining the pieces of `s[from..]` with the delimiter gives `s[from..]` back.
proof fn lemma_join_split_from(s: Seq<char>, d: Seq<char>, from: int)
    requires
        0 <= from <= s.len(),
        d.len() > 0,
    ensures
        split_from(s, d, from).len() > 0,
        join(split_from(s, d, from), d) == s.subrange(from, s.len() as int),
    decreases s.len() - from,
{
    lemma_find_from_spec(s, d, from);
    match find_from(s, d, from) {
        Some(i) => {
            let rest = split_from(s, d, i + d.len());
            lemma_join_split_from(s, d, i + d.len());
            let pieces = split_from(s, d, from);
            assert(pieces == seq![s.subrange(from, i)] + rest);
            assert(pieces.drop_first() =~= rest);
            assert(s.subrange(i, i + d.len()) == d);
            assert(join(pieces, d) == s.subrange(from, i) + d + join(rest, d));
            assert(s.subrange(from, i) + d + s.subrange(i + d.len(), s.len() as int) =~= s.subrange(
                from,
                s.len() as int,
            ));
        },
        None => {},
    }
}

/// Joining the pieces of a text split at a (non-empty) delimiter gives the text back.
pub proof fn lemma_join_split(s: Seq<char>, d: Seq<char>)
    requires
        d.len() > 0,
    ensures
        join(split(s, d), d) == s,
{
    lemma_join_split_from(s, d, 0);
    assert(s.subrange(0, s.len() as int) =~= s);
}

/// Splitting the tail of `a + b` that starts after `a` is the same as splitting `b`.
proof fn lemma_split_from_shift(a: Seq<char>, b: Seq<char>, d: Seq<char>, from: int)
    requires
        0 <= from <= b.len(),
        d.len() > 0,
    ensures
        split_from(a + b, d, a.len() + from) == split_from(b, d, from),
    decreases b.len() - from,
{
    let s = a + b;
    let off = a.len() as int;
    assert forall|j: int| from <= j implies occurs_at(s, d, off + j) == occurs_at(b, d, j) by {
        if 0 <= j && j + d.len() <= b.len() {
            assert(s.subrange(off + j, off + j + d.len()) =~= b.subrange(j, j + d.len()));
        }
    }
    lemma_find_from_spec(b, d, from);
    lemma_find_from_spec(s, d, off + from);
    match find_from(b, d, from) {
        Some(i) => {
            assert(occurs_at(s, d, off + i));
            assert forall|j: int| off + from <= j < off + i implies !occurs_at(s, d, j) by {
                assert(occurs_at(s, d, off + (j - off)) == occurs_at(b, d, j - off));
            }
            lemma_find_from_found(s, d, off + from, off + i);
            assert(s.subrange(off + from, off + i) =~= b.subrange(from, i));
            lemma_split_from_shift(a, b, d, i + d.len());
        },
        None => {
            assert forall|j: int| off + from <= j implies !occurs_at(s, d, j) by {
                assert(occurs_at(s, d, off + (j - off)) == occurs_at(b, d, j - off));
            }
            lemma_find_from_none(s, d, off + from);
            assert(s.subrange(off + from, s.len() as int) =~= b.subrange(from, b.len() as int));
        },
    }
}

/// Whether `d` occurs in `s` at position `i`.
pub fn occurs_at_exec(s: &[char], d: &[char], i: usize) -> (res: bool)
    ensures
        res == occurs_at(s@, d@, i as int),
{
    if i > s.len() || d.len() > s.len() - i {
        return false;
    }
    let mut k: usize = 0;
    while k < d.len()
        invariant
            i + d@.len() <= s@.len(),
            i + d.len() <= s.len(),
            k <= d@.len(),
            forall|m: int| 0 <= m < k ==> s@[i + m] == d@[m],
        decreases d@.len() - k,
    {
        if s[i + k] != d[k] {
            assert(s@.subrange(i as int, i + d@.len())[k as int] != d@[k as int]);
            return false;
        }
        k = k + 1;
    }
    assert(s@.subrange(i as int, i + d@.len()) =~= d@);
    true
}

/// The position of the first occurrence of `d` in `s` at or after `from`.
pub fn find_from_exec(s: &[char], d: &[char], from: usize) -> (res: Option<usize>)
    requires
        d@.len() > 0,
    ensures
        match res {
            Some(i) => find_from(s@, d@, from as int) == Some(i as int),
            None => find_from(s@, d@, from as int) is None,
        },
{
    let mut i = from;
    while i <= s.len() && d.len() <= s.len() - i
        invariant
            from <= i,
            d@.len() > 0,
            forall|j: int| from <= j < i ==> !occurs_at(s@, d@, j),
        decreases s@.len() + 1 - i,
    {
        if occurs_at_exec(s, d, i) {
            proof {
                lemma_find_from_found(s@, d@, from as int, i as int);
            }
            return Some(i);
        }
        i = i + 1;
    }
    proof {
        lemma_find_from_none(s@, d@, from as int);
    }
    None
}

/// Iterator-like splitter over the pieces of a character sequence between occurrences of a
/// delimiter.
pub struct Split {
    input: Vec<char>,
    delimiter: Vec<char>,
    end_of_last_delimiter: Option<usize>,
}

impl Split {
    /// The full input being split.
    pub closed spec fn input(&self) -> Seq<char> {
        self.input@
    }

    /// The delimiter being split at.
    pub closed spec fn delimiter(&self) -> Seq<char> {
        self.delimiter@
    }

    /// The pieces still to be handed out.
    pub closed spec fn remaining(&self) -> Seq<Seq<char>> {
        match self.end_of_last_delimiter {
            Some(p) => split_from(self.input@, self.delimiter@, p as int),
            None => seq![],
        }
    }

    /// Where the next piece starts, if any is left.
    pub closed spec fn next_start(&self) -> Option<int> {
        match self.end_of_last_delimiter {
            Some(p) => Some(p as int),
            None => None,
        }
    }

    pub closed spec fn wf(&self) -> bool {
        &&& self.delimiter@.len() > 0
        &&& self.end_of_last_delimiter matches Some(p) ==> p <= self.input@.len()
    }

    /// Starts splitting `haystack` at every occurrence of the non-empty `needle`.
    pub fn new(haystack: &[char], needle: &[char]) -> (res: Split)
        requires
            needle@.len() > 0,
        ensures
            res.wf(),
            res.input() == haystack@,
            res.delimiter() == needle@,
            res.remaining() == split(haystack@, needle@),
    {
        assert(haystack@.subrange(0, haystack@.len() as int) =~= haystack@);
        assert(needle@.subrange(0, needle@.len() as int) =~= needle@);
        Split {
            input: copy_range(haystack, 0, haystack.len()),
            delimiter: copy_range(needle, 0, needle.len()),
            end_of_last_delimiter: Some(0),
        }
    }

    /// The position in the input from which the next piece starts (the input's length once all
    /// pieces have been handed out).
    pub fn position(&self) -> (res: usize)
        requires
            self.wf(),
        ensures
            res == match self.next_start() {
                Some(p) => p,
                None => self.input().len() as int,
            },
    {
        match self.end_of_last_delimiter {
            Some(p) => p,
            None => self.input.len(),
        }
    }

    /// Hands out the next piece, if any.
    pub fn next(&mut self) -> (res: Option<Vec<char>>)
        requires
            old(self).wf(),
        ensures
            final(self).wf(),
            final(self).input() == old(self).input(),
            final(self).delimiter() == old(self).delimiter(),
            match res {
                Some(piece) => old(self).remaining().len() > 0 && piece@ == old(self).remaining()[0]
                    && final(self).remaining() == old(self).remaining().drop_first(),
                None => old(self).remaining().len() == 0 && final(self).remaining().len() == 0,
            },
    {
        match self.end_of_last_delimiter {
            Some(end_of_last) => {
                let ghost s = self.input@;
                let ghost d = self.delimiter@;
                proof {
                    lemma_find_from_spec(s, d, end_of_last as int);
                }
                match find_from_exec(self.input.as_slice(), self.delimiter.as_slice(), end_of_last) {
                    Some(next) => {
                        let dlen = self.delimiter.len();
                        let ilen = self.input.len();
                        assert(next + dlen <= ilen);
                        let piece = copy_range(self.input.as_slice(), end_of_last, next);
                        self.end_of_last_delimiter = Some(next + dlen);
                        assert(piece@ =~= s.subrange(end_of_last as int, next as int));
                        Some(piece)
                    },
                    None => {
                        let piece = copy_range(self.input.as_slice(), end_of_last, self.input.len());
                        self.end_of_last_delimiter = None;
                        assert(piece@ =~= s.subrange(end_of_last as int, s.len() as int));
                        Some(piece)
                    },
                }
            },
            None => None,
        }
    }
}

/// Copies `s[from..to]` into a new vector.
pub fn copy_range(s: &[char], from: usize, to: usize) -> (res: Vec<char>)
    requires
        from <= to <= s@.len(),
    ensures
        res@ == s@.subrange(from as int, to as int),
{
    let mut v: Vec<char> = Vec::new();
    let mut i: usize = from;
    while i < to
        invariant
            from <= i <= to <= s@.len(),
            v@ == s@.subrange(from as int, i as int),
        decreases to - i,
    {
        v.push(s[i]);
        assert(s@.subrange(from as int, i + 1) =~= s@.subrange(from as int, i as int).push(s@[i as int]));
        i = i + 1;
    }
    v
}

/// The views of a sequence of character vectors.
pub open spec fn views(v: Seq<Vec<char>>) -> Seq<Seq<char>> {
    v.map_values(|x: Vec<char>| x@)
}

/// All pieces of `s` between the occurrences of the non-empty delimiter `d`.
pub fn split_exec(s: &[char], d: &[char]) -> (res: Vec<Vec<char>>)
    requires
        d@.len() > 0,
    ensures
        views(res@) == split(s@, d@),
{
    let mut splitter = Split::new(s, d);
    let mut pieces: Vec<Vec<char>> = Vec::new();
    loop
        invariant
            splitter.wf(),
            views(pieces@) + splitter.remaining() == split(s@, d@),
        decreases splitter.remaining().len(),
    {
        let ghost before = splitter.remaining();
        match splitter.next() {
            Some(piece) => {
                let ghost prev = views(pieces@);
                let ghost pv = piece@;
                pieces.push(piece);
                assert(views(pieces@) =~= prev.push(pv));
                assert(views(pieces@) + splitter.remaining() =~= prev + before);
            },
            None => {
                assert(views(pieces@) + splitter.remaining() =~= views(pieces@));
                return pieces;
            },
        }
    }
}

} // verus!

//! Writing requests in the format RobTop's servers expect: `key=value` pairs joined by `&`.
//!
//! This is a variation of `x-www-form-urlencoded`: spaces are not replaced by `+` and nothing is
//! percent encoded. Nested structures are flattened into the pairs of the enclosing request.

use vstd::prelude::*;
use crate::serde::ser::error::Error;
use crate::serde::{emit, lemma_emit_push};
use crate::split::join;
use crate::text::signed_decimal;

verus! {

/// The text of one `key=value` pair.
pub open spec fn pair_token(pair: (Seq<char>, Seq<char>)) -> Seq<char> {
    pair.0 + seq!['='] + pair.1
}

/// The texts of the pairs of a request.
pub open spec fn pair_tokens(pairs: Seq<(Seq<char>, Seq<char>)>) -> Seq<Seq<char>> {
    pairs.map_values(|p: (Seq<char>, Seq<char>)| pair_token(p))
}

/// The text of a request with the given pairs.
pub open spec fn form_text(pairs: Seq<(Seq<char>, Seq<char>)>) -> Seq<char> {
    join(pair_tokens(pairs), seq!['&'])
}

/// The views of pairs of strings.
pub open spec fn pairs_view(pairs: Seq<(String, String)>) -> Seq<(Seq<char>, Seq<char>)> {
    pairs.map_values(|p: (String, String)| (p.0@, p.1@))
}

/// The value written for a list of integers: the items separated by `,`, `-` when there are none.
/// A parenthesized list is enclosed in parentheses, so an empty one is written as `(-)`.
pub open spec fn list_text(items: Seq<i128>, parenthesized: bool) -> Seq<char> {
    let body = if items.len() == 0 {
        seq!['-']
    } else {
        join(items.map_values(|i: i128| signed_decimal(i as int)), seq![','])
    };
    if parenthesized {
        seq!['('] + body + seq![')']
    } else {
        body
    }
}

/// Writer for RobTop's request format.
#[derive(Debug)]
pub struct RequestSerializer {
    buffer: String,
    is_start: bool,
}

impl RequestSerializer {
    /// What has been written so far.
    pub closed spec fn output(&self) -> Seq<char> {
        self.buffer@
    }

    /// Whether no pair has been written yet.
    pub closed spec fn at_start(&self) -> bool {
        self.is_start
    }

    /// A writer that has written nothing yet.
    pub fn new() -> (res: RequestSerializer)
        ensures
            res.output() == Seq::<char>::empty(),
            res.at_start(),
    {
        RequestSerializer { buffer: String::new(), is_start: true }
    }

    /// Everything written so far.
    pub fn into_output(self) -> (res: String)
        ensures
            res@ == self.output(),
    {
        self.buffer
    }

    /// Writes one `key=value` pair, preceded by `&` unless it is the first.
    pub fn serialize_field(&mut self, key: &str, value: &str) -> (res: Result<(), Error>)
        ensures
            res is Ok,
            final(self).output() == emit(
                old(self).output(),
                old(self).at_start(),
                seq![pair_token((key@, value@))],
                seq!['&'],
            ),
            !final(self).at_start(),
    {
        proof {
            reveal_strlit("&");
            reveal_strlit("=");
            lemma_emit_push(old(self).output(), old(self).at_start(), Seq::empty(), pair_token((key@, value@)), seq!['&']);
            assert(Seq::<Seq<char>>::empty().push(pair_token((key@, value@))) =~= seq![pair_token((key@, value@))]);
        }
        if !self.is_start {
            self.buffer.append("&");
        }
        self.buffer.append(key);
        self.buffer.append("=");
        self.buffer.append(value);
        self.is_start = false;
        Ok(())
    }

    /// Writes the given pairs, in order.
    pub fn serialize_pairs(&mut self, pairs: &Vec<(String, String)>) -> (res: Result<(), Error>)
        ensures
            res is Ok,
            final(self).output() == emit(
                old(self).output(),
                old(self).at_start(),
                pair_tokens(pairs_view(pairs@)),
                seq!['&'],
            ),
            final(self).at_start() == (old(self).at_start() && pairs@.len() == 0),
    {
        let ghost buf0 = self.output();
        let ghost start0 = self.at_start();
        let ghost all = pair_tokens(pairs_view(pairs@));
        let mut i: usize = 0;
        while i < pairs.len()
            invariant
                i <= pairs@.len(),
                all == pair_tokens(pairs_view(pairs@)),
                self.output() == emit(buf0, start0, all.take(i as int), seq!['&']),
                self.at_start() == (start0 && i == 0),
            decreases pairs@.len() - i,
        {
            let ghost prev = all.take(i as int);
            proof {
                lemma_emit_push(buf0, start0, prev, all[i as int], seq!['&']);
                assert(all.take(i + 1) =~= prev.push(all[i as int]));
                assert(all[i as int] == pair_token((pairs@[i as int].0@, pairs@[i as int].1@)));
                lemma_emit_push(self.output(), self.at_start(), Seq::empty(), all[i as int], seq!['&']);
                assert(Seq::<Seq<char>>::empty().push(all[i as int]) =~= seq![all[i as int]]);
            }
            let _ = self.serialize_field(pairs[i].0.as_str(), pairs[i].1.as_str());
            i = i + 1;
        }
        assert(all.take(pairs@.len() as int) =~= all);
        Ok(())
    }
}

/// A request written into a fresh serializer is exactly its pairs as `key=value`, joined by `&`.
pub proof fn lemma_fresh_request_text(pairs: Seq<(Seq<char>, Seq<char>)>)
    ensures
        emit(Seq::empty(), true, pair_tokens(pairs), seq!['&']) == form_text(pairs),
{
    if pairs.len() == 0 {
        assert(pair_tokens(pairs) =~= Seq::<Seq<char>>::empty());
        assert(join(Seq::<Seq<char>>::empty(), seq!['&']) =~= Seq::<char>::empty());
    } else {
        assert(Seq::<char>::empty() + form_text(pairs) =~= form_text(pairs));
    }
}

} // verus!

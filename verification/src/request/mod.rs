//! Requests to the Geometry Dash servers, written with
//! [`RequestSerializer`](crate::serde::ser::request::RequestSerializer).

use vstd::prelude::*;
use crate::model::{game_version_number, GameVersion};
use crate::serde::ser::request::{list_text, pairs_view};
use crate::serde::{bool_token, BoolStyle};
use crate::split::join;
use crate::text::{format_i128, signed_decimal};

pub mod comment;
pub mod level;
pub mod user;

verus! {

/// The part every request starts with: the versions of the client and the secret it sends.
#[derive(Debug, Clone, Copy, PartialEq, Eq)]
pub struct BaseRequest<'a> {
    /// The version of the game.
    pub game_version: GameVersion,
    /// The version of the game's binary.
    pub binary_version: GameVersion,
    /// The secret the client sends.
    pub secret: &'a str,
}

/// The base request of Geometry Dash 2.1.
pub open spec fn gd_21_spec() -> BaseRequest<'static> {
    BaseRequest {
        game_version: GameVersion::Version { minor: 1, major: 2 },
        binary_version: GameVersion::Version { minor: 3, major: 3 },
        secret: "Wmfd2893gb7",
    }
}

/// The base request of Geometry Dash 2.1: game version 21, binary version 33.
pub fn gd_21() -> (res: BaseRequest<'static>)
    ensures
        res == gd_21_spec(),
        res.game_version == (GameVersion::Version { minor: 1, major: 2 }),
        res.binary_version == (GameVersion::Version { minor: 3, major: 3 }),
        res.secret@ == "Wmfd2893gb7"@,
{
    BaseRequest {
        game_version: GameVersion::Version { minor: 1, major: 2 },
        binary_version: GameVersion::Version { minor: 3, major: 3 },
        secret: "Wmfd2893gb7",
    }
}

impl Default for BaseRequest<'static> {
    fn default() -> (res: BaseRequest<'static>)
        ensures
            res.game_version == (GameVersion::Version { minor: 1, major: 2 }),
            res.binary_version == (GameVersion::Version { minor: 3, major: 3 }),
            res.secret@ == "Wmfd2893gb7"@,
    {
        gd_21()
    }
}

/// The pair for an integer value.
pub open spec fn int_pair(key: Seq<char>, value: int) -> (Seq<char>, Seq<char>) {
    (key, signed_decimal(value))
}

/// The pair for a boolean value, written as `1` or `0`.
pub open spec fn bool_pair(key: Seq<char>, value: bool) -> (Seq<char>, Seq<char>) {
    (key, bool_token(BoolStyle::OneZero, value))
}

impl<'a> BaseRequest<'a> {
    /// The pairs this part is written as.
    pub open spec fn form(self) -> Seq<(Seq<char>, Seq<char>)> {
        seq![
            int_pair("gameVersion"@, game_version_number(self.game_version) as int),
            int_pair("binaryVersion"@, game_version_number(self.binary_version) as int),
            ("secret"@, self.secret@),
        ]
    }

    /// Appends the pairs this part is written as.
    pub fn push_pairs(&self, pairs: &mut Vec<(String, String)>)
        ensures
            pairs_view(final(pairs)@) == pairs_view(old(pairs)@) + self.form(),
    {
        push_int_pair(pairs, "gameVersion", u8::from(self.game_version) as i128);
        push_int_pair(pairs, "binaryVersion", u8::from(self.binary_version) as i128);
        push_str_pair(pairs, "secret", self.secret);
        assert(pairs_view(pairs@) =~= pairs_view(old(pairs)@) + self.form());
    }
}

/// Appends a pair with an integer value.
pub fn push_int_pair(pairs: &mut Vec<(String, String)>, key: &str, value: i128)
    ensures
        pairs_view(final(pairs)@) == pairs_view(old(pairs)@).push(int_pair(key@, value as int)),
{
    pairs.push((key.to_string(), format_i128(value)));
    assert(pairs_view(pairs@) =~= pairs_view(old(pairs)@).push(int_pair(key@, value as int)));
}

/// Appends a pair with a boolean value.
pub fn push_bool_pair(pairs: &mut Vec<(String, String)>, key: &str, value: bool)
    ensures
        pairs_view(final(pairs)@) == pairs_view(old(pairs)@).push(bool_pair(key@, value)),
{
    proof {
        reveal_strlit("1");
        reveal_strlit("0");
    }
    let token: &str = if value { "1" } else { "0" };
    assert(token@ == bool_token(BoolStyle::OneZero, value));
    pairs.push((key.to_string(), token.to_string()));
    assert(pairs_view(pairs@) =~= pairs_view(old(pairs)@).push(bool_pair(key@, value)));
}

/// Appends a pair with a text value.
pub fn push_str_pair(pairs: &mut Vec<(String, String)>, key: &str, value: &str)
    ensures
        pairs_view(final(pairs)@) == pairs_view(old(pairs)@).push((key@, value@)),
{
    pairs.push((key.to_string(), value.to_string()));
    assert(pairs_view(pairs@) =~= pairs_view(old(pairs)@).push((key@, value@)));
}

/// Appends a pair with a list of integers as its value (see [`list_text`]).
pub fn push_list_pair(pairs: &mut Vec<(String, String)>, key: &str, items: &Vec<i128>, parenthesized: bool)
    ensures
        pairs_view(final(pairs)@) == pairs_view(old(pairs)@).push((key@, list_text(items@, parenthesized))),
{
    let value = list_token(items, parenthesized);
    pairs.push((key.to_string(), value));
    assert(pairs_view(pairs@) =~= pairs_view(old(pairs)@).push(
        (key@, list_text(items@, parenthesized)),
    ));
}

/// The value written for a list of integers.
pub fn list_token(items: &Vec<i128>, parenthesized: bool) -> (res: String)
    ensures
        res@ == list_text(items@, parenthesized),
{
    proof {
        reveal_strlit("-");
        reveal_strlit("(");
        reveal_strlit(")");
        reveal_strlit(",");
    }
    let mut body = String::new();
    if items.len() == 0 {
        body.append("-");
    } else {
        let ghost toks = items@.map_values(|i: i128| signed_decimal(i as int));
        let first = format_i128(items[0]);
        body.append(first.as_str());
        let mut i: usize = 1;
        proof {
            assert(toks.take(1) =~= seq![toks[0]]);
        }
        while i < items.len()
            invariant
                1 <= i <= items@.len(),
                toks == items@.map_values(|i: i128| signed_decimal(i as int)),
                body@ == join(toks.take(i as int), seq![',']),
            decreases items@.len() - i,
        {
            let t = format_i128(items[i]);
            proof {
                reveal_strlit(",");
                crate::serde::lemma_join_push(toks.take(i as int), toks[i as int], seq![',']);
                assert(toks.take(i + 1) =~= toks.take(i as int).push(toks[i as int]));
            }
            body.append(",");
            body.append(t.as_str());
            i = i + 1;
        }
        assert(toks.take(items@.len() as int) =~= toks);
    }
    if parenthesized {
        let mut s = String::new();
        s.append("(");
        s.append(body.as_str());
        s.append(")");
        assert(s@ =~= list_text(items@, parenthesized));
        s
    } else {
        body
    }
}

} // verus!

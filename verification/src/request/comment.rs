//! Requests for the comments on levels and profiles.

use vstd::prelude::*;
use crate::request::{gd_21, gd_21_spec, int_pair, push_int_pair, BaseRequest};
use crate::serde::emit;
use crate::serde::ser::error::Error;
use crate::serde::ser::request::{pair_tokens, pairs_view, RequestSerializer};
use crate::text::{format_i128, signed_decimal};

verus! {

/// The order comments are listed in.
#[derive(Clone, Copy, Debug, PartialEq, Eq, Hash)]
pub enum SortMode {
    /// The most liked first.
    Liked,
    /// The most recent first.
    Recent,
}

/// The value the servers use for a sort mode.
pub open spec fn sort_mode_value(mode: SortMode) -> u8 {
    match mode {
        SortMode::Liked => 1,
        SortMode::Recent => 0,
    }
}

impl SortMode {
    /// The value the servers use for this sort mode.
    pub fn value(self) -> (res: u8)
        ensures
            res == sort_mode_value(self),
    {
        match self {
            SortMode::Liked => 1,
            SortMode::Recent => 0,
        }
    }
}

/// A request for the comments on a level.
#[derive(Debug, Clone, Copy, PartialEq, Eq)]
pub struct LevelCommentsRequest<'a> {
    /// The base of the request.
    pub base: BaseRequest<'a>,
    /// Unknown.
    pub total: u32,
    /// The page of comments.
    pub page: u32,
    /// The order the comments are listed in.
    pub sort_mode: SortMode,
    /// The id of the level.
    pub level_id: u64,
    /// The number of comments per page.
    pub limit: u32,
}

impl<'a> LevelCommentsRequest<'a> {
    /// The pairs this request is written as.
    pub open spec fn form(self) -> Seq<(Seq<char>, Seq<char>)> {
        self.base.form() + seq![
            int_pair("total"@, self.total as int),
            int_pair("page"@, self.page as int),
            int_pair("mode"@, sort_mode_value(self.sort_mode) as int),
            int_pair("levelID"@, self.level_id as int),
            int_pair("count"@, self.limit as int),
        ]
    }

    /// A request for the first twenty, most recent comments on the given level.
    pub fn new(level: u64) -> (res: LevelCommentsRequest<'static>)
        ensures
            res == (LevelCommentsRequest {
                base: gd_21_spec(),
                total: 0,
                page: 0,
                sort_mode: SortMode::Recent,
                level_id: level,
                limit: 20,
            }),
    {
        LevelCommentsRequest {
            level_id: level,
            base: gd_21(),
            page: 0,
            total: 0,
            sort_mode: SortMode::Recent,
            limit: 20,
        }
    }

    /// Lists the most liked comments first.
    pub fn liked(self) -> (res: LevelCommentsRequest<'a>)
        ensures
            res == (LevelCommentsRequest { sort_mode: SortMode::Liked, ..self }),
    {
        let mut s = self;
        s.sort_mode = SortMode::Liked;
        s
    }

    /// Lists the most recent comments first.
    pub fn recent(self) -> (res: LevelCommentsRequest<'a>)
        ensures
            res == (LevelCommentsRequest { sort_mode: SortMode::Recent, ..self }),
    {
        let mut s = self;
        s.sort_mode = SortMode::Recent;
        s
    }

    /// Writes this request.
    pub fn serialize(&self, serializer: &mut RequestSerializer) -> (res: Result<(), Error>)
        ensures
            res is Ok,
            final(serializer).output() == emit(
                old(serializer).output(),
                old(serializer).at_start(),
                pair_tokens(self.form()),
                seq!['&'],
            ),
    {
        let mut pairs: Vec<(String, String)> = Vec::new();
        self.base.push_pairs(&mut pairs);
        push_int_pair(&mut pairs, "total", self.total as i128);
        push_int_pair(&mut pairs, "page", self.page as i128);
        push_int_pair(&mut pairs, "mode", self.sort_mode.value() as i128);
        push_int_pair(&mut pairs, "levelID", self.level_id as i128);
        push_int_pair(&mut pairs, "count", self.limit as i128);
        assert(pairs_view(pairs@) =~= self.form());
        serializer.serialize_pairs(&pairs)
    }

    /// A short description of the request: `LevelCommentsRequest(<level id>)`.
    pub fn to_display_string(&self) -> (res: String)
        ensures
            res@ == "LevelCommentsRequest("@ + signed_decimal(self.level_id as int) + ")"@,
    {
        let mut s = "LevelCommentsRequest(".to_string();
        let id = format_i128(self.level_id as i128);
        s.append(id.as_str());
        s.append(")");
        s
    }
}

/// A request for the comments on a user's profile.
#[derive(Debug, Clone, Copy, PartialEq, Eq)]
pub struct ProfileCommentsRequest<'a> {
    /// The base of the request.
    pub base: BaseRequest<'a>,
    /// Unknown.
    pub total: u32,
    /// The page of comments.
    pub page: u32,
    /// The account id of the user.
    pub account_id: u64,
}

impl<'a> ProfileCommentsRequest<'a> {
    /// The pairs this request is written as.
    pub open spec fn form(self) -> Seq<(Seq<char>, Seq<char>)> {
        self.base.form() + seq![
            int_pair("total"@, self.total as int),
            int_pair("page"@, self.page as int),
            int_pair("accountID"@, self.account_id as int),
        ]
    }

    /// A request for the first page of comments on the given account's profile.
    pub fn new(account: u64) -> (res: ProfileCommentsRequest<'static>)
        ensures
            res == (ProfileCommentsRequest { base: gd_21_spec(), total: 0, page: 0, account_id: account }),
    {
        ProfileCommentsRequest { account_id: account, base: gd_21(), page: 0, total: 0 }
    }

    /// Writes this request.
    pub fn serialize(&self, serializer: &mut RequestSerializer) -> (res: Result<(), Error>)
        ensures
            res is Ok,
            final(serializer).output() == emit(
                old(serializer).output(),
                old(serializer).at_start(),
                pair_tokens(self.form()),
                seq!['&'],
            ),
    {
        let mut pairs: Vec<(String, String)> = Vec::new();
        self.base.push_pairs(&mut pairs);
        push_int_pair(&mut pairs, "total", self.total as i128);
        push_int_pair(&mut pairs, "page", self.page as i128);
        push_int_pair(&mut pairs, "accountID", self.account_id as i128);
        assert(pairs_view(pairs@) =~= self.form());
        serializer.serialize_pairs(&pairs)
    }

    /// A short description of the request: `AccountCommentsRequest(<account id>)`.
    pub fn to_display_string(&self) -> (res: String)
        ensures
            res@ == "AccountCommentsRequest("@ + signed_decimal(self.account_id as int) + ")"@,
    {
        let mut s = "AccountCommentsRequest(".to_string();
        let id = format_i128(self.account_id as i128);
        s.append(id.as_str());
        s.append(")");
        s
    }
}

} // verus!

//! Requests for users.

use vstd::prelude::*;
use crate::request::{gd_21, gd_21_spec, int_pair, push_int_pair, push_str_pair, BaseRequest};
use crate::serde::emit;
use crate::serde::ser::error::Error;
use crate::serde::ser::request::{pair_tokens, pairs_view, RequestSerializer};
use crate::text::{format_i128, signed_decimal};

verus! {

/// A request for a user's profile.
#[derive(Debug, Clone, Copy)]
pub struct UserRequest<'a> {
    /// The base of the request.
    pub base: BaseRequest<'a>,
    /// The account id of the user.
    pub user: u64,
}

impl<'a> UserRequest<'a> {
    /// The pairs this request is written as.
    pub open spec fn form(self) -> Seq<(Seq<char>, Seq<char>)> {
        self.base.form() + seq![int_pair("targetAccountID"@, self.user as int)]
    }

    /// A request for the profile of the user with the given account id.
    pub fn new(user_id: u64) -> (res: UserRequest<'static>)
        ensures
            res == (UserRequest { base: gd_21_spec(), user: user_id }),
    {
        UserRequest { base: gd_21(), user: user_id }
    }

    /// Writes this request.
    pub fn serialize(&self, serializer: &mut RequestSerializer) -> (res: Result<(), Error>)
        ensures
            res is Ok,
            final(serializer).output() == emit(
                old(serializer).output(),
                old(serializer).at_start(),
                pair_tokens(self.form()),
                seq!['&'],
            ),
    {
        let mut pairs: Vec<(String, String)> = Vec::new();
        self.base.push_pairs(&mut pairs);
        push_int_pair(&mut pairs, "targetAccountID", self.user as i128);
        assert(pairs_view(pairs@) =~= self.form());
        serializer.serialize_pairs(&pairs)
    }

    /// A short description of the request: `UserRequest(<account id>)`.
    pub fn to_display_string(&self) -> (res: String)
        ensures
            res@ == "UserRequest("@ + signed_decimal(self.user as int) + ")"@,
    {
        let mut s = "UserRequest(".to_string();
        let id = format_i128(self.user as i128);
        s.append(id.as_str());
        s.append(")");
        s
    }
}

impl Default for UserRequest<'static> {
    fn default() -> (res: UserRequest<'static>)
        ensures
            res == (UserRequest { base: gd_21_spec(), user: 0 }),
    {
        UserRequest { base: gd_21(), user: 0 }
    }
}

/// A request searching users by name.
#[derive(Debug, Clone, Copy, PartialEq, Eq)]
pub struct UserSearchRequest<'a> {
    /// The base of the request.
    pub base: BaseRequest<'a>,
    /// Unknown.
    pub total: u32,
    /// The page of results.
    pub page: u32,
    /// The name searched for.
    pub search_string: &'a str,
}

impl<'a> UserSearchRequest<'a> {
    /// The pairs this request is written as.
    pub open spec fn form(self) -> Seq<(Seq<char>, Seq<char>)> {
        self.base.form() + seq![
            int_pair("total"@, self.total as int),
            int_pair("page"@, self.page as int),
            ("str"@, self.search_string@),
        ]
    }

    /// A request for the first page of users matching the given name.
    pub fn new(search_string: &'a str) -> (res: UserSearchRequest<'a>)
        ensures
            res == (UserSearchRequest { base: gd_21_spec(), total: 0, page: 0, search_string }),
    {
        UserSearchRequest { base: gd_21(), total: 0, page: 0, search_string }
    }

    /// Writes this request.
    pub fn serialize(&self, serializer: &mut RequestSerializer) -> (res: Result<(), Error>)
        ensures
            res is Ok,
            final(serializer).output() == emit(
                old(serializer).output(),
                old(serializer).at_start(),
                pair_tokens(self.form()),
                seq!['&'],
            ),
    {
        let mut pairs: Vec<(String, String)> = Vec::new();
        self.base.push_pairs(&mut pairs);
        push_int_pair(&mut pairs, "total", self.total as i128);
        push_int_pair(&mut pairs, "page", self.page as i128);
        push_str_pair(&mut pairs, "str", self.search_string);
        assert(pairs_view(pairs@) =~= self.form());
        serializer.serialize_pairs(&pairs)
    }

    /// A short description of the request: `UserSearchRequest(<name>)`.
    pub fn to_display_string(&self) -> (res: String)
        ensures
            res@ == "UserSearchRequest("@ + self.search_string@ + ")"@,
    {
        let mut s = "UserSearchRequest(".to_string();
        s.append(self.search_string);
        s.append(")");
        s
    }
}

} // verus!

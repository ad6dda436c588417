//! Site statistics: the typed record, the shape the wire carries, and decoding.
use vstd::prelude::*;

use crate::error::BridgeError;
use crate::numeric::{decimal_digits, is_decimal, lemma_decimal_digits, parse_u64, parsed_u64};

verus! {

/// A numeric field as the wire carries it: a JSON number, or a JSON string
/// that should hold the number's decimal text.
#[derive(Debug, Clone, PartialEq, Eq)]
pub enum NumberOrString {
    Number(u64),
    Text(String),
}

/// The number a tolerant field stands for, if it stands for one.
pub open spec fn number_value(w: NumberOrString) -> Option<u64> {
    match w {
        NumberOrString::Number(n) => Some(n),
        NumberOrString::Text(s) => parsed_u64(s@),
    }
}

/// `w` carries `n`, as a JSON number or as its plain decimal text.
pub open spec fn encodes(w: NumberOrString, n: u64) -> bool {
    w == NumberOrString::Number(n) || (w is Text && w->Text_0@ == decimal_digits(n as nat))
}

/// `x` and `y` carry one number, each in either representation.
pub open spec fn same_number(x: NumberOrString, y: NumberOrString) -> bool {
    x == y || (x is Number && encodes(y, x->Number_0)) || (y is Number && encodes(
        x,
        y->Number_0,
    ))
}

/// A string in a tolerant field that is no decimal text at all.
pub open spec fn is_non_numeric(w: NumberOrString) -> bool {
    w is Text && !is_decimal(w->Text_0@)
}

/// Reads a tolerant numeric field: a number is taken as it is, a string
/// must be an unsigned decimal that fits in `u64`.
pub fn number_from_string(w: &NumberOrString) -> (r: Result<u64, BridgeError>)
    ensures
        number_value(*w) is Some ==> r == Ok::<u64, BridgeError>(number_value(*w)->Some_0),
        number_value(*w) is None ==> r == Err::<u64, BridgeError>(BridgeError::Decode),
{
    match w {
        NumberOrString::Number(n) => Ok(*n),
        NumberOrString::Text(s) => match parse_u64(s.as_str()) {
            Some(n) => Ok(n),
            None => Err(BridgeError::Decode),
        },
    }
}

/// Forum-wide counts.
#[derive(Debug, Clone, Copy, PartialEq, Eq, Structural)]
pub struct Totals {
    pub threads: u64,
    pub messages: u64,
    pub users: u64,
}

/// The most recently registered user.
#[derive(Debug, Clone, PartialEq, Eq)]
pub struct LatestUser {
    pub user_id: u64,
    pub username: String,
    /// Unix time, in seconds.
    pub register_date: u64,
}

/// Who is online now.
#[derive(Debug, Clone, Copy, PartialEq, Eq, Structural)]
pub struct Online {
    pub total: u64,
    pub members: u64,
    pub guests: u64,
}

/// The answer of the statistics endpoint.
#[derive(Debug, Clone, PartialEq, Eq)]
pub struct StatsResponse {
    pub totals: Totals,
    pub latest_user: LatestUser,
    pub online: Online,
}

/// `Totals` as the wire carries it.
#[derive(Debug, Clone, PartialEq, Eq)]
pub struct WireTotals {
    pub threads: NumberOrString,
    pub messages: NumberOrString,
    pub users: u64,
}

/// `Online` as the wire carries it.
#[derive(Debug, Clone, PartialEq, Eq)]
pub struct WireOnline {
    pub total: NumberOrString,
    pub members: NumberOrString,
    pub guests: NumberOrString,
}

/// `StatsResponse` as the wire carries it.
#[derive(Debug, Clone, PartialEq, Eq)]
pub struct WireStats {
    pub totals: WireTotals,
    pub latest_user: LatestUser,
    pub online: WireOnline,
}

pub open spec fn totals_of(w: WireTotals) -> Option<Totals> {
    match (number_value(w.threads), number_value(w.messages)) {
        (Some(threads), Some(messages)) => Some(Totals { threads, messages, users: w.users }),
        _ => None,
    }
}

pub open spec fn online_of(w: WireOnline) -> Option<Online> {
    match (number_value(w.total), number_value(w.members), number_value(w.guests)) {
        (Some(total), Some(members), Some(guests)) => Some(Online { total, members, guests }),
        _ => None,
    }
}

/// The statistics a wire record stands for; none where a tolerant field
/// holds no number.
pub open spec fn stats_of(w: WireStats) -> Option<StatsResponse> {
    match (totals_of(w.totals), online_of(w.online)) {
        (Some(totals), Some(online)) => Some(
            StatsResponse { totals, latest_user: w.latest_user, online },
        ),
        _ => None,
    }
}

impl Totals {
    pub fn decode(w: &WireTotals) -> (r: Result<Totals, BridgeError>)
        ensures
            totals_of(*w) is Some ==> r == Ok::<Totals, BridgeError>(totals_of(*w)->Some_0),
            totals_of(*w) is None ==> r == Err::<Totals, BridgeError>(BridgeError::Decode),
    {
        let threads = number_from_string(&w.threads)?;
        let messages = number_from_string(&w.messages)?;
        Ok(Totals { threads, messages, users: w.users })
    }
}

impl Online {
    pub fn decode(w: &WireOnline) -> (r: Result<Online, BridgeError>)
        ensures
            online_of(*w) is Some ==> r == Ok::<Online, BridgeError>(online_of(*w)->Some_0),
            online_of(*w) is None ==> r == Err::<Online, BridgeError>(BridgeError::Decode),
    {
        let total = number_from_string(&w.total)?;
        let members = number_from_string(&w.members)?;
        let guests = number_from_string(&w.guests)?;
        Ok(Online { total, members, guests })
    }
}

impl StatsResponse {
    /// Decodes a wire record; fails with `BridgeError::Decode` exactly when
    /// one of its tolerant fields holds no `u64`.
    pub fn decode(w: WireStats) -> (r: Result<StatsResponse, BridgeError>)
        ensures
            stats_of(w) is Some ==> r == Ok::<StatsResponse, BridgeError>(stats_of(w)->Some_0),
            stats_of(w) is None ==> r == Err::<StatsResponse, BridgeError>(BridgeError::Decode),
    {
        let totals = Totals::decode(&w.totals)?;
        let online = Online::decode(&w.online)?;
        Ok(StatsResponse { totals, latest_user: w.latest_user, online })
    }
}

/// A tolerant field reads the same number whether the wire carries the
/// number itself or its decimal text.
pub proof fn lemma_number_encodings_agree(n: u64, w: NumberOrString)
    requires
        encodes(w, n),
    ensures
        number_value(w) == Some(n),
{
    lemma_decimal_digits(n as nat);
}

/// Two statistics records that differ only in how their tolerant fields
/// carry the same numbers decode to the same statistics.
pub proof fn lemma_stats_encodings_agree(a: WireStats, b: WireStats)
    requires
        a.latest_user == b.latest_user,
        a.totals.users == b.totals.users,
        same_number(a.totals.threads, b.totals.threads),
        same_number(a.totals.messages, b.totals.messages),
        same_number(a.online.total, b.online.total),
        same_number(a.online.members, b.online.members),
        same_number(a.online.guests, b.online.guests),
    ensures
        stats_of(a) == stats_of(b),
{
    lemma_same_number(a.totals.threads, b.totals.threads);
    lemma_same_number(a.totals.messages, b.totals.messages);
    lemma_same_number(a.online.total, b.online.total);
    lemma_same_number(a.online.members, b.online.members);
    lemma_same_number(a.online.guests, b.online.guests);
}

proof fn lemma_same_number(x: NumberOrString, y: NumberOrString)
    requires
        same_number(x, y),
    ensures
        number_value(x) == number_value(y),
{
    if x != y {
        if x is Number && encodes(y, x->Number_0) {
            lemma_number_encodings_agree(x->Number_0, y);
        } else {
            lemma_number_encodings_agree(y->Number_0, x);
        }
    }
}

/// A string that is no decimal text in any tolerant field makes the whole
/// record fail to decode.
pub proof fn lemma_non_numeric_rejected(w: WireStats)
    requires
        is_non_numeric(w.totals.threads) || is_non_numeric(w.totals.messages) || is_non_numeric(
            w.online.total,
        ) || is_non_numeric(w.online.members) || is_non_numeric(w.online.guests),
    ensures
        stats_of(w) is None,
{
}

} // verus!

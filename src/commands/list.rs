//! Listing secrets, optionally of one kind.

use crate::commands::add::AddType;
use crate::secrets::VaultData;
use vstd::prelude::*;

verus! {

/// Which groups a listing shows.
#[derive(Debug, Clone, Copy, PartialEq, Eq, Structural)]
pub enum ListFilter {
    All,
    Passwords,
    ApiKeys,
    Notes,
    DbCredentials,
    Tokens,
}

/// The filter shows the group `k`.
pub open spec fn shows(filter: ListFilter, k: AddType) -> bool {
    match filter {
        ListFilter::All => true,
        ListFilter::Passwords => k == AddType::Password,
        ListFilter::ApiKeys => k == AddType::ApiKey,
        ListFilter::Notes => k == AddType::Note,
        ListFilter::DbCredentials => k == AddType::DbCredential,
        ListFilter::Tokens => k == AddType::Token,
    }
}

/// Whether the filter shows the group `k`.
pub fn includes(filter: ListFilter, k: AddType) -> (r: bool)
    ensures
        r == shows(filter, k),
{
    match filter {
        ListFilter::All => true,
        ListFilter::Passwords => k == AddType::Password,
        ListFilter::ApiKeys => k == AddType::ApiKey,
        ListFilter::Notes => k == AddType::Note,
        ListFilter::DbCredentials => k == AddType::DbCredential,
        ListFilter::Tokens => k == AddType::Token,
    }
}

/// Records of group `k` that the filter shows.
pub open spec fn shown_count(data: VaultData, filter: ListFilter, k: AddType) -> int {
    if shows(filter, k) {
        data.group_len(k)
    } else {
        0
    }
}

/// Number of records that a listing shows.
pub open spec fn listed_total(data: VaultData, filter: ListFilter) -> int {
    shown_count(data, filter, AddType::Password) + shown_count(data, filter, AddType::ApiKey)
        + shown_count(data, filter, AddType::Note) + shown_count(data, filter, AddType::DbCredential)
        + shown_count(data, filter, AddType::Token)
}

/// Counts the records that a listing with `filter` shows.
pub fn run(data: &VaultData, filter: ListFilter) -> (r: usize)
    requires
        listed_total(*data, ListFilter::All) <= usize::MAX,
    ensures
        r == listed_total(*data, filter),
{
    let mut total: usize = 0;
    if includes(filter, AddType::Password) {
        total = total + data.passwords.len();
    }
    if includes(filter, AddType::ApiKey) {
        total = total + data.api_keys.len();
    }
    if includes(filter, AddType::Note) {
        total = total + data.notes.len();
    }
    if includes(filter, AddType::DbCredential) {
        total = total + data.db_credentials.len();
    }
    if includes(filter, AddType::Token) {
        total = total + data.tokens.len();
    }
    total
}

} // verus!

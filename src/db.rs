use vstd::prelude::*;

use crate::service::{
    BlockExtraTime, BlockExtraTimeCreate, Service, ServiceCreate, ServiceVariant,
    ServiceVariantCreate,
};
use crate::staff::{Staff, StaffCreate, StaffHours, StaffHoursCreate, StaffService, StaffServiceCreate};
use crate::store::{Store, StoreAddress, StoreAddressCreate, StoreCreate, StoreHours, StoreHoursCreate};

verus! {

/// A table of the relational store.
#[derive(Clone, Copy, Debug, PartialEq, Eq)]
pub enum Table {
    Store,
    StoreAddress,
    StoreHours,
    Staff,
    StaffHours,
    StaffService,
    Service,
    ServiceVariant,
    BlockExtraTime,
}

/// Which rows of a table a statement reads, changes or removes.
#[derive(Clone, Copy, Debug, PartialEq, Eq)]
pub enum Filter {
    /// Every row, in ascending key order (tables keep their rows in key
    /// order: `model::Tables::keys_ordered`).
    All,
    /// The row whose primary key is the given id.
    Key(i32),
    /// The rows that belong to the given owner: `store_id` on a store's address
    /// and hours, `staff_id` on staff hours and assignments, `service_id` on
    /// variants and blocking windows. No row of a store, staff or service
    /// table has an owner.
    Owner(i32),
    /// The hours rows of the given owner on the given day of the week.
    OwnerDay(i32, i32),
    /// The staff assignments to the given service.
    Service(i32),
}

/// The writable fields of one row, tagged with its table: the values of an
/// insert, or the changes of an update.
#[derive(Clone, Debug, PartialEq, Eq)]
pub enum Change {
    Store(StoreCreate),
    StoreAddress(StoreAddressCreate),
    StoreHours(StoreHoursCreate),
    Staff(StaffCreate),
    StaffHours(StaffHoursCreate),
    StaffService(StaffServiceCreate),
    Service(ServiceCreate),
    ServiceVariant(ServiceVariantCreate),
    BlockExtraTime(BlockExtraTimeCreate),
}

/// One statement for the relational store.
#[derive(Clone, Debug, PartialEq, Eq)]
pub enum Statement {
    /// Read the rows of the table that the filter picks.
    /// Answered with those rows.
    Select(Table, Filter),
    /// Insert one row for each change, in order.
    /// Answered with the keys the store gave them, in the same order.
    Insert(Vec<Change>),
    /// Apply the change to the rows of its table that the filter picks.
    /// Answered with the changed rows.
    Update(Filter, Change),
    /// Remove the rows of the table that the filter picks.
    /// Answered with how many were removed.
    Delete(Table, Filter),
}

/// The store's answer to a statement.
#[derive(Clone, Debug, PartialEq, Eq)]
pub enum Reply {
    Stores(Vec<Store>),
    StoreAddresses(Vec<StoreAddress>),
    StoreHours(Vec<StoreHours>),
    Staff(Vec<Staff>),
    StaffHours(Vec<StaffHours>),
    StaffServices(Vec<StaffService>),
    Services(Vec<Service>),
    ServiceVariants(Vec<ServiceVariant>),
    BlockExtraTimes(Vec<BlockExtraTime>),
    Keys(Vec<i32>),
    Deleted(usize),
    /// The statement failed in the store, with the store's message.
    Failed(String),
}

/// Why a repository operation failed.
#[derive(Clone, Debug, PartialEq, Eq)]
pub enum RepoError {
    /// A lookup or an update by id matched no row.
    NotFound,
    /// A service has no blocking window row.
    MissingBlockedTime(i32),
    /// A statement failed in the store, with the store's message.
    Storage(String),
    /// The store answered a statement with a reply of another kind.
    Malformed,
}

/// The next step of a repository operation.
#[derive(Clone, Debug, PartialEq, Eq)]
pub enum Step<T> {
    /// Run this statement and hand its reply back.
    Run(Statement),
    /// The operation is finished, with this result.
    Done(T),
    /// The operation failed; no statement is left to run.
    Fail(RepoError),
}

/// The error for a reply that is not of the kind expected.
pub open spec fn failure_spec(r: Reply) -> RepoError {
    match r {
        Reply::Failed(m) => RepoError::Storage(m),
        _ => RepoError::Malformed,
    }
}

/// The error for a reply that is not of the kind expected: the store's own
/// failure, or a reply of the wrong kind.
pub(crate) fn failure(r: Reply) -> (e: RepoError)
    ensures
        e == failure_spec(r),
{
    match r {
        Reply::Failed(m) => RepoError::Storage(m),
        _ => RepoError::Malformed,
    }
}

/// The first of the rows, or `NotFound` where there is none.
pub open spec fn first_row<T>(rows: Seq<T>) -> Step<T> {
    if rows.len() > 0 {
        Step::Done(rows[0])
    } else {
        Step::Fail(RepoError::NotFound)
    }
}

/// The first of the rows, or `NotFound` where there is none.
pub(crate) fn take_first<T>(rows: Vec<T>) -> (r: Step<T>)
    ensures
        r == first_row(rows@),
{
    let mut rows = rows;
    if rows.len() > 0 {
        Step::Done(rows.remove(0))
    } else {
        Step::Fail(RepoError::NotFound)
    }
}

/// Takes the oldest reply off the front of the list.
pub(crate) fn next_reply(replies: &mut Vec<Reply>) -> (r: Reply)
    requires
        old(replies).len() > 0,
    ensures
        r == old(replies)@[0],
        final(replies)@ == old(replies)@.drop_first(),
{
    let r = replies.remove(0);
    assert(replies@ =~= old(replies)@.drop_first());
    r
}

} // verus!

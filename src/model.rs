//! What the statements do: a model of the relational store as one sequence
//! of rows per table and a key counter. Well-formed tables keep each
//! sequence in ascending key order (`Tables::keys_ordered`). The model is spec
//! only; the laws of `laws` are proved over it.
use vstd::prelude::*;

use crate::db::{Change, Filter, Reply, Statement, Step, Table};
use crate::service::{
    BlockExtraTime, BlockExtraTimeCreate, Service, ServiceCreate, ServiceVariant, ServiceVariantCreate,
};
use crate::staff::{Staff, StaffCreate, StaffHours, StaffHoursCreate, StaffService, StaffServiceCreate};
use crate::store::{Store, StoreAddress, StoreAddressCreate, StoreCreate, StoreHours, StoreHoursCreate};

verus! {

/// The contents of the relational store. `next_key` is the key the store
/// gives the next inserted row.
pub struct Tables {
    pub stores: Seq<Store>,
    pub store_addresses: Seq<StoreAddress>,
    pub store_hours: Seq<StoreHours>,
    pub staff: Seq<Staff>,
    pub staff_hours: Seq<StaffHours>,
    pub staff_services: Seq<StaffService>,
    pub services: Seq<Service>,
    pub service_variants: Seq<ServiceVariant>,
    pub block_extra_times: Seq<BlockExtraTime>,
    pub next_key: int,
    /// The service that the store records for a new assignment, whose
    /// insert names none: the column's default. The model leaves it open.
    pub assignment_service_default: i32,
}

/// The keys of the rows of `s`, by `key`, strictly increase along `s`.
pub open spec fn keys_increase<A>(s: Seq<A>, key: spec_fn(A) -> int) -> bool {
    forall|i: int, j: int| #![trigger s[i], s[j]] 0 <= i < j < s.len() ==> key(s[i]) < key(s[j])
}

/// The keys of the rows of `s`, by `key`, are all below `bound`.
pub open spec fn keys_below<A>(s: Seq<A>, key: spec_fn(A) -> int, bound: int) -> bool {
    forall|i: int| 0 <= i < s.len() ==> key(#[trigger] s[i]) < bound
}

/// A table is in key order, and the store has not given out any of its keys
/// twice: its keys strictly increase and all lie below `bound`.
pub open spec fn ordered<A>(s: Seq<A>, key: spec_fn(A) -> int, bound: int) -> bool {
    keys_increase(s, key) && keys_below(s, key, bound)
}

impl Tables {
    /// Every table is in ascending key order, and every key lies below
    /// `next_key`. Each statement keeps this (see
    /// `laws::lemma_statement_keeps_keys_ordered`).
    pub open spec fn keys_ordered(self) -> bool {
        &&& ordered(self.stores, |r: Store| r.store_id as int, self.next_key)
        &&& ordered(self.store_addresses, |r: StoreAddress| r.store_address_id as int, self.next_key)
        &&& ordered(self.store_hours, |r: StoreHours| r.store_hours_id as int, self.next_key)
        &&& ordered(self.staff, |r: Staff| r.staff_id as int, self.next_key)
        &&& ordered(self.staff_hours, |r: StaffHours| r.staff_hours_id as int, self.next_key)
        &&& ordered(self.staff_services, |r: StaffService| r.staff_service_id as int, self.next_key)
        &&& ordered(self.services, |r: Service| r.service_id as int, self.next_key)
        &&& ordered(self.service_variants, |r: ServiceVariant| r.service_variant_id as int, self.next_key)
        &&& ordered(self.block_extra_times, |r: BlockExtraTime| r.block_extra_time_id as int, self.next_key)
    }

    /// The tables are in key order, and no row names a key that the store
    /// has not given out yet: neither its own key nor the key of the row it
    /// belongs to.
    pub open spec fn wf(self) -> bool {
        &&& self.keys_ordered()
        &&& forall|i: int| 0 <= i < self.stores.len() ==> #[trigger] self.stores[i].store_id < self.next_key
        &&& forall|i: int|
            0 <= i < self.store_addresses.len() ==> (#[trigger] self.store_addresses[i]).store_address_id < self.next_key
                && self.store_addresses[i].store_id < self.next_key
        &&& forall|i: int|
            0 <= i < self.store_hours.len() ==> (#[trigger] self.store_hours[i]).store_hours_id < self.next_key
                && self.store_hours[i].store_id < self.next_key
        &&& forall|i: int| 0 <= i < self.staff.len() ==> #[trigger] self.staff[i].staff_id < self.next_key
        &&& forall|i: int|
            0 <= i < self.staff_hours.len() ==> (#[trigger] self.staff_hours[i]).staff_hours_id < self.next_key
                && self.staff_hours[i].staff_id < self.next_key
        &&& forall|i: int|
            0 <= i < self.staff_services.len() ==> (#[trigger] self.staff_services[i]).staff_service_id
                < self.next_key && self.staff_services[i].staff_id < self.next_key
        &&& forall|i: int| 0 <= i < self.services.len() ==> #[trigger] self.services[i].service_id < self.next_key
        &&& forall|i: int|
            0 <= i < self.service_variants.len() ==> (#[trigger] self.service_variants[i]).service_variant_id
                < self.next_key && self.service_variants[i].service_id < self.next_key
        &&& forall|i: int|
            0 <= i < self.block_extra_times.len() ==> (#[trigger] self.block_extra_times[i]).block_extra_time_id
                < self.next_key && self.block_extra_times[i].service_id < self.next_key
    }
}

pub open spec fn picks_store(f: Filter, r: Store) -> bool {
    match f {
        Filter::All => true,
        Filter::Key(k) => r.store_id == k,
        _ => false,
    }
}

pub open spec fn picks_store_address(f: Filter, r: StoreAddress) -> bool {
    match f {
        Filter::All => true,
        Filter::Key(k) => r.store_address_id == k,
        Filter::Owner(o) => r.store_id == o,
        _ => false,
    }
}

pub open spec fn picks_store_hours(f: Filter, r: StoreHours) -> bool {
    match f {
        Filter::All => true,
        Filter::Key(k) => r.store_hours_id == k,
        Filter::Owner(o) => r.store_id == o,
        Filter::OwnerDay(o, d) => r.store_id == o && r.day_of_week == d,
        _ => false,
    }
}

pub open spec fn picks_staff(f: Filter, r: Staff) -> bool {
    match f {
        Filter::All => true,
        Filter::Key(k) => r.staff_id == k,
        _ => false,
    }
}

pub open spec fn picks_staff_hours(f: Filter, r: StaffHours) -> bool {
    match f {
        Filter::All => true,
        Filter::Key(k) => r.staff_hours_id == k,
        Filter::Owner(o) => r.staff_id == o,
        Filter::OwnerDay(o, d) => r.staff_id == o && r.day_of_week == d,
        _ => false,
    }
}

pub open spec fn picks_staff_service(f: Filter, r: StaffService) -> bool {
    match f {
        Filter::All => true,
        Filter::Key(k) => r.staff_service_id == k,
        Filter::Owner(o) => r.staff_id == o,
        Filter::Service(s) => r.service_id == s,
        _ => false,
    }
}

pub open spec fn picks_service(f: Filter, r: Service) -> bool {
    match f {
        Filter::All => true,
        Filter::Key(k) => r.service_id == k,
        _ => false,
    }
}

pub open spec fn picks_service_variant(f: Filter, r: ServiceVariant) -> bool {
    match f {
        Filter::All => true,
        Filter::Key(k) => r.service_variant_id == k,
        Filter::Owner(o) => r.service_id == o,
        _ => false,
    }
}

pub open spec fn picks_block_extra_time(f: Filter, r: BlockExtraTime) -> bool {
    match f {
        Filter::All => true,
        Filter::Key(k) => r.block_extra_time_id == k,
        Filter::Owner(o) => r.service_id == o,
        _ => false,
    }
}

/// An optional field of a change: `None` keeps what is stored.
pub open spec fn or_keep<T>(new: Option<T>, old: Option<T>) -> Option<T> {
    match new {
        Some(v) => Some(v),
        None => old,
    }
}

pub open spec fn changed_store(r: Store, c: StoreCreate) -> Store {
    Store { name: c.name, ..r }
}

pub open spec fn changed_store_address(r: StoreAddress, c: StoreAddressCreate) -> StoreAddress {
    StoreAddress {
        store_address_id: r.store_address_id,
        store_id: c.store_id,
        street_address: c.street_address,
        city: c.city,
        state: c.state,
        zip: c.zip,
        phone: c.phone,
        email: c.email,
    }
}

pub open spec fn changed_store_hours(r: StoreHours, c: StoreHoursCreate) -> StoreHours {
    StoreHours {
        store_hours_id: r.store_hours_id,
        store_id: c.store_id,
        day_of_week: c.day_of_week,
        start_time: or_keep(c.start_time, r.start_time),
        end_time: or_keep(c.end_time, r.end_time),
    }
}

pub open spec fn changed_staff(r: Staff, c: StaffCreate) -> Staff {
    Staff {
        staff_id: r.staff_id,
        first_name: c.first_name,
        last_name: c.last_name,
        password: c.password,
        email: c.email,
        phone: Some(c.phone),
        access: Some(c.access),
        calendar_color: Some(c.calendar_color),
    }
}

pub open spec fn changed_staff_hours(r: StaffHours, c: StaffHoursCreate) -> StaffHours {
    StaffHours {
        staff_hours_id: r.staff_hours_id,
        staff_id: c.staff_id,
        day_of_week: c.day_of_week,
        start_time: or_keep(c.start_time, r.start_time),
        end_time: or_keep(c.end_time, r.end_time),
    }
}

pub open spec fn changed_staff_service(r: StaffService, c: StaffServiceCreate) -> StaffService {
    StaffService {
        staff_service_id: r.staff_service_id,
        staff_id: c.staff_id,
        service_id: r.service_id,
        service_variant_id: c.service_variant_id,
        is_active: Some(c.is_active),
    }
}

pub open spec fn changed_service(r: Service, c: ServiceCreate) -> Service {
    Service {
        service_id: r.service_id,
        name: c.name,
        description: or_keep(c.description, r.description),
        is_active: c.is_active,
        category: or_keep(c.category, r.category),
    }
}

pub open spec fn changed_service_variant(r: ServiceVariant, c: ServiceVariantCreate) -> ServiceVariant {
    ServiceVariant {
        service_variant_id: r.service_variant_id,
        service_id: c.service_id,
        price_bits: c.price_bits,
        duration: or_keep(c.duration, r.duration),
    }
}

pub open spec fn changed_block_extra_time(r: BlockExtraTime, c: BlockExtraTimeCreate) -> BlockExtraTime {
    BlockExtraTime {
        block_extra_time_id: r.block_extra_time_id,
        service_id: c.service_id,
        before_time: or_keep(c.before_time, r.before_time),
        after_time: or_keep(c.after_time, r.after_time),
    }
}

/// The store hours row that inserting `c` with the key `k` makes.
pub open spec fn new_store_hours(k: i32, c: StoreHoursCreate) -> StoreHours {
    StoreHours {
        store_hours_id: k,
        store_id: c.store_id,
        day_of_week: c.day_of_week,
        start_time: c.start_time,
        end_time: c.end_time,
    }
}

/// The staff hours row that inserting `c` with the key `k` makes.
pub open spec fn new_staff_hours(k: i32, c: StaffHoursCreate) -> StaffHours {
    StaffHours {
        staff_hours_id: k,
        staff_id: c.staff_id,
        day_of_week: c.day_of_week,
        start_time: c.start_time,
        end_time: c.end_time,
    }
}

/// The variant row that inserting `c` with the key `k` makes.
pub open spec fn new_service_variant(k: i32, c: ServiceVariantCreate) -> ServiceVariant {
    ServiceVariant { service_variant_id: k, service_id: c.service_id, price_bits: c.price_bits, duration: c.duration }
}

/// The assignment row that inserting `c` with the key `k` makes, where the
/// column default gives the service `service_id`.
pub open spec fn new_staff_service(k: i32, c: StaffServiceCreate, service_id: i32) -> StaffService {
    StaffService {
        staff_service_id: k,
        staff_id: c.staff_id,
        service_id,
        service_variant_id: c.service_variant_id,
        is_active: Some(c.is_active),
    }
}

/// The tables after one row is inserted for `c`, with the key `next_key`.
pub open spec fn insert_one(db: Tables, c: Change) -> Tables {
    let k = db.next_key as i32;
    let db = Tables { next_key: db.next_key + 1, ..db };
    match c {
        Change::Store(c) => Tables { stores: db.stores.push(Store { store_id: k, name: c.name }), ..db },
        Change::StoreAddress(c) => Tables {
            store_addresses: db.store_addresses.push(StoreAddress {
                store_address_id: k,
                store_id: c.store_id,
                street_address: c.street_address,
                city: c.city,
                state: c.state,
                zip: c.zip,
                phone: c.phone,
                email: c.email,
            }),
            ..db
        },
        Change::StoreHours(c) => Tables {
            store_hours: db.store_hours.push(new_store_hours(k, c)),
            ..db
        },
        Change::Staff(c) => Tables {
            staff: db.staff.push(Staff {
                staff_id: k,
                first_name: c.first_name,
                last_name: c.last_name,
                password: c.password,
                email: c.email,
                phone: Some(c.phone),
                access: Some(c.access),
                calendar_color: Some(c.calendar_color),
            }),
            ..db
        },
        Change::StaffHours(c) => Tables {
            staff_hours: db.staff_hours.push(new_staff_hours(k, c)),
            ..db
        },
        Change::StaffService(c) => Tables {
            staff_services: db.staff_services.push(new_staff_service(k, c, db.assignment_service_default)),
            ..db
        },
        Change::Service(c) => Tables {
            services: db.services.push(Service {
                service_id: k,
                name: c.name,
                description: c.description,
                is_active: c.is_active,
                category: c.category,
            }),
            ..db
        },
        Change::ServiceVariant(c) => Tables {
            service_variants: db.service_variants.push(new_service_variant(k, c)),
            ..db
        },
        Change::BlockExtraTime(c) => Tables {
            block_extra_times: db.block_extra_times.push(BlockExtraTime {
                block_extra_time_id: k,
                service_id: c.service_id,
                before_time: c.before_time,
                after_time: c.after_time,
            }),
            ..db
        },
    }
}

/// The tables after one row is inserted for each change, in order.
pub open spec fn insert_all(db: Tables, cs: Seq<Change>) -> Tables
    decreases cs.len(),
{
    if cs.len() == 0 {
        db
    } else {
        insert_all(insert_one(db, cs[0]), cs.drop_first())
    }
}

/// The tables after the change is applied to the rows that the filter picks.
pub open spec fn update_rows(db: Tables, f: Filter, c: Change) -> Tables {
    match c {
        Change::Store(c) => Tables {
            stores: db.stores.map_values(|r: Store| if picks_store(f, r) { changed_store(r, c) } else { r }),
            ..db
        },
        Change::StoreAddress(c) => Tables {
            store_addresses: db.store_addresses.map_values(
                |r: StoreAddress| if picks_store_address(f, r) { changed_store_address(r, c) } else { r },
            ),
            ..db
        },
        Change::StoreHours(c) => Tables {
            store_hours: db.store_hours.map_values(
                |r: StoreHours| if picks_store_hours(f, r) { changed_store_hours(r, c) } else { r },
            ),
            ..db
        },
        Change::Staff(c) => Tables {
            staff: db.staff.map_values(|r: Staff| if picks_staff(f, r) { changed_staff(r, c) } else { r }),
            ..db
        },
        Change::StaffHours(c) => Tables {
            staff_hours: db.staff_hours.map_values(
                |r: StaffHours| if picks_staff_hours(f, r) { changed_staff_hours(r, c) } else { r },
            ),
            ..db
        },
        Change::StaffService(c) => Tables {
            staff_services: db.staff_services.map_values(
                |r: StaffService| if picks_staff_service(f, r) { changed_staff_service(r, c) } else { r },
            ),
            ..db
        },
        Change::Service(c) => Tables {
            services: db.services.map_values(
                |r: Service| if picks_service(f, r) { changed_service(r, c) } else { r },
            ),
            ..db
        },
        Change::ServiceVariant(c) => Tables {
            service_variants: db.service_variants.map_values(
                |r: ServiceVariant| if picks_service_variant(f, r) { changed_service_variant(r, c) } else { r },
            ),
            ..db
        },
        Change::BlockExtraTime(c) => Tables {
            block_extra_times: db.block_extra_times.map_values(
                |r: BlockExtraTime| if picks_block_extra_time(f, r) { changed_block_extra_time(r, c) } else { r },
            ),
            ..db
        },
    }
}

/// The tables after the rows of `t` that the filter picks are removed.
pub open spec fn delete_rows(db: Tables, t: Table, f: Filter) -> Tables {
    match t {
        Table::Store => Tables { stores: db.stores.filter(|r: Store| !picks_store(f, r)), ..db },
        Table::StoreAddress => Tables {
            store_addresses: db.store_addresses.filter(|r: StoreAddress| !picks_store_address(f, r)),
            ..db
        },
        Table::StoreHours => Tables {
            store_hours: db.store_hours.filter(|r: StoreHours| !picks_store_hours(f, r)),
            ..db
        },
        Table::Staff => Tables { staff: db.staff.filter(|r: Staff| !picks_staff(f, r)), ..db },
        Table::StaffHours => Tables {
            staff_hours: db.staff_hours.filter(|r: StaffHours| !picks_staff_hours(f, r)),
            ..db
        },
        Table::StaffService => Tables {
            staff_services: db.staff_services.filter(|r: StaffService| !picks_staff_service(f, r)),
            ..db
        },
        Table::Service => Tables { services: db.services.filter(|r: Service| !picks_service(f, r)), ..db },
        Table::ServiceVariant => Tables {
            service_variants: db.service_variants.filter(|r: ServiceVariant| !picks_service_variant(f, r)),
            ..db
        },
        Table::BlockExtraTime => Tables {
            block_extra_times: db.block_extra_times.filter(|r: BlockExtraTime| !picks_block_extra_time(f, r)),
            ..db
        },
    }
}

/// How many rows of `t` the filter picks.
pub open spec fn count_rows(db: Tables, t: Table, f: Filter) -> nat {
    match t {
        Table::Store => db.stores.filter(|r: Store| picks_store(f, r)).len(),
        Table::StoreAddress => db.store_addresses.filter(|r: StoreAddress| picks_store_address(f, r)).len(),
        Table::StoreHours => db.store_hours.filter(|r: StoreHours| picks_store_hours(f, r)).len(),
        Table::Staff => db.staff.filter(|r: Staff| picks_staff(f, r)).len(),
        Table::StaffHours => db.staff_hours.filter(|r: StaffHours| picks_staff_hours(f, r)).len(),
        Table::StaffService => db.staff_services.filter(|r: StaffService| picks_staff_service(f, r)).len(),
        Table::Service => db.services.filter(|r: Service| picks_service(f, r)).len(),
        Table::ServiceVariant => db.service_variants.filter(|r: ServiceVariant| picks_service_variant(f, r)).len(),
        Table::BlockExtraTime => db.block_extra_times.filter(|r: BlockExtraTime| picks_block_extra_time(f, r)).len(),
    }
}

/// Whether `r` is the store's answer to a select of `t` with the filter:
/// the rows it picks, in table order.
pub open spec fn answers_select(db: Tables, t: Table, f: Filter, r: Reply) -> bool {
    match t {
        Table::Store => r matches Reply::Stores(v) && v@ == db.stores.filter(|x: Store| picks_store(f, x)),
        Table::StoreAddress => r matches Reply::StoreAddresses(v) && v@ == db.store_addresses.filter(
            |x: StoreAddress| picks_store_address(f, x),
        ),
        Table::StoreHours => r matches Reply::StoreHours(v) && v@ == db.store_hours.filter(
            |x: StoreHours| picks_store_hours(f, x),
        ),
        Table::Staff => r matches Reply::Staff(v) && v@ == db.staff.filter(|x: Staff| picks_staff(f, x)),
        Table::StaffHours => r matches Reply::StaffHours(v) && v@ == db.staff_hours.filter(
            |x: StaffHours| picks_staff_hours(f, x),
        ),
        Table::StaffService => r matches Reply::StaffServices(v) && v@ == db.staff_services.filter(
            |x: StaffService| picks_staff_service(f, x),
        ),
        Table::Service => r matches Reply::Services(v) && v@ == db.services.filter(|x: Service| picks_service(f, x)),
        Table::ServiceVariant => r matches Reply::ServiceVariants(v) && v@ == db.service_variants.filter(
            |x: ServiceVariant| picks_service_variant(f, x),
        ),
        Table::BlockExtraTime => r matches Reply::BlockExtraTimes(v) && v@ == db.block_extra_times.filter(
            |x: BlockExtraTime| picks_block_extra_time(f, x),
        ),
    }
}

/// Whether `r` is the store's answer to an update with the filter and the
/// change: the changed rows, in table order.
pub open spec fn answers_update(db: Tables, f: Filter, c: Change, r: Reply) -> bool {
    match c {
        Change::Store(c) => r matches Reply::Stores(v) && v@ == db.stores.filter(|x: Store| picks_store(f, x)).map_values(
            |x: Store| changed_store(x, c),
        ),
        Change::StoreAddress(c) => r matches Reply::StoreAddresses(v) && v@ == db.store_addresses.filter(
            |x: StoreAddress| picks_store_address(f, x),
        ).map_values(|x: StoreAddress| changed_store_address(x, c)),
        Change::StoreHours(c) => r matches Reply::StoreHours(v) && v@ == db.store_hours.filter(
            |x: StoreHours| picks_store_hours(f, x),
        ).map_values(|x: StoreHours| changed_store_hours(x, c)),
        Change::Staff(c) => r matches Reply::Staff(v) && v@ == db.staff.filter(|x: Staff| picks_staff(f, x)).map_values(
            |x: Staff| changed_staff(x, c),
        ),
        Change::StaffHours(c) => r matches Reply::StaffHours(v) && v@ == db.staff_hours.filter(
            |x: StaffHours| picks_staff_hours(f, x),
        ).map_values(|x: StaffHours| changed_staff_hours(x, c)),
        Change::StaffService(c) => r matches Reply::StaffServices(v) && v@ == db.staff_services.filter(
            |x: StaffService| picks_staff_service(f, x),
        ).map_values(|x: StaffService| changed_staff_service(x, c)),
        Change::Service(c) => r matches Reply::Services(v) && v@ == db.services.filter(
            |x: Service| picks_service(f, x),
        ).map_values(|x: Service| changed_service(x, c)),
        Change::ServiceVariant(c) => r matches Reply::ServiceVariants(v) && v@ == db.service_variants.filter(
            |x: ServiceVariant| picks_service_variant(f, x),
        ).map_values(|x: ServiceVariant| changed_service_variant(x, c)),
        Change::BlockExtraTime(c) => r matches Reply::BlockExtraTimes(v) && v@ == db.block_extra_times.filter(
            |x: BlockExtraTime| picks_block_extra_time(f, x),
        ).map_values(|x: BlockExtraTime| changed_block_extra_time(x, c)),
    }
}

/// The tables after the statement.
pub open spec fn after(db: Tables, s: Statement) -> Tables {
    match s {
        Statement::Select(_, _) => db,
        Statement::Insert(cs) => insert_all(db, cs@),
        Statement::Update(f, c) => update_rows(db, f, c),
        Statement::Delete(t, f) => delete_rows(db, t, f),
    }
}

/// Whether `r` is the store's answer to the statement on the tables `db`.
/// The model's store does not fail.
pub open spec fn answers(db: Tables, s: Statement, r: Reply) -> bool {
    match s {
        Statement::Select(t, f) => answers_select(db, t, f, r),
        Statement::Insert(cs) => r matches Reply::Keys(ks) && ks@.len() == cs@.len() && forall|i: int|
            0 <= i < ks@.len() ==> #[trigger] ks@[i] == db.next_key + i,
        Statement::Update(f, c) => answers_update(db, f, c, r),
        Statement::Delete(t, f) => r matches Reply::Deleted(n) && n == count_rows(db, t, f),
    }
}

/// The tables after the statements of the steps that run one.
pub open spec fn tables_after<T>(db: Tables, steps: Seq<Step<T>>) -> Tables
    decreases steps.len(),
{
    if steps.len() == 0 {
        db
    } else {
        let before = tables_after(db, steps.drop_last());
        match steps.last() {
            Step::Run(s) => after(before, s),
            _ => before,
        }
    }
}

/// A complete run of an operation from the tables `db`. The operation is
/// given by its step relation `plan`: `steps[i]` is its step after the
/// replies `replies.take(i)`. Each reply is the store's answer to the
/// statement of the step before it, on the tables that the earlier
/// statements left. The last step finishes or fails.
pub open spec fn is_run<T>(
    db: Tables,
    plan: spec_fn(Seq<Reply>, Step<T>) -> bool,
    steps: Seq<Step<T>>,
    replies: Seq<Reply>,
) -> bool {
    &&& steps.len() == replies.len() + 1
    &&& forall|i: int| 0 <= i < steps.len() ==> plan(replies.take(i), #[trigger] steps[i])
    &&& forall|i: int|
        0 <= i < replies.len() ==> (#[trigger] steps[i] matches Step::Run(s) && answers(
            tables_after(db, steps.take(i)),
            s,
            replies[i],
        ))
    &&& !(steps.last() is Run)
}

} // verus!

verus! {

/// A complete run of an operation from the tables `db` in which the store
/// may fail any statement: as `is_run`, except that a reply may also be
/// `Reply::Failed`. `tables_after` still counts such a statement; that does
/// not matter, since an operation fails at its first failed reply and is
/// then rolled back (see the `*_all_or_nothing` laws).
pub open spec fn is_run_that_may_fail<T>(
    db: Tables,
    plan: spec_fn(Seq<Reply>, Step<T>) -> bool,
    steps: Seq<Step<T>>,
    replies: Seq<Reply>,
) -> bool {
    &&& steps.len() == replies.len() + 1
    &&& forall|i: int| 0 <= i < steps.len() ==> plan(replies.take(i), #[trigger] steps[i])
    &&& forall|i: int|
        0 <= i < replies.len() ==> (#[trigger] steps[i] matches Step::Run(s) && (replies[i] is Failed || answers(
            tables_after(db, steps.take(i)),
            s,
            replies[i],
        )))
    &&& !(steps.last() is Run)
}

/// The tables that a run leaves. An operation runs in one transaction: it
/// commits the effect of its statements when the operation finishes, and
/// rolls back to the tables it began with when the operation fails.
pub open spec fn committed<T>(db: Tables, steps: Seq<Step<T>>) -> Tables {
    if steps.last() is Done {
        tables_after(db, steps)
    } else {
        db
    }
}

} // verus!

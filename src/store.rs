use vstd::prelude::*;

use crate::db::{
    Change, Filter, Reply, RepoError, Statement, Step, Table, failure, failure_spec, first_row,
    next_reply, take_first,
};
use crate::time::TimeOfDay;

verus! {

/// The path parameter that names a store.
#[derive(Clone, Copy, Debug, PartialEq, Eq)]
pub struct StoreId {
    pub store_id: i32,
}

/// The path parameter that names one hours row of a store.
#[derive(Clone, Copy, Debug, PartialEq, Eq)]
pub struct StoreHourId {
    pub store_hour_id: i32,
}

/// The path parameter that names a store address.
#[derive(Clone, Copy, Debug, PartialEq, Eq)]
pub struct StoreAddressId {
    pub store_address_id: i32,
}

/// The writable fields of a store.
#[derive(Clone, Debug, PartialEq, Eq)]
pub struct StoreCreate {
    pub name: String,
}

/// A row of the store table.
#[derive(Clone, Debug, PartialEq, Eq)]
pub struct Store {
    pub store_id: i32,
    pub name: String,
}

/// A store's name with its address and its hours.
#[derive(Clone, Debug, PartialEq, Eq)]
pub struct FullStore {
    pub name: String,
    pub address: StoreAddress,
    pub hours: Vec<StoreHours>,
}

/// The writable fields of a store address.
#[derive(Clone, Debug, PartialEq, Eq)]
pub struct StoreAddressCreate {
    pub store_id: i32,
    pub street_address: String,
    pub city: String,
    pub state: String,
    pub zip: i32,
    pub phone: String,
    pub email: String,
}

/// A row of the store address table.
#[derive(Clone, Debug, PartialEq, Eq)]
pub struct StoreAddress {
    pub store_address_id: i32,
    pub store_id: i32,
    pub street_address: String,
    pub city: String,
    pub state: String,
    pub zip: i32,
    pub phone: String,
    pub email: String,
}

/// The writable fields of a store hours row. On an update a time that is
/// `None` leaves the stored time as it is.
#[derive(Clone, Copy, Debug, PartialEq, Eq)]
pub struct StoreHoursCreate {
    pub store_id: i32,
    pub day_of_week: i32,
    pub start_time: Option<TimeOfDay>,
    pub end_time: Option<TimeOfDay>,
}

/// A row of the store hours table: the opening hours of one store on one day
/// of the week (0 to 6).
#[derive(Clone, Copy, Debug, PartialEq, Eq)]
pub struct StoreHours {
    pub store_hours_id: i32,
    pub store_id: i32,
    pub day_of_week: i32,
    pub start_time: Option<TimeOfDay>,
    pub end_time: Option<TimeOfDay>,
}

/// A store with its hours rows.
#[derive(Clone, Debug, PartialEq, Eq)]
pub struct StoreWithHours {
    pub store: Store,
    pub store_hours: Vec<StoreHours>,
}

} // verus!

verus! {

/// Days in a week: the hours tables hold one row for each, numbered from 0.
pub const DAYS_PER_WEEK: i32 = 7;

/// The hours rows seeded for a new store: one for each day of the week, in
/// order, with no opening or closing time.
pub open spec fn week_of_store_hours(store_id: i32) -> Seq<Change> {
    Seq::new(
        DAYS_PER_WEEK as nat,
        |d: int|
            Change::StoreHours(
                StoreHoursCreate { store_id, day_of_week: d as i32, start_time: None, end_time: None },
            ),
    )
}

/// The hours rows among `hours` that belong to the store `store_id`, in their order.
pub open spec fn hours_of_store(hours: Seq<StoreHours>, store_id: i32) -> Seq<StoreHours> {
    hours.filter(|h: StoreHours| h.store_id == store_id)
}

/// Each store with its own hours rows, found by the store's key.
pub open spec fn stores_with_hours(
    stores: Seq<Store>,
    hours: Seq<StoreHours>,
    out: Seq<StoreWithHours>,
) -> bool {
    &&& out.len() == stores.len()
    &&& forall|i: int|
        0 <= i < stores.len() ==> {
            &&& (#[trigger] out[i]).store == stores[i]
            &&& out[i].store_hours@ == hours_of_store(hours, stores[i].store_id)
        }
}

fn seed_store_hours(store_id: i32) -> (r: Vec<Change>)
    ensures
        r@ == week_of_store_hours(store_id),
{
    let mut r: Vec<Change> = Vec::new();
    let mut d: i32 = 0;
    while d < DAYS_PER_WEEK
        invariant
            0 <= d <= DAYS_PER_WEEK,
            r@ == week_of_store_hours(store_id).take(d as int),
        decreases DAYS_PER_WEEK - d,
    {
        r.push(
            Change::StoreHours(
                StoreHoursCreate { store_id, day_of_week: d, start_time: None, end_time: None },
            ),
        );
        d = d + 1;
        assert(r@ =~= week_of_store_hours(store_id).take(d as int));
    }
    assert(r@ =~= week_of_store_hours(store_id));
    r
}

fn select_hours_of_store(hours: &Vec<StoreHours>, store_id: i32) -> (r: Vec<StoreHours>)
    ensures
        r@ == hours_of_store(hours@, store_id),
{
    let mut r: Vec<StoreHours> = Vec::new();
    let mut j: usize = 0;
    while j < hours.len()
        invariant
            j <= hours.len(),
            r@ == hours_of_store(hours@.take(j as int), store_id),
        decreases hours.len() - j,
    {
        let h = hours[j];
        assert(hours@.take(j + 1).drop_last() =~= hours@.take(j as int));
        reveal(Seq::filter);
        if h.store_id == store_id {
            r.push(h);
        }
        j = j + 1;
    }
    assert(hours@.take(hours.len() as int) =~= hours@);
    r
}

impl Store {
    /// A copy of the row.
    pub fn copy(&self) -> (r: Store)
        ensures
            r == *self,
    {
        Store { store_id: self.store_id, name: self.name.clone() }
    }

    /// Every store, in key order.
    pub open spec fn find_all_step(replies: Seq<Reply>, r: Step<Vec<Store>>) -> bool {
        if replies.len() == 0 {
            r == Step::<Vec<Store>>::Run(Statement::Select(Table::Store, Filter::All))
        } else {
            match replies[0] {
                Reply::Stores(v) => r == Step::Done(v),
                x => r == Step::<Vec<Store>>::Fail(failure_spec(x)),
            }
        }
    }

    /// The next step of `find_all` after the replies so far: the relation
    /// [`Self::find_all_step`].
    pub fn find_all(replies: Vec<Reply>) -> (r: Step<Vec<Store>>)
        ensures
            Self::find_all_step(replies@, r),
    {
        let mut replies = replies;
        if replies.len() == 0 {
            return Step::Run(Statement::Select(Table::Store, Filter::All));
        }
        match next_reply(&mut replies) {
            Reply::Stores(v) => Step::Done(v),
            x => Step::Fail(failure(x)),
        }
    }

    /// The store whose key is `id`; `NotFound` where there is none.
    pub open spec fn find_step(id: i32, replies: Seq<Reply>, r: Step<Store>) -> bool {
        if replies.len() == 0 {
            r == Step::<Store>::Run(Statement::Select(Table::Store, Filter::Key(id)))
        } else {
            match replies[0] {
                Reply::Stores(v) => r == first_row(v@),
                x => r == Step::<Store>::Fail(failure_spec(x)),
            }
        }
    }

    /// The next step of `find` after the replies so far: the relation
    /// [`Self::find_step`].
    pub fn find(id: i32, replies: Vec<Reply>) -> (r: Step<Store>)
        ensures
            Self::find_step(id, replies@, r),
    {
        let mut replies = replies;
        if replies.len() == 0 {
            return Step::Run(Statement::Select(Table::Store, Filter::Key(id)));
        }
        match next_reply(&mut replies) {
            Reply::Stores(v) => take_first(v),
            x => Step::Fail(failure(x)),
        }
    }

    /// The address of the store `id`; `NotFound` where it has none.
    pub open spec fn find_address_step(id: i32, replies: Seq<Reply>, r: Step<StoreAddress>) -> bool {
        if replies.len() == 0 {
            r == Step::<StoreAddress>::Run(Statement::Select(Table::StoreAddress, Filter::Owner(id)))
        } else {
            match replies[0] {
                Reply::StoreAddresses(v) => r == first_row(v@),
                x => r == Step::<StoreAddress>::Fail(failure_spec(x)),
            }
        }
    }

    /// The next step of `find_address` after the replies so far: the relation
    /// [`Self::find_address_step`].
    pub fn find_address(id: i32, replies: Vec<Reply>) -> (r: Step<StoreAddress>)
        ensures
            Self::find_address_step(id, replies@, r),
    {
        let mut replies = replies;
        if replies.len() == 0 {
            return Step::Run(Statement::Select(Table::StoreAddress, Filter::Owner(id)));
        }
        match next_reply(&mut replies) {
            Reply::StoreAddresses(v) => take_first(v),
            x => Step::Fail(failure(x)),
        }
    }

    /// The store `id` with its address and hours, read by three lookups in
    /// turn: the store, its address, its hours. `NotFound` where the store or
    /// its address is missing; a store may have no hours.
    pub open spec fn find_all_data_step(id: i32, replies: Seq<Reply>, r: Step<FullStore>) -> bool {
        if replies.len() == 0 {
            r == Step::<FullStore>::Run(Statement::Select(Table::Store, Filter::Key(id)))
        } else {
            match replies[0] {
                Reply::Stores(s) => if s.len() == 0 {
                    r == Step::<FullStore>::Fail(RepoError::NotFound)
                } else if replies.len() == 1 {
                    r == Step::<FullStore>::Run(Statement::Select(Table::StoreAddress, Filter::Owner(id)))
                } else {
                    match replies[1] {
                        Reply::StoreAddresses(a) => if a.len() == 0 {
                            r == Step::<FullStore>::Fail(RepoError::NotFound)
                        } else if replies.len() == 2 {
                            r == Step::<FullStore>::Run(Statement::Select(Table::StoreHours, Filter::Owner(id)))
                        } else {
                            match replies[2] {
                                Reply::StoreHours(h) => r matches Step::Done(f) && f.name == s[0].name
                                    && f.address == a[0] && f.hours@ == h@,
                                x => r == Step::<FullStore>::Fail(failure_spec(x)),
                            }
                        },
                        x => r == Step::<FullStore>::Fail(failure_spec(x)),
                    }
                },
                x => r == Step::<FullStore>::Fail(failure_spec(x)),
            }
        }
    }

    /// The next step of `find_all_data` after the replies so far: the relation
    /// [`Self::find_all_data_step`].
    pub fn find_all_data(id: i32, replies: Vec<Reply>) -> (r: Step<FullStore>)
        ensures
            Self::find_all_data_step(id, replies@, r),
    {
        let mut replies = replies;
        if replies.len() == 0 {
            return Step::Run(Statement::Select(Table::Store, Filter::Key(id)));
        }
        let mut s = match next_reply(&mut replies) {
            Reply::Stores(s) => s,
            x => return Step::Fail(failure(x)),
        };
        if s.len() == 0 {
            return Step::Fail(RepoError::NotFound);
        }
        if replies.len() == 0 {
            return Step::Run(Statement::Select(Table::StoreAddress, Filter::Owner(id)));
        }
        let mut a = match next_reply(&mut replies) {
            Reply::StoreAddresses(a) => a,
            x => return Step::Fail(failure(x)),
        };
        if a.len() == 0 {
            return Step::Fail(RepoError::NotFound);
        }
        if replies.len() == 0 {
            return Step::Run(Statement::Select(Table::StoreHours, Filter::Owner(id)));
        }
        match next_reply(&mut replies) {
            Reply::StoreHours(h) => Step::Done(
                FullStore { name: s.remove(0).name, address: a.remove(0), hours: h },
            ),
            x => Step::Fail(failure(x)),
        }
    }

    /// Every store with its hours. Two reads: all stores, then all hours
    /// rows; each store then gets the hours rows that carry its key.
    pub open spec fn find_all_store_hours_step(replies: Seq<Reply>, r: Step<Vec<StoreWithHours>>) -> bool {
        if replies.len() == 0 {
            r == Step::<Vec<StoreWithHours>>::Run(Statement::Select(Table::Store, Filter::All))
        } else {
            match replies[0] {
                Reply::Stores(s) => if replies.len() == 1 {
                    r == Step::<Vec<StoreWithHours>>::Run(Statement::Select(Table::StoreHours, Filter::All))
                } else {
                    match replies[1] {
                        Reply::StoreHours(h) => r matches Step::Done(out) && stores_with_hours(s@, h@, out@),
                        x => r == Step::<Vec<StoreWithHours>>::Fail(failure_spec(x)),
                    }
                },
                x => r == Step::<Vec<StoreWithHours>>::Fail(failure_spec(x)),
            }
        }
    }

    /// The next step of `find_all_store_hours` after the replies so far: the relation
    /// [`Self::find_all_store_hours_step`].
    pub fn find_all_store_hours(replies: Vec<Reply>) -> (r: Step<Vec<StoreWithHours>>)
        ensures
            Self::find_all_store_hours_step(replies@, r),
    {
        let mut replies = replies;
        if replies.len() == 0 {
            return Step::Run(Statement::Select(Table::Store, Filter::All));
        }
        let s = match next_reply(&mut replies) {
            Reply::Stores(s) => s,
            x => return Step::Fail(failure(x)),
        };
        if replies.len() == 0 {
            return Step::Run(Statement::Select(Table::StoreHours, Filter::All));
        }
        let h = match next_reply(&mut replies) {
            Reply::StoreHours(h) => h,
            x => return Step::Fail(failure(x)),
        };
        let mut out: Vec<StoreWithHours> = Vec::new();
        let mut i: usize = 0;
        while i < s.len()
            invariant
                i <= s.len(),
                stores_with_hours(s@.take(i as int), h@, out@),
            decreases s.len() - i,
        {
            let hours = select_hours_of_store(&h, s[i].store_id);
            out.push(StoreWithHours { store: s[i].copy(), store_hours: hours });
            i = i + 1;
        }
        assert(s@.take(s.len() as int) =~= s@);
        Step::Done(out)
    }

    /// The store `id` with its hours; `NotFound` where there is no such
    /// store. A store may have no hours.
    pub open spec fn find_store_hours_step(id: i32, replies: Seq<Reply>, r: Step<StoreWithHours>) -> bool {
        if replies.len() == 0 {
            r == Step::<StoreWithHours>::Run(Statement::Select(Table::Store, Filter::Key(id)))
        } else {
            match replies[0] {
                Reply::Stores(s) => if s.len() == 0 {
                    r == Step::<StoreWithHours>::Fail(RepoError::NotFound)
                } else if replies.len() == 1 {
                    r == Step::<StoreWithHours>::Run(Statement::Select(Table::StoreHours, Filter::Owner(id)))
                } else {
                    match replies[1] {
                        Reply::StoreHours(h) => r matches Step::Done(w) && w.store == s[0] && w.store_hours@ == h@,
                        x => r == Step::<StoreWithHours>::Fail(failure_spec(x)),
                    }
                },
                x => r == Step::<StoreWithHours>::Fail(failure_spec(x)),
            }
        }
    }

    /// The next step of `find_store_hours` after the replies so far: the relation
    /// [`Self::find_store_hours_step`].
    pub fn find_store_hours(id: i32, replies: Vec<Reply>) -> (r: Step<StoreWithHours>)
        ensures
            Self::find_store_hours_step(id, replies@, r),
    {
        let mut replies = replies;
        if replies.len() == 0 {
            return Step::Run(Statement::Select(Table::Store, Filter::Key(id)));
        }
        let mut s = match next_reply(&mut replies) {
            Reply::Stores(s) => s,
            x => return Step::Fail(failure(x)),
        };
        if s.len() == 0 {
            return Step::Fail(RepoError::NotFound);
        }
        if replies.len() == 0 {
            return Step::Run(Statement::Select(Table::StoreHours, Filter::Owner(id)));
        }
        match next_reply(&mut replies) {
            Reply::StoreHours(h) => Step::Done(StoreWithHours { store: s.remove(0), store_hours: h }),
            x => Step::Fail(failure(x)),
        }
    }

    /// Inserts the store, then seeds its week of hours in one insert: one
    /// row for each day, 0 to 6, with no times. The result is the new store.
    pub open spec fn create_step(store_create: StoreCreate, replies: Seq<Reply>, r: Step<Store>) -> bool {
        if replies.len() == 0 {
            r matches Step::Run(Statement::Insert(c)) && c@ == seq![Change::Store(store_create)]
        } else {
            match replies[0] {
                Reply::Keys(k) => if k.len() == 0 {
                    r == Step::<Store>::Fail(RepoError::Malformed)
                } else if replies.len() == 1 {
                    r matches Step::Run(Statement::Insert(c)) && c@ == week_of_store_hours(k[0])
                } else {
                    match replies[1] {
                        Reply::Keys(_) => r == Step::Done(Store { store_id: k[0], name: store_create.name }),
                        x => r == Step::<Store>::Fail(failure_spec(x)),
                    }
                },
                x => r == Step::<Store>::Fail(failure_spec(x)),
            }
        }
    }

    /// The next step of `create` after the replies so far: the relation
    /// [`Self::create_step`].
    pub fn create(store_create: StoreCreate, replies: Vec<Reply>) -> (r: Step<Store>)
        ensures
            Self::create_step(store_create, replies@, r),
    {
        let mut replies = replies;
        if replies.len() == 0 {
            let ghost g = store_create;
            let c = vec![Change::Store(store_create)];
            assert(c@ =~= seq![Change::Store(g)]);
            return Step::Run(Statement::Insert(c));
        }
        let k = match next_reply(&mut replies) {
            Reply::Keys(k) => k,
            x => return Step::Fail(failure(x)),
        };
        if k.len() == 0 {
            return Step::Fail(RepoError::Malformed);
        }
        let store_id = k[0];
        if replies.len() == 0 {
            return Step::Run(Statement::Insert(seed_store_hours(store_id)));
        }
        match next_reply(&mut replies) {
            Reply::Keys(_) => Step::Done(Store { store_id, name: store_create.name }),
            x => Step::Fail(failure(x)),
        }
    }

    /// Inserts the address as given; the store it names is not checked. The
    /// result is the new address row.
    pub open spec fn create_address_step(a: StoreAddressCreate, replies: Seq<Reply>, r: Step<StoreAddress>) -> bool {
        if replies.len() == 0 {
            r matches Step::Run(Statement::Insert(c)) && c@ == seq![Change::StoreAddress(a)]
        } else {
            match replies[0] {
                Reply::Keys(k) => if k.len() == 0 {
                    r == Step::<StoreAddress>::Fail(RepoError::Malformed)
                } else {
                    r == Step::Done(StoreAddress {
                        store_address_id: k[0],
                        store_id: a.store_id,
                        street_address: a.street_address,
                        city: a.city,
                        state: a.state,
                        zip: a.zip,
                        phone: a.phone,
                        email: a.email,
                    })
                },
                x => r == Step::<StoreAddress>::Fail(failure_spec(x)),
            }
        }
    }

    /// The next step of `create_address` after the replies so far: the relation
    /// [`Self::create_address_step`].
    pub fn create_address(a: StoreAddressCreate, replies: Vec<Reply>) -> (r: Step<StoreAddress>)
        ensures
            Self::create_address_step(a, replies@, r),
    {
        let mut replies = replies;
        if replies.len() == 0 {
            let ghost g = a;
            let c = vec![Change::StoreAddress(a)];
            assert(c@ =~= seq![Change::StoreAddress(g)]);
            return Step::Run(Statement::Insert(c));
        }
        match next_reply(&mut replies) {
            Reply::Keys(k) => if k.len() == 0 {
                Step::Fail(RepoError::Malformed)
            } else {
                Step::Done(StoreAddress {
                    store_address_id: k[0],
                    store_id: a.store_id,
                    street_address: a.street_address,
                    city: a.city,
                    state: a.state,
                    zip: a.zip,
                    phone: a.phone,
                    email: a.email,
                })
            },
            x => Step::Fail(failure(x)),
        }
    }

    /// Sets the fields of the store `id`; the result is the changed row,
    /// `NotFound` where there is none.
    pub open spec fn update_step(id: i32, store_update: StoreCreate, replies: Seq<Reply>, r: Step<Store>) -> bool {
        if replies.len() == 0 {
            r == Step::<Store>::Run(Statement::Update(Filter::Key(id), Change::Store(store_update)))
        } else {
            match replies[0] {
                Reply::Stores(v) => r == first_row(v@),
                x => r == Step::<Store>::Fail(failure_spec(x)),
            }
        }
    }

    /// The next step of `update` after the replies so far: the relation
    /// [`Self::update_step`].
    pub fn update(id: i32, store_update: StoreCreate, replies: Vec<Reply>) -> (r: Step<Store>)
        ensures
            Self::update_step(id, store_update, replies@, r),
    {
        let mut replies = replies;
        if replies.len() == 0 {
            return Step::Run(Statement::Update(Filter::Key(id), Change::Store(store_update)));
        }
        match next_reply(&mut replies) {
            Reply::Stores(v) => take_first(v),
            x => Step::Fail(failure(x)),
        }
    }

    /// Sets the fields of the address of the store `id`; the result is the
    /// changed row, `NotFound` where there is none.
    pub open spec fn update_address_step(
        id: i32,
        a: StoreAddressCreate,
        replies: Seq<Reply>,
        r: Step<StoreAddress>,
    ) -> bool {
        if replies.len() == 0 {
            r == Step::<StoreAddress>::Run(Statement::Update(Filter::Owner(id), Change::StoreAddress(a)))
        } else {
            match replies[0] {
                Reply::StoreAddresses(v) => r == first_row(v@),
                x => r == Step::<StoreAddress>::Fail(failure_spec(x)),
            }
        }
    }

    /// The next step of `update_address` after the replies so far: the relation
    /// [`Self::update_address_step`].
    pub fn update_address(id: i32, a: StoreAddressCreate, replies: Vec<Reply>) -> (r: Step<StoreAddress>)
        ensures
            Self::update_address_step(id, a, replies@, r),
    {
        let mut replies = replies;
        if replies.len() == 0 {
            return Step::Run(Statement::Update(Filter::Owner(id), Change::StoreAddress(a)));
        }
        match next_reply(&mut replies) {
            Reply::StoreAddresses(v) => take_first(v),
            x => Step::Fail(failure(x)),
        }
    }

    /// Sets the fields of the hours row `id`; the result is the changed row,
    /// `NotFound` where there is none.
    pub open spec fn update_one_hour_step(
        id: i32,
        h: StoreHoursCreate,
        replies: Seq<Reply>,
        r: Step<StoreHours>,
    ) -> bool {
        if replies.len() == 0 {
            r == Step::<StoreHours>::Run(Statement::Update(Filter::Key(id), Change::StoreHours(h)))
        } else {
            match replies[0] {
                Reply::StoreHours(v) => r == first_row(v@),
                x => r == Step::<StoreHours>::Fail(failure_spec(x)),
            }
        }
    }

    /// The next step of `update_one_hour` after the replies so far: the relation
    /// [`Self::update_one_hour_step`].
    pub fn update_one_hour(id: i32, h: StoreHoursCreate, replies: Vec<Reply>) -> (r: Step<StoreHours>)
        ensures
            Self::update_one_hour_step(id, h, replies@, r),
    {
        let mut replies = replies;
        if replies.len() == 0 {
            return Step::Run(Statement::Update(Filter::Key(id), Change::StoreHours(h)));
        }
        match next_reply(&mut replies) {
            Reply::StoreHours(v) => take_first(v),
            x => Step::Fail(failure(x)),
        }
    }

    /// One update for each entry, in order, of the hours row that has the
    /// entry's store and day of the week. An entry that matches no row
    /// changes nothing; the first update that fails ends the operation
    /// with its error.
    pub open spec fn update_hours_step(list: Seq<StoreHoursCreate>, replies: Seq<Reply>, r: Step<()>) -> bool {
        let m: int = if replies.len() < list.len() { replies.len() as int } else { list.len() as int };
        &&& forall|j: int|
            0 <= j < m && !(replies[j] is StoreHours) && (forall|i: int| 0 <= i < j ==> replies[i] is StoreHours)
                ==> r == Step::<()>::Fail(failure_spec(replies[j]))
        &&& (forall|i: int| 0 <= i < m ==> replies[i] is StoreHours) ==> if m < list.len() {
            r == Step::<()>::Run(Statement::Update(
                Filter::OwnerDay(list[m].store_id, list[m].day_of_week),
                Change::StoreHours(list[m]),
            ))
        } else {
            r == Step::Done(())
        }
    }

    /// The next step of `update_hours` after the replies so far: the relation
    /// [`Self::update_hours_step`].
    pub fn update_hours(list: Vec<StoreHoursCreate>, replies: Vec<Reply>) -> (r: Step<()>)
        ensures
            Self::update_hours_step(list@, replies@, r),
    {
        let m = if replies.len() < list.len() { replies.len() } else { list.len() };
        let mut i: usize = 0;
        while i < m
            invariant
                m <= replies.len(),
                m <= list.len(),
                i <= m,
                forall|j: int| 0 <= j < i ==> replies@[j] is StoreHours,
            decreases m - i,
        {
            match &replies[i] {
                Reply::StoreHours(_) => {},
                _ => {
                    let mut replies = replies;
                    let x = replies.remove(i);
                    return Step::Fail(failure(x));
                },
            }
            i = i + 1;
        }
        if m < list.len() {
            let h = list[m];
            Step::Run(Statement::Update(Filter::OwnerDay(h.store_id, h.day_of_week), Change::StoreHours(h)))
        } else {
            Step::Done(())
        }
    }

    /// Removes the store's hours rows, then its address rows, then the store
    /// row. The result is the number of store rows removed.
    pub open spec fn delete_step(id: i32, replies: Seq<Reply>, r: Step<usize>) -> bool {
        if replies.len() == 0 {
            r == Step::<usize>::Run(Statement::Delete(Table::StoreHours, Filter::Owner(id)))
        } else if !(replies[0] is Deleted) {
            r == Step::<usize>::Fail(failure_spec(replies[0]))
        } else if replies.len() == 1 {
            r == Step::<usize>::Run(Statement::Delete(Table::StoreAddress, Filter::Owner(id)))
        } else if !(replies[1] is Deleted) {
            r == Step::<usize>::Fail(failure_spec(replies[1]))
        } else if replies.len() == 2 {
            r == Step::<usize>::Run(Statement::Delete(Table::Store, Filter::Key(id)))
        } else {
            match replies[2] {
                Reply::Deleted(n) => r == Step::Done(n),
                x => r == Step::<usize>::Fail(failure_spec(x)),
            }
        }
    }

    /// The next step of `delete` after the replies so far: the relation
    /// [`Self::delete_step`].
    pub fn delete(id: i32, replies: Vec<Reply>) -> (r: Step<usize>)
        ensures
            Self::delete_step(id, replies@, r),
    {
        let mut replies = replies;
        if replies.len() == 0 {
            return Step::Run(Statement::Delete(Table::StoreHours, Filter::Owner(id)));
        }
        match next_reply(&mut replies) {
            Reply::Deleted(_) => {},
            x => return Step::Fail(failure(x)),
        }
        if replies.len() == 0 {
            return Step::Run(Statement::Delete(Table::StoreAddress, Filter::Owner(id)));
        }
        match next_reply(&mut replies) {
            Reply::Deleted(_) => {},
            x => return Step::Fail(failure(x)),
        }
        if replies.len() == 0 {
            return Step::Run(Statement::Delete(Table::Store, Filter::Key(id)));
        }
        match next_reply(&mut replies) {
            Reply::Deleted(n) => Step::Done(n),
            x => Step::Fail(failure(x)),
        }
    }
}

} // verus!

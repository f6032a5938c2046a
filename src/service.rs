use vstd::prelude::*;

use crate::db::{
    Change, Filter, Reply, RepoError, Statement, Step, Table, failure, failure_spec, first_row,
    next_reply, take_first,
};
use crate::time::TimeOfDay;

verus! {

/// The path parameter that names a service.
#[derive(Clone, Copy, Debug, PartialEq, Eq)]
pub struct ServiceId {
    pub service_id: i32,
}

/// The path parameter that names a service variant.
#[derive(Clone, Copy, Debug, PartialEq, Eq)]
pub struct ServiceVariantId {
    pub staff_variant_id: i32,
}

/// The path parameter that names a blocking window.
#[derive(Clone, Copy, Debug, PartialEq, Eq)]
pub struct BlockExtraTimeId {
    pub block_extra_time: i32,
}

/// A service with its blocking window and its variants.
#[derive(Clone, Debug, PartialEq, Eq)]
pub struct FullService {
    pub service: Service,
    pub blocked_time: BlockExtraTime,
    pub variants: Vec<ServiceVariant>,
}

/// A new service with its blocking window and its variants.
#[derive(Clone, Debug, PartialEq, Eq)]
pub struct GenerateService {
    pub name: String,
    pub description: Option<String>,
    pub is_active: i32,
    pub category: Option<String>,
    pub before_time: Option<TimeOfDay>,
    pub after_time: Option<TimeOfDay>,
    pub variants: Vec<GenerateServiceVariant>,
}

/// A variant of a new service. The price is the bit pattern of an IEEE-754
/// double: the data layer carries it and never computes with it.
#[derive(Clone, Copy, Debug, PartialEq, Eq)]
pub struct GenerateServiceVariant {
    pub price_bits: u64,
    pub duration: Option<TimeOfDay>,
}

/// A row of the service table.
#[derive(Clone, Debug, PartialEq, Eq)]
pub struct Service {
    pub service_id: i32,
    pub name: String,
    pub description: Option<String>,
    pub is_active: i32,
    pub category: Option<String>,
}

/// The writable fields of a service. On an update an optional field that is
/// `None` leaves the stored value as it is.
#[derive(Clone, Debug, PartialEq, Eq)]
pub struct ServiceCreate {
    pub name: String,
    pub description: Option<String>,
    pub is_active: i32,
    pub category: Option<String>,
}

/// A row of the service variant table: one price and duration of a service.
/// The price is the bit pattern of an IEEE-754 double.
#[derive(Clone, Copy, Debug, PartialEq, Eq)]
pub struct ServiceVariant {
    pub service_variant_id: i32,
    pub service_id: i32,
    pub price_bits: u64,
    pub duration: Option<TimeOfDay>,
}

/// The writable fields of a service variant. On an update a duration that is
/// `None` leaves the stored duration as it is.
#[derive(Clone, Copy, Debug, PartialEq, Eq)]
pub struct ServiceVariantCreate {
    pub service_id: i32,
    pub price_bits: u64,
    pub duration: Option<TimeOfDay>,
}

/// A row of the blocking window table: the time kept free before and after
/// a service.
#[derive(Clone, Copy, Debug, PartialEq, Eq)]
pub struct BlockExtraTime {
    pub block_extra_time_id: i32,
    pub service_id: i32,
    pub before_time: Option<TimeOfDay>,
    pub after_time: Option<TimeOfDay>,
}

/// The writable fields of a blocking window. On an update a time that is
/// `None` leaves the stored time as it is.
#[derive(Clone, Copy, Debug, PartialEq, Eq)]
pub struct BlockExtraTimeCreate {
    pub service_id: i32,
    pub before_time: Option<TimeOfDay>,
    pub after_time: Option<TimeOfDay>,
}

/// New values for a service, its blocking window and some of its variants,
/// each variant named by its own key.
#[derive(Clone, Debug, PartialEq, Eq)]
pub struct UpdateServiceAll {
    pub name: String,
    pub description: Option<String>,
    pub is_active: i32,
    pub category: Option<String>,
    pub before_time: Option<TimeOfDay>,
    pub after_time: Option<TimeOfDay>,
    pub variants: Vec<ServiceVariant>,
}

} // verus!

verus! {

/// A copy of an optional text.
pub(crate) fn copy_text(t: &Option<String>) -> (r: Option<String>)
    ensures
        r == *t,
{
    match t {
        Some(s) => Some(s.clone()),
        None => None,
    }
}

impl Service {
    /// A copy of the row.
    pub fn copy(&self) -> (r: Service)
        ensures
            r == *self,
    {
        Service {
            service_id: self.service_id,
            name: self.name.clone(),
            description: copy_text(&self.description),
            is_active: self.is_active,
            category: copy_text(&self.category),
        }
    }
}


/// The blocking window rows among `blocks` that belong to the service `id`.
pub open spec fn blocks_of(blocks: Seq<BlockExtraTime>, id: i32) -> Seq<BlockExtraTime> {
    blocks.filter(|b: BlockExtraTime| b.service_id == id)
}

/// The variant rows among `variants` that belong to the service `id`, in their order.
pub open spec fn variants_of(variants: Seq<ServiceVariant>, id: i32) -> Seq<ServiceVariant> {
    variants.filter(|v: ServiceVariant| v.service_id == id)
}

/// Each service with its first blocking window and its own variants, found
/// by the service's key.
pub open spec fn full_services(
    services: Seq<Service>,
    blocks: Seq<BlockExtraTime>,
    variants: Seq<ServiceVariant>,
    out: Seq<FullService>,
) -> bool {
    &&& out.len() == services.len()
    &&& forall|i: int|
        0 <= i < services.len() ==> {
            &&& (#[trigger] out[i]).service == services[i]
            &&& out[i].blocked_time == blocks_of(blocks, services[i].service_id)[0]
            &&& out[i].variants@ == variants_of(variants, services[i].service_id)
        }
}

/// The fields of the service row in a new service.
pub open spec fn service_fields(g: GenerateService) -> ServiceCreate {
    ServiceCreate { name: g.name, description: g.description, is_active: g.is_active, category: g.category }
}

/// The inserts of the variants of a new service whose key is `id`, in order.
pub open spec fn variant_changes(id: i32, variants: Seq<GenerateServiceVariant>) -> Seq<Change> {
    variants.map_values(
        |v: GenerateServiceVariant|
            Change::ServiceVariant(ServiceVariantCreate { service_id: id, price_bits: v.price_bits, duration: v.duration }),
    )
}

/// The update of the variant `v` of the service `id` in `update_all`: its
/// price and duration, and the service it belongs to.
pub open spec fn variant_update(id: i32, v: ServiceVariant) -> Statement {
    Statement::Update(
        Filter::Key(v.service_variant_id),
        Change::ServiceVariant(ServiceVariantCreate { service_id: id, price_bits: v.price_bits, duration: v.duration }),
    )
}

/// The update of the blocking window of the service `id` in `update_all`.
pub open spec fn block_update(id: i32, u: UpdateServiceAll) -> Statement {
    Statement::Update(
        Filter::Owner(id),
        Change::BlockExtraTime(BlockExtraTimeCreate { service_id: id, before_time: u.before_time, after_time: u.after_time }),
    )
}

/// The steps of `update_all` after the service row was changed into `s`.
pub open spec fn update_all_rest_step(id: i32, u: UpdateServiceAll, s: Service, rest: Seq<Reply>, r: Step<Service>) -> bool {
    let n = u.variants.len();
    let m: int = if rest.len() < n { rest.len() as int } else { n as int };
    &&& forall|j: int|
        0 <= j < m && !(rest[j] is ServiceVariants) && (forall|i: int| 0 <= i < j ==> rest[i] is ServiceVariants)
            ==> r == Step::<Service>::Fail(failure_spec(rest[j]))
    &&& (forall|i: int| 0 <= i < m ==> rest[i] is ServiceVariants) ==> if rest.len() < n {
        r == Step::<Service>::Run(variant_update(id, u.variants[rest.len() as int]))
    } else if rest.len() == n {
        r == Step::<Service>::Run(block_update(id, u))
    } else {
        match rest[n as int] {
            Reply::BlockExtraTimes(_) => r == Step::Done(s),
            x => r == Step::<Service>::Fail(failure_spec(x)),
        }
    }
}

fn select_blocks_of(blocks: &Vec<BlockExtraTime>, id: i32) -> (r: Vec<BlockExtraTime>)
    ensures
        r@ == blocks_of(blocks@, id),
{
    let mut r: Vec<BlockExtraTime> = Vec::new();
    let mut j: usize = 0;
    while j < blocks.len()
        invariant
            j <= blocks.len(),
            r@ == blocks_of(blocks@.take(j as int), id),
        decreases blocks.len() - j,
    {
        let b = blocks[j];
        assert(blocks@.take(j + 1).drop_last() =~= blocks@.take(j as int));
        reveal(Seq::filter);
        if b.service_id == id {
            r.push(b);
        }
        j = j + 1;
    }
    assert(blocks@.take(blocks.len() as int) =~= blocks@);
    r
}

fn select_variants_of(variants: &Vec<ServiceVariant>, id: i32) -> (r: Vec<ServiceVariant>)
    ensures
        r@ == variants_of(variants@, id),
{
    let mut r: Vec<ServiceVariant> = Vec::new();
    let mut j: usize = 0;
    while j < variants.len()
        invariant
            j <= variants.len(),
            r@ == variants_of(variants@.take(j as int), id),
        decreases variants.len() - j,
    {
        let v = variants[j];
        assert(variants@.take(j + 1).drop_last() =~= variants@.take(j as int));
        reveal(Seq::filter);
        if v.service_id == id {
            r.push(v);
        }
        j = j + 1;
    }
    assert(variants@.take(variants.len() as int) =~= variants@);
    r
}

impl Service {
    /// Every service with its blocking window and its variants. Three
    /// reads: all services, all blocking windows, all variants; each service
    /// then gets the rows that carry its key. A service without a blocking
    /// window fails the operation with `MissingBlockedTime`: the first such
    /// service in key order.
    pub open spec fn find_all_step(replies: Seq<Reply>, r: Step<Vec<FullService>>) -> bool {
        if replies.len() == 0 {
            r == Step::<Vec<FullService>>::Run(Statement::Select(Table::Service, Filter::All))
        } else {
            match replies[0] {
                Reply::Services(s) => if replies.len() == 1 {
                    r == Step::<Vec<FullService>>::Run(Statement::Select(Table::BlockExtraTime, Filter::All))
                } else {
                    match replies[1] {
                        Reply::BlockExtraTimes(b) => if replies.len() == 2 {
                            r == Step::<Vec<FullService>>::Run(Statement::Select(Table::ServiceVariant, Filter::All))
                        } else {
                            match replies[2] {
                                Reply::ServiceVariants(v) => {
                                    &&& forall|i: int|
                                        0 <= i < s.len() && blocks_of(b@, s[i].service_id).len() == 0
                                            && (forall|j: int| 0 <= j < i ==> blocks_of(b@, s[j].service_id).len() > 0)
                                            ==> r == Step::<Vec<FullService>>::Fail(RepoError::MissingBlockedTime(s[i].service_id))
                                    &&& (forall|j: int| 0 <= j < s.len() ==> blocks_of(b@, s[j].service_id).len() > 0)
                                        ==> (r matches Step::Done(out) && full_services(s@, b@, v@, out@))
                                },
                                x => r == Step::<Vec<FullService>>::Fail(failure_spec(x)),
                            }
                        },
                        x => r == Step::<Vec<FullService>>::Fail(failure_spec(x)),
                    }
                },
                x => r == Step::<Vec<FullService>>::Fail(failure_spec(x)),
            }
        }
    }

    #[verifier::loop_isolation(false)]
    pub fn find_all(replies: Vec<Reply>) -> (r: Step<Vec<FullService>>)
        ensures
            Self::find_all_step(replies@, r),
    {
        let mut replies = replies;
        if replies.len() == 0 {
            return Step::Run(Statement::Select(Table::Service, Filter::All));
        }
        let s = match next_reply(&mut replies) {
            Reply::Services(s) => s,
            x => return Step::Fail(failure(x)),
        };
        if replies.len() == 0 {
            return Step::Run(Statement::Select(Table::BlockExtraTime, Filter::All));
        }
        let b = match next_reply(&mut replies) {
            Reply::BlockExtraTimes(b) => b,
            x => return Step::Fail(failure(x)),
        };
        if replies.len() == 0 {
            return Step::Run(Statement::Select(Table::ServiceVariant, Filter::All));
        }
        let v = match next_reply(&mut replies) {
            Reply::ServiceVariants(v) => v,
            x => return Step::Fail(failure(x)),
        };
        let mut out: Vec<FullService> = Vec::new();
        let mut i: usize = 0;
        while i < s.len()
            invariant
                i <= s.len(),
                out.len() == i,
                forall|j: int| 0 <= j < i ==> blocks_of(b@, s@[j].service_id).len() > 0,
                full_services(s@.take(i as int), b@, v@, out@),
            decreases s.len() - i,
        {
            let mut own = select_blocks_of(&b, s[i].service_id);
            if own.len() == 0 {
                return Step::Fail(RepoError::MissingBlockedTime(s[i].service_id));
            }
            let variants = select_variants_of(&v, s[i].service_id);
            out.push(FullService { service: s[i].copy(), blocked_time: own.remove(0), variants });
            i = i + 1;
        }
        assert(s@.take(s.len() as int) =~= s@);
        Step::Done(out)
    }

    /// The service `id` with its blocking window and its variants: three
    /// lookups in turn. `NotFound` where the service or its blocking window
    /// is missing; a service may have no variants.
    pub open spec fn find_step(id: i32, replies: Seq<Reply>, r: Step<FullService>) -> bool {
        if replies.len() == 0 {
            r == Step::<FullService>::Run(Statement::Select(Table::Service, Filter::Key(id)))
        } else {
            match replies[0] {
                Reply::Services(s) => if s.len() == 0 {
                    r == Step::<FullService>::Fail(RepoError::NotFound)
                } else if replies.len() == 1 {
                    r == Step::<FullService>::Run(Statement::Select(Table::BlockExtraTime, Filter::Owner(id)))
                } else {
                    match replies[1] {
                        Reply::BlockExtraTimes(b) => if b.len() == 0 {
                            r == Step::<FullService>::Fail(RepoError::NotFound)
                        } else if replies.len() == 2 {
                            r == Step::<FullService>::Run(Statement::Select(Table::ServiceVariant, Filter::Owner(id)))
                        } else {
                            match replies[2] {
                                Reply::ServiceVariants(v) => r matches Step::Done(f) && f.service == s[0]
                                    && f.blocked_time == b[0] && f.variants@ == v@,
                                x => r == Step::<FullService>::Fail(failure_spec(x)),
                            }
                        },
                        x => r == Step::<FullService>::Fail(failure_spec(x)),
                    }
                },
                x => r == Step::<FullService>::Fail(failure_spec(x)),
            }
        }
    }

    /// The next step of `find` after the replies so far: the relation
    /// [`Self::find_step`].
    pub fn find(id: i32, replies: Vec<Reply>) -> (r: Step<FullService>)
        ensures
            Self::find_step(id, replies@, r),
    {
        let mut replies = replies;
        if replies.len() == 0 {
            return Step::Run(Statement::Select(Table::Service, Filter::Key(id)));
        }
        let mut s = match next_reply(&mut replies) {
            Reply::Services(s) => s,
            x => return Step::Fail(failure(x)),
        };
        if s.len() == 0 {
            return Step::Fail(RepoError::NotFound);
        }
        if replies.len() == 0 {
            return Step::Run(Statement::Select(Table::BlockExtraTime, Filter::Owner(id)));
        }
        let b = match next_reply(&mut replies) {
            Reply::BlockExtraTimes(b) => b,
            x => return Step::Fail(failure(x)),
        };
        if b.len() == 0 {
            return Step::Fail(RepoError::NotFound);
        }
        if replies.len() == 0 {
            return Step::Run(Statement::Select(Table::ServiceVariant, Filter::Owner(id)));
        }
        match next_reply(&mut replies) {
            Reply::ServiceVariants(v) => Step::Done(FullService { service: s.remove(0), blocked_time: b[0], variants: v }),
            x => Step::Fail(failure(x)),
        }
    }

    /// Inserts the service row, then its blocking window, then its variants
    /// in one insert. The result is the new service row.
    pub open spec fn create_step(g: GenerateService, replies: Seq<Reply>, r: Step<Service>) -> bool {
        if replies.len() == 0 {
            r matches Step::Run(Statement::Insert(c)) && c@ == seq![Change::Service(service_fields(g))]
        } else {
            match replies[0] {
                Reply::Keys(k) => if k.len() == 0 {
                    r == Step::<Service>::Fail(RepoError::Malformed)
                } else if replies.len() == 1 {
                    r matches Step::Run(Statement::Insert(c)) && c@ == seq![
                        Change::BlockExtraTime(BlockExtraTimeCreate {
                            service_id: k[0],
                            before_time: g.before_time,
                            after_time: g.after_time,
                        }),
                    ]
                } else if !(replies[1] is Keys) {
                    r == Step::<Service>::Fail(failure_spec(replies[1]))
                } else if replies.len() == 2 {
                    r matches Step::Run(Statement::Insert(c)) && c@ == variant_changes(k[0], g.variants@)
                } else {
                    match replies[2] {
                        Reply::Keys(_) => r == Step::Done(Service {
                            service_id: k[0],
                            name: g.name,
                            description: g.description,
                            is_active: g.is_active,
                            category: g.category,
                        }),
                        x => r == Step::<Service>::Fail(failure_spec(x)),
                    }
                },
                x => r == Step::<Service>::Fail(failure_spec(x)),
            }
        }
    }

    /// The next step of `create` after the replies so far: the relation
    /// [`Self::create_step`].
    pub fn create(g: GenerateService, replies: Vec<Reply>) -> (r: Step<Service>)
        ensures
            Self::create_step(g, replies@, r),
    {
        let mut replies = replies;
        if replies.len() == 0 {
            let fields = ServiceCreate {
                name: g.name,
                description: g.description,
                is_active: g.is_active,
                category: g.category,
            };
            let ghost f = fields;
            let c = vec![Change::Service(fields)];
            assert(c@ =~= seq![Change::Service(f)]);
            return Step::Run(Statement::Insert(c));
        }
        let k = match next_reply(&mut replies) {
            Reply::Keys(k) => k,
            x => return Step::Fail(failure(x)),
        };
        if k.len() == 0 {
            return Step::Fail(RepoError::Malformed);
        }
        let id = k[0];
        if replies.len() == 0 {
            let b = BlockExtraTimeCreate { service_id: id, before_time: g.before_time, after_time: g.after_time };
            let c = vec![Change::BlockExtraTime(b)];
            assert(c@ =~= seq![Change::BlockExtraTime(b)]);
            return Step::Run(Statement::Insert(c));
        }
        match next_reply(&mut replies) {
            Reply::Keys(_) => {},
            x => return Step::Fail(failure(x)),
        }
        if replies.len() == 0 {
            let mut c: Vec<Change> = Vec::new();
            let mut i: usize = 0;
            while i < g.variants.len()
                invariant
                    i <= g.variants.len(),
                    c@ == variant_changes(id, g.variants@.take(i as int)),
                decreases g.variants.len() - i,
            {
                let v = g.variants[i];
                c.push(Change::ServiceVariant(ServiceVariantCreate { service_id: id, price_bits: v.price_bits, duration: v.duration }));
                i = i + 1;
                assert(c@ =~= variant_changes(id, g.variants@.take(i as int)));
            }
            assert(g.variants@.take(g.variants.len() as int) =~= g.variants@);
            return Step::Run(Statement::Insert(c));
        }
        match next_reply(&mut replies) {
            Reply::Keys(_) => Step::Done(Service {
                service_id: id,
                name: g.name,
                description: g.description,
                is_active: g.is_active,
                category: g.category,
            }),
            x => Step::Fail(failure(x)),
        }
    }

    /// Sets the fields of the service `id`; the result is the changed row,
    /// `NotFound` where there is none.
    pub open spec fn update_step(id: i32, c: ServiceCreate, replies: Seq<Reply>, r: Step<Service>) -> bool {
        if replies.len() == 0 {
            r == Step::<Service>::Run(Statement::Update(Filter::Key(id), Change::Service(c)))
        } else {
            match replies[0] {
                Reply::Services(v) => r == first_row(v@),
                x => r == Step::<Service>::Fail(failure_spec(x)),
            }
        }
    }

    /// The next step of `update` after the replies so far: the relation
    /// [`Self::update_step`].
    pub fn update(id: i32, c: ServiceCreate, replies: Vec<Reply>) -> (r: Step<Service>)
        ensures
            Self::update_step(id, c, replies@, r),
    {
        let mut replies = replies;
        if replies.len() == 0 {
            return Step::Run(Statement::Update(Filter::Key(id), Change::Service(c)));
        }
        match next_reply(&mut replies) {
            Reply::Services(v) => take_first(v),
            x => Step::Fail(failure(x)),
        }
    }

    /// Sets the fields of the variant `id`; the result is the changed row,
    /// `NotFound` where there is none.
    pub open spec fn update_variant_step(id: i32, c: ServiceVariantCreate, replies: Seq<Reply>, r: Step<ServiceVariant>) -> bool {
        if replies.len() == 0 {
            r == Step::<ServiceVariant>::Run(Statement::Update(Filter::Key(id), Change::ServiceVariant(c)))
        } else {
            match replies[0] {
                Reply::ServiceVariants(v) => r == first_row(v@),
                x => r == Step::<ServiceVariant>::Fail(failure_spec(x)),
            }
        }
    }

    /// The next step of `update_variant` after the replies so far: the relation
    /// [`Self::update_variant_step`].
    pub fn update_variant(id: i32, c: ServiceVariantCreate, replies: Vec<Reply>) -> (r: Step<ServiceVariant>)
        ensures
            Self::update_variant_step(id, c, replies@, r),
    {
        let mut replies = replies;
        if replies.len() == 0 {
            return Step::Run(Statement::Update(Filter::Key(id), Change::ServiceVariant(c)));
        }
        match next_reply(&mut replies) {
            Reply::ServiceVariants(v) => take_first(v),
            x => Step::Fail(failure(x)),
        }
    }

    /// Sets the fields of the blocking window row whose primary key is `id`
    /// (not the window of the service `id`); the result is the changed row,
    /// `NotFound` where there is no such row.
    pub open spec fn update_time_block_step(
        id: i32,
        c: BlockExtraTimeCreate,
        replies: Seq<Reply>,
        r: Step<BlockExtraTime>,
    ) -> bool {
        if replies.len() == 0 {
            r == Step::<BlockExtraTime>::Run(Statement::Update(Filter::Key(id), Change::BlockExtraTime(c)))
        } else {
            match replies[0] {
                Reply::BlockExtraTimes(v) => r == first_row(v@),
                x => r == Step::<BlockExtraTime>::Fail(failure_spec(x)),
            }
        }
    }

    /// The next step of `update_time_block` after the replies so far: the relation
    /// [`Self::update_time_block_step`].
    pub fn update_time_block(id: i32, c: BlockExtraTimeCreate, replies: Vec<Reply>) -> (r: Step<BlockExtraTime>)
        ensures
            Self::update_time_block_step(id, c, replies@, r),
    {
        let mut replies = replies;
        if replies.len() == 0 {
            return Step::Run(Statement::Update(Filter::Key(id), Change::BlockExtraTime(c)));
        }
        match next_reply(&mut replies) {
            Reply::BlockExtraTimes(v) => take_first(v),
            x => Step::Fail(failure(x)),
        }
    }

    /// Changes the service `id`, then each given variant by its own key (a
    /// variant of another service is moved to this one), then the service's
    /// blocking window. The result is the changed service row; `NotFound`
    /// where there is no such service. A variant key that matches no row
    /// changes nothing.
    pub open spec fn update_all_step(id: i32, u: UpdateServiceAll, replies: Seq<Reply>, r: Step<Service>) -> bool {
        if replies.len() == 0 {
            r == Step::<Service>::Run(Statement::Update(
                Filter::Key(id),
                Change::Service(ServiceCreate {
                    name: u.name,
                    description: u.description,
                    is_active: u.is_active,
                    category: u.category,
                }),
            ))
        } else {
            match replies[0] {
                Reply::Services(s) => if s.len() == 0 {
                    r == Step::<Service>::Fail(RepoError::NotFound)
                } else {
                    update_all_rest_step(id, u, s[0], replies.drop_first(), r)
                },
                x => r == Step::<Service>::Fail(failure_spec(x)),
            }
        }
    }

    #[verifier::loop_isolation(false)]
    pub fn update_all(id: i32, u: UpdateServiceAll, replies: Vec<Reply>) -> (r: Step<Service>)
        ensures
            Self::update_all_step(id, u, replies@, r),
    {
        let mut replies = replies;
        if replies.len() == 0 {
            return Step::Run(Statement::Update(
                Filter::Key(id),
                Change::Service(ServiceCreate {
                    name: u.name,
                    description: u.description,
                    is_active: u.is_active,
                    category: u.category,
                }),
            ));
        }
        let mut s = match next_reply(&mut replies) {
            Reply::Services(s) => s,
            x => return Step::Fail(failure(x)),
        };
        if s.len() == 0 {
            return Step::Fail(RepoError::NotFound);
        }
        let n = u.variants.len();
        let m = if replies.len() < n { replies.len() } else { n };
        let mut i: usize = 0;
        while i < m
            invariant
                m <= replies.len(),
                m <= n,
                n == u.variants.len(),
                i <= m,
                forall|j: int| 0 <= j < i ==> replies@[j] is ServiceVariants,
            decreases m - i,
        {
            match &replies[i] {
                Reply::ServiceVariants(_) => {},
                _ => {
                    let mut replies = replies;
                    let x = replies.remove(i);
                    return Step::Fail(failure(x));
                },
            }
            i = i + 1;
        }
        if replies.len() < n {
            let v = u.variants[replies.len()];
            return Step::Run(Statement::Update(
                Filter::Key(v.service_variant_id),
                Change::ServiceVariant(ServiceVariantCreate { service_id: id, price_bits: v.price_bits, duration: v.duration }),
            ));
        }
        if replies.len() == n {
            return Step::Run(Statement::Update(
                Filter::Owner(id),
                Change::BlockExtraTime(BlockExtraTimeCreate { service_id: id, before_time: u.before_time, after_time: u.after_time }),
            ));
        }
        let x = replies.remove(n);
        match x {
            Reply::BlockExtraTimes(_) => Step::Done(s.remove(0)),
            x => Step::Fail(failure(x)),
        }
    }

    /// Removes the service's variants, then its blocking window, then the
    /// service row. The result is the number of service rows removed.
    pub open spec fn delete_step(id: i32, replies: Seq<Reply>, r: Step<usize>) -> bool {
        if replies.len() == 0 {
            r == Step::<usize>::Run(Statement::Delete(Table::ServiceVariant, Filter::Owner(id)))
        } else if !(replies[0] is Deleted) {
            r == Step::<usize>::Fail(failure_spec(replies[0]))
        } else if replies.len() == 1 {
            r == Step::<usize>::Run(Statement::Delete(Table::BlockExtraTime, Filter::Owner(id)))
        } else if !(replies[1] is Deleted) {
            r == Step::<usize>::Fail(failure_spec(replies[1]))
        } else if replies.len() == 2 {
            r == Step::<usize>::Run(Statement::Delete(Table::Service, Filter::Key(id)))
        } else {
            match replies[2] {
                Reply::Deleted(n) => r == Step::Done(n),
                x => r == Step::<usize>::Fail(failure_spec(x)),
            }
        }
    }

    /// The next step of `delete` after the replies so far: the relation
    /// [`Self::delete_step`].
    pub fn delete(id: i32, replies: Vec<Reply>) -> (r: Step<usize>)
        ensures
            Self::delete_step(id, replies@, r),
    {
        let mut replies = replies;
        if replies.len() == 0 {
            return Step::Run(Statement::Delete(Table::ServiceVariant, Filter::Owner(id)));
        }
        match next_reply(&mut replies) {
            Reply::Deleted(_) => {},
            x => return Step::Fail(failure(x)),
        }
        if replies.len() == 0 {
            return Step::Run(Statement::Delete(Table::BlockExtraTime, Filter::Owner(id)));
        }
        match next_reply(&mut replies) {
            Reply::Deleted(_) => {},
            x => return Step::Fail(failure(x)),
        }
        if replies.len() == 0 {
            return Step::Run(Statement::Delete(Table::Service, Filter::Key(id)));
        }
        match next_reply(&mut replies) {
            Reply::Deleted(n) => Step::Done(n),
            x => Step::Fail(failure(x)),
        }
    }
}

} // verus!

//! Laws that tie operations together, proved over complete runs in the
//! model of `model`.
use vstd::prelude::*;

use crate::db::{Change, Filter, Reply, RepoError, Statement, Step, Table};
use crate::model::{
    Tables, after, answers, committed, is_run_that_may_fail, changed_block_extra_time, changed_service, changed_service_variant, changed_staff,
    changed_staff_service, changed_store_address, changed_store_hours, keys_below, keys_increase, ordered, picks_staff, changed_staff_hours, changed_store, count_rows, insert_all, insert_one, is_run, new_service_variant,
    new_staff_hours, new_staff_service, new_store_hours, picks_store, picks_store_address,
    picks_block_extra_time, picks_service, picks_service_variant, picks_staff_hours, picks_staff_service, picks_store_hours,
    tables_after,
};
use crate::service::{BlockExtraTime, FullService, GenerateService, Service, ServiceVariant, variant_changes};
use crate::staff::{
    staff_with_hours, Staff, StaffWithHours, StaffCreate, StaffHours, StaffHoursCreate, StaffService, StaffServiceCreate, assignment_changes, new_staff, week_of_staff_hours,
};
use crate::store::{
    stores_with_hours, DAYS_PER_WEEK, Store, StoreAddress, StoreCreate, StoreHours, StoreWithHours, week_of_store_hours,
};

verus! {

/// The tables after the first `i + 1` steps: those after the first `i`,
/// changed by the statement of step `i` where it runs one.
pub proof fn lemma_tables_after_step<T>(db: Tables, steps: Seq<Step<T>>, i: int)
    requires
        0 <= i < steps.len(),
    ensures
        tables_after(db, steps.take(i + 1)) == match steps[i] {
            Step::Run(s) => after(tables_after(db, steps.take(i)), s),
            _ => tables_after(db, steps.take(i)),
        },
{
    assert(steps.take(i + 1).drop_last() =~= steps.take(i));
}

/// The tables at the end of a run: those before its last step.
pub proof fn lemma_tables_after_run<T>(
    db: Tables,
    plan: spec_fn(Seq<Reply>, Step<T>) -> bool,
    steps: Seq<Step<T>>,
    replies: Seq<Reply>,
)
    requires
        is_run(db, plan, steps, replies),
    ensures
        tables_after(db, steps) == tables_after(db, steps.take(replies.len() as int)),
{
    assert(steps.drop_last() =~= steps.take(replies.len() as int));
}

/// A filter that every element passes keeps the sequence whole.
pub proof fn lemma_filter_keeps_all<A>(s: Seq<A>, p: spec_fn(A) -> bool)
    requires
        forall|i: int| 0 <= i < s.len() ==> p(#[trigger] s[i]),
    ensures
        s.filter(p) == s,
    decreases s.len(),
{
    reveal(Seq::filter);
    if s.len() > 0 {
        lemma_filter_keeps_all(s.drop_last(), p);
        assert(s.drop_last().push(s.last()) =~= s);
    }
}

/// A filter that no element passes leaves nothing.
pub proof fn lemma_filter_keeps_none<A>(s: Seq<A>, p: spec_fn(A) -> bool)
    requires
        forall|i: int| 0 <= i < s.len() ==> !p(#[trigger] s[i]),
    ensures
        s.filter(p).len() == 0,
    decreases s.len(),
{
    reveal(Seq::filter);
    if s.len() > 0 {
        lemma_filter_keeps_none(s.drop_last(), p);
    }
}

/// What one filter removes, a second filter by the opposite test does not find.
pub proof fn lemma_filter_removed<A>(s: Seq<A>, p: spec_fn(A) -> bool, q: spec_fn(A) -> bool)
    requires
        forall|x: A| #[trigger] q(x) == !p(x),
    ensures
        s.filter(q).filter(p).len() == 0,
{
    let t = s.filter(q);
    assert forall|i: int| 0 <= i < t.len() implies !p(#[trigger] t[i]) by {
        s.lemma_filter_pred(q, i);
    }
    lemma_filter_keeps_none(t, p);
}

/// Appending a row whose key is above every key of an ordered table keeps
/// it ordered.
pub proof fn lemma_ordered_push<A>(s: Seq<A>, key: spec_fn(A) -> int, x: A, bound: int)
    requires
        keys_increase(s, key),
        keys_below(s, key, key(x)),
        key(x) < bound,
    ensures
        ordered(s.push(x), key, bound),
{
    let t = s.push(x);
    assert forall|i: int, j: int| 0 <= i < j < t.len() implies key(t[i]) < key(t[j]) by {
        assert(t[i] == s[i]);
        if j < s.len() {
            assert(t[j] == s[j]);
        }
    }
    assert forall|i: int| 0 <= i < t.len() implies key(#[trigger] t[i]) < bound by {
        if i < s.len() {
            assert(t[i] == s[i]);
        }
    }
}

/// A filter keeps a table ordered.
pub proof fn lemma_ordered_filter<A>(s: Seq<A>, key: spec_fn(A) -> int, bound: int, p: spec_fn(A) -> bool)
    requires
        ordered(s, key, bound),
    ensures
        ordered(s.filter(p), key, bound),
    decreases s.len(),
{
    reveal(Seq::filter);
    if s.len() > 0 {
        let d = s.drop_last();
        let x = s.last();
        assert(ordered(d, key, bound)) by {
            assert forall|i: int| 0 <= i < d.len() implies #[trigger] d[i] == s[i] by {}
        }
        lemma_ordered_filter(d, key, bound, p);
        let f = d.filter(p);
        if p(x) {
            assert forall|i: int| 0 <= i < f.len() implies key(#[trigger] f[i]) < key(x) by {
                assert(f.contains(f[i]));
                d.lemma_filter_contains_rev(p, f[i]);
                let k = choose|k: int| 0 <= k < d.len() && d[k] == f[i];
                assert(d[k] == s[k]);
            }
            lemma_ordered_push(f, key, x, bound);
        }
    }
}

/// A change that keeps every key keeps a table ordered.
pub proof fn lemma_ordered_map<A>(s: Seq<A>, key: spec_fn(A) -> int, bound: int, f: spec_fn(A) -> A)
    requires
        ordered(s, key, bound),
        forall|x: A| #[trigger] key(f(x)) == key(x),
    ensures
        ordered(s.map_values(f), key, bound),
{
    let t = s.map_values(f);
    assert forall|i: int, j: int| 0 <= i < j < t.len() implies key(t[i]) < key(t[j]) by {
        assert(key(f(s[i])) == key(s[i]));
        assert(key(f(s[j])) == key(s[j]));
    }
    assert forall|i: int| 0 <= i < t.len() implies key(#[trigger] t[i]) < bound by {
        assert(key(f(s[i])) == key(s[i]));
    }
}

/// Inserting one row keeps the tables ordered, where its key fits the key
/// type.
pub proof fn lemma_insert_one_keeps_keys_ordered(db: Tables, c: Change)
    requires
        db.keys_ordered(),
        i32::MIN <= db.next_key <= i32::MAX,
    ensures
        insert_one(db, c).keys_ordered(),
{
    let k = db.next_key as i32;
    let b = db.next_key + 1;
    let d = insert_one(db, c);
    assert(k as int == db.next_key);
    match c {
        Change::Store(c) => lemma_ordered_push(db.stores, |r: Store| r.store_id as int, d.stores.last(), b),
        Change::StoreAddress(c) => lemma_ordered_push(
            db.store_addresses,
            |r: StoreAddress| r.store_address_id as int,
            d.store_addresses.last(),
            b,
        ),
        Change::StoreHours(c) => lemma_ordered_push(
            db.store_hours,
            |r: StoreHours| r.store_hours_id as int,
            d.store_hours.last(),
            b,
        ),
        Change::Staff(c) => lemma_ordered_push(db.staff, |r: Staff| r.staff_id as int, d.staff.last(), b),
        Change::StaffHours(c) => lemma_ordered_push(
            db.staff_hours,
            |r: StaffHours| r.staff_hours_id as int,
            d.staff_hours.last(),
            b,
        ),
        Change::StaffService(c) => lemma_ordered_push(
            db.staff_services,
            |r: StaffService| r.staff_service_id as int,
            d.staff_services.last(),
            b,
        ),
        Change::Service(c) => lemma_ordered_push(db.services, |r: Service| r.service_id as int, d.services.last(), b),
        Change::ServiceVariant(c) => lemma_ordered_push(
            db.service_variants,
            |r: ServiceVariant| r.service_variant_id as int,
            d.service_variants.last(),
            b,
        ),
        Change::BlockExtraTime(c) => lemma_ordered_push(
            db.block_extra_times,
            |r: BlockExtraTime| r.block_extra_time_id as int,
            d.block_extra_times.last(),
            b,
        ),
    }
}

/// Inserting rows keeps the tables ordered, where their keys fit the key type.
pub proof fn lemma_insert_all_keeps_keys_ordered(db: Tables, cs: Seq<Change>)
    requires
        db.keys_ordered(),
        i32::MIN <= db.next_key,
        db.next_key + cs.len() <= i32::MAX + 1,
    ensures
        insert_all(db, cs).keys_ordered(),
    decreases cs.len(),
{
    if cs.len() > 0 {
        lemma_insert_one_keeps_keys_ordered(db, cs[0]);
        lemma_insert_all_keeps_keys_ordered(insert_one(db, cs[0]), cs.drop_first());
    }
}

/// Every statement keeps the tables in ascending key order, with every key
/// below `next_key`; an insert, where the keys it gives fit the key type.
pub proof fn lemma_statement_keeps_keys_ordered(db: Tables, s: Statement)
    requires
        db.keys_ordered(),
        s matches Statement::Insert(cs) ==> i32::MIN <= db.next_key && db.next_key + cs@.len() <= i32::MAX + 1,
    ensures
        after(db, s).keys_ordered(),
{
    match s {
        Statement::Select(_, _) => {},
        Statement::Insert(cs) => lemma_insert_all_keeps_keys_ordered(db, cs@),
        Statement::Update(f, c) => match c {
            Change::Store(c) => lemma_ordered_map(
                db.stores,
                |r: Store| r.store_id as int,
                db.next_key,
                |r: Store| if picks_store(f, r) { changed_store(r, c) } else { r },
            ),
            Change::StoreAddress(c) => lemma_ordered_map(
                db.store_addresses,
                |r: StoreAddress| r.store_address_id as int,
                db.next_key,
                |r: StoreAddress| if picks_store_address(f, r) { changed_store_address(r, c) } else { r },
            ),
            Change::StoreHours(c) => lemma_ordered_map(
                db.store_hours,
                |r: StoreHours| r.store_hours_id as int,
                db.next_key,
                |r: StoreHours| if picks_store_hours(f, r) { changed_store_hours(r, c) } else { r },
            ),
            Change::Staff(c) => lemma_ordered_map(
                db.staff,
                |r: Staff| r.staff_id as int,
                db.next_key,
                |r: Staff| if picks_staff(f, r) { changed_staff(r, c) } else { r },
            ),
            Change::StaffHours(c) => lemma_ordered_map(
                db.staff_hours,
                |r: StaffHours| r.staff_hours_id as int,
                db.next_key,
                |r: StaffHours| if picks_staff_hours(f, r) { changed_staff_hours(r, c) } else { r },
            ),
            Change::StaffService(c) => lemma_ordered_map(
                db.staff_services,
                |r: StaffService| r.staff_service_id as int,
                db.next_key,
                |r: StaffService| if picks_staff_service(f, r) { changed_staff_service(r, c) } else { r },
            ),
            Change::Service(c) => lemma_ordered_map(
                db.services,
                |r: Service| r.service_id as int,
                db.next_key,
                |r: Service| if picks_service(f, r) { changed_service(r, c) } else { r },
            ),
            Change::ServiceVariant(c) => lemma_ordered_map(
                db.service_variants,
                |r: ServiceVariant| r.service_variant_id as int,
                db.next_key,
                |r: ServiceVariant| if picks_service_variant(f, r) { changed_service_variant(r, c) } else { r },
            ),
            Change::BlockExtraTime(c) => lemma_ordered_map(
                db.block_extra_times,
                |r: BlockExtraTime| r.block_extra_time_id as int,
                db.next_key,
                |r: BlockExtraTime| if picks_block_extra_time(f, r) { changed_block_extra_time(r, c) } else { r },
            ),
        },
        Statement::Delete(t, f) => match t {
            Table::Store => lemma_ordered_filter(
                db.stores,
                |r: Store| r.store_id as int,
                db.next_key,
                |r: Store| !picks_store(f, r),
            ),
            Table::StoreAddress => lemma_ordered_filter(
                db.store_addresses,
                |r: StoreAddress| r.store_address_id as int,
                db.next_key,
                |r: StoreAddress| !picks_store_address(f, r),
            ),
            Table::StoreHours => lemma_ordered_filter(
                db.store_hours,
                |r: StoreHours| r.store_hours_id as int,
                db.next_key,
                |r: StoreHours| !picks_store_hours(f, r),
            ),
            Table::Staff => lemma_ordered_filter(
                db.staff,
                |r: Staff| r.staff_id as int,
                db.next_key,
                |r: Staff| !picks_staff(f, r),
            ),
            Table::StaffHours => lemma_ordered_filter(
                db.staff_hours,
                |r: StaffHours| r.staff_hours_id as int,
                db.next_key,
                |r: StaffHours| !picks_staff_hours(f, r),
            ),
            Table::StaffService => lemma_ordered_filter(
                db.staff_services,
                |r: StaffService| r.staff_service_id as int,
                db.next_key,
                |r: StaffService| !picks_staff_service(f, r),
            ),
            Table::Service => lemma_ordered_filter(
                db.services,
                |r: Service| r.service_id as int,
                db.next_key,
                |r: Service| !picks_service(f, r),
            ),
            Table::ServiceVariant => lemma_ordered_filter(
                db.service_variants,
                |r: ServiceVariant| r.service_variant_id as int,
                db.next_key,
                |r: ServiceVariant| !picks_service_variant(f, r),
            ),
            Table::BlockExtraTime => lemma_ordered_filter(
                db.block_extra_times,
                |r: BlockExtraTime| r.block_extra_time_id as int,
                db.next_key,
                |r: BlockExtraTime| !picks_block_extra_time(f, r),
            ),
        },
    }
}

/// Inserting one change is one `insert_one`.
pub proof fn lemma_insert_single(db: Tables, c: Change)
    ensures
        insert_all(db, seq![c]) == insert_one(db, c),
{
    assert(seq![c].drop_first() =~= Seq::<Change>::empty());
    assert(insert_all(db, seq![c]) == insert_all(insert_one(db, c), Seq::<Change>::empty()));
}

/// An insert moves the key counter past the keys it gave, and leaves each
/// table that none of its changes goes to as it was.
pub proof fn lemma_insert_frame(db: Tables, cs: Seq<Change>)
    ensures
        insert_all(db, cs).next_key == db.next_key + cs.len(),
        (forall|i: int| 0 <= i < cs.len() ==> !(#[trigger] cs[i] is Store)) ==> insert_all(db, cs).stores == db.stores,
        (forall|i: int| 0 <= i < cs.len() ==> !(#[trigger] cs[i] is Service)) ==> insert_all(db, cs).services
            == db.services,
        (forall|i: int| 0 <= i < cs.len() ==> !(#[trigger] cs[i] is BlockExtraTime)) ==> insert_all(
            db,
            cs,
        ).block_extra_times == db.block_extra_times,
    decreases cs.len(),
{
    if cs.len() > 0 {
        let rest = cs.drop_first();
        lemma_insert_frame(insert_one(db, cs[0]), rest);
        assert forall|i: int| 0 <= i < rest.len() implies #[trigger] rest[i] == cs[i + 1] by {}
    }
}

/// Inserting store hours rows only appends one row for each, with the keys in order.
pub proof fn lemma_insert_store_hours(db: Tables, cs: Seq<Change>)
    requires
        forall|i: int| 0 <= i < cs.len() ==> #[trigger] cs[i] is StoreHours,
    ensures
        insert_all(db, cs).store_hours == db.store_hours + Seq::new(
            cs.len(),
            |i: int| new_store_hours((db.next_key + i) as i32, cs[i]->StoreHours_0),
        ),
    decreases cs.len(),
{
    let new = Seq::new(cs.len(), |i: int| new_store_hours((db.next_key + i) as i32, cs[i]->StoreHours_0));
    if cs.len() == 0 {
        assert(db.store_hours + new =~= db.store_hours);
    } else {
        let rest = cs.drop_first();
        let d1 = insert_one(db, cs[0]);
        assert forall|i: int| 0 <= i < rest.len() implies #[trigger] rest[i] is StoreHours by {
            assert(rest[i] == cs[i + 1]);
        }
        lemma_insert_store_hours(d1, rest);
        assert(insert_all(d1, rest).store_hours =~= db.store_hours + new);
    }
}

/// Inserting staff hours rows only appends one row for each, with the keys in order.
pub proof fn lemma_insert_staff_hours(db: Tables, cs: Seq<Change>)
    requires
        forall|i: int| 0 <= i < cs.len() ==> #[trigger] cs[i] is StaffHours,
    ensures
        insert_all(db, cs).staff_hours == db.staff_hours + Seq::new(
            cs.len(),
            |i: int| new_staff_hours((db.next_key + i) as i32, cs[i]->StaffHours_0),
        ),
    decreases cs.len(),
{
    let new = Seq::new(cs.len(), |i: int| new_staff_hours((db.next_key + i) as i32, cs[i]->StaffHours_0));
    if cs.len() == 0 {
        assert(db.staff_hours + new =~= db.staff_hours);
    } else {
        let rest = cs.drop_first();
        let d1 = insert_one(db, cs[0]);
        assert forall|i: int| 0 <= i < rest.len() implies #[trigger] rest[i] is StaffHours by {
            assert(rest[i] == cs[i + 1]);
        }
        lemma_insert_staff_hours(d1, rest);
        assert(insert_all(d1, rest).staff_hours =~= db.staff_hours + new);
    }
}

/// Inserting variant rows only appends one row for each, with the keys in order.
pub proof fn lemma_insert_service_variants(db: Tables, cs: Seq<Change>)
    requires
        forall|i: int| 0 <= i < cs.len() ==> #[trigger] cs[i] is ServiceVariant,
    ensures
        insert_all(db, cs).service_variants == db.service_variants + Seq::new(
            cs.len(),
            |i: int| new_service_variant((db.next_key + i) as i32, cs[i]->ServiceVariant_0),
        ),
    decreases cs.len(),
{
    let new = Seq::new(cs.len(), |i: int| new_service_variant((db.next_key + i) as i32, cs[i]->ServiceVariant_0));
    if cs.len() == 0 {
        assert(db.service_variants + new =~= db.service_variants);
    } else {
        let rest = cs.drop_first();
        let d1 = insert_one(db, cs[0]);
        assert forall|i: int| 0 <= i < rest.len() implies #[trigger] rest[i] is ServiceVariant by {
            assert(rest[i] == cs[i + 1]);
        }
        lemma_insert_service_variants(d1, rest);
        assert(insert_all(d1, rest).service_variants =~= db.service_variants + new);
    }
}

/// Inserting assignment rows only appends one row for each, with the keys in order.
pub proof fn lemma_insert_staff_services(db: Tables, cs: Seq<Change>)
    requires
        forall|i: int| 0 <= i < cs.len() ==> #[trigger] cs[i] is StaffService,
    ensures
        insert_all(db, cs).staff_services == db.staff_services + Seq::new(
            cs.len(),
            |i: int| new_staff_service((db.next_key + i) as i32, cs[i]->StaffService_0, db.assignment_service_default),
        ),
    decreases cs.len(),
{
    let new = Seq::new(cs.len(), |i: int| new_staff_service((db.next_key + i) as i32, cs[i]->StaffService_0, db.assignment_service_default));
    if cs.len() == 0 {
        assert(db.staff_services + new =~= db.staff_services);
    } else {
        let rest = cs.drop_first();
        let d1 = insert_one(db, cs[0]);
        assert forall|i: int| 0 <= i < rest.len() implies #[trigger] rest[i] is StaffService by {
            assert(rest[i] == cs[i + 1]);
        }
        lemma_insert_staff_services(d1, rest);
        assert(insert_all(d1, rest).staff_services =~= db.staff_services + new);
    }
}

/// A new store gets a week of hours. After `create` from well-formed
/// tables, the new store has seven hours rows, one for each day of the week
/// in order, with no opening or closing time.
#[verifier::spinoff_prover]
pub proof fn lemma_store_create_seeds_week(db: Tables, a: StoreCreate, steps: Seq<Step<Store>>, replies: Seq<Reply>)
    requires
        db.wf(),
        is_run(db, |rs: Seq<Reply>, st: Step<Store>| Store::create_step(a, rs, st), steps, replies),
    ensures
        steps.last() matches Step::Done(s) && {
            let h = tables_after(db, steps).store_hours.filter(
                |r: StoreHours| picks_store_hours(Filter::Owner(s.store_id), r),
            );
            &&& h.len() == DAYS_PER_WEEK
            &&& forall|d: int|
                0 <= d < DAYS_PER_WEEK ==> (#[trigger] h[d]).store_id == s.store_id && h[d].day_of_week == d
                    && h[d].start_time is None && h[d].end_time is None
        },
{
    let plan = |rs: Seq<Reply>, st: Step<Store>| Store::create_step(a, rs, st);
    assert(replies.take(0) =~= Seq::<Reply>::empty());
    assert(plan(replies.take(0), steps[0]));
    assert(replies.len() >= 1);
    assert(tables_after(db, steps.take(0)) == db);
    assert(crate::model::answers(db, steps[0]->Run_0, replies[0]));
    let k = replies[0]->Keys_0@[0];
    assert(k == db.next_key);
    assert(replies.take(1) =~= seq![replies[0]]);
    assert(plan(replies.take(1), steps[1]));
    assert(replies.len() >= 2);
    assert(replies.take(2) =~= seq![replies[0], replies[1]]);
    assert(plan(replies.take(2), steps[2]));
    assert(steps[2] == Step::Done(Store { store_id: k, name: a.name }));
    assert(replies.len() == 2);
    lemma_tables_after_step(db, steps, 0);
    lemma_tables_after_step(db, steps, 1);
    lemma_tables_after_run(db, plan, steps, replies);
    let seeds = steps[1]->Run_0->Insert_0@;
    assert(seeds == week_of_store_hours(k));
    lemma_insert_single(db, Change::Store(a));
    let d1 = insert_one(db, Change::Store(a));
    assert forall|i: int| 0 <= i < seeds.len() implies #[trigger] seeds[i] is StoreHours by {}
    lemma_insert_store_hours(d1, seeds);
    let new = Seq::new(seeds.len(), |i: int| new_store_hours((d1.next_key + i) as i32, seeds[i]->StoreHours_0));
    let p = |r: StoreHours| picks_store_hours(Filter::Owner(k), r);
    assert(tables_after(db, steps).store_hours == db.store_hours + new);
    Seq::filter_distributes_over_add(db.store_hours, new, p);
    assert forall|i: int| 0 <= i < db.store_hours.len() implies !p(#[trigger] db.store_hours[i]) by {}
    lemma_filter_keeps_none(db.store_hours, p);
    assert forall|i: int| 0 <= i < new.len() implies p(#[trigger] new[i]) by {}
    lemma_filter_keeps_all(new, p);
    assert(db.store_hours.filter(p) + new =~= new);
}

/// A new staff member gets a week of hours. After `create` from well-formed
/// tables, the new member has seven hours rows, one for each day of the week
/// in order, with no start or end time.
#[verifier::spinoff_prover]
pub proof fn lemma_staff_create_seeds_week(db: Tables, a: StaffCreate, steps: Seq<Step<Staff>>, replies: Seq<Reply>)
    requires
        db.wf(),
        is_run(db, |rs: Seq<Reply>, st: Step<Staff>| Staff::create_step(a, rs, st), steps, replies),
    ensures
        steps.last() matches Step::Done(s) && {
            let h = tables_after(db, steps).staff_hours.filter(
                |r: StaffHours| picks_staff_hours(Filter::Owner(s.staff_id), r),
            );
            &&& h.len() == DAYS_PER_WEEK
            &&& forall|d: int|
                0 <= d < DAYS_PER_WEEK ==> (#[trigger] h[d]).staff_id == s.staff_id && h[d].day_of_week == d
                    && h[d].start_time is None && h[d].end_time is None
        },
{
    let plan = |rs: Seq<Reply>, st: Step<Staff>| Staff::create_step(a, rs, st);
    assert(replies.take(0) =~= Seq::<Reply>::empty());
    assert(plan(replies.take(0), steps[0]));
    assert(replies.len() >= 1);
    assert(tables_after(db, steps.take(0)) == db);
    assert(crate::model::answers(db, steps[0]->Run_0, replies[0]));
    let k = replies[0]->Keys_0@[0];
    assert(k == db.next_key);
    assert(replies.take(1) =~= seq![replies[0]]);
    assert(plan(replies.take(1), steps[1]));
    assert(replies.len() >= 2);
    assert(replies.take(2) =~= seq![replies[0], replies[1]]);
    assert(plan(replies.take(2), steps[2]));
    assert(steps[2] == Step::Done(new_staff(k, a)));
    assert(replies.len() == 2);
    lemma_tables_after_step(db, steps, 0);
    lemma_tables_after_step(db, steps, 1);
    lemma_tables_after_run(db, plan, steps, replies);
    let seeds = steps[1]->Run_0->Insert_0@;
    assert(seeds == week_of_staff_hours(k));
    lemma_insert_single(db, Change::Staff(a));
    let d1 = insert_one(db, Change::Staff(a));
    assert forall|i: int| 0 <= i < seeds.len() implies #[trigger] seeds[i] is StaffHours by {}
    lemma_insert_staff_hours(d1, seeds);
    let new = Seq::new(seeds.len(), |i: int| new_staff_hours((d1.next_key + i) as i32, seeds[i]->StaffHours_0));
    let p = |r: StaffHours| picks_staff_hours(Filter::Owner(k), r);
    assert(tables_after(db, steps).staff_hours == db.staff_hours + new);
    Seq::filter_distributes_over_add(db.staff_hours, new, p);
    assert forall|i: int| 0 <= i < db.staff_hours.len() implies !p(#[trigger] db.staff_hours[i]) by {}
    lemma_filter_keeps_none(db.staff_hours, p);
    assert forall|i: int| 0 <= i < new.len() implies p(#[trigger] new[i]) by {}
    lemma_filter_keeps_all(new, p);
    assert(db.staff_hours.filter(p) + new =~= new);
}

/// A new service is found whole. Run `create` of a service from
/// well-formed tables, then `find` of the new service from the tables that
/// `create` left: `create` finishes, and `find` returns the service with one
/// variant for each variant given, in order, and the blocking window given,
/// which is the only one the service has.
pub proof fn lemma_service_create_then_find(
    db: Tables,
    g: GenerateService,
    s1: Seq<Step<Service>>,
    r1: Seq<Reply>,
    s2: Seq<Step<FullService>>,
    r2: Seq<Reply>,
)
    requires
        db.wf(),
        is_run(db, |rs: Seq<Reply>, st: Step<Service>| Service::create_step(g, rs, st), s1, r1),
        is_run(
            tables_after(db, s1),
            |rs: Seq<Reply>, st: Step<FullService>| Service::find_step(s1.last()->Done_0.service_id, rs, st),
            s2,
            r2,
        ),
    ensures
        s1.last() matches Step::Done(s) && s2.last() matches Step::Done(f) && {
            &&& f.service == s
            &&& f.variants.len() == g.variants.len()
            &&& forall|i: int|
                0 <= i < g.variants.len() ==> (#[trigger] f.variants@[i]).service_id == s.service_id
                    && f.variants@[i].price_bits == g.variants@[i].price_bits && f.variants@[i].duration
                    == g.variants@[i].duration
            &&& f.blocked_time.service_id == s.service_id
            &&& f.blocked_time.before_time == g.before_time
            &&& f.blocked_time.after_time == g.after_time
            &&& count_rows(tables_after(db, s1), Table::BlockExtraTime, Filter::Owner(s.service_id)) == 1
        },
{
    let plan = |rs: Seq<Reply>, st: Step<Service>| Service::create_step(g, rs, st);
    assert(r1.take(0) =~= Seq::<Reply>::empty());
    assert(plan(r1.take(0), s1[0]));
    assert(r1.len() >= 1);
    assert(tables_after(db, s1.take(0)) == db);
    assert(crate::model::answers(db, s1[0]->Run_0, r1[0]));
    let k = r1[0]->Keys_0@[0];
    assert(k == db.next_key);
    assert(r1.take(1) =~= seq![r1[0]]);
    assert(plan(r1.take(1), s1[1]));
    assert(r1.len() >= 2);
    lemma_tables_after_step(db, s1, 0);
    assert(crate::model::answers(tables_after(db, s1.take(1)), s1[1]->Run_0, r1[1]));
    assert(r1.take(2) =~= seq![r1[0], r1[1]]);
    assert(plan(r1.take(2), s1[2]));
    assert(r1.len() >= 3);
    lemma_tables_after_step(db, s1, 1);
    assert(r1.take(3) =~= seq![r1[0], r1[1], r1[2]]);
    assert(plan(r1.take(3), s1[3]));
    assert(r1.len() == 3);
    lemma_tables_after_step(db, s1, 2);
    lemma_tables_after_run(db, plan, s1, r1);
    let svc = Service { service_id: k, name: g.name, description: g.description, is_active: g.is_active, category: g.category };
    assert(s1[3] == Step::Done(svc));
    let block = BlockExtraTime {
        block_extra_time_id: (db.next_key + 1) as i32,
        service_id: k,
        before_time: g.before_time,
        after_time: g.after_time,
    };
    lemma_insert_single(db, s1[0]->Run_0->Insert_0@[0]);
    let d1 = tables_after(db, s1.take(1));
    assert(d1.services == db.services.push(svc));
    lemma_insert_single(d1, s1[1]->Run_0->Insert_0@[0]);
    let d2 = tables_after(db, s1.take(2));
    assert(d2.block_extra_times == db.block_extra_times.push(block));
    assert(d2.service_variants == db.service_variants);
    assert(d2.next_key == db.next_key + 2);
    let cs = s1[2]->Run_0->Insert_0@;
    assert(cs == variant_changes(k, g.variants@));
    assert forall|i: int| 0 <= i < cs.len() implies #[trigger] cs[i] is ServiceVariant by {}
    lemma_insert_frame(d2, cs);
    lemma_insert_service_variants(d2, cs);
    let d3 = tables_after(db, s1);
    let new = Seq::new(cs.len(), |i: int| new_service_variant((d2.next_key + i) as i32, cs[i]->ServiceVariant_0));
    assert(d3.services == db.services.push(svc));
    assert(d3.block_extra_times == db.block_extra_times.push(block));
    assert(d3.service_variants == db.service_variants + new);

    // the blocking windows of the new service: the one inserted
    let pb = |x: BlockExtraTime| picks_block_extra_time(Filter::Owner(k), x);
    assert forall|i: int| 0 <= i < db.block_extra_times.len() implies !pb(#[trigger] db.block_extra_times[i]) by {}
    lemma_filter_keeps_none(db.block_extra_times, pb);
    db.block_extra_times.lemma_filter_push(block, pb);
    assert(d3.block_extra_times.filter(pb) =~= seq![block]);
    // the variants of the new service: the ones inserted
    let pv = |x: ServiceVariant| picks_service_variant(Filter::Owner(k), x);
    Seq::filter_distributes_over_add(db.service_variants, new, pv);
    assert forall|i: int| 0 <= i < db.service_variants.len() implies !pv(#[trigger] db.service_variants[i]) by {}
    lemma_filter_keeps_none(db.service_variants, pv);
    assert forall|i: int| 0 <= i < new.len() implies pv(#[trigger] new[i]) by {}
    lemma_filter_keeps_all(new, pv);
    assert(d3.service_variants.filter(pv) =~= new);

    let lookup = |rs: Seq<Reply>, st: Step<FullService>| Service::find_step(k, rs, st);
    let ps = |x: Service| picks_service(Filter::Key(k), x);
    assert(r2.take(0) =~= Seq::<Reply>::empty());
    assert(lookup(r2.take(0), s2[0]));
    assert(r2.len() >= 1);
    assert(tables_after(d3, s2.take(0)) == d3);
    assert(crate::model::answers(d3, s2[0]->Run_0, r2[0]));
    d3.services.lemma_filter_contains(ps, d3.services.len() - 1);
    assert(r2.take(1) =~= seq![r2[0]]);
    assert(lookup(r2.take(1), s2[1]));
    assert(r2.len() >= 2);
    lemma_tables_after_step(d3, s2, 0);
    assert(crate::model::answers(d3, s2[1]->Run_0, r2[1]));
    assert(r2.take(2) =~= seq![r2[0], r2[1]]);
    assert(lookup(r2.take(2), s2[2]));
    assert(r2.len() >= 3);
    lemma_tables_after_step(d3, s2, 1);
    assert(crate::model::answers(d3, s2[2]->Run_0, r2[2]));
    assert(r2.take(3) =~= seq![r2[0], r2[1], r2[2]]);
    assert(lookup(r2.take(3), s2[3]));
    assert(r2.len() == 3);
    let w = d3.services.filter(ps);
    d3.services.lemma_filter_pred(ps, 0);
    assert(w.contains(w[0]));
    d3.services.lemma_filter_contains_rev(ps, w[0]);
    assert(forall|j: int| 0 <= j < db.services.len() ==> #[trigger] db.services[j].service_id != k);
    assert(w[0] == svc);
}

/// Replacing a staff member's assignments leaves exactly the new ones. After
/// `update_staff_services` of the member `staff_id` with a list whose entries
/// name that member, the member has one assignment for each entry, in
/// order, with the entry's variant and activity, and no other.
pub proof fn lemma_staff_services_replaced(
    db: Tables,
    staff_id: i32,
    updated: Seq<StaffServiceCreate>,
    steps: Seq<Step<()>>,
    replies: Seq<Reply>,
)
    requires
        forall|i: int| 0 <= i < updated.len() ==> (#[trigger] updated[i]).staff_id == staff_id,
        is_run(db, |rs: Seq<Reply>, st: Step<()>| Staff::update_staff_services_step(staff_id, updated, rs, st), steps, replies),
    ensures
        steps.last() == Step::Done(()),
        ({
            let a = tables_after(db, steps).staff_services.filter(
                |x: StaffService| picks_staff_service(Filter::Owner(staff_id), x),
            );
            &&& a.len() == updated.len()
            &&& forall|i: int|
                0 <= i < updated.len() ==> (#[trigger] a[i]).staff_id == staff_id && a[i].service_variant_id
                    == updated[i].service_variant_id && a[i].is_active == Some(updated[i].is_active)
        }),
{
    let plan = |rs: Seq<Reply>, st: Step<()>| Staff::update_staff_services_step(staff_id, updated, rs, st);
    assert(replies.take(0) =~= Seq::<Reply>::empty());
    assert(plan(replies.take(0), steps[0]));
    assert(replies.len() >= 1);
    assert(tables_after(db, steps.take(0)) == db);
    assert(crate::model::answers(db, steps[0]->Run_0, replies[0]));
    assert(replies.take(1) =~= seq![replies[0]]);
    assert(plan(replies.take(1), steps[1]));
    assert(replies.len() >= 2);
    lemma_tables_after_step(db, steps, 0);
    assert(crate::model::answers(tables_after(db, steps.take(1)), steps[1]->Run_0, replies[1]));
    assert(replies.take(2) =~= seq![replies[0], replies[1]]);
    assert(plan(replies.take(2), steps[2]));
    assert(replies.len() == 2);
    lemma_tables_after_step(db, steps, 1);
    lemma_tables_after_run(db, plan, steps, replies);
    let d1 = tables_after(db, steps.take(1));
    let p = |x: StaffService| picks_staff_service(Filter::Owner(staff_id), x);
    let n = |x: StaffService| !picks_staff_service(Filter::Owner(staff_id), x);
    assert(d1.staff_services == db.staff_services.filter(n));
    let cs = steps[1]->Run_0->Insert_0@;
    assert(cs == assignment_changes(updated));
    assert forall|i: int| 0 <= i < cs.len() implies #[trigger] cs[i] is StaffService by {}
    lemma_insert_staff_services(d1, cs);
    let new = Seq::new(cs.len(), |i: int| new_staff_service((d1.next_key + i) as i32, cs[i]->StaffService_0, d1.assignment_service_default));
    assert(tables_after(db, steps).staff_services == d1.staff_services + new);
    Seq::filter_distributes_over_add(d1.staff_services, new, p);
    lemma_filter_removed(db.staff_services, p, n);
    assert forall|i: int| 0 <= i < new.len() implies p(#[trigger] new[i]) by {}
    lemma_filter_keeps_all(new, p);
    assert(d1.staff_services.filter(p) + new =~= new);
}

/// Setting the hours of one day touches no other row. After `update_hours`
/// of staff hours with the one entry `entry`, the hours row of the entry's
/// member and day has the entry's times (a time not given stays as it was),
/// and every other hours row is as it was.
pub proof fn lemma_staff_hours_update_one_day(
    db: Tables,
    entry: StaffHoursCreate,
    steps: Seq<Step<()>>,
    replies: Seq<Reply>,
)
    requires
        is_run(db, |rs: Seq<Reply>, st: Step<()>| Staff::update_hours_step(seq![entry], rs, st), steps, replies),
    ensures
        steps.last() == Step::Done(()),
        tables_after(db, steps).staff_hours.len() == db.staff_hours.len(),
        forall|i: int|
            0 <= i < db.staff_hours.len() ==> #[trigger] tables_after(db, steps).staff_hours[i] == if db.staff_hours[i].staff_id
                == entry.staff_id && db.staff_hours[i].day_of_week == entry.day_of_week {
                changed_staff_hours(db.staff_hours[i], entry)
            } else {
                db.staff_hours[i]
            },
{
    let plan = |rs: Seq<Reply>, st: Step<()>| Staff::update_hours_step(seq![entry], rs, st);
    assert(replies.take(0) =~= Seq::<Reply>::empty());
    assert(plan(replies.take(0), steps[0]));
    assert(replies.len() >= 1);
    assert(tables_after(db, steps.take(0)) == db);
    assert(crate::model::answers(db, steps[0]->Run_0, replies[0]));
    assert(replies[0] is StaffHours);
    assert(replies.take(1) =~= seq![replies[0]]);
    assert(plan(replies.take(1), steps[1]));
    assert(steps[1] == Step::Done(()));
    assert(replies.len() == 1);
    lemma_tables_after_step(db, steps, 0);
    lemma_tables_after_run(db, plan, steps, replies);
}

/// Listing the stores gives every store, in ascending key order. A run of
/// `find_all` on tables in key order finishes with the store rows, each key
/// below the next.
pub proof fn lemma_store_find_all_in_key_order(db: Tables, steps: Seq<Step<Vec<Store>>>, replies: Seq<Reply>)
    requires
        db.keys_ordered(),
        is_run(db, |rs: Seq<Reply>, st: Step<Vec<Store>>| Store::find_all_step(rs, st), steps, replies),
    ensures
        steps.last() matches Step::Done(v) && v@ == db.stores && forall|i: int, j: int|
            0 <= i < j < v@.len() ==> (#[trigger] v@[i]).store_id < (#[trigger] v@[j]).store_id,
{
    let plan = |rs: Seq<Reply>, st: Step<Vec<Store>>| Store::find_all_step(rs, st);
    assert(replies.take(0) =~= Seq::<Reply>::empty());
    assert(plan(replies.take(0), steps[0]));
    assert(replies.len() >= 1);
    assert(tables_after(db, steps.take(0)) == db);
    assert(crate::model::answers(db, steps[0]->Run_0, replies[0]));
    lemma_filter_keeps_all(db.stores, |x: Store| picks_store(Filter::All, x));
    assert(replies.take(1) =~= seq![replies[0]]);
    assert(plan(replies.take(1), steps[1]));
    assert(replies.len() == 1);
    let v = replies[0]->Stores_0;
    assert(v@ == db.stores);
    assert forall|i: int, j: int| 0 <= i < j < v@.len() implies (#[trigger] v@[i]).store_id < (#[trigger] v@[j]).store_id by {
        assert(db.stores[i] == v@[i] && db.stores[j] == v@[j]);
    }
}

/// Listing the stores with their hours gives every store, in ascending key
/// order, each with its own hours rows in ascending key order. A run of
/// `find_all_store_hours` on tables in key order finishes with one entry
/// for each store row, in table order.
pub proof fn lemma_store_hours_listing_in_key_order(
    db: Tables,
    steps: Seq<Step<Vec<StoreWithHours>>>,
    replies: Seq<Reply>,
)
    requires
        db.keys_ordered(),
        is_run(
            db,
            |rs: Seq<Reply>, st: Step<Vec<StoreWithHours>>| Store::find_all_store_hours_step(rs, st),
            steps,
            replies,
        ),
    ensures
        steps.last() matches Step::Done(out) && {
            &&& stores_with_hours(db.stores, db.store_hours, out@)
            &&& forall|i: int, j: int|
                0 <= i < j < out@.len() ==> (#[trigger] out@[i]).store.store_id < (#[trigger] out@[j]).store.store_id
            &&& forall|i: int|
                0 <= i < out@.len() ==> ordered(
                    (#[trigger] out@[i]).store_hours@,
                    |r: StoreHours| r.store_hours_id as int,
                    db.next_key,
                )
        },
{
    let plan = |rs: Seq<Reply>, st: Step<Vec<StoreWithHours>>| Store::find_all_store_hours_step(rs, st);
    assert(replies.take(0) =~= Seq::<Reply>::empty());
    assert(plan(replies.take(0), steps[0]));
    assert(replies.len() >= 1);
    assert(tables_after(db, steps.take(0)) == db);
    assert(crate::model::answers(db, steps[0]->Run_0, replies[0]));
    lemma_filter_keeps_all(db.stores, |x: Store| picks_store(Filter::All, x));
    assert(replies.take(1) =~= seq![replies[0]]);
    assert(plan(replies.take(1), steps[1]));
    assert(replies.len() >= 2);
    lemma_tables_after_step(db, steps, 0);
    assert(crate::model::answers(db, steps[1]->Run_0, replies[1]));
    lemma_filter_keeps_all(db.store_hours, |x: StoreHours| picks_store_hours(Filter::All, x));
    assert(replies.take(2) =~= seq![replies[0], replies[1]]);
    assert(plan(replies.take(2), steps[2]));
    assert(replies.len() == 2);
    let out = steps[2]->Done_0;
    assert forall|i: int, j: int|
        0 <= i < j < out@.len() implies (#[trigger] out@[i]).store.store_id < (#[trigger] out@[j]).store.store_id by {
        assert(db.stores[i] == out@[i].store && db.stores[j] == out@[j].store);
    }
    assert forall|i: int| 0 <= i < out@.len() implies ordered(
        (#[trigger] out@[i]).store_hours@,
        |r: StoreHours| r.store_hours_id as int,
        db.next_key,
    ) by {
        lemma_ordered_filter(
            db.store_hours,
            |r: StoreHours| r.store_hours_id as int,
            db.next_key,
            |h: StoreHours| h.store_id == db.stores[i].store_id,
        );
    }
}

/// Listing the staff gives every member, in ascending key order. A run of
/// `find_all` on tables in key order finishes with the staff rows, each key
/// below the next.
pub proof fn lemma_staff_find_all_in_key_order(db: Tables, steps: Seq<Step<Vec<Staff>>>, replies: Seq<Reply>)
    requires
        db.keys_ordered(),
        is_run(db, |rs: Seq<Reply>, st: Step<Vec<Staff>>| Staff::find_all_step(rs, st), steps, replies),
    ensures
        steps.last() matches Step::Done(v) && v@ == db.staff && forall|i: int, j: int|
            0 <= i < j < v@.len() ==> (#[trigger] v@[i]).staff_id < (#[trigger] v@[j]).staff_id,
{
    let plan = |rs: Seq<Reply>, st: Step<Vec<Staff>>| Staff::find_all_step(rs, st);
    assert(replies.take(0) =~= Seq::<Reply>::empty());
    assert(plan(replies.take(0), steps[0]));
    assert(replies.len() >= 1);
    assert(tables_after(db, steps.take(0)) == db);
    assert(crate::model::answers(db, steps[0]->Run_0, replies[0]));
    lemma_filter_keeps_all(db.staff, |x: Staff| picks_staff(Filter::All, x));
    assert(replies.take(1) =~= seq![replies[0]]);
    assert(plan(replies.take(1), steps[1]));
    assert(replies.len() == 1);
    let v = replies[0]->Staff_0;
    assert(v@ == db.staff);
    assert forall|i: int, j: int| 0 <= i < j < v@.len() implies (#[trigger] v@[i]).staff_id < (#[trigger] v@[j]).staff_id by {
        assert(db.staff[i] == v@[i] && db.staff[j] == v@[j]);
    }
}

/// Listing the staff with their hours gives every member, in ascending key
/// order, each with their own hours rows in ascending key order. A run of
/// `find_all_staff_hours` on tables in key order finishes with one entry
/// for each staff row, in table order.
pub proof fn lemma_staff_hours_listing_in_key_order(
    db: Tables,
    steps: Seq<Step<Vec<StaffWithHours>>>,
    replies: Seq<Reply>,
)
    requires
        db.keys_ordered(),
        is_run(
            db,
            |rs: Seq<Reply>, st: Step<Vec<StaffWithHours>>| Staff::find_all_staff_hours_step(rs, st),
            steps,
            replies,
        ),
    ensures
        steps.last() matches Step::Done(out) && {
            &&& staff_with_hours(db.staff, db.staff_hours, out@)
            &&& forall|i: int, j: int|
                0 <= i < j < out@.len() ==> (#[trigger] out@[i]).staff.staff_id < (#[trigger] out@[j]).staff.staff_id
            &&& forall|i: int|
                0 <= i < out@.len() ==> ordered(
                    (#[trigger] out@[i]).staff_hours@,
                    |r: StaffHours| r.staff_hours_id as int,
                    db.next_key,
                )
        },
{
    let plan = |rs: Seq<Reply>, st: Step<Vec<StaffWithHours>>| Staff::find_all_staff_hours_step(rs, st);
    assert(replies.take(0) =~= Seq::<Reply>::empty());
    assert(plan(replies.take(0), steps[0]));
    assert(replies.len() >= 1);
    assert(tables_after(db, steps.take(0)) == db);
    assert(crate::model::answers(db, steps[0]->Run_0, replies[0]));
    lemma_filter_keeps_all(db.staff, |x: Staff| picks_staff(Filter::All, x));
    assert(replies.take(1) =~= seq![replies[0]]);
    assert(plan(replies.take(1), steps[1]));
    assert(replies.len() >= 2);
    lemma_tables_after_step(db, steps, 0);
    assert(crate::model::answers(db, steps[1]->Run_0, replies[1]));
    lemma_filter_keeps_all(db.staff_hours, |x: StaffHours| picks_staff_hours(Filter::All, x));
    assert(replies.take(2) =~= seq![replies[0], replies[1]]);
    assert(plan(replies.take(2), steps[2]));
    assert(replies.len() == 2);
    let out = steps[2]->Done_0;
    assert forall|i: int, j: int|
        0 <= i < j < out@.len() implies (#[trigger] out@[i]).staff.staff_id < (#[trigger] out@[j]).staff.staff_id by {
        assert(db.staff[i] == out@[i].staff && db.staff[j] == out@[j].staff);
    }
    assert forall|i: int| 0 <= i < out@.len() implies ordered(
        (#[trigger] out@[i]).staff_hours@,
        |r: StaffHours| r.staff_hours_id as int,
        db.next_key,
    ) by {
        lemma_ordered_filter(
            db.staff_hours,
            |r: StaffHours| r.staff_hours_id as int,
            db.next_key,
            |h: StaffHours| h.staff_id == db.staff[i].staff_id,
        );
    }
}

/// An operation that ends at its first failed reply is all or nothing. A
/// run in which the store may fail leaves the tables it began with, or the
/// operation finished, no statement failed, and the tables are those the
/// statements made.
pub proof fn lemma_all_or_nothing<T>(
    db: Tables,
    plan: spec_fn(Seq<Reply>, Step<T>) -> bool,
    steps: Seq<Step<T>>,
    replies: Seq<Reply>,
)
    requires
        is_run_that_may_fail(db, plan, steps, replies),
        forall|i: int| 0 <= i < replies.len() && (#[trigger] replies[i]) is Failed ==> steps[i + 1] is Fail,
    ensures
        committed(db, steps) == db || (steps.last() is Done && is_run(db, plan, steps, replies) && committed(
            db,
            steps,
        ) == tables_after(db, steps)),
{
    if steps.last() is Done {
        assert forall|i: int| 0 <= i < replies.len() implies !(#[trigger] replies[i] is Failed) by {
            if replies[i] is Failed {
                assert(steps[i + 1] is Fail);
                if i + 1 < replies.len() {
                    assert(steps[i + 1] is Run);
                }
            }
        }
        assert forall|i: int| 0 <= i < replies.len() implies (#[trigger] steps[i] matches Step::Run(s) && answers(
            tables_after(db, steps.take(i)),
            s,
            replies[i],
        )) by {
            assert(!(replies[i] is Failed));
        }
    }
}

/// Creating a store is all or nothing: a failed create leaves the tables as
/// they were; a finished one inserted the store and its week of hours.
pub proof fn lemma_store_create_all_or_nothing(db: Tables, a: StoreCreate, steps: Seq<Step<Store>>, replies: Seq<Reply>)
    requires
        is_run_that_may_fail(db, |rs: Seq<Reply>, st: Step<Store>| Store::create_step(a, rs, st), steps, replies),
    ensures
        committed(db, steps) == db || (steps.last() is Done && is_run(
            db,
            |rs: Seq<Reply>, st: Step<Store>| Store::create_step(a, rs, st),
            steps,
            replies,
        )),
{
    let plan = |rs: Seq<Reply>, st: Step<Store>| Store::create_step(a, rs, st);
    assert forall|i: int| 0 <= i < replies.len() && (#[trigger] replies[i]) is Failed implies steps[i + 1] is Fail by {
        assert(plan(replies.take(i + 1), steps[i + 1]));
        assert(replies.take(i + 1)[i] == replies[i]);
        if i >= 1 {
            assert(plan(replies.take(1), steps[1]));
            assert(steps[1] is Run);
            assert(replies.take(1)[0] == replies[0]);
            assert(replies.take(i + 1)[0] == replies[0]);
        }
        if i >= 2 {
            assert(plan(replies.take(2), steps[2]));
            assert(steps[2] is Run);
            assert(replies.take(2)[1] == replies[1]);
            assert(replies.take(2)[0] == replies[0]);
        }
    }
    lemma_all_or_nothing(db, plan, steps, replies);
}

/// Creating a staff member is all or nothing: a failed create leaves the
/// tables as they were; a finished one inserted the member and their week of hours.
pub proof fn lemma_staff_create_all_or_nothing(db: Tables, a: StaffCreate, steps: Seq<Step<Staff>>, replies: Seq<Reply>)
    requires
        is_run_that_may_fail(db, |rs: Seq<Reply>, st: Step<Staff>| Staff::create_step(a, rs, st), steps, replies),
    ensures
        committed(db, steps) == db || (steps.last() is Done && is_run(
            db,
            |rs: Seq<Reply>, st: Step<Staff>| Staff::create_step(a, rs, st),
            steps,
            replies,
        )),
{
    let plan = |rs: Seq<Reply>, st: Step<Staff>| Staff::create_step(a, rs, st);
    assert forall|i: int| 0 <= i < replies.len() && (#[trigger] replies[i]) is Failed implies steps[i + 1] is Fail by {
        assert(plan(replies.take(i + 1), steps[i + 1]));
        assert(replies.take(i + 1)[i] == replies[i]);
        if i >= 1 {
            assert(plan(replies.take(1), steps[1]));
            assert(steps[1] is Run);
            assert(replies.take(1)[0] == replies[0]);
            assert(replies.take(i + 1)[0] == replies[0]);
        }
        if i >= 2 {
            assert(plan(replies.take(2), steps[2]));
            assert(steps[2] is Run);
            assert(replies.take(2)[1] == replies[1]);
            assert(replies.take(2)[0] == replies[0]);
            assert(replies.take(i + 1)[1] == replies[1]);
        }
        if i >= 3 {
            assert(plan(replies.take(3), steps[3]));
            assert(steps[3] is Run);
            assert(replies.take(3)[2] == replies[2]);
            assert(replies.take(3)[1] == replies[1]);
            assert(replies.take(3)[0] == replies[0]);
        }
    }
    lemma_all_or_nothing(db, plan, steps, replies);
}

/// Creating a service is all or nothing: a failed create leaves the tables
/// as they were; a finished one inserted the service, its blocking window
/// and its variants.
pub proof fn lemma_service_create_all_or_nothing(db: Tables, g: GenerateService, steps: Seq<Step<Service>>, replies: Seq<Reply>)
    requires
        is_run_that_may_fail(db, |rs: Seq<Reply>, st: Step<Service>| Service::create_step(g, rs, st), steps, replies),
    ensures
        committed(db, steps) == db || (steps.last() is Done && is_run(
            db,
            |rs: Seq<Reply>, st: Step<Service>| Service::create_step(g, rs, st),
            steps,
            replies,
        )),
{
    let plan = |rs: Seq<Reply>, st: Step<Service>| Service::create_step(g, rs, st);
    assert forall|i: int| 0 <= i < replies.len() && (#[trigger] replies[i]) is Failed implies steps[i + 1] is Fail by {
        assert(plan(replies.take(i + 1), steps[i + 1]));
        assert(replies.take(i + 1)[i] == replies[i]);
        if i >= 1 {
            assert(plan(replies.take(1), steps[1]));
            assert(steps[1] is Run);
            assert(replies.take(1)[0] == replies[0]);
            assert(replies.take(i + 1)[0] == replies[0]);
        }
        if i >= 2 {
            assert(plan(replies.take(2), steps[2]));
            assert(steps[2] is Run);
            assert(replies.take(2)[1] == replies[1]);
            assert(replies.take(2)[0] == replies[0]);
            assert(replies.take(i + 1)[1] == replies[1]);
        }
        if i >= 3 {
            assert(plan(replies.take(3), steps[3]));
            assert(steps[3] is Run);
            assert(replies.take(3)[2] == replies[2]);
            assert(replies.take(3)[1] == replies[1]);
            assert(replies.take(3)[0] == replies[0]);
        }
    }
    lemma_all_or_nothing(db, plan, steps, replies);
}

/// Deleting a store is all or nothing: a failed delete leaves the tables as
/// they were, its hours and address included; a finished one removed all
/// three.
pub proof fn lemma_store_delete_all_or_nothing(db: Tables, id: i32, steps: Seq<Step<usize>>, replies: Seq<Reply>)
    requires
        is_run_that_may_fail(db, |rs: Seq<Reply>, st: Step<usize>| Store::delete_step(id, rs, st), steps, replies),
    ensures
        committed(db, steps) == db || (steps.last() is Done && is_run(
            db,
            |rs: Seq<Reply>, st: Step<usize>| Store::delete_step(id, rs, st),
            steps,
            replies,
        )),
{
    let plan = |rs: Seq<Reply>, st: Step<usize>| Store::delete_step(id, rs, st);
    assert forall|i: int| 0 <= i < replies.len() && (#[trigger] replies[i]) is Failed implies steps[i + 1] is Fail by {
        assert(plan(replies.take(i + 1), steps[i + 1]));
        assert(replies.take(i + 1)[i] == replies[i]);
        if i >= 1 {
            assert(plan(replies.take(1), steps[1]));
            assert(steps[1] is Run);
            assert(replies.take(1)[0] == replies[0]);
            assert(replies.take(i + 1)[0] == replies[0]);
        }
        if i >= 2 {
            assert(plan(replies.take(2), steps[2]));
            assert(steps[2] is Run);
            assert(replies.take(2)[1] == replies[1]);
            assert(replies.take(2)[0] == replies[0]);
            assert(replies.take(i + 1)[1] == replies[1]);
        }
        if i >= 3 {
            assert(plan(replies.take(3), steps[3]));
            assert(steps[3] is Run);
            assert(replies.take(3)[2] == replies[2]);
            assert(replies.take(3)[1] == replies[1]);
            assert(replies.take(3)[0] == replies[0]);
        }
    }
    lemma_all_or_nothing(db, plan, steps, replies);
}

/// Deleting a staff member is all or nothing: a failed delete leaves the
/// tables as they were; a finished one removed the member and their hours.
pub proof fn lemma_staff_delete_all_or_nothing(db: Tables, id: i32, steps: Seq<Step<usize>>, replies: Seq<Reply>)
    requires
        is_run_that_may_fail(db, |rs: Seq<Reply>, st: Step<usize>| Staff::delete_step(id, rs, st), steps, replies),
    ensures
        committed(db, steps) == db || (steps.last() is Done && is_run(
            db,
            |rs: Seq<Reply>, st: Step<usize>| Staff::delete_step(id, rs, st),
            steps,
            replies,
        )),
{
    let plan = |rs: Seq<Reply>, st: Step<usize>| Staff::delete_step(id, rs, st);
    assert forall|i: int| 0 <= i < replies.len() && (#[trigger] replies[i]) is Failed implies steps[i + 1] is Fail by {
        assert(plan(replies.take(i + 1), steps[i + 1]));
        assert(replies.take(i + 1)[i] == replies[i]);
        if i >= 1 {
            assert(plan(replies.take(1), steps[1]));
            assert(steps[1] is Run);
            assert(replies.take(1)[0] == replies[0]);
            assert(replies.take(i + 1)[0] == replies[0]);
        }
        if i >= 2 {
            assert(plan(replies.take(2), steps[2]));
            assert(steps[2] is Run);
            assert(replies.take(2)[1] == replies[1]);
            assert(replies.take(2)[0] == replies[0]);
            assert(replies.take(i + 1)[1] == replies[1]);
        }
        if i >= 3 {
            assert(plan(replies.take(3), steps[3]));
            assert(steps[3] is Run);
            assert(replies.take(3)[2] == replies[2]);
            assert(replies.take(3)[1] == replies[1]);
            assert(replies.take(3)[0] == replies[0]);
        }
    }
    lemma_all_or_nothing(db, plan, steps, replies);
}

/// Deleting a service is all or nothing: a failed delete leaves the tables
/// as they were; a finished one removed the service, its variants and its
/// blocking window.
pub proof fn lemma_service_delete_all_or_nothing(db: Tables, id: i32, steps: Seq<Step<usize>>, replies: Seq<Reply>)
    requires
        is_run_that_may_fail(db, |rs: Seq<Reply>, st: Step<usize>| Service::delete_step(id, rs, st), steps, replies),
    ensures
        committed(db, steps) == db || (steps.last() is Done && is_run(
            db,
            |rs: Seq<Reply>, st: Step<usize>| Service::delete_step(id, rs, st),
            steps,
            replies,
        )),
{
    let plan = |rs: Seq<Reply>, st: Step<usize>| Service::delete_step(id, rs, st);
    assert forall|i: int| 0 <= i < replies.len() && (#[trigger] replies[i]) is Failed implies steps[i + 1] is Fail by {
        assert(plan(replies.take(i + 1), steps[i + 1]));
        assert(replies.take(i + 1)[i] == replies[i]);
        if i >= 1 {
            assert(plan(replies.take(1), steps[1]));
            assert(steps[1] is Run);
            assert(replies.take(1)[0] == replies[0]);
            assert(replies.take(i + 1)[0] == replies[0]);
        }
        if i >= 2 {
            assert(plan(replies.take(2), steps[2]));
            assert(steps[2] is Run);
            assert(replies.take(2)[1] == replies[1]);
            assert(replies.take(2)[0] == replies[0]);
            assert(replies.take(i + 1)[1] == replies[1]);
        }
        if i >= 3 {
            assert(plan(replies.take(3), steps[3]));
            assert(steps[3] is Run);
            assert(replies.take(3)[2] == replies[2]);
            assert(replies.take(3)[1] == replies[1]);
            assert(replies.take(3)[0] == replies[0]);
        }
    }
    lemma_all_or_nothing(db, plan, steps, replies);
}

/// Replacing a staff member's assignments is all or nothing: a failed
/// replacement leaves the old assignments in place; a finished one removed
/// them and inserted the new ones.
pub proof fn lemma_staff_services_replace_all_or_nothing(db: Tables, staff_id: i32, updated: Seq<StaffServiceCreate>, steps: Seq<Step<()>>, replies: Seq<Reply>)
    requires
        is_run_that_may_fail(db, |rs: Seq<Reply>, st: Step<()>| Staff::update_staff_services_step(staff_id, updated, rs, st), steps, replies),
    ensures
        committed(db, steps) == db || (steps.last() is Done && is_run(
            db,
            |rs: Seq<Reply>, st: Step<()>| Staff::update_staff_services_step(staff_id, updated, rs, st),
            steps,
            replies,
        )),
{
    let plan = |rs: Seq<Reply>, st: Step<()>| Staff::update_staff_services_step(staff_id, updated, rs, st);
    assert forall|i: int| 0 <= i < replies.len() && (#[trigger] replies[i]) is Failed implies steps[i + 1] is Fail by {
        assert(plan(replies.take(i + 1), steps[i + 1]));
        assert(replies.take(i + 1)[i] == replies[i]);
        if i >= 1 {
            assert(plan(replies.take(1), steps[1]));
            assert(steps[1] is Run);
            assert(replies.take(1)[0] == replies[0]);
            assert(replies.take(i + 1)[0] == replies[0]);
        }
        if i >= 2 {
            assert(plan(replies.take(2), steps[2]));
            assert(steps[2] is Run);
            assert(replies.take(2)[1] == replies[1]);
            assert(replies.take(2)[0] == replies[0]);
            assert(replies.take(i + 1)[1] == replies[1]);
        }
        if i >= 3 {
            assert(plan(replies.take(3), steps[3]));
            assert(steps[3] is Run);
            assert(replies.take(3)[2] == replies[2]);
            assert(replies.take(3)[1] == replies[1]);
            assert(replies.take(3)[0] == replies[0]);
        }
    }
    lemma_all_or_nothing(db, plan, steps, replies);
}

/// Deleting a store removes its hours and its address. Run `delete` of the
/// store `id`, then `find_address` and `find_store_hours` of it from the
/// tables that `delete` left: `delete` finishes, no hours row and no address
/// row names the store any more, and both lookups fail with `NotFound`.
pub proof fn lemma_store_delete_removes_children(
    db: Tables,
    id: i32,
    s1: Seq<Step<usize>>,
    r1: Seq<Reply>,
    s2: Seq<Step<StoreAddress>>,
    r2: Seq<Reply>,
    s3: Seq<Step<StoreWithHours>>,
    r3: Seq<Reply>,
)
    requires
        is_run(db, |rs: Seq<Reply>, st: Step<usize>| Store::delete_step(id, rs, st), s1, r1),
        is_run(
            tables_after(db, s1),
            |rs: Seq<Reply>, st: Step<StoreAddress>| Store::find_address_step(id, rs, st),
            s2,
            r2,
        ),
        is_run(
            tables_after(db, s1),
            |rs: Seq<Reply>, st: Step<StoreWithHours>| Store::find_store_hours_step(id, rs, st),
            s3,
            r3,
        ),
    ensures
        s1.last() is Done,
        count_rows(tables_after(db, s1), Table::StoreHours, Filter::Owner(id)) == 0,
        count_rows(tables_after(db, s1), Table::StoreAddress, Filter::Owner(id)) == 0,
        s2.last() == Step::<StoreAddress>::Fail(RepoError::NotFound),
        s3.last() == Step::<StoreWithHours>::Fail(RepoError::NotFound),
{
    let plan = |rs: Seq<Reply>, st: Step<usize>| Store::delete_step(id, rs, st);
    assert(r1.take(0) =~= Seq::<Reply>::empty());
    assert(plan(r1.take(0), s1[0]));
    assert(r1.len() >= 1);
    assert(r1.take(1) =~= seq![r1[0]]);
    assert(tables_after(db, s1.take(0)) == db);
    assert(crate::model::answers(db, s1[0]->Run_0, r1[0]));
    assert(plan(r1.take(1), s1[1]));
    assert(r1.len() >= 2);
    lemma_tables_after_step(db, s1, 0);
    assert(crate::model::answers(tables_after(db, s1.take(1)), s1[1]->Run_0, r1[1]));
    assert(r1.take(2) =~= seq![r1[0], r1[1]]);
    assert(plan(r1.take(2), s1[2]));
    assert(r1.len() >= 3);
    lemma_tables_after_step(db, s1, 1);
    assert(crate::model::answers(tables_after(db, s1.take(2)), s1[2]->Run_0, r1[2]));
    assert(r1.take(3) =~= seq![r1[0], r1[1], r1[2]]);
    assert(plan(r1.take(3), s1[3]));
    assert(s1[3] is Done);
    assert(r1.len() == 3);
    lemma_tables_after_step(db, s1, 2);
    lemma_tables_after_run(db, plan, s1, r1);
    let d1 = tables_after(db, s1);
    let ph = |r: StoreHours| picks_store_hours(Filter::Owner(id), r);
    let nh = |r: StoreHours| !picks_store_hours(Filter::Owner(id), r);
    let pa = |r: StoreAddress| picks_store_address(Filter::Owner(id), r);
    let na = |r: StoreAddress| !picks_store_address(Filter::Owner(id), r);
    assert(d1.store_hours == db.store_hours.filter(nh));
    assert(d1.store_addresses == db.store_addresses.filter(na));
    lemma_filter_removed(db.store_hours, ph, nh);
    lemma_filter_removed(db.store_addresses, pa, na);

    let lookup = |rs: Seq<Reply>, st: Step<StoreAddress>| Store::find_address_step(id, rs, st);
    assert(r2.take(0) =~= Seq::<Reply>::empty());
    assert(lookup(r2.take(0), s2[0]));
    assert(r2.len() >= 1);
    assert(tables_after(d1, s2.take(0)) == d1);
    assert(crate::model::answers(d1, s2[0]->Run_0, r2[0]));
    assert(r2.take(1) =~= seq![r2[0]]);
    assert(lookup(r2.take(1), s2[1]));
    assert(r2.len() == 1);

    let hours_lookup = |rs: Seq<Reply>, st: Step<StoreWithHours>| Store::find_store_hours_step(id, rs, st);
    let ps = |r: Store| picks_store(Filter::Key(id), r);
    let ns = |r: Store| !picks_store(Filter::Key(id), r);
    assert(d1.stores == db.stores.filter(ns));
    lemma_filter_removed(db.stores, ps, ns);
    assert(r3.take(0) =~= Seq::<Reply>::empty());
    assert(hours_lookup(r3.take(0), s3[0]));
    assert(r3.len() >= 1);
    assert(tables_after(d1, s3.take(0)) == d1);
    assert(crate::model::answers(d1, s3[0]->Run_0, r3[0]));
    assert(r3.take(1) =~= seq![r3[0]]);
    assert(hours_lookup(r3.take(1), s3[1]));
    assert(r3.len() == 1);
}

/// Renaming a store is seen by the next lookup. Run `create` with the name
/// in `a`, then `update` of the new store with the name in `b`, then `find`
/// of it, each from the tables that the one before left: `create` finishes,
/// and `find` returns the new store under the name in `b`.
pub proof fn lemma_store_rename_round_trip(
    db: Tables,
    a: StoreCreate,
    b: StoreCreate,
    s1: Seq<Step<Store>>,
    r1: Seq<Reply>,
    s2: Seq<Step<Store>>,
    r2: Seq<Reply>,
    s3: Seq<Step<Store>>,
    r3: Seq<Reply>,
)
    requires
        is_run(db, |rs: Seq<Reply>, st: Step<Store>| Store::create_step(a, rs, st), s1, r1),
        is_run(
            tables_after(db, s1),
            |rs: Seq<Reply>, st: Step<Store>| Store::update_step(s1.last()->Done_0.store_id, b, rs, st),
            s2,
            r2,
        ),
        is_run(
            tables_after(tables_after(db, s1), s2),
            |rs: Seq<Reply>, st: Step<Store>| Store::find_step(s1.last()->Done_0.store_id, rs, st),
            s3,
            r3,
        ),
    ensures
        s1.last() matches Step::Done(s) && s3.last() == Step::Done(Store { store_id: s.store_id, name: b.name }),
{
    // create: insert the store, seed its hours, finish
    assert(r1.take(0) =~= Seq::<Reply>::empty());
    assert(Store::create_step(a, r1.take(0), s1[0]));
    assert(s1[0] is Run);
    assert(r1.len() >= 1);
    assert(s1[0] matches Step::Run(_));
    let c0 = s1[0]->Run_0;
    assert(tables_after(db, s1.take(0)) == db);
    assert(crate::model::answers(db, c0, r1[0]));
    let k = r1[0]->Keys_0@[0];
    assert(r1.take(1) =~= seq![r1[0]]);
    assert(Store::create_step(a, r1.take(1), s1[1]));
    assert(s1[1] is Run);
    assert(r1.len() >= 2);
    assert(r1.take(2) =~= seq![r1[0], r1[1]]);
    assert(Store::create_step(a, r1.take(2), s1[2]));
    assert(s1[2] == Step::Done(Store { store_id: k, name: a.name }));
    assert(r1.len() == 2);
    lemma_tables_after_step(db, s1, 0);
    lemma_tables_after_step(db, s1, 1);
    lemma_tables_after_run(db, |rs: Seq<Reply>, st: Step<Store>| Store::create_step(a, rs, st), s1, r1);
    let seeds = s1[1]->Run_0->Insert_0@;
    lemma_insert_single(db, Change::Store(a));
    let db1a = insert_one(db, Change::Store(a));
    assert forall|i: int| 0 <= i < seeds.len() implies !(#[trigger] seeds[i] is Store) by {}
    lemma_insert_frame(db1a, seeds);
    let db1 = tables_after(db, s1);
    assert(db1.stores == db.stores.push(Store { store_id: k, name: a.name }));
    let last = db1.stores.len() - 1;
    assert(db1.stores[last] == Store { store_id: k, name: a.name });

    // update: one statement, the changed row back
    let pk = |x: Store| picks_store(Filter::Key(k), x);
    assert(r2.take(0) =~= Seq::<Reply>::empty());
    assert(Store::update_step(k, b, r2.take(0), s2[0]));
    assert(r2.len() >= 1);
    assert(tables_after(db1, s2.take(0)) == db1);
    assert(crate::model::answers(db1, s2[0]->Run_0, r2[0]));
    db1.stores.lemma_filter_contains(pk, last);
    assert(r2.take(1) =~= seq![r2[0]]);
    assert(Store::update_step(k, b, r2.take(1), s2[1]));
    assert(!(s2[1] is Run));
    assert(r2.len() == 1);
    lemma_tables_after_step(db1, s2, 0);
    lemma_tables_after_run(db1, |rs: Seq<Reply>, st: Step<Store>| Store::update_step(k, b, rs, st), s2, r2);
    let db2 = tables_after(db1, s2);
    assert(db2.stores == db1.stores.map_values(
        |r: Store| if picks_store(Filter::Key(k), r) { changed_store(r, b) } else { r },
    ));

    // find: one select by key
    assert(r3.take(0) =~= Seq::<Reply>::empty());
    assert(Store::find_step(k, r3.take(0), s3[0]));
    assert(r3.len() >= 1);
    assert(tables_after(db2, s3.take(0)) == db2);
    assert(crate::model::answers(db2, s3[0]->Run_0, r3[0]));
    let w = db2.stores.filter(pk);
    assert(db2.stores[last].store_id == k);
    db2.stores.lemma_filter_contains(pk, last);
    assert(w.len() > 0);
    assert(r3.take(1) =~= seq![r3[0]]);
    assert(Store::find_step(k, r3.take(1), s3[1]));
    assert(s3[1] == Step::Done(w[0]));
    assert(r3.len() == 1);
    db2.stores.lemma_filter_pred(pk, 0);
    assert(w.contains(w[0]));
    db2.stores.lemma_filter_contains_rev(pk, w[0]);
    assert(w[0].name == b.name);
    assert(w[0] == Store { store_id: k, name: b.name });
}

} // verus!

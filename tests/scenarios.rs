//! Whole operations run against an in-memory table store that answers
//! statements as a relational store would.

use salon_data::db::{Change, Filter, Reply, RepoError, Statement, Step, Table};
use salon_data::service::{
    BlockExtraTime, FullService, GenerateService, GenerateServiceVariant, Service, ServiceCreate, ServiceVariant,
    UpdateServiceAll,
};
use salon_data::staff::{BasicStaffInfo, Staff, StaffCreate, StaffHours, StaffHoursCreate, StaffService, StaffServiceCreate};
use salon_data::store::{Store, StoreAddress, StoreAddressCreate, StoreCreate, StoreHours, StoreHoursCreate};
use salon_data::TimeOfDay;

struct Memory {
    stores: Vec<Store>,
    addresses: Vec<StoreAddress>,
    store_hours: Vec<StoreHours>,
    staff: Vec<Staff>,
    staff_hours: Vec<StaffHours>,
    assignments: Vec<StaffService>,
    services: Vec<Service>,
    variants: Vec<ServiceVariant>,
    blocks: Vec<BlockExtraTime>,
    next_key: i32,
    statements: usize,
}

fn owner_day(f: Filter, key: i32, owner: i32, day: i32) -> bool {
    match f {
        Filter::All => true,
        Filter::Key(k) => key == k,
        Filter::Owner(o) => owner == o,
        Filter::OwnerDay(o, d) => owner == o && day == d,
        Filter::Service(_) => false,
    }
}

fn root(f: Filter, key: i32) -> bool {
    match f {
        Filter::All => true,
        Filter::Key(k) => key == k,
        _ => false,
    }
}

fn child(f: Filter, key: i32, owner: i32) -> bool {
    match f {
        Filter::All => true,
        Filter::Key(k) => key == k,
        Filter::Owner(o) => owner == o,
        _ => false,
    }
}

fn assignment(f: Filter, a: &StaffService) -> bool {
    match f {
        Filter::Service(s) => a.service_id == s,
        _ => child(f, a.staff_service_id, a.staff_id),
    }
}

fn picked<T: Clone>(rows: &[T], p: impl Fn(&T) -> bool) -> Vec<T> {
    rows.iter().filter(|r| p(r)).cloned().collect()
}

fn change_rows<T: Clone>(rows: &mut [T], p: impl Fn(&T) -> bool, c: impl Fn(&mut T)) -> Vec<T> {
    let mut out = Vec::new();
    for r in rows.iter_mut() {
        if p(r) {
            c(r);
            out.push(r.clone());
        }
    }
    out
}

fn remove_rows<T>(rows: &mut Vec<T>, p: impl Fn(&T) -> bool) -> usize {
    let before = rows.len();
    rows.retain(|r| !p(r));
    before - rows.len()
}

impl Memory {
    fn new() -> Memory {
        Memory {
            stores: Vec::new(),
            addresses: Vec::new(),
            store_hours: Vec::new(),
            staff: Vec::new(),
            staff_hours: Vec::new(),
            assignments: Vec::new(),
            services: Vec::new(),
            variants: Vec::new(),
            blocks: Vec::new(),
            next_key: 1,
            statements: 0,
        }
    }

    fn apply(&mut self, s: Statement) -> Reply {
        self.statements += 1;
        match s {
            Statement::Select(t, f) => self.select(t, f),
            Statement::Insert(cs) => Reply::Keys(cs.into_iter().map(|c| self.insert(c)).collect()),
            Statement::Update(f, c) => self.update(f, c),
            Statement::Delete(t, f) => Reply::Deleted(self.delete(t, f)),
        }
    }

    fn select(&self, t: Table, f: Filter) -> Reply {
        match t {
            Table::Store => Reply::Stores(picked(&self.stores, |r| root(f, r.store_id))),
            Table::StoreAddress => {
                Reply::StoreAddresses(picked(&self.addresses, |r| child(f, r.store_address_id, r.store_id)))
            }
            Table::StoreHours => Reply::StoreHours(picked(&self.store_hours, |r| {
                owner_day(f, r.store_hours_id, r.store_id, r.day_of_week)
            })),
            Table::Staff => Reply::Staff(picked(&self.staff, |r| root(f, r.staff_id))),
            Table::StaffHours => Reply::StaffHours(picked(&self.staff_hours, |r| {
                owner_day(f, r.staff_hours_id, r.staff_id, r.day_of_week)
            })),
            Table::StaffService => Reply::StaffServices(picked(&self.assignments, |r| assignment(f, r))),
            Table::Service => Reply::Services(picked(&self.services, |r| root(f, r.service_id))),
            Table::ServiceVariant => {
                Reply::ServiceVariants(picked(&self.variants, |r| child(f, r.service_variant_id, r.service_id)))
            }
            Table::BlockExtraTime => {
                Reply::BlockExtraTimes(picked(&self.blocks, |r| child(f, r.block_extra_time_id, r.service_id)))
            }
        }
    }

    fn insert(&mut self, c: Change) -> i32 {
        let k = self.next_key;
        self.next_key += 1;
        match c {
            Change::Store(c) => self.stores.push(Store { store_id: k, name: c.name }),
            Change::StoreAddress(c) => self.addresses.push(StoreAddress {
                store_address_id: k,
                store_id: c.store_id,
                street_address: c.street_address,
                city: c.city,
                state: c.state,
                zip: c.zip,
                phone: c.phone,
                email: c.email,
            }),
            Change::StoreHours(c) => self.store_hours.push(StoreHours {
                store_hours_id: k,
                store_id: c.store_id,
                day_of_week: c.day_of_week,
                start_time: c.start_time,
                end_time: c.end_time,
            }),
            Change::Staff(c) => self.staff.push(Staff {
                staff_id: k,
                first_name: c.first_name,
                last_name: c.last_name,
                password: c.password,
                email: c.email,
                phone: Some(c.phone),
                access: Some(c.access),
                calendar_color: Some(c.calendar_color),
            }),
            Change::StaffHours(c) => self.staff_hours.push(StaffHours {
                staff_hours_id: k,
                staff_id: c.staff_id,
                day_of_week: c.day_of_week,
                start_time: c.start_time,
                end_time: c.end_time,
            }),
            Change::StaffService(c) => self.assignments.push(StaffService {
                staff_service_id: k,
                staff_id: c.staff_id,
                service_id: 0,
                service_variant_id: c.service_variant_id,
                is_active: Some(c.is_active),
            }),
            Change::Service(c) => self.services.push(Service {
                service_id: k,
                name: c.name,
                description: c.description,
                is_active: c.is_active,
                category: c.category,
            }),
            Change::ServiceVariant(c) => self.variants.push(ServiceVariant {
                service_variant_id: k,
                service_id: c.service_id,
                price_bits: c.price_bits,
                duration: c.duration,
            }),
            Change::BlockExtraTime(c) => self.blocks.push(BlockExtraTime {
                block_extra_time_id: k,
                service_id: c.service_id,
                before_time: c.before_time,
                after_time: c.after_time,
            }),
        }
        k
    }

    fn update(&mut self, f: Filter, c: Change) -> Reply {
        match c {
            Change::Store(c) => Reply::Stores(change_rows(&mut self.stores, |r| root(f, r.store_id), |r| {
                r.name = c.name.clone()
            })),
            Change::StoreAddress(c) => Reply::StoreAddresses(change_rows(
                &mut self.addresses,
                |r| child(f, r.store_address_id, r.store_id),
                |r| {
                    r.store_id = c.store_id;
                    r.street_address = c.street_address.clone();
                    r.city = c.city.clone();
                    r.state = c.state.clone();
                    r.zip = c.zip;
                    r.phone = c.phone.clone();
                    r.email = c.email.clone();
                },
            )),
            Change::StoreHours(c) => Reply::StoreHours(change_rows(
                &mut self.store_hours,
                |r| owner_day(f, r.store_hours_id, r.store_id, r.day_of_week),
                |r| {
                    r.store_id = c.store_id;
                    r.day_of_week = c.day_of_week;
                    r.start_time = c.start_time.or(r.start_time);
                    r.end_time = c.end_time.or(r.end_time);
                },
            )),
            Change::Staff(c) => Reply::Staff(change_rows(&mut self.staff, |r| root(f, r.staff_id), |r| {
                r.first_name = c.first_name.clone();
                r.last_name = c.last_name.clone();
                r.password = c.password.clone();
                r.email = c.email.clone();
                r.phone = Some(c.phone.clone());
                r.access = Some(c.access.clone());
                r.calendar_color = Some(c.calendar_color.clone());
            })),
            Change::StaffHours(c) => Reply::StaffHours(change_rows(
                &mut self.staff_hours,
                |r| owner_day(f, r.staff_hours_id, r.staff_id, r.day_of_week),
                |r| {
                    r.staff_id = c.staff_id;
                    r.day_of_week = c.day_of_week;
                    r.start_time = c.start_time.or(r.start_time);
                    r.end_time = c.end_time.or(r.end_time);
                },
            )),
            Change::StaffService(c) => Reply::StaffServices(change_rows(
                &mut self.assignments,
                |r| assignment(f, r),
                |r| {
                    r.staff_id = c.staff_id;
                    r.service_variant_id = c.service_variant_id;
                    r.is_active = Some(c.is_active);
                },
            )),
            Change::Service(c) => Reply::Services(change_rows(&mut self.services, |r| root(f, r.service_id), |r| {
                r.name = c.name.clone();
                r.description = c.description.clone().or(r.description.clone());
                r.is_active = c.is_active;
                r.category = c.category.clone().or(r.category.clone());
            })),
            Change::ServiceVariant(c) => Reply::ServiceVariants(change_rows(
                &mut self.variants,
                |r| child(f, r.service_variant_id, r.service_id),
                |r| {
                    r.service_id = c.service_id;
                    r.price_bits = c.price_bits;
                    r.duration = c.duration.or(r.duration);
                },
            )),
            Change::BlockExtraTime(c) => Reply::BlockExtraTimes(change_rows(
                &mut self.blocks,
                |r| child(f, r.block_extra_time_id, r.service_id),
                |r| {
                    r.service_id = c.service_id;
                    r.before_time = c.before_time.or(r.before_time);
                    r.after_time = c.after_time.or(r.after_time);
                },
            )),
        }
    }

    fn delete(&mut self, t: Table, f: Filter) -> usize {
        match t {
            Table::Store => remove_rows(&mut self.stores, |r| root(f, r.store_id)),
            Table::StoreAddress => remove_rows(&mut self.addresses, |r| child(f, r.store_address_id, r.store_id)),
            Table::StoreHours => {
                remove_rows(&mut self.store_hours, |r| owner_day(f, r.store_hours_id, r.store_id, r.day_of_week))
            }
            Table::Staff => remove_rows(&mut self.staff, |r| root(f, r.staff_id)),
            Table::StaffHours => {
                remove_rows(&mut self.staff_hours, |r| owner_day(f, r.staff_hours_id, r.staff_id, r.day_of_week))
            }
            Table::StaffService => remove_rows(&mut self.assignments, |r| assignment(f, r)),
            Table::Service => remove_rows(&mut self.services, |r| root(f, r.service_id)),
            Table::ServiceVariant => remove_rows(&mut self.variants, |r| child(f, r.service_variant_id, r.service_id)),
            Table::BlockExtraTime => remove_rows(&mut self.blocks, |r| child(f, r.block_extra_time_id, r.service_id)),
        }
    }
}

/// Runs an operation to its end: each statement it asks for is applied and
/// its reply handed back.
fn run<T>(db: &mut Memory, op: impl Fn(Vec<Reply>) -> Step<T>) -> Result<T, RepoError> {
    let mut replies: Vec<Reply> = Vec::new();
    loop {
        match op(replies.clone()) {
            Step::Run(s) => {
                let r = db.apply(s);
                replies.push(r);
            }
            Step::Done(t) => return Ok(t),
            Step::Fail(e) => return Err(e),
        }
    }
}

fn hm(h: u32, m: u32) -> Option<TimeOfDay> {
    TimeOfDay::from_hms(h, m, 0)
}

fn new_store(db: &mut Memory, name: &str) -> Store {
    let c = StoreCreate { name: name.to_string() };
    run(db, |rs| Store::create(c.clone(), rs)).unwrap()
}

fn new_staff(db: &mut Memory, first: &str) -> Staff {
    let c = StaffCreate {
        first_name: first.to_string(),
        last_name: "Lee".to_string(),
        password: "hunter2".to_string(),
        email: "lee@example.com".to_string(),
        phone: "555-0100".to_string(),
        access: "admin".to_string(),
        calendar_color: "blue".to_string(),
    };
    run(db, |rs| Staff::create(c.clone(), rs)).unwrap()
}

fn haircut() -> GenerateService {
    GenerateService {
        name: "Haircut".to_string(),
        description: None,
        is_active: 1,
        category: None,
        before_time: None,
        after_time: None,
        variants: vec![GenerateServiceVariant { price_bits: 25.0f64.to_bits(), duration: None }],
    }
}

#[test]
fn store_create_seeds_a_week_of_hours() {
    let mut db = Memory::new();
    let s = new_store(&mut db, "Main");
    let id = s.store_id;
    let w = run(&mut db, |rs| Store::find_store_hours(id, rs)).unwrap();
    assert_eq!(w.store, s);
    assert_eq!(w.store_hours.len(), 7);
    for (d, h) in w.store_hours.iter().enumerate() {
        assert_eq!(h.store_id, id);
        assert_eq!(h.day_of_week, d as i32);
        assert_eq!(h.start_time, None);
        assert_eq!(h.end_time, None);
    }
}

#[test]
fn store_rename_round_trip() {
    let mut db = Memory::new();
    let s = new_store(&mut db, "Main");
    let id = s.store_id;
    let upd = StoreCreate { name: "Main St".to_string() };
    let changed = run(&mut db, |rs| Store::update(id, upd.clone(), rs)).unwrap();
    assert_eq!(changed.name, "Main St");
    let found = run(&mut db, |rs| Store::find(id, rs)).unwrap();
    assert_eq!(found, Store { store_id: id, name: "Main St".to_string() });
}

#[test]
fn store_delete_removes_hours_and_address() {
    let mut db = Memory::new();
    let s = new_store(&mut db, "Main");
    let other = new_store(&mut db, "Annex");
    let id = s.store_id;
    let a = StoreAddressCreate {
        store_id: id,
        street_address: "1 High St".to_string(),
        city: "Springfield".to_string(),
        state: "IL".to_string(),
        zip: 62701,
        phone: "555-0199".to_string(),
        email: "main@example.com".to_string(),
    };
    let addr = run(&mut db, |rs| Store::create_address(a.clone(), rs)).unwrap();
    assert_eq!(run(&mut db, |rs| Store::find_address(id, rs)).unwrap(), addr);
    let full = run(&mut db, |rs| Store::find_all_data(id, rs)).unwrap();
    assert_eq!(full.name, "Main");
    assert_eq!(full.hours.len(), 7);
    assert_eq!(run(&mut db, |rs| Store::delete(id, rs)), Ok(1));
    assert_eq!(run(&mut db, |rs| Store::find_address(id, rs)), Err(RepoError::NotFound));
    assert_eq!(run(&mut db, |rs| Store::find_store_hours(id, rs)), Err(RepoError::NotFound));
    assert_eq!(run(&mut db, |rs| Store::find_all_data(id, rs)), Err(RepoError::NotFound));
    assert!(db.store_hours.iter().all(|h| h.store_id != id));
    assert!(db.addresses.is_empty());
    assert_eq!(db.store_hours.len(), 7);
    assert_eq!(run(&mut db, |rs| Store::find(other.store_id, rs)).unwrap(), other);
}

#[test]
fn store_find_all_data_needs_an_address() {
    let mut db = Memory::new();
    let s = new_store(&mut db, "Main");
    assert_eq!(run(&mut db, |rs| Store::find_all_data(s.store_id, rs)), Err(RepoError::NotFound));
}

#[test]
fn store_hours_grouped_by_store_key() {
    let mut db = Memory::new();
    let a = new_store(&mut db, "A");
    let b = new_store(&mut db, "B");
    let one = StoreHoursCreate { store_id: b.store_id, day_of_week: 1, start_time: hm(8, 0), end_time: hm(16, 0) };
    run(&mut db, |rs| Store::update_hours(vec![one], rs)).unwrap();
    let all = run(&mut db, |rs| Store::find_all_store_hours(rs)).unwrap();
    assert_eq!(all.len(), 2);
    assert_eq!(all[0].store, a);
    assert_eq!(all[1].store, b);
    assert!(all[0].store_hours.iter().all(|h| h.store_id == a.store_id && h.start_time.is_none()));
    assert!(all[1].store_hours.iter().all(|h| h.store_id == b.store_id));
    assert_eq!(all[1].store_hours[1].start_time, hm(8, 0));
    assert_eq!(all[1].store_hours[1].end_time, hm(16, 0));
    let listed = run(&mut db, |rs| Store::find_all(rs)).unwrap();
    assert_eq!(listed, vec![a, b]);
}

#[test]
fn store_update_one_hour_by_key() {
    let mut db = Memory::new();
    let s = new_store(&mut db, "Main");
    let key = db.store_hours[3].store_hours_id;
    let c = StoreHoursCreate { store_id: s.store_id, day_of_week: 3, start_time: hm(10, 0), end_time: None };
    let h = run(&mut db, |rs| Store::update_one_hour(key, c, rs)).unwrap();
    assert_eq!(h.store_hours_id, key);
    assert_eq!(h.start_time, hm(10, 0));
    assert_eq!(h.end_time, None);
    assert_eq!(run(&mut db, |rs| Store::update_one_hour(9999, c, rs)), Err(RepoError::NotFound));
}

#[test]
fn store_update_missing_is_not_found() {
    let mut db = Memory::new();
    let c = StoreCreate { name: "Ghost".to_string() };
    assert_eq!(run(&mut db, |rs| Store::update(42, c.clone(), rs)), Err(RepoError::NotFound));
    assert_eq!(run(&mut db, |rs| Store::find(42, rs)), Err(RepoError::NotFound));
}

#[test]
fn staff_hours_update_touches_only_tuesday_of_staff_three() {
    let mut db = Memory::new();
    db.next_key = 3;
    let third = new_staff(&mut db, "Cy");
    let first = new_staff(&mut db, "Ann");
    assert_eq!(third.staff_id, 3);
    let id = third.staff_id;
    let before = run(&mut db, |rs| Staff::find_staff_hours(id, rs)).unwrap();
    let entry = StaffHoursCreate { staff_id: id, day_of_week: 2, start_time: hm(9, 0), end_time: hm(17, 0) };
    run(&mut db, |rs| Staff::update_hours(vec![entry], rs)).unwrap();
    let after = run(&mut db, |rs| Staff::find_staff_hours(id, rs)).unwrap();
    assert_eq!(after.staff_hours.len(), 7);
    for d in 0..7 {
        if d == 2 {
            assert_eq!(after.staff_hours[d].start_time, TimeOfDay::from_hms(9, 0, 0));
            assert_eq!(after.staff_hours[d].end_time, TimeOfDay::from_hms(17, 0, 0));
        } else {
            assert_eq!(after.staff_hours[d], before.staff_hours[d]);
        }
    }
    let others = run(&mut db, |rs| Staff::find_staff_hours(first.staff_id, rs)).unwrap();
    assert!(others.staff_hours.iter().all(|h| h.start_time.is_none()));
}

#[test]
fn staff_find_basic_has_no_password() {
    let mut db = Memory::new();
    let s = new_staff(&mut db, "Ann");
    let id = s.staff_id;
    let basic = run(&mut db, |rs| Staff::find_basic(id, rs)).unwrap();
    assert_eq!(
        basic,
        BasicStaffInfo {
            staff_id: id,
            first_name: "Ann".to_string(),
            last_name: "Lee".to_string(),
            email: "lee@example.com".to_string(),
            phone: Some("555-0100".to_string()),
            calendar_color: Some("blue".to_string()),
        }
    );
    assert!(!format!("{:?}", basic).contains("hunter2"));
    let full = run(&mut db, |rs| Staff::find(id, rs)).unwrap();
    assert_eq!(full.password, "hunter2");
    let all = run(&mut db, |rs| Staff::find_all(rs)).unwrap();
    assert_eq!(all[0].password, "hunter2");
    assert_eq!(run(&mut db, |rs| Staff::find_basic(id + 100, rs)), Err(RepoError::NotFound));
}

#[test]
fn staff_update_and_delete() {
    let mut db = Memory::new();
    let s = new_staff(&mut db, "Ann");
    let id = s.staff_id;
    let c = StaffCreate {
        first_name: "Anna".to_string(),
        last_name: "Lee".to_string(),
        password: "s3cret".to_string(),
        email: "anna@example.com".to_string(),
        phone: "555-0101".to_string(),
        access: "staff".to_string(),
        calendar_color: "red".to_string(),
    };
    let changed = run(&mut db, |rs| Staff::update(id, c.clone(), rs)).unwrap();
    assert_eq!(changed.first_name, "Anna");
    assert_eq!(changed.calendar_color, Some("red".to_string()));
    assert_eq!(run(&mut db, |rs| Staff::delete(id, rs)), Ok(1));
    assert!(db.staff_hours.is_empty());
    assert_eq!(run(&mut db, |rs| Staff::find(id, rs)), Err(RepoError::NotFound));
    assert_eq!(run(&mut db, |rs| Staff::delete(id, rs)), Ok(0));
}

#[test]
fn staff_services_are_replaced_whole() {
    let mut db = Memory::new();
    let ann = new_staff(&mut db, "Ann");
    let bo = new_staff(&mut db, "Bo");
    run(&mut db, |rs| Staff::add_service(ann.staff_id, 40, rs)).unwrap();
    run(&mut db, |rs| Staff::add_service(ann.staff_id, 41, rs)).unwrap();
    run(&mut db, |rs| Staff::add_service(bo.staff_id, 40, rs)).unwrap();
    let list = vec![
        StaffServiceCreate { staff_id: ann.staff_id, service_variant_id: 50, is_active: 1 },
        StaffServiceCreate { staff_id: ann.staff_id, service_variant_id: 51, is_active: 0 },
    ];
    run(&mut db, |rs| Staff::update_staff_services(ann.staff_id, list.clone(), rs)).unwrap();
    let mine: Vec<(i32, Option<i32>)> = db
        .assignments
        .iter()
        .filter(|a| a.staff_id == ann.staff_id)
        .map(|a| (a.service_variant_id, a.is_active))
        .collect();
    assert_eq!(mine, vec![(50, Some(1)), (51, Some(0))]);
    let theirs: Vec<i32> =
        db.assignments.iter().filter(|a| a.staff_id == bo.staff_id).map(|a| a.service_variant_id).collect();
    assert_eq!(theirs, vec![40]);
}

#[test]
fn staff_delete_service_by_key() {
    let mut db = Memory::new();
    let ann = new_staff(&mut db, "Ann");
    run(&mut db, |rs| Staff::add_service(ann.staff_id, 40, rs)).unwrap();
    let key = db.assignments[0].staff_service_id;
    assert_eq!(db.assignments[0].is_active, Some(1));
    assert_eq!(run(&mut db, |rs| Staff::delete_service(key, rs)), Ok(1));
    assert!(db.assignments.is_empty());
}

#[test]
fn service_create_then_find() {
    let mut db = Memory::new();
    let created = run(&mut db, |rs| Service::create(haircut(), rs)).unwrap();
    assert_eq!(created.name, "Haircut");
    assert_eq!(created.is_active, 1);
    let id = created.service_id;
    let f: FullService = run(&mut db, |rs| Service::find(id, rs)).unwrap();
    assert_eq!(f.service, created);
    assert_eq!(f.variants.len(), 1);
    assert_eq!(f.variants[0].service_id, id);
    assert_eq!(f64::from_bits(f.variants[0].price_bits), 25.0);
    assert_eq!(f.variants[0].duration, None);
    assert_eq!(f.blocked_time.service_id, id);
    assert_eq!(f.blocked_time.before_time, None);
    assert_eq!(f.blocked_time.after_time, None);
    assert_eq!(db.blocks.iter().filter(|b| b.service_id == id).count(), 1);
}

#[test]
fn service_create_with_many_variants() {
    let mut db = Memory::new();
    let mut g = haircut();
    g.before_time = hm(0, 10);
    g.variants = (0..4u32)
        .map(|i| GenerateServiceVariant { price_bits: (10.0f64 * (i + 1) as f64).to_bits(), duration: hm(0, 30 + i) })
        .collect();
    let created = run(&mut db, |rs| Service::create(g.clone(), rs)).unwrap();
    let f = run(&mut db, |rs| Service::find(created.service_id, rs)).unwrap();
    assert_eq!(f.variants.len(), 4);
    assert_eq!(f64::from_bits(f.variants[3].price_bits), 40.0);
    assert_eq!(f.variants[3].duration, hm(0, 33));
    assert_eq!(f.blocked_time.before_time, hm(0, 10));
}

#[test]
fn service_find_all_joins_by_key() {
    let mut db = Memory::new();
    let one = run(&mut db, |rs| Service::create(haircut(), rs)).unwrap();
    let mut g = haircut();
    g.name = "Colour".to_string();
    g.variants = Vec::new();
    let two = run(&mut db, |rs| Service::create(g.clone(), rs)).unwrap();
    let all = run(&mut db, |rs| Service::find_all(rs)).unwrap();
    assert_eq!(all.len(), 2);
    assert_eq!(all[0].service, one);
    assert_eq!(all[0].variants.len(), 1);
    assert_eq!(all[1].service, two);
    assert!(all[1].variants.is_empty());
    assert_eq!(all[1].blocked_time.service_id, two.service_id);
    db.blocks.retain(|b| b.service_id != two.service_id);
    assert_eq!(run(&mut db, |rs| Service::find_all(rs)), Err(RepoError::MissingBlockedTime(two.service_id)));
    assert_eq!(run(&mut db, |rs| Service::find(two.service_id, rs)), Err(RepoError::NotFound));
}

#[test]
fn service_update_all_changes_variants_and_window() {
    let mut db = Memory::new();
    let s = run(&mut db, |rs| Service::create(haircut(), rs)).unwrap();
    let id = s.service_id;
    let mut v = db.variants[0];
    v.price_bits = 30.0f64.to_bits();
    let u = UpdateServiceAll {
        name: "Haircut deluxe".to_string(),
        description: Some("with wash".to_string()),
        is_active: 0,
        category: None,
        before_time: hm(0, 5),
        after_time: hm(0, 15),
        variants: vec![v],
    };
    let changed = run(&mut db, |rs| Service::update_all(id, u.clone(), rs)).unwrap();
    assert_eq!(changed.name, "Haircut deluxe");
    assert_eq!(changed.description, Some("with wash".to_string()));
    let f = run(&mut db, |rs| Service::find(id, rs)).unwrap();
    assert_eq!(f64::from_bits(f.variants[0].price_bits), 30.0);
    assert_eq!(f.blocked_time.before_time, hm(0, 5));
    assert_eq!(f.blocked_time.after_time, hm(0, 15));
    assert_eq!(run(&mut db, |rs| Service::update_all(id + 100, u.clone(), rs)), Err(RepoError::NotFound));
}

#[test]
fn service_update_keeps_unset_optionals() {
    let mut db = Memory::new();
    let mut g = haircut();
    g.description = Some("classic".to_string());
    let s = run(&mut db, |rs| Service::create(g.clone(), rs)).unwrap();
    let c = ServiceCreate { name: "Cut".to_string(), description: None, is_active: 1, category: Some("hair".to_string()) };
    let changed = run(&mut db, |rs| Service::update(s.service_id, c.clone(), rs)).unwrap();
    assert_eq!(changed.description, Some("classic".to_string()));
    assert_eq!(changed.category, Some("hair".to_string()));
}

#[test]
fn service_delete_removes_variants_and_window() {
    let mut db = Memory::new();
    let s = run(&mut db, |rs| Service::create(haircut(), rs)).unwrap();
    assert_eq!(run(&mut db, |rs| Service::delete(s.service_id, rs)), Ok(1));
    assert!(db.variants.is_empty());
    assert!(db.blocks.is_empty());
    assert!(db.services.is_empty());
}

#[test]
fn staff_find_service_lists_assigned_variants() {
    let mut db = Memory::new();
    let ann = new_staff(&mut db, "Ann");
    let s = run(&mut db, |rs| Service::create(haircut(), rs)).unwrap();
    let variant = db.variants[0].service_variant_id;
    run(&mut db, |rs| Staff::add_service(ann.staff_id, variant, rs)).unwrap();
    let before = db.statements;
    let w = run(&mut db, |rs| Staff::find_service(ann.staff_id, rs)).unwrap();
    assert_eq!(db.statements - before, 5);
    assert_eq!(w.staff, ann);
    assert_eq!(w.services.len(), 1);
    assert_eq!(w.services[0].service, s);
    assert_eq!(w.services[0].variants[0].service_variant_id, variant);
    assert_eq!(w.services[0].blocked_time.service_id, s.service_id);
    run(&mut db, |rs| Staff::add_service(ann.staff_id, 9999, rs)).unwrap();
    assert_eq!(run(&mut db, |rs| Staff::find_service(ann.staff_id, rs)), Err(RepoError::NotFound));
}

#[test]
fn staff_with_service_filters_by_service() {
    let mut db = Memory::new();
    db.assignments.push(StaffService { staff_service_id: 1, staff_id: 2, service_id: 7, service_variant_id: 3, is_active: Some(1) });
    db.assignments.push(StaffService { staff_service_id: 4, staff_id: 5, service_id: 8, service_variant_id: 6, is_active: None });
    let found = run(&mut db, |rs| Staff::find_staff_with_service(7, rs)).unwrap();
    assert_eq!(found, vec![db.assignments[0]]);
}

#[test]
fn service_update_time_block_by_row_key() {
    let mut db = Memory::new();
    let s = run(&mut db, |rs| Service::create(haircut(), rs)).unwrap();
    let block_key = db.blocks[0].block_extra_time_id;
    assert_ne!(block_key, s.service_id);
    let c = salon_data::service::BlockExtraTimeCreate { service_id: s.service_id, before_time: hm(0, 10), after_time: None };
    let b = run(&mut db, |rs| Service::update_time_block(block_key, c, rs)).unwrap();
    assert_eq!(b.block_extra_time_id, block_key);
    assert_eq!(b.before_time, hm(0, 10));
    assert_eq!(run(&mut db, |rs| Service::update_time_block(s.service_id, c, rs)), Err(RepoError::NotFound));
}

#[test]
fn listings_come_in_ascending_key_order() {
    let mut db = Memory::new();
    let a = new_store(&mut db, "A");
    let b = new_store(&mut db, "B");
    let c = new_store(&mut db, "C");
    assert_eq!(run(&mut db, |rs| Store::delete(b.store_id, rs)), Ok(1));
    let listed = run(&mut db, |rs| Store::find_all(rs)).unwrap();
    assert_eq!(listed, vec![a.clone(), c.clone()]);
    let grouped = run(&mut db, |rs| Store::find_all_store_hours(rs)).unwrap();
    assert_eq!(grouped.iter().map(|w| w.store.store_id).collect::<Vec<i32>>(), vec![a.store_id, c.store_id]);
    for w in &grouped {
        assert!(w.store_hours.windows(2).all(|p| p[0].store_hours_id < p[1].store_hours_id));
    }
    let x = new_staff(&mut db, "X");
    let y = new_staff(&mut db, "Y");
    let staff = run(&mut db, |rs| Staff::find_all(rs)).unwrap();
    assert_eq!(staff.iter().map(|s| s.staff_id).collect::<Vec<i32>>(), vec![x.staff_id, y.staff_id]);
    let staff_hours = run(&mut db, |rs| Staff::find_all_staff_hours(rs)).unwrap();
    assert_eq!(staff_hours.len(), 2);
    assert!(staff_hours[0].staff.staff_id < staff_hours[1].staff.staff_id);
}

//! Single steps of operations, fed with chosen replies.

use salon_data::db::{Change, Filter, Reply, RepoError, Statement, Step, Table};
use salon_data::service::{BlockExtraTimeCreate, Service};
use salon_data::staff::{Staff, StaffServiceCreate};
use salon_data::store::{Store, StoreCreate, StoreHoursCreate};
use salon_data::TimeOfDay;

#[test]
fn time_of_day_from_hms() {
    assert_eq!(TimeOfDay::from_hms(9, 30, 15), Some(TimeOfDay { secs: 34215, nanos: 0 }));
    assert_eq!(TimeOfDay::from_hms(23, 59, 59), Some(TimeOfDay { secs: 86399, nanos: 0 }));
    assert_eq!(TimeOfDay::from_hms(24, 0, 0), None);
    assert_eq!(TimeOfDay::from_hms(0, 60, 0), None);
    assert_eq!(TimeOfDay::from_hms(0, 0, 60), None);
}

#[test]
fn store_find_first_step_selects_by_key() {
    assert_eq!(Store::find(12, vec![]), Step::Run(Statement::Select(Table::Store, Filter::Key(12))));
}

#[test]
fn store_find_takes_first_row() {
    let rows = vec![Store { store_id: 12, name: "Main".to_string() }];
    assert_eq!(Store::find(12, vec![Reply::Stores(rows)]), Step::Done(Store { store_id: 12, name: "Main".to_string() }));
    assert_eq!(Store::find(12, vec![Reply::Stores(vec![])]), Step::Fail(RepoError::NotFound));
}

#[test]
fn storage_failure_is_reported() {
    let r = Store::find(12, vec![Reply::Failed("connection reset".to_string())]);
    assert_eq!(r, Step::Fail(RepoError::Storage("connection reset".to_string())));
}

#[test]
fn reply_of_wrong_kind_is_malformed() {
    assert_eq!(Store::find(12, vec![Reply::Deleted(1)]), Step::Fail(RepoError::Malformed));
    assert_eq!(Store::create(StoreCreate { name: "A".to_string() }, vec![Reply::Keys(vec![])]), Step::Fail(RepoError::Malformed));
}

#[test]
fn store_create_seeds_seven_days() {
    let c = StoreCreate { name: "Main".to_string() };
    assert_eq!(Store::create(c.clone(), vec![]), Step::Run(Statement::Insert(vec![Change::Store(c.clone())])));
    match Store::create(c.clone(), vec![Reply::Keys(vec![21])]) {
        Step::Run(Statement::Insert(rows)) => {
            assert_eq!(rows.len(), 7);
            for (d, r) in rows.into_iter().enumerate() {
                assert_eq!(
                    r,
                    Change::StoreHours(StoreHoursCreate { store_id: 21, day_of_week: d as i32, start_time: None, end_time: None })
                );
            }
        }
        other => panic!("unexpected step {:?}", other),
    }
    let done = Store::create(c, vec![Reply::Keys(vec![21]), Reply::Keys((22..29).collect())]);
    assert_eq!(done, Step::Done(Store { store_id: 21, name: "Main".to_string() }));
}

#[test]
fn store_delete_order_hours_address_store() {
    assert_eq!(Store::delete(5, vec![]), Step::Run(Statement::Delete(Table::StoreHours, Filter::Owner(5))));
    assert_eq!(
        Store::delete(5, vec![Reply::Deleted(7)]),
        Step::Run(Statement::Delete(Table::StoreAddress, Filter::Owner(5)))
    );
    assert_eq!(
        Store::delete(5, vec![Reply::Deleted(7), Reply::Deleted(1)]),
        Step::Run(Statement::Delete(Table::Store, Filter::Key(5)))
    );
    assert_eq!(Store::delete(5, vec![Reply::Deleted(7), Reply::Deleted(1), Reply::Deleted(1)]), Step::Done(1));
    assert_eq!(
        Store::delete(5, vec![Reply::Failed("locked".to_string())]),
        Step::Fail(RepoError::Storage("locked".to_string()))
    );
}

#[test]
fn store_update_hours_stops_at_first_failure() {
    let nine = TimeOfDay::from_hms(9, 0, 0);
    let list = vec![
        StoreHoursCreate { store_id: 1, day_of_week: 0, start_time: nine, end_time: None },
        StoreHoursCreate { store_id: 1, day_of_week: 1, start_time: nine, end_time: None },
    ];
    assert_eq!(
        Store::update_hours(list.clone(), vec![Reply::StoreHours(vec![])]),
        Step::Run(Statement::Update(Filter::OwnerDay(1, 1), Change::StoreHours(list[1])))
    );
    assert_eq!(
        Store::update_hours(list.clone(), vec![Reply::Failed("deadlock".to_string())]),
        Step::Fail(RepoError::Storage("deadlock".to_string()))
    );
    assert_eq!(Store::update_hours(list, vec![Reply::StoreHours(vec![]), Reply::StoreHours(vec![])]), Step::Done(()));
    assert_eq!(Store::update_hours(vec![], vec![]), Step::Done(()));
}

#[test]
fn staff_update_services_deletes_by_staff_then_inserts() {
    let list = vec![StaffServiceCreate { staff_id: 5, service_variant_id: 8, is_active: 1 }];
    assert_eq!(
        Staff::update_staff_services(5, list.clone(), vec![]),
        Step::Run(Statement::Delete(Table::StaffService, Filter::Owner(5)))
    );
    assert_eq!(
        Staff::update_staff_services(5, list.clone(), vec![Reply::Deleted(3)]),
        Step::Run(Statement::Insert(vec![Change::StaffService(list[0])]))
    );
    assert_eq!(Staff::update_staff_services(5, list.clone(), vec![Reply::Deleted(3), Reply::Keys(vec![40])]), Step::Done(()));
    assert_eq!(
        Staff::update_staff_services(5, list, vec![Reply::Deleted(3), Reply::Failed("duplicate".to_string())]),
        Step::Fail(RepoError::Storage("duplicate".to_string()))
    );
}

#[test]
fn staff_add_service_reports_failure() {
    assert_eq!(
        Staff::add_service(2, 9, vec![]),
        Step::Run(Statement::Insert(vec![Change::StaffService(StaffServiceCreate {
            staff_id: 2,
            service_variant_id: 9,
            is_active: 1
        })]))
    );
    assert_eq!(
        Staff::add_service(2, 9, vec![Reply::Failed("fk".to_string())]),
        Step::Fail(RepoError::Storage("fk".to_string()))
    );
}

#[test]
fn service_find_missing_window_is_not_found() {
    let s = Service { service_id: 3, name: "Cut".to_string(), description: None, is_active: 1, category: None };
    assert_eq!(
        Service::find(3, vec![Reply::Services(vec![s.clone()])]),
        Step::Run(Statement::Select(Table::BlockExtraTime, Filter::Owner(3)))
    );
    assert_eq!(
        Service::find(3, vec![Reply::Services(vec![s]), Reply::BlockExtraTimes(vec![])]),
        Step::Fail(RepoError::NotFound)
    );
}

#[test]
fn service_update_time_block_selects_by_primary_key() {
    let c = BlockExtraTimeCreate { service_id: 8, before_time: None, after_time: None };
    assert_eq!(
        Service::update_time_block(7, c, vec![]),
        Step::Run(Statement::Update(Filter::Key(7), Change::BlockExtraTime(c)))
    );
    assert_eq!(Service::update_time_block(7, c, vec![Reply::BlockExtraTimes(vec![])]), Step::Fail(RepoError::NotFound));
}

#[test]
fn store_create_stops_when_seeding_fails() {
    let c = StoreCreate { name: "Main".to_string() };
    assert_eq!(
        Store::create(c, vec![Reply::Keys(vec![21]), Reply::Failed("disk full".to_string())]),
        Step::Fail(RepoError::Storage("disk full".to_string()))
    );
}

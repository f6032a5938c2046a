use vstd::prelude::*;

use crate::db::{
    Change, Filter, Reply, RepoError, Statement, Step, Table, failure, failure_spec, first_row,
    next_reply, take_first,
};
use crate::service::{BlockExtraTime, FullService, Service, ServiceVariant, copy_text};
use crate::store::DAYS_PER_WEEK;
use crate::time::TimeOfDay;

verus! {

/// The path parameter that names a staff member.
#[derive(Clone, Copy, Debug, PartialEq, Eq)]
pub struct StaffId {
    pub staff_id: i32,
}

/// The path parameter that names one hours row of a staff member.
#[derive(Clone, Copy, Debug, PartialEq, Eq)]
pub struct StaffHourId {
    pub staff_hour_id: i32,
}

/// The path parameter that names a staff assignment.
#[derive(Clone, Copy, Debug, PartialEq, Eq)]
pub struct StaffServiceId {
    pub staff_service_id: i32,
}

/// The writable fields of a staff member.
#[derive(Clone, Debug, PartialEq, Eq)]
pub struct StaffCreate {
    pub first_name: String,
    pub last_name: String,
    pub password: String,
    pub email: String,
    pub phone: String,
    pub access: String,
    pub calendar_color: String,
}

/// The writable fields of a staff assignment: a staff member offers a service
/// variant.
#[derive(Clone, Copy, Debug, PartialEq, Eq)]
pub struct StaffServiceCreate {
    pub staff_id: i32,
    pub service_variant_id: i32,
    pub is_active: i32,
}

/// A row of the staff assignment table.
#[derive(Clone, Copy, Debug, PartialEq, Eq)]
pub struct StaffService {
    pub staff_service_id: i32,
    pub staff_id: i32,
    pub service_id: i32,
    pub service_variant_id: i32,
    pub is_active: Option<i32>,
}

/// A row of the staff table.
#[derive(Clone, Debug, PartialEq, Eq)]
pub struct Staff {
    pub staff_id: i32,
    pub first_name: String,
    pub last_name: String,
    pub password: String,
    pub email: String,
    pub phone: Option<String>,
    pub access: Option<String>,
    pub calendar_color: Option<String>,
}

/// What may be shown of a staff member to anyone: no password, no access level.
#[derive(Clone, Debug, PartialEq, Eq)]
pub struct BasicStaffInfo {
    pub staff_id: i32,
    pub first_name: String,
    pub last_name: String,
    pub email: String,
    pub phone: Option<String>,
    pub calendar_color: Option<String>,
}

/// The writable fields of a staff hours row. On an update a time that is
/// `None` leaves the stored time as it is.
#[derive(Clone, Copy, Debug, PartialEq, Eq)]
pub struct StaffHoursCreate {
    pub staff_id: i32,
    pub day_of_week: i32,
    pub start_time: Option<TimeOfDay>,
    pub end_time: Option<TimeOfDay>,
}

/// A row of the staff hours table: the working hours of one staff member on
/// one day of the week (0 to 6).
#[derive(Clone, Copy, Debug, PartialEq, Eq)]
pub struct StaffHours {
    pub staff_hours_id: i32,
    pub staff_id: i32,
    pub day_of_week: i32,
    pub start_time: Option<TimeOfDay>,
    pub end_time: Option<TimeOfDay>,
}

/// A staff member with their hours rows.
#[derive(Clone, Debug, PartialEq, Eq)]
pub struct StaffWithHours {
    pub staff: Staff,
    pub staff_hours: Vec<StaffHours>,
}

/// A staff member with the services they are assigned, each with the one
/// assigned variant.
#[derive(Clone, Debug, PartialEq, Eq)]
pub struct StaffWithServices {
    pub staff: Staff,
    pub services: Vec<FullService>,
}

} // verus!

verus! {

/// The hours rows seeded for a new staff member: one for each day of the
/// week, in order, with no start or end time.
pub open spec fn week_of_staff_hours(staff_id: i32) -> Seq<Change> {
    Seq::new(
        DAYS_PER_WEEK as nat,
        |d: int|
            Change::StaffHours(
                StaffHoursCreate { staff_id, day_of_week: d as i32, start_time: None, end_time: None },
            ),
    )
}

/// The hours rows among `hours` that belong to the staff member `staff_id`, in their order.
pub open spec fn hours_of_staff(hours: Seq<StaffHours>, staff_id: i32) -> Seq<StaffHours> {
    hours.filter(|h: StaffHours| h.staff_id == staff_id)
}

/// Each staff member with their own hours rows, found by the member's key.
pub open spec fn staff_with_hours(staff: Seq<Staff>, hours: Seq<StaffHours>, out: Seq<StaffWithHours>) -> bool {
    &&& out.len() == staff.len()
    &&& forall|i: int|
        0 <= i < staff.len() ==> {
            &&& (#[trigger] out[i]).staff == staff[i]
            &&& out[i].staff_hours@ == hours_of_staff(hours, staff[i].staff_id)
        }
}

/// What may be shown of a staff member: every field but the password and
/// the access level.
pub open spec fn basic_info(s: Staff) -> BasicStaffInfo {
    BasicStaffInfo {
        staff_id: s.staff_id,
        first_name: s.first_name,
        last_name: s.last_name,
        email: s.email,
        phone: s.phone,
        calendar_color: s.calendar_color,
    }
}

/// Whether `r` is a good answer to the lookup of kind `t` of `find_service`:
/// a variant (0), its service (1), the service's blocking window (2).
pub open spec fn lookup_found(r: Reply, t: int) -> bool {
    ||| t == 0 && (r matches Reply::ServiceVariants(v) && v.len() > 0)
    ||| t == 1 && (r matches Reply::Services(v) && v.len() > 0)
    ||| t == 2 && (r matches Reply::BlockExtraTimes(v) && v.len() > 0)
}

/// Why the lookup of kind `t` failed with the answer `r`: no row, or a
/// failed or malformed reply.
pub open spec fn lookup_error(r: Reply, t: int) -> RepoError {
    if (t == 0 && r is ServiceVariants) || (t == 1 && r is Services) || (t == 2 && r is BlockExtraTimes) {
        RepoError::NotFound
    } else {
        failure_spec(r)
    }
}

pub open spec fn found_variant(r: Reply) -> ServiceVariant {
    match r {
        Reply::ServiceVariants(v) => v[0],
        _ => arbitrary(),
    }
}

pub open spec fn found_service(r: Reply) -> Service {
    match r {
        Reply::Services(v) => v[0],
        _ => arbitrary(),
    }
}

pub open spec fn found_block(r: Reply) -> BlockExtraTime {
    match r {
        Reply::BlockExtraTimes(v) => v[0],
        _ => arbitrary(),
    }
}

/// The lookup at position `p` of `find_service`: three for each assignment,
/// the assigned variant, then its service, then that service's blocking window.
pub open spec fn lookup_statement(assigned: Seq<StaffService>, lookups: Seq<Reply>, p: int) -> Statement {
    if p % 3 == 0 {
        Statement::Select(Table::ServiceVariant, Filter::Key(assigned[p / 3].service_variant_id))
    } else if p % 3 == 1 {
        Statement::Select(Table::Service, Filter::Key(found_variant(lookups[p - 1]).service_id))
    } else {
        Statement::Select(Table::BlockExtraTime, Filter::Owner(found_service(lookups[p - 1]).service_id))
    }
}

/// The service of the `j`th assignment, built from its three lookups, with
/// the assigned variant alone.
pub open spec fn assembled_service(lookups: Seq<Reply>, j: int, f: FullService) -> bool {
    &&& f.service == found_service(lookups[3 * j + 1])
    &&& f.blocked_time == found_block(lookups[3 * j + 2])
    &&& f.variants@ == seq![found_variant(lookups[3 * j])]
}

/// The lookups of `find_service` after the staff member and their
/// assignments are known.
pub open spec fn service_lookups_step(
    staff: Staff,
    assigned: Seq<StaffService>,
    lookups: Seq<Reply>,
    r: Step<StaffWithServices>,
) -> bool {
    let m: int = if lookups.len() < 3 * assigned.len() { lookups.len() as int } else { 3 * assigned.len() as int };
    &&& forall|p: int|
        0 <= p < m && !lookup_found(lookups[p], p % 3) && (forall|q: int| 0 <= q < p ==> lookup_found(lookups[q], q % 3))
            ==> r == Step::<StaffWithServices>::Fail(lookup_error(lookups[p], p % 3))
    &&& (forall|q: int| 0 <= q < m ==> lookup_found(lookups[q], q % 3)) ==> if m < 3 * assigned.len() {
        r == Step::<StaffWithServices>::Run(lookup_statement(assigned, lookups, m))
    } else {
        &&& r matches Step::Done(w)
        &&& w.staff == staff
        &&& w.services.len() == assigned.len()
        &&& forall|j: int| 0 <= j < assigned.len() ==> assembled_service(lookups, j, #[trigger] w.services[j])
    }
}


/// The row that inserting `c` with the key `staff_id` makes: every optional
/// text is given.
pub open spec fn new_staff(staff_id: i32, c: StaffCreate) -> Staff {
    Staff {
        staff_id,
        first_name: c.first_name,
        last_name: c.last_name,
        password: c.password,
        email: c.email,
        phone: Some(c.phone),
        access: Some(c.access),
        calendar_color: Some(c.calendar_color),
    }
}

/// The inserts of a replacement list of assignments, in order.
pub open spec fn assignment_changes(updated: Seq<StaffServiceCreate>) -> Seq<Change> {
    updated.map_values(|a: StaffServiceCreate| Change::StaffService(a))
}

fn is_found(r: &Reply, t: usize) -> (b: bool)
    ensures
        b == lookup_found(*r, t as int),
{
    match r {
        Reply::ServiceVariants(v) => t == 0 && v.len() > 0,
        Reply::Services(v) => t == 1 && v.len() > 0,
        Reply::BlockExtraTimes(v) => t == 2 && v.len() > 0,
        _ => false,
    }
}

fn not_found_error(r: Reply, t: usize) -> (e: RepoError)
    ensures
        e == lookup_error(r, t as int),
{
    match r {
        Reply::ServiceVariants(_) if t == 0 => RepoError::NotFound,
        Reply::Services(_) if t == 1 => RepoError::NotFound,
        Reply::BlockExtraTimes(_) if t == 2 => RepoError::NotFound,
        x => failure(x),
    }
}

fn variant_in(r: &Reply) -> (v: ServiceVariant)
    requires
        lookup_found(*r, 0),
    ensures
        v == found_variant(*r),
{
    match r {
        Reply::ServiceVariants(v) => v[0],
        _ => unreached(),
    }
}

fn service_in(r: &Reply) -> (s: Service)
    requires
        lookup_found(*r, 1),
    ensures
        s == found_service(*r),
{
    match r {
        Reply::Services(v) => v[0].copy(),
        _ => unreached(),
    }
}

fn block_in(r: &Reply) -> (b: BlockExtraTime)
    requires
        lookup_found(*r, 2),
    ensures
        b == found_block(*r),
{
    match r {
        Reply::BlockExtraTimes(v) => v[0],
        _ => unreached(),
    }
}

fn service_lookups(staff: Staff, assigned: &Vec<StaffService>, lookups: Vec<Reply>) -> (r: Step<StaffWithServices>)
    ensures
        service_lookups_step(staff, assigned@, lookups@, r),
{
    let n = assigned.len();
    let mut p: usize = 0;
    while p < lookups.len() && p / 3 < n
        invariant
            n == assigned.len(),
            p <= lookups.len(),
            p <= 3 * n,
            forall|q: int| 0 <= q < p ==> lookup_found(lookups@[q], q % 3),
        decreases lookups.len() - p,
    {
        if !is_found(&lookups[p], p % 3) {
            let mut lookups = lookups;
            let x = lookups.remove(p);
            return Step::Fail(not_found_error(x, p % 3));
        }
        p = p + 1;
    }
    if p / 3 < n {
        let t = p % 3;
        let st = if t == 0 {
            Statement::Select(Table::ServiceVariant, Filter::Key(assigned[p / 3].service_variant_id))
        } else if t == 1 {
            Statement::Select(Table::Service, Filter::Key(variant_in(&lookups[p - 1]).service_id))
        } else {
            Statement::Select(Table::BlockExtraTime, Filter::Owner(service_in(&lookups[p - 1]).service_id))
        };
        return Step::Run(st);
    }
    let mut services: Vec<FullService> = Vec::new();
    let mut j: usize = 0;
    while j < n
        invariant
            n == assigned.len(),
            3 * n <= lookups.len(),
            j <= n,
            forall|q: int| 0 <= q < 3 * n ==> lookup_found(lookups@[q], q % 3),
            services.len() == j,
            forall|i: int| 0 <= i < j ==> assembled_service(lookups@, i, #[trigger] services@[i]),
        decreases n - j,
    {
        assert(lookup_found(lookups@[3 * j as int], (3 * j as int) % 3));
        assert(lookup_found(lookups@[3 * j + 1], (3 * j + 1) % 3));
        assert(lookup_found(lookups@[3 * j + 2], (3 * j + 2) % 3));
        let v = variant_in(&lookups[3 * j]);
        let variants = vec![v];
        assert(variants@ =~= seq![v]);
        services.push(FullService {
            service: service_in(&lookups[3 * j + 1]),
            blocked_time: block_in(&lookups[3 * j + 2]),
            variants,
        });
        j = j + 1;
    }
    Step::Done(StaffWithServices { staff, services })
}

impl Staff {
    /// A copy of the row.
    pub fn copy(&self) -> (r: Staff)
        ensures
            r == *self,
    {
        Staff {
            staff_id: self.staff_id,
            first_name: self.first_name.clone(),
            last_name: self.last_name.clone(),
            password: self.password.clone(),
            email: self.email.clone(),
            phone: copy_text(&self.phone),
            access: copy_text(&self.access),
            calendar_color: copy_text(&self.calendar_color),
        }
    }

    /// The staff member `id` with each service they are assigned. For each
    /// assignment, in order, three lookups: the assigned variant, its
    /// service, that service's blocking window. Each service comes with the
    /// assigned variant alone. `NotFound` where the member or a looked-up row
    /// is missing.
    pub open spec fn find_service_step(id: i32, replies: Seq<Reply>, r: Step<StaffWithServices>) -> bool {
        if replies.len() == 0 {
            r == Step::<StaffWithServices>::Run(Statement::Select(Table::Staff, Filter::Key(id)))
        } else {
            match replies[0] {
                Reply::Staff(s) => if s.len() == 0 {
                    r == Step::<StaffWithServices>::Fail(RepoError::NotFound)
                } else if replies.len() == 1 {
                    r == Step::<StaffWithServices>::Run(Statement::Select(Table::StaffService, Filter::Owner(id)))
                } else {
                    match replies[1] {
                        Reply::StaffServices(a) => service_lookups_step(s[0], a@, replies.skip(2), r),
                        x => r == Step::<StaffWithServices>::Fail(failure_spec(x)),
                    }
                },
                x => r == Step::<StaffWithServices>::Fail(failure_spec(x)),
            }
        }
    }

    /// The next step of `find_service` after the replies so far: the relation
    /// [`Self::find_service_step`].
    pub fn find_service(id: i32, replies: Vec<Reply>) -> (r: Step<StaffWithServices>)
        ensures
            Self::find_service_step(id, replies@, r),
    {
        let ghost all = replies@;
        let mut replies = replies;
        if replies.len() == 0 {
            return Step::Run(Statement::Select(Table::Staff, Filter::Key(id)));
        }
        let mut s = match next_reply(&mut replies) {
            Reply::Staff(s) => s,
            x => return Step::Fail(failure(x)),
        };
        if s.len() == 0 {
            return Step::Fail(RepoError::NotFound);
        }
        if replies.len() == 0 {
            return Step::Run(Statement::Select(Table::StaffService, Filter::Owner(id)));
        }
        let ghost rest = replies@;
        let a = match next_reply(&mut replies) {
            Reply::StaffServices(a) => a,
            x => return Step::Fail(failure(x)),
        };
        assert(replies@ =~= all.skip(2)) by {
            assert(rest =~= all.drop_first());
        };
        service_lookups(s.remove(0), &a, replies)
    }
}


fn seed_staff_hours(staff_id: i32) -> (r: Vec<Change>)
    ensures
        r@ == week_of_staff_hours(staff_id),
{
    let mut r: Vec<Change> = Vec::new();
    let mut d: i32 = 0;
    while d < DAYS_PER_WEEK
        invariant
            0 <= d <= DAYS_PER_WEEK,
            r@ == week_of_staff_hours(staff_id).take(d as int),
        decreases DAYS_PER_WEEK - d,
    {
        r.push(
            Change::StaffHours(
                StaffHoursCreate { staff_id, day_of_week: d, start_time: None, end_time: None },
            ),
        );
        d = d + 1;
        assert(r@ =~= week_of_staff_hours(staff_id).take(d as int));
    }
    assert(r@ =~= week_of_staff_hours(staff_id));
    r
}

fn select_hours_of_staff(hours: &Vec<StaffHours>, staff_id: i32) -> (r: Vec<StaffHours>)
    ensures
        r@ == hours_of_staff(hours@, staff_id),
{
    let mut r: Vec<StaffHours> = Vec::new();
    let mut j: usize = 0;
    while j < hours.len()
        invariant
            j <= hours.len(),
            r@ == hours_of_staff(hours@.take(j as int), staff_id),
        decreases hours.len() - j,
    {
        let h = hours[j];
        assert(hours@.take(j + 1).drop_last() =~= hours@.take(j as int));
        reveal(Seq::filter);
        if h.staff_id == staff_id {
            r.push(h);
        }
        j = j + 1;
    }
    assert(hours@.take(hours.len() as int) =~= hours@);
    r
}

impl Staff {
    /// Every staff member, in key order.
    pub open spec fn find_all_step(replies: Seq<Reply>, r: Step<Vec<Staff>>) -> bool {
        if replies.len() == 0 {
            r == Step::<Vec<Staff>>::Run(Statement::Select(Table::Staff, Filter::All))
        } else {
            match replies[0] {
                Reply::Staff(v) => r == Step::Done(v),
                x => r == Step::<Vec<Staff>>::Fail(failure_spec(x)),
            }
        }
    }

    /// The next step of `find_all` after the replies so far: the relation
    /// [`Self::find_all_step`].
    pub fn find_all(replies: Vec<Reply>) -> (r: Step<Vec<Staff>>)
        ensures
            Self::find_all_step(replies@, r),
    {
        let mut replies = replies;
        if replies.len() == 0 {
            return Step::Run(Statement::Select(Table::Staff, Filter::All));
        }
        match next_reply(&mut replies) {
            Reply::Staff(v) => Step::Done(v),
            x => Step::Fail(failure(x)),
        }
    }

    /// The staff member whose key is `id`; `NotFound` where there is none.
    pub open spec fn find_step(id: i32, replies: Seq<Reply>, r: Step<Staff>) -> bool {
        if replies.len() == 0 {
            r == Step::<Staff>::Run(Statement::Select(Table::Staff, Filter::Key(id)))
        } else {
            match replies[0] {
                Reply::Staff(v) => r == first_row(v@),
                x => r == Step::<Staff>::Fail(failure_spec(x)),
            }
        }
    }

    /// The next step of `find` after the replies so far: the relation
    /// [`Self::find_step`].
    pub fn find(id: i32, replies: Vec<Reply>) -> (r: Step<Staff>)
        ensures
            Self::find_step(id, replies@, r),
    {
        let mut replies = replies;
        if replies.len() == 0 {
            return Step::Run(Statement::Select(Table::Staff, Filter::Key(id)));
        }
        match next_reply(&mut replies) {
            Reply::Staff(v) => take_first(v),
            x => Step::Fail(failure(x)),
        }
    }

    /// Every staff member with their hours. Two reads: all staff, then all hours
    /// rows; each staff member then gets the hours rows that carry their key.
    pub open spec fn find_all_staff_hours_step(replies: Seq<Reply>, r: Step<Vec<StaffWithHours>>) -> bool {
        if replies.len() == 0 {
            r == Step::<Vec<StaffWithHours>>::Run(Statement::Select(Table::Staff, Filter::All))
        } else {
            match replies[0] {
                Reply::Staff(s) => if replies.len() == 1 {
                    r == Step::<Vec<StaffWithHours>>::Run(Statement::Select(Table::StaffHours, Filter::All))
                } else {
                    match replies[1] {
                        Reply::StaffHours(h) => r matches Step::Done(out) && staff_with_hours(s@, h@, out@),
                        x => r == Step::<Vec<StaffWithHours>>::Fail(failure_spec(x)),
                    }
                },
                x => r == Step::<Vec<StaffWithHours>>::Fail(failure_spec(x)),
            }
        }
    }

    /// The next step of `find_all_staff_hours` after the replies so far: the relation
    /// [`Self::find_all_staff_hours_step`].
    pub fn find_all_staff_hours(replies: Vec<Reply>) -> (r: Step<Vec<StaffWithHours>>)
        ensures
            Self::find_all_staff_hours_step(replies@, r),
    {
        let mut replies = replies;
        if replies.len() == 0 {
            return Step::Run(Statement::Select(Table::Staff, Filter::All));
        }
        let s = match next_reply(&mut replies) {
            Reply::Staff(s) => s,
            x => return Step::Fail(failure(x)),
        };
        if replies.len() == 0 {
            return Step::Run(Statement::Select(Table::StaffHours, Filter::All));
        }
        let h = match next_reply(&mut replies) {
            Reply::StaffHours(h) => h,
            x => return Step::Fail(failure(x)),
        };
        let mut out: Vec<StaffWithHours> = Vec::new();
        let mut i: usize = 0;
        while i < s.len()
            invariant
                i <= s.len(),
                staff_with_hours(s@.take(i as int), h@, out@),
            decreases s.len() - i,
        {
            let hours = select_hours_of_staff(&h, s[i].staff_id);
            out.push(StaffWithHours { staff: s[i].copy(), staff_hours: hours });
            i = i + 1;
        }
        assert(s@.take(s.len() as int) =~= s@);
        Step::Done(out)
    }

    /// The staff member `id` with their hours; `NotFound` where there is no such
    /// staff member. A staff member may have no hours.
    pub open spec fn find_staff_hours_step(id: i32, replies: Seq<Reply>, r: Step<StaffWithHours>) -> bool {
        if replies.len() == 0 {
            r == Step::<StaffWithHours>::Run(Statement::Select(Table::Staff, Filter::Key(id)))
        } else {
            match replies[0] {
                Reply::Staff(s) => if s.len() == 0 {
                    r == Step::<StaffWithHours>::Fail(RepoError::NotFound)
                } else if replies.len() == 1 {
                    r == Step::<StaffWithHours>::Run(Statement::Select(Table::StaffHours, Filter::Owner(id)))
                } else {
                    match replies[1] {
                        Reply::StaffHours(h) => r matches Step::Done(w) && w.staff == s[0] && w.staff_hours@ == h@,
                        x => r == Step::<StaffWithHours>::Fail(failure_spec(x)),
                    }
                },
                x => r == Step::<StaffWithHours>::Fail(failure_spec(x)),
            }
        }
    }

    /// The next step of `find_staff_hours` after the replies so far: the relation
    /// [`Self::find_staff_hours_step`].
    pub fn find_staff_hours(id: i32, replies: Vec<Reply>) -> (r: Step<StaffWithHours>)
        ensures
            Self::find_staff_hours_step(id, replies@, r),
    {
        let mut replies = replies;
        if replies.len() == 0 {
            return Step::Run(Statement::Select(Table::Staff, Filter::Key(id)));
        }
        let mut s = match next_reply(&mut replies) {
            Reply::Staff(s) => s,
            x => return Step::Fail(failure(x)),
        };
        if s.len() == 0 {
            return Step::Fail(RepoError::NotFound);
        }
        if replies.len() == 0 {
            return Step::Run(Statement::Select(Table::StaffHours, Filter::Owner(id)));
        }
        match next_reply(&mut replies) {
            Reply::StaffHours(h) => Step::Done(StaffWithHours { staff: s.remove(0), staff_hours: h }),
            x => Step::Fail(failure(x)),
        }
    }

    /// Inserts the staff member, then seeds their week of hours in one insert: one
    /// row for each day, 0 to 6, with no times. The result is the new staff member.
    pub open spec fn create_step(staff_create: StaffCreate, replies: Seq<Reply>, r: Step<Staff>) -> bool {
        if replies.len() == 0 {
            r matches Step::Run(Statement::Insert(c)) && c@ == seq![Change::Staff(staff_create)]
        } else {
            match replies[0] {
                Reply::Keys(k) => if k.len() == 0 {
                    r == Step::<Staff>::Fail(RepoError::Malformed)
                } else if replies.len() == 1 {
                    r matches Step::Run(Statement::Insert(c)) && c@ == week_of_staff_hours(k[0])
                } else {
                    match replies[1] {
                        Reply::Keys(_) => r == Step::Done(new_staff(k[0], staff_create)),
                        x => r == Step::<Staff>::Fail(failure_spec(x)),
                    }
                },
                x => r == Step::<Staff>::Fail(failure_spec(x)),
            }
        }
    }

    /// The next step of `create` after the replies so far: the relation
    /// [`Self::create_step`].
    pub fn create(staff_create: StaffCreate, replies: Vec<Reply>) -> (r: Step<Staff>)
        ensures
            Self::create_step(staff_create, replies@, r),
    {
        let mut replies = replies;
        if replies.len() == 0 {
            let ghost g = staff_create;
            let c = vec![Change::Staff(staff_create)];
            assert(c@ =~= seq![Change::Staff(g)]);
            return Step::Run(Statement::Insert(c));
        }
        let k = match next_reply(&mut replies) {
            Reply::Keys(k) => k,
            x => return Step::Fail(failure(x)),
        };
        if k.len() == 0 {
            return Step::Fail(RepoError::Malformed);
        }
        let staff_id = k[0];
        if replies.len() == 0 {
            return Step::Run(Statement::Insert(seed_staff_hours(staff_id)));
        }
        match next_reply(&mut replies) {
            Reply::Keys(_) => Step::Done(Staff {
                staff_id,
                first_name: staff_create.first_name,
                last_name: staff_create.last_name,
                password: staff_create.password,
                email: staff_create.email,
                phone: Some(staff_create.phone),
                access: Some(staff_create.access),
                calendar_color: Some(staff_create.calendar_color),
            }),
            x => Step::Fail(failure(x)),
        }
    }

    /// Sets the fields of the staff member `id`; the result is the changed row,
    /// `NotFound` where there is none.
    pub open spec fn update_step(id: i32, staff_update: StaffCreate, replies: Seq<Reply>, r: Step<Staff>) -> bool {
        if replies.len() == 0 {
            r == Step::<Staff>::Run(Statement::Update(Filter::Key(id), Change::Staff(staff_update)))
        } else {
            match replies[0] {
                Reply::Staff(v) => r == first_row(v@),
                x => r == Step::<Staff>::Fail(failure_spec(x)),
            }
        }
    }

    /// The next step of `update` after the replies so far: the relation
    /// [`Self::update_step`].
    pub fn update(id: i32, staff_update: StaffCreate, replies: Vec<Reply>) -> (r: Step<Staff>)
        ensures
            Self::update_step(id, staff_update, replies@, r),
    {
        let mut replies = replies;
        if replies.len() == 0 {
            return Step::Run(Statement::Update(Filter::Key(id), Change::Staff(staff_update)));
        }
        match next_reply(&mut replies) {
            Reply::Staff(v) => take_first(v),
            x => Step::Fail(failure(x)),
        }
    }

    /// Sets the fields of the hours row `id`; the result is the changed row,
    /// `NotFound` where there is none.
    pub open spec fn update_one_hour_step(
        id: i32,
        h: StaffHoursCreate,
        replies: Seq<Reply>,
        r: Step<StaffHours>,
    ) -> bool {
        if replies.len() == 0 {
            r == Step::<StaffHours>::Run(Statement::Update(Filter::Key(id), Change::StaffHours(h)))
        } else {
            match replies[0] {
                Reply::StaffHours(v) => r == first_row(v@),
                x => r == Step::<StaffHours>::Fail(failure_spec(x)),
            }
        }
    }

    /// The next step of `update_one_hour` after the replies so far: the relation
    /// [`Self::update_one_hour_step`].
    pub fn update_one_hour(id: i32, h: StaffHoursCreate, replies: Vec<Reply>) -> (r: Step<StaffHours>)
        ensures
            Self::update_one_hour_step(id, h, replies@, r),
    {
        let mut replies = replies;
        if replies.len() == 0 {
            return Step::Run(Statement::Update(Filter::Key(id), Change::StaffHours(h)));
        }
        match next_reply(&mut replies) {
            Reply::StaffHours(v) => take_first(v),
            x => Step::Fail(failure(x)),
        }
    }

    /// One update for each entry, in order, of the hours row that has the
    /// entry's staff member and day of the week. An entry that matches no row
    /// changes nothing; the first update that fails ends the operation
    /// with its error.
    pub open spec fn update_hours_step(list: Seq<StaffHoursCreate>, replies: Seq<Reply>, r: Step<()>) -> bool {
        let m: int = if replies.len() < list.len() { replies.len() as int } else { list.len() as int };
        &&& forall|j: int|
            0 <= j < m && !(replies[j] is StaffHours) && (forall|i: int| 0 <= i < j ==> replies[i] is StaffHours)
                ==> r == Step::<()>::Fail(failure_spec(replies[j]))
        &&& (forall|i: int| 0 <= i < m ==> replies[i] is StaffHours) ==> if m < list.len() {
            r == Step::<()>::Run(Statement::Update(
                Filter::OwnerDay(list[m].staff_id, list[m].day_of_week),
                Change::StaffHours(list[m]),
            ))
        } else {
            r == Step::Done(())
        }
    }

    /// The next step of `update_hours` after the replies so far: the relation
    /// [`Self::update_hours_step`].
    pub fn update_hours(list: Vec<StaffHoursCreate>, replies: Vec<Reply>) -> (r: Step<()>)
        ensures
            Self::update_hours_step(list@, replies@, r),
    {
        let m = if replies.len() < list.len() { replies.len() } else { list.len() };
        let mut i: usize = 0;
        while i < m
            invariant
                m <= replies.len(),
                m <= list.len(),
                i <= m,
                forall|j: int| 0 <= j < i ==> replies@[j] is StaffHours,
            decreases m - i,
        {
            match &replies[i] {
                Reply::StaffHours(_) => {},
                _ => {
                    let mut replies = replies;
                    let x = replies.remove(i);
                    return Step::Fail(failure(x));
                },
            }
            i = i + 1;
        }
        if m < list.len() {
            let h = list[m];
            Step::Run(Statement::Update(Filter::OwnerDay(h.staff_id, h.day_of_week), Change::StaffHours(h)))
        } else {
            Step::Done(())
        }
    }


    /// What may be shown of the staff member `id`: no password, no access
    /// level. `NotFound` where there is no such member.
    pub open spec fn find_basic_step(id: i32, replies: Seq<Reply>, r: Step<BasicStaffInfo>) -> bool {
        if replies.len() == 0 {
            r == Step::<BasicStaffInfo>::Run(Statement::Select(Table::Staff, Filter::Key(id)))
        } else {
            match replies[0] {
                Reply::Staff(v) => if v.len() == 0 {
                    r == Step::<BasicStaffInfo>::Fail(RepoError::NotFound)
                } else {
                    r == Step::Done(basic_info(v[0]))
                },
                x => r == Step::<BasicStaffInfo>::Fail(failure_spec(x)),
            }
        }
    }

    /// The next step of `find_basic` after the replies so far: the relation
    /// [`Self::find_basic_step`].
    pub fn find_basic(id: i32, replies: Vec<Reply>) -> (r: Step<BasicStaffInfo>)
        ensures
            Self::find_basic_step(id, replies@, r),
    {
        let mut replies = replies;
        if replies.len() == 0 {
            return Step::Run(Statement::Select(Table::Staff, Filter::Key(id)));
        }
        let mut v = match next_reply(&mut replies) {
            Reply::Staff(v) => v,
            x => return Step::Fail(failure(x)),
        };
        if v.len() == 0 {
            return Step::Fail(RepoError::NotFound);
        }
        let s = v.remove(0);
        Step::Done(BasicStaffInfo {
            staff_id: s.staff_id,
            first_name: s.first_name,
            last_name: s.last_name,
            email: s.email,
            phone: s.phone,
            calendar_color: s.calendar_color,
        })
    }

    /// Removes the member's hours rows, then the staff row. The result is the
    /// number of staff rows removed.
    pub open spec fn delete_step(id: i32, replies: Seq<Reply>, r: Step<usize>) -> bool {
        if replies.len() == 0 {
            r == Step::<usize>::Run(Statement::Delete(Table::StaffHours, Filter::Owner(id)))
        } else if !(replies[0] is Deleted) {
            r == Step::<usize>::Fail(failure_spec(replies[0]))
        } else if replies.len() == 1 {
            r == Step::<usize>::Run(Statement::Delete(Table::Staff, Filter::Key(id)))
        } else {
            match replies[1] {
                Reply::Deleted(n) => r == Step::Done(n),
                x => r == Step::<usize>::Fail(failure_spec(x)),
            }
        }
    }

    /// The next step of `delete` after the replies so far: the relation
    /// [`Self::delete_step`].
    pub fn delete(id: i32, replies: Vec<Reply>) -> (r: Step<usize>)
        ensures
            Self::delete_step(id, replies@, r),
    {
        let mut replies = replies;
        if replies.len() == 0 {
            return Step::Run(Statement::Delete(Table::StaffHours, Filter::Owner(id)));
        }
        match next_reply(&mut replies) {
            Reply::Deleted(_) => {},
            x => return Step::Fail(failure(x)),
        }
        if replies.len() == 0 {
            return Step::Run(Statement::Delete(Table::Staff, Filter::Key(id)));
        }
        match next_reply(&mut replies) {
            Reply::Deleted(n) => Step::Done(n),
            x => Step::Fail(failure(x)),
        }
    }

    /// Every assignment of a staff member to the service `service_id`.
    pub open spec fn find_staff_with_service_step(
        service_id: i32,
        replies: Seq<Reply>,
        r: Step<Vec<StaffService>>,
    ) -> bool {
        if replies.len() == 0 {
            r == Step::<Vec<StaffService>>::Run(Statement::Select(Table::StaffService, Filter::Service(service_id)))
        } else {
            match replies[0] {
                Reply::StaffServices(v) => r == Step::Done(v),
                x => r == Step::<Vec<StaffService>>::Fail(failure_spec(x)),
            }
        }
    }

    /// The next step of `find_staff_with_service` after the replies so far: the relation
    /// [`Self::find_staff_with_service_step`].
    pub fn find_staff_with_service(service_id: i32, replies: Vec<Reply>) -> (r: Step<Vec<StaffService>>)
        ensures
            Self::find_staff_with_service_step(service_id, replies@, r),
    {
        let mut replies = replies;
        if replies.len() == 0 {
            return Step::Run(Statement::Select(Table::StaffService, Filter::Service(service_id)));
        }
        match next_reply(&mut replies) {
            Reply::StaffServices(v) => Step::Done(v),
            x => Step::Fail(failure(x)),
        }
    }

    /// Assigns the service variant to the staff member, active. A duplicate
    /// assignment is not refused; a failed insert is reported.
    pub open spec fn add_service_step(staff_id: i32, service_variant_id: i32, replies: Seq<Reply>, r: Step<()>) -> bool {
        if replies.len() == 0 {
            r matches Step::Run(Statement::Insert(c)) && c@ == seq![
                Change::StaffService(StaffServiceCreate { staff_id, service_variant_id, is_active: 1 }),
            ]
        } else {
            match replies[0] {
                Reply::Keys(_) => r == Step::Done(()),
                x => r == Step::<()>::Fail(failure_spec(x)),
            }
        }
    }

    /// The next step of `add_service` after the replies so far: the relation
    /// [`Self::add_service_step`].
    pub fn add_service(staff_id: i32, service_variant_id: i32, replies: Vec<Reply>) -> (r: Step<()>)
        ensures
            Self::add_service_step(staff_id, service_variant_id, replies@, r),
    {
        let mut replies = replies;
        if replies.len() == 0 {
            let a = StaffServiceCreate { staff_id, service_variant_id, is_active: 1 };
            let c = vec![Change::StaffService(a)];
            assert(c@ =~= seq![Change::StaffService(a)]);
            return Step::Run(Statement::Insert(c));
        }
        match next_reply(&mut replies) {
            Reply::Keys(_) => Step::Done(()),
            x => Step::Fail(failure(x)),
        }
    }

    /// Replaces the assignments of the staff member `staff_id`: removes every
    /// assignment of that member, then inserts the given ones in one insert.
    pub open spec fn update_staff_services_step(
        staff_id: i32,
        updated: Seq<StaffServiceCreate>,
        replies: Seq<Reply>,
        r: Step<()>,
    ) -> bool {
        if replies.len() == 0 {
            r == Step::<()>::Run(Statement::Delete(Table::StaffService, Filter::Owner(staff_id)))
        } else if !(replies[0] is Deleted) {
            r == Step::<()>::Fail(failure_spec(replies[0]))
        } else if replies.len() == 1 {
            r matches Step::Run(Statement::Insert(c)) && c@ == assignment_changes(updated)
        } else {
            match replies[1] {
                Reply::Keys(_) => r == Step::Done(()),
                x => r == Step::<()>::Fail(failure_spec(x)),
            }
        }
    }

    /// The next step of `update_staff_services` after the replies so far: the relation
    /// [`Self::update_staff_services_step`].
    pub fn update_staff_services(staff_id: i32, updated: Vec<StaffServiceCreate>, replies: Vec<Reply>) -> (r: Step<()>)
        ensures
            Self::update_staff_services_step(staff_id, updated@, replies@, r),
    {
        let mut replies = replies;
        if replies.len() == 0 {
            return Step::Run(Statement::Delete(Table::StaffService, Filter::Owner(staff_id)));
        }
        match next_reply(&mut replies) {
            Reply::Deleted(_) => {},
            x => return Step::Fail(failure(x)),
        }
        if replies.len() == 0 {
            let mut c: Vec<Change> = Vec::new();
            let mut i: usize = 0;
            while i < updated.len()
                invariant
                    i <= updated.len(),
                    c@ == assignment_changes(updated@.take(i as int)),
                decreases updated.len() - i,
            {
                c.push(Change::StaffService(updated[i]));
                i = i + 1;
                assert(c@ =~= assignment_changes(updated@.take(i as int)));
            }
            assert(updated@.take(updated.len() as int) =~= updated@);
            return Step::Run(Statement::Insert(c));
        }
        match next_reply(&mut replies) {
            Reply::Keys(_) => Step::Done(()),
            x => Step::Fail(failure(x)),
        }
    }

    /// Removes the assignment whose key is `id`. The result is the number of
    /// rows removed.
    pub open spec fn delete_service_step(id: i32, replies: Seq<Reply>, r: Step<usize>) -> bool {
        if replies.len() == 0 {
            r == Step::<usize>::Run(Statement::Delete(Table::StaffService, Filter::Key(id)))
        } else {
            match replies[0] {
                Reply::Deleted(n) => r == Step::Done(n),
                x => r == Step::<usize>::Fail(failure_spec(x)),
            }
        }
    }

    /// The next step of `delete_service` after the replies so far: the relation
    /// [`Self::delete_service_step`].
    pub fn delete_service(id: i32, replies: Vec<Reply>) -> (r: Step<usize>)
        ensures
            Self::delete_service_step(id, replies@, r),
    {
        let mut replies = replies;
        if replies.len() == 0 {
            return Step::Run(Statement::Delete(Table::StaffService, Filter::Key(id)));
        }
        match next_reply(&mut replies) {
            Reply::Deleted(n) => Step::Done(n),
            x => Step::Fail(failure(x)),
        }
    }
}

} // verus!

//! The rows that a seeding run inserts.
//!
//! A run seeds one table with a number of rows. The identifiers of the rows
//! that the new rows refer to are read from the database by the caller and
//! handed in; the rows come back in the order in which they are to be
//! inserted.

use vstd::prelude::*;
use crate::draws::{
    argon2_hash,
    fake_city,
    fake_company,
    fake_email,
    fresh_id,
    fresh_salt,
    hash_password,
    is_random_id,
    random_days,
};
use crate::rows::{
    equipment_items,
    seeded_activity,
    seeded_business,
    seeded_user,
    Activity,
    ActivityView,
    Booking,
    Business,
    BusinessView,
    User,
    UserView,
    ACTIVITY_TITLE,
    FIXTURE_PASSWORD,
    USER_EMAIL_PREFIX,
};
use crate::text::lemma_indexed_distinct;
use crate::time::{lemma_clock_reading_has_room, now, Timestamp};

verus! {

/// Why a run seeds nothing.
#[derive(Clone, Copy, Debug, PartialEq, Eq, Structural)]
pub enum SeedError {
    /// A table that the new rows refer to holds fewer rows than are asked for.
    NotFound,
}

/// What is drawn for the user at one position of a run.
pub struct UserDraw {
    /// The salt of the password hash.
    pub salt: Seq<char>,
    /// The hash of the fixture password with that salt; none where hashing
    /// failed.
    pub hash: Option<Seq<char>>,
    pub id: u128,
    pub email: Seq<char>,
    pub created_at: Timestamp,
}

impl UserDraw {
    /// Whether the values can have been drawn: the hash is that of the
    /// fixture password with the salt; and where there is one, it is not
    /// empty, the identifier is a random one and the time is a clock reading.
    pub open spec fn wf(self) -> bool {
        &&& self.hash == argon2_hash(FIXTURE_PASSWORD@, self.salt)
        &&& self.hash matches Some(hash) ==> {
            &&& hash.len() > 0
            &&& is_random_id(self.id)
            &&& self.created_at.is_clock_reading()
        }
    }

    /// The user that position `index` gets from this draw: none where hashing
    /// failed.
    pub open spec fn user(self, index: nat) -> Option<UserView> {
        match self.hash {
            Some(hash) => Some(seeded_user(index, self.id, self.email, hash, self.created_at)),
            None => None,
        }
    }
}

/// Whether every draw of a run can have been drawn.
pub open spec fn all_wf(draws: Seq<UserDraw>) -> bool {
    forall|i: int| 0 <= i < draws.len() ==> (#[trigger] draws[i]).wf()
}

/// The users of a run with one draw for each position: the positions whose
/// password was hashed, in their order.
pub open spec fn seeded_users(draws: Seq<UserDraw>) -> Seq<UserView>
    decreases draws.len(),
{
    if draws.len() == 0 {
        Seq::empty()
    } else {
        let before = seeded_users(draws.drop_last());
        match draws.last().user((draws.len() - 1) as nat) {
            Some(user) => before.push(user),
            None => before,
        }
    }
}

/// The positions of a run that get a user, in their order.
pub open spec fn hashed_positions(draws: Seq<UserDraw>) -> Seq<int>
    decreases draws.len(),
{
    if draws.len() == 0 {
        Seq::empty()
    } else {
        let before = hashed_positions(draws.drop_last());
        if draws.last().hash is Some {
            before.push(draws.len() - 1)
        } else {
            before
        }
    }
}

/// Whether `rows` are the users of a run over `total` positions.
pub open spec fn is_user_seeding(rows: Seq<UserView>, total: nat) -> bool {
    exists|draws: Seq<UserDraw>|
        draws.len() == total && all_wf(draws) && rows == #[trigger] seeded_users(draws)
}

/// Whether `row` is the user at position `index` of a run, with the password
/// hash `password_hash`.
pub open spec fn is_seeded_user(row: UserView, index: nat, password_hash: Seq<char>) -> bool {
    exists|id: u128, email: Seq<char>, created_at: Timestamp|
        {
            &&& row == #[trigger] seeded_user(index, id, email, password_hash, created_at)
            &&& is_random_id(id)
            &&& created_at.is_clock_reading()
        }
}

/// Whether `row` is the business at position `index` of a run, owned by
/// `owner_id`.
pub open spec fn is_seeded_business(row: BusinessView, index: nat, owner_id: u128) -> bool {
    exists|id: u128, name: Seq<char>, created_at: Timestamp|
        {
            &&& row == #[trigger] seeded_business(index, id, name, owner_id, created_at)
            &&& is_random_id(id)
            &&& created_at.is_clock_reading()
        }
}

/// Whether `row` is a seeded activity of the business `business_id`.
pub open spec fn is_seeded_activity(row: ActivityView, business_id: u128) -> bool {
    exists|id: u128, location: Seq<char>, now: Timestamp, days: u8, created_at: Timestamp|
        {
            &&& row == #[trigger] seeded_activity(id, business_id, location, now, days, created_at)
            &&& is_random_id(id)
            &&& now.is_clock_reading()
            &&& created_at.is_clock_reading()
        }
}

/// Whether `row` is a seeded booking of the activity `activity_id` by the
/// user `user_id`.
pub open spec fn is_seeded_booking(row: Booking, user_id: u128, activity_id: u128) -> bool {
    &&& is_random_id(row.id)
    &&& row.user_id == user_id
    &&& row.activity_id == activity_id
    &&& row.booked_at.is_clock_reading()
}

/// The users of a run are those of its hashed positions, in their order: row
/// `k` is the user that the draw at the `k`-th hashed position gives.
pub proof fn lemma_seeded_users_follow_positions(draws: Seq<UserDraw>)
    ensures
        seeded_users(draws).len() == hashed_positions(draws).len(),
        seeded_users(draws).len() <= draws.len(),
        forall|k: int|
            0 <= k < seeded_users(draws).len() ==> {
                let at = #[trigger] hashed_positions(draws)[k];
                &&& 0 <= at < draws.len()
                &&& draws[at].user(at as nat) == Some(seeded_users(draws)[k])
            },
        forall|j: int, k: int|
            0 <= j < k < seeded_users(draws).len() ==> #[trigger] hashed_positions(draws)[j]
                < #[trigger] hashed_positions(draws)[k],
    decreases draws.len(),
{
    if draws.len() > 0 {
        let before = draws.drop_last();
        lemma_seeded_users_follow_positions(before);
        assert forall|k: int| 0 <= k < seeded_users(draws).len() implies {
            let at = #[trigger] hashed_positions(draws)[k];
            &&& 0 <= at < draws.len()
            &&& draws[at].user(at as nat) == Some(seeded_users(draws)[k])
        } by {
            if k < seeded_users(before).len() {
                let at = hashed_positions(before)[k];
                assert(before[at] == draws[at]);
            }
        }
    }
}

/// No two users of a run have the same e-mail address, and where every draw
/// can have been drawn, every user has a password hash that is not empty, a
/// random identifier and a clock reading as its time.
pub proof fn lemma_seeded_users_differ(draws: Seq<UserDraw>)
    ensures
        forall|j: int, k: int|
            0 <= j < k < seeded_users(draws).len() ==> (#[trigger] seeded_users(draws)[j]).email
                != (#[trigger] seeded_users(draws)[k]).email,
        all_wf(draws) ==> forall|k: int|
            0 <= k < seeded_users(draws).len() ==> {
                let user = #[trigger] seeded_users(draws)[k];
                &&& user.password_hash.len() > 0
                &&& is_random_id(user.id)
                &&& user.created_at.is_clock_reading()
            },
{
    let rows = seeded_users(draws);
    let at = hashed_positions(draws);
    lemma_seeded_users_follow_positions(draws);
    assert forall|j: int, k: int| 0 <= j < k < rows.len() implies (#[trigger] rows[j]).email != (
    #[trigger] rows[k]).email by {
        assert(at[j] < at[k]);
        lemma_indexed_distinct(
            USER_EMAIL_PREFIX@,
            at[j] as nat,
            at[k] as nat,
            draws[at[j]].email,
            draws[at[k]].email,
        );
    }
    if all_wf(draws) {
        assert forall|k: int| 0 <= k < rows.len() implies {
            let user = #[trigger] rows[k];
            &&& user.password_hash.len() > 0
            &&& is_random_id(user.id)
            &&& user.created_at.is_clock_reading()
        } by {
            assert(draws[at[k]].wf());
        }
    }
}

/// A run in which no hashing fails and no identifier is drawn twice gives one
/// user for each position, the user at position `i` from the draw at `i`. No
/// two of them have the same identifier or the same e-mail address, and each
/// has a password hash that is not empty.
pub proof fn lemma_seeded_users_complete(draws: Seq<UserDraw>)
    requires
        all_wf(draws),
        forall|i: int| 0 <= i < draws.len() ==> (#[trigger] draws[i]).hash is Some,
        forall|i: int, j: int|
            0 <= i < j < draws.len() ==> (#[trigger] draws[i]).id != (#[trigger] draws[j]).id,
    ensures
        seeded_users(draws).len() == draws.len(),
        forall|i: int|
            0 <= i < draws.len() ==> Some(#[trigger] seeded_users(draws)[i]) == draws[i].user(
                i as nat,
            ),
        forall|i: int, j: int|
            0 <= i < j < draws.len() ==> {
                &&& (#[trigger] seeded_users(draws)[i]).id != (#[trigger] seeded_users(draws)[j]).id
                &&& seeded_users(draws)[i].email != seeded_users(draws)[j].email
            },
        forall|i: int|
            0 <= i < draws.len() ==> (#[trigger] seeded_users(draws)[i]).password_hash.len() > 0,
    decreases draws.len(),
{
    lemma_seeded_users_differ(draws);
    if draws.len() > 0 {
        let before = draws.drop_last();
        assert forall|i: int| 0 <= i < before.len() implies (#[trigger] before[i]).wf() by {
            assert(before[i] == draws[i]);
        }
        lemma_seeded_users_complete(before);
        assert forall|i: int| 0 <= i < draws.len() implies Some(#[trigger] seeded_users(draws)[i])
            == draws[i].user(i as nat) by {
            if i < before.len() {
                assert(before[i] == draws[i]);
            }
        }
    }
}

/// Activities seeded for businesses that differ: the activity at each position
/// belongs to the business at that position, so no two belong to the same one;
/// each has ten places and asks for the same three things.
pub proof fn lemma_seeded_activities(rows: Seq<ActivityView>, business_ids: Seq<u128>)
    requires
        rows.len() <= business_ids.len(),
        forall|i: int|
            0 <= i < rows.len() ==> is_seeded_activity(#[trigger] rows[i], business_ids[i]),
        forall|i: int, j: int|
            0 <= i < j < business_ids.len() ==> #[trigger] business_ids[i]
                != #[trigger] business_ids[j],
    ensures
        forall|i: int|
            0 <= i < rows.len() ==> {
                let row = #[trigger] rows[i];
                &&& row.business_id == business_ids[i]
                &&& row.capacity == 10
                &&& row.equipment == equipment_items()
                &&& row.title == ACTIVITY_TITLE@
            },
        forall|i: int, j: int|
            0 <= i < j < rows.len() ==> (#[trigger] rows[i]).business_id != (
            #[trigger] rows[j]).business_id,
{
    assert forall|i: int, j: int| 0 <= i < j < rows.len() implies (#[trigger] rows[i]).business_id
        != (#[trigger] rows[j]).business_id by {
        assert(is_seeded_activity(rows[i], business_ids[i]));
        assert(is_seeded_activity(rows[j], business_ids[j]));
        assert(business_ids[i] != business_ids[j]);
    }
}

/// The user at position `index` of a run, from the outcome of hashing its
/// password: none where hashing failed. Where there is a hash, the
/// identifier and the e-mail address are drawn and the clock is read.
pub fn seed_user(index: u32, password_hash: Option<String>) -> (user: Option<User>)
    ensures
        match password_hash {
            Some(hash) => user matches Some(row) && is_seeded_user(row@, index as nat, hash@),
            None => user is None,
        },
{
    match password_hash {
        Some(hash) => {
            let id = fresh_id();
            let email = fake_email();
            let created_at = now();
            Some(User::seeded(index, id, email.as_str(), hash, created_at))
        },
        None => None,
    }
}

/// The users of a run over `total_users` positions.
///
/// For each position a salt is drawn and the fixture password hashed with it.
/// A position whose hashing fails gets no user, and the run goes on with the
/// next one.
pub fn seed_users(total_users: u32) -> (rows: Vec<User>)
    ensures
        is_user_seeding(rows.deep_view(), total_users as nat),
        rows@.len() <= total_users,
{
    let mut rows: Vec<User> = Vec::new();
    let ghost mut draws: Seq<UserDraw> = Seq::empty();
    let mut index: u32 = 0;
    assert(rows.deep_view() =~= seeded_users(draws));
    while index < total_users
        invariant
            index <= total_users,
            draws.len() == index,
            all_wf(draws),
            rows.deep_view() == seeded_users(draws),
        decreases total_users - index,
    {
        let ghost before = draws;
        let ghost rows_before = rows.deep_view();
        let salt = fresh_salt();
        let hash = hash_password(FIXTURE_PASSWORD, salt.as_str());
        let ghost hashed = argon2_hash(FIXTURE_PASSWORD@, salt@);
        match seed_user(index, hash) {
            Some(user) => {
                proof {
                    let (id, email, created_at) = choose|
                        id: u128,
                        email: Seq<char>,
                        created_at: Timestamp,
                    |
                        {
                            &&& user@ == #[trigger] seeded_user(
                                index as nat,
                                id,
                                email,
                                hashed->0,
                                created_at,
                            )
                            &&& is_random_id(id)
                            &&& created_at.is_clock_reading()
                        };
                    draws = before.push(
                        UserDraw { salt: salt@, hash: hashed, id, email, created_at },
                    );
                }
                rows.push(user);
                assert(rows.deep_view() =~= rows_before.push(user@));
            },
            None => {
                proof {
                    draws = before.push(
                        UserDraw {
                            salt: salt@,
                            hash: hashed,
                            id: 0,
                            email: Seq::empty(),
                            created_at: Timestamp { secs: 0, nanos: 0 },
                        },
                    );
                }
            },
        }
        proof {
            assert(draws.drop_last() =~= before);
        }
        index = index + 1;
    }
    proof {
        lemma_seeded_users_follow_positions(draws);
    }
    rows
}

/// The businesses of a run over `total_businesses` positions, owned by the
/// users `user_ids` in their order.
///
/// The run seeds nothing where there are fewer users than positions.
pub fn seed_businesses(
    user_ids: &[u128],
    total_businesses: u32,
) -> (seeded: Result<Vec<Business>, SeedError>)
    ensures
        match seeded {
            Ok(rows) => {
                &&& total_businesses <= user_ids@.len()
                &&& rows@.len() == total_businesses
                &&& forall|i: int|
                    0 <= i < total_businesses ==> is_seeded_business(
                        (#[trigger] rows@[i])@,
                        i as nat,
                        user_ids@[i],
                    )
            },
            Err(error) => error == SeedError::NotFound && user_ids@.len() < total_businesses,
        },
{
    if user_ids.len() < total_businesses as usize {
        return Err(SeedError::NotFound);
    }
    let mut rows: Vec<Business> = Vec::new();
    let mut index: u32 = 0;
    while index < total_businesses
        invariant
            index <= total_businesses <= user_ids@.len(),
            rows@.len() == index,
            forall|i: int|
                0 <= i < index ==> is_seeded_business(
                    (#[trigger] rows@[i])@,
                    i as nat,
                    user_ids@[i],
                ),
        decreases total_businesses - index,
    {
        let id = fresh_id();
        let name = fake_company();
        let created_at = now();
        let business = Business::seeded(
            index,
            id,
            name.as_str(),
            user_ids[index as usize],
            created_at,
        );
        rows.push(business);
        index = index + 1;
    }
    Ok(rows)
}

/// The activities of a run over `total_activities` positions, offered by the
/// businesses `business_ids` in their order. Each takes place a random number
/// of days, from 0 to 255, after the time at which it is made.
///
/// The run seeds nothing where there are fewer businesses than positions.
pub fn seed_activities(
    business_ids: &[u128],
    total_activities: u32,
) -> (seeded: Result<Vec<Activity>, SeedError>)
    ensures
        match seeded {
            Ok(rows) => {
                &&& total_activities <= business_ids@.len()
                &&& rows@.len() == total_activities
                &&& forall|i: int|
                    0 <= i < total_activities ==> is_seeded_activity(
                        (#[trigger] rows@[i])@,
                        business_ids@[i],
                    )
            },
            Err(error) => error == SeedError::NotFound && business_ids@.len() < total_activities,
        },
{
    if business_ids.len() < total_activities as usize {
        return Err(SeedError::NotFound);
    }
    let mut rows: Vec<Activity> = Vec::new();
    let mut index: u32 = 0;
    while index < total_activities
        invariant
            index <= total_activities <= business_ids@.len(),
            rows@.len() == index,
            forall|i: int|
                0 <= i < index ==> is_seeded_activity((#[trigger] rows@[i])@, business_ids@[i]),
        decreases total_activities - index,
    {
        let id = fresh_id();
        let location = fake_city();
        let start = now();
        let days = random_days();
        let created_at = now();
        proof {
            lemma_clock_reading_has_room(start, days);
        }
        let activity = Activity::seeded(
            id,
            business_ids[index as usize],
            location,
            start,
            days,
            created_at,
        );
        rows.push(activity);
        index = index + 1;
    }
    Ok(rows)
}

/// The bookings of a run over `total_bookings` positions: the user at each
/// position of `user_ids` books the activity at that position of
/// `activity_ids`.
///
/// The run seeds nothing where there are fewer users, or fewer activities,
/// than positions.
pub fn seed_bookings(
    user_ids: &[u128],
    activity_ids: &[u128],
    total_bookings: u32,
) -> (seeded: Result<Vec<Booking>, SeedError>)
    ensures
        match seeded {
            Ok(rows) => {
                &&& total_bookings <= user_ids@.len()
                &&& total_bookings <= activity_ids@.len()
                &&& rows@.len() == total_bookings
                &&& forall|i: int|
                    0 <= i < total_bookings ==> is_seeded_booking(
                        #[trigger] rows@[i],
                        user_ids@[i],
                        activity_ids@[i],
                    )
            },
            Err(error) => {
                &&& error == SeedError::NotFound
                &&& user_ids@.len() < total_bookings || activity_ids@.len() < total_bookings
            },
        },
{
    if user_ids.len() < total_bookings as usize || activity_ids.len() < total_bookings as usize {
        return Err(SeedError::NotFound);
    }
    let mut rows: Vec<Booking> = Vec::new();
    let mut index: u32 = 0;
    while index < total_bookings
        invariant
            index <= total_bookings <= user_ids@.len(),
            total_bookings <= activity_ids@.len(),
            rows@.len() == index,
            forall|i: int|
                0 <= i < index ==> is_seeded_booking(
                    #[trigger] rows@[i],
                    user_ids@[i],
                    activity_ids@[i],
                ),
        decreases total_bookings - index,
    {
        let id = fresh_id();
        let booked_at = now();
        let booking = Booking::seeded(
            id,
            user_ids[index as usize],
            activity_ids[index as usize],
            booked_at,
        );
        rows.push(booking);
        index = index + 1;
    }
    Ok(rows)
}

} // verus!

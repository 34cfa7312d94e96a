//! The rows of the four tables that are seeded, and how a row is put together
//! from its position in the run and from the values drawn for it.

use vstd::prelude::*;
use crate::draws::{json_array, json_array_text};
use crate::text::{indexed, indexed_text};
use crate::time::{Timestamp, SECONDS_PER_DAY};

verus! {

/// The password of every seeded user. It is a fixture for demonstration data
/// and protects nothing.
pub const FIXTURE_PASSWORD: &'static str = "thehobbyproject";

/// What the e-mail address of a seeded user begins with, before its position.
pub const USER_EMAIL_PREFIX: &'static str = "user";

/// What the name of a seeded business begins with, before its position.
pub const BUSINESS_NAME_PREFIX: &'static str = "Business-";

/// The description of every seeded business.
pub const BUSINESS_DESCRIPTION: &'static str = "A rabble rousing business description";

/// The title of every seeded activity.
pub const ACTIVITY_TITLE: &'static str = "A fun all inclusive activity";

/// The number of places in every seeded activity.
pub const ACTIVITY_CAPACITY: u32 = 10;

/// A row of the table `users`: an account.
#[derive(Clone, Debug, PartialEq, Eq)]
pub struct User {
    pub id: u128,
    pub email: String,
    pub password_hash: String,
    pub created_at: Timestamp,
}

/// A `User` with its texts as sequences of characters.
pub struct UserView {
    pub id: u128,
    pub email: Seq<char>,
    pub password_hash: Seq<char>,
    pub created_at: Timestamp,
}

impl View for User {
    type V = UserView;

    open spec fn view(&self) -> UserView {
        UserView {
            id: self.id,
            email: self.email@,
            password_hash: self.password_hash@,
            created_at: self.created_at,
        }
    }
}

impl DeepView for User {
    type V = UserView;

    open spec fn deep_view(&self) -> UserView {
        self@
    }
}

/// A row of the table `businesses`: an organization that a user owns.
#[derive(Clone, Debug, PartialEq, Eq)]
pub struct Business {
    pub id: u128,
    pub name: String,
    pub description: String,
    pub owner_id: u128,
    pub created_at: Timestamp,
}

/// A `Business` with its texts as sequences of characters.
pub struct BusinessView {
    pub id: u128,
    pub name: Seq<char>,
    pub description: Seq<char>,
    pub owner_id: u128,
    pub created_at: Timestamp,
}

impl View for Business {
    type V = BusinessView;

    open spec fn view(&self) -> BusinessView {
        BusinessView {
            id: self.id,
            name: self.name@,
            description: self.description@,
            owner_id: self.owner_id,
            created_at: self.created_at,
        }
    }
}

impl DeepView for Business {
    type V = BusinessView;

    open spec fn deep_view(&self) -> BusinessView {
        self@
    }
}

/// A row of the table `activities`: a listing that a business offers.
#[derive(Clone, Debug, PartialEq, Eq)]
pub struct Activity {
    pub id: u128,
    pub business_id: u128,
    pub title: String,
    pub location: String,
    pub capacity: u32,
    pub time: Timestamp,
    pub equipment: Vec<String>,
    pub created_at: Timestamp,
}

/// An `Activity` with its texts as sequences of characters.
pub struct ActivityView {
    pub id: u128,
    pub business_id: u128,
    pub title: Seq<char>,
    pub location: Seq<char>,
    pub capacity: u32,
    pub time: Timestamp,
    pub equipment: Seq<Seq<char>>,
    pub created_at: Timestamp,
}

impl View for Activity {
    type V = ActivityView;

    open spec fn view(&self) -> ActivityView {
        ActivityView {
            id: self.id,
            business_id: self.business_id,
            title: self.title@,
            location: self.location@,
            capacity: self.capacity,
            time: self.time,
            equipment: self.equipment.deep_view(),
            created_at: self.created_at,
        }
    }
}

impl DeepView for Activity {
    type V = ActivityView;

    open spec fn deep_view(&self) -> ActivityView {
        self@
    }
}

/// A row of the table `bookings`: a reservation of an activity by a user.
#[derive(Clone, Copy, Debug, PartialEq, Eq, Structural)]
pub struct Booking {
    pub id: u128,
    pub user_id: u128,
    pub activity_id: u128,
    pub booked_at: Timestamp,
}

impl View for Booking {
    type V = Booking;

    open spec fn view(&self) -> Booking {
        *self
    }
}

impl DeepView for Booking {
    type V = Booking;

    open spec fn deep_view(&self) -> Booking {
        *self
    }
}

/// The e-mail address of the user at position `index`: `user`, the position,
/// a hyphen, and the address that was drawn.
pub open spec fn user_email(index: nat, drawn: Seq<char>) -> Seq<char> {
    indexed(USER_EMAIL_PREFIX@, index, drawn)
}

/// The name of the business at position `index`: `Business-`, the position,
/// a hyphen, and the company name that was drawn.
pub open spec fn business_name(index: nat, drawn: Seq<char>) -> Seq<char> {
    indexed(BUSINESS_NAME_PREFIX@, index, drawn)
}

/// What every seeded activity asks its guests to bring.
pub open spec fn equipment_items() -> Seq<Seq<char>> {
    seq!["Water Bottle"@, "Mat"@, "Towel"@]
}

/// The user at position `index` of a run.
pub open spec fn seeded_user(
    index: nat,
    id: u128,
    drawn_email: Seq<char>,
    password_hash: Seq<char>,
    created_at: Timestamp,
) -> UserView {
    UserView { id, email: user_email(index, drawn_email), password_hash, created_at }
}

/// The business at position `index` of a run.
pub open spec fn seeded_business(
    index: nat,
    id: u128,
    drawn_name: Seq<char>,
    owner_id: u128,
    created_at: Timestamp,
) -> BusinessView {
    BusinessView {
        id,
        name: business_name(index, drawn_name),
        description: BUSINESS_DESCRIPTION@,
        owner_id,
        created_at,
    }
}

/// The activity that a business offers `days` days after `now`.
pub open spec fn seeded_activity(
    id: u128,
    business_id: u128,
    location: Seq<char>,
    now: Timestamp,
    days: u8,
    created_at: Timestamp,
) -> ActivityView {
    ActivityView {
        id,
        business_id,
        title: ACTIVITY_TITLE@,
        location,
        capacity: ACTIVITY_CAPACITY,
        time: now.spec_plus_days(days),
        equipment: equipment_items(),
        created_at,
    }
}

/// What every seeded activity asks its guests to bring.
pub fn equipment() -> (items: Vec<String>)
    ensures
        items.deep_view() == equipment_items(),
{
    let mut items: Vec<String> = Vec::new();
    items.push(String::from_str("Water Bottle"));
    items.push(String::from_str("Mat"));
    items.push(String::from_str("Towel"));
    assert(items.deep_view() =~= equipment_items());
    items
}

impl User {
    /// The user at position `index` of a run, from what was drawn for it.
    pub fn seeded(
        index: u32,
        id: u128,
        drawn_email: &str,
        password_hash: String,
        created_at: Timestamp,
    ) -> (user: User)
        ensures
            user@ == seeded_user(index as nat, id, drawn_email@, password_hash@, created_at),
    {
        User {
            id,
            email: indexed_text(USER_EMAIL_PREFIX, index, drawn_email),
            password_hash,
            created_at,
        }
    }
}

impl Business {
    /// The business at position `index` of a run, from what was drawn for it
    /// and the user that owns it.
    pub fn seeded(
        index: u32,
        id: u128,
        drawn_name: &str,
        owner_id: u128,
        created_at: Timestamp,
    ) -> (business: Business)
        ensures
            business@ == seeded_business(index as nat, id, drawn_name@, owner_id, created_at),
    {
        Business {
            id,
            name: indexed_text(BUSINESS_NAME_PREFIX, index, drawn_name),
            description: String::from_str(BUSINESS_DESCRIPTION),
            owner_id,
            created_at,
        }
    }
}

impl Activity {
    /// The activity that the business `business_id` offers `days` days after
    /// `now`, from what was drawn for it.
    pub fn seeded(
        id: u128,
        business_id: u128,
        location: String,
        now: Timestamp,
        days: u8,
        created_at: Timestamp,
    ) -> (activity: Activity)
        requires
            now.secs + days * SECONDS_PER_DAY <= i64::MAX,
        ensures
            activity@ == seeded_activity(id, business_id, location@, now, days, created_at),
    {
        Activity {
            id,
            business_id,
            title: String::from_str(ACTIVITY_TITLE),
            location,
            capacity: ACTIVITY_CAPACITY,
            time: now.plus_days(days),
            equipment: equipment(),
            created_at,
        }
    }

    /// The equipment as the text of a JSON array, as the column `equipment`
    /// takes it.
    pub fn equipment_json(&self) -> (text: String)
        ensures
            text@ == json_array_text(self@.equipment),
    {
        json_array(&self.equipment)
    }
}

impl Booking {
    /// The booking of the activity `activity_id` by the user `user_id`.
    pub fn seeded(
        id: u128,
        user_id: u128,
        activity_id: u128,
        booked_at: Timestamp,
    ) -> (booking: Booking)
        ensures
            booking == (Booking { id, user_id, activity_id, booked_at }),
    {
        Booking { id, user_id, activity_id, booked_at }
    }
}

} // verus!

use hobby_seed::rows::{
    equipment, ACTIVITY_CAPACITY, ACTIVITY_TITLE, BUSINESS_DESCRIPTION, FIXTURE_PASSWORD,
};
use hobby_seed::time::SECONDS_PER_DAY;
use hobby_seed::{Activity, Booking, Business, Timestamp, User};

const NOON: Timestamp = Timestamp { secs: 1_700_000_000, nanos: 123_456_789 };

#[test]
fn plus_days_adds_whole_days() {
    assert_eq!(NOON.plus_days(0), NOON);
    assert_eq!(NOON.plus_days(1), Timestamp { secs: 1_700_086_400, nanos: 123_456_789 });
    assert_eq!(NOON.plus_days(255), Timestamp { secs: 1_722_032_000, nanos: 123_456_789 });
    assert_eq!(
        Timestamp { secs: -86_400, nanos: 0 }.plus_days(2),
        Timestamp { secs: 86_400, nanos: 0 }
    );
    assert_eq!(SECONDS_PER_DAY, 86_400);
}

#[test]
fn plus_days_agrees_with_chrono() {
    for days in [0u8, 1, 30, 200, 255] {
        let start = chrono::DateTime::from_timestamp(NOON.secs, NOON.nanos).unwrap();
        let later = start + chrono::Duration::days(days as i64);
        let ours = NOON.plus_days(days);
        assert_eq!(ours.secs, later.timestamp());
        assert_eq!(ours.nanos, later.timestamp_subsec_nanos());
    }
}

#[test]
fn seeded_user_carries_its_position_in_the_email() {
    let user = User::seeded(3, 77, "ann@example.com", String::from("$argon2id$x"), NOON);
    assert_eq!(
        user,
        User {
            id: 77,
            email: String::from("user3-ann@example.com"),
            password_hash: String::from("$argon2id$x"),
            created_at: NOON,
        }
    );
}

#[test]
fn seeded_business_carries_its_position_in_the_name() {
    let business = Business::seeded(12, 5, "Acme Inc", 77, NOON);
    assert_eq!(
        business,
        Business {
            id: 5,
            name: String::from("Business-12-Acme Inc"),
            description: String::from("A rabble rousing business description"),
            owner_id: 77,
            created_at: NOON,
        }
    );
    assert_eq!(business.description, BUSINESS_DESCRIPTION);
}

#[test]
fn seeded_activity_takes_place_days_after_now() {
    let created = Timestamp { secs: 1_700_000_001, nanos: 5 };
    let activity = Activity::seeded(9, 5, String::from("Springfield"), NOON, 40, created);
    assert_eq!(
        activity,
        Activity {
            id: 9,
            business_id: 5,
            title: String::from("A fun all inclusive activity"),
            location: String::from("Springfield"),
            capacity: 10,
            time: Timestamp { secs: 1_700_000_000 + 40 * 86_400, nanos: 123_456_789 },
            equipment: vec![
                String::from("Water Bottle"),
                String::from("Mat"),
                String::from("Towel")
            ],
            created_at: created,
        }
    );
    assert_eq!(activity.title, ACTIVITY_TITLE);
    assert_eq!(activity.capacity, ACTIVITY_CAPACITY);
}

#[test]
fn seeded_booking_links_a_user_and_an_activity() {
    assert_eq!(
        Booking::seeded(1, 2, 3, NOON),
        Booking { id: 1, user_id: 2, activity_id: 3, booked_at: NOON }
    );
}

#[test]
fn equipment_is_the_fixed_list() {
    assert_eq!(equipment(), vec!["Water Bottle", "Mat", "Towel"]);
}

#[test]
fn equipment_json_is_a_json_array_of_strings() {
    let mut activity = Activity::seeded(9, 5, String::from("Springfield"), NOON, 0, NOON);
    assert_eq!(activity.equipment_json(), "[\"Water Bottle\",\"Mat\",\"Towel\"]");
    let parsed: serde_json::Value = serde_json::from_str(&activity.equipment_json()).unwrap();
    assert_eq!(
        parsed,
        serde_json::Value::Array(vec![
            serde_json::Value::String(String::from("Water Bottle")),
            serde_json::Value::String(String::from("Mat")),
            serde_json::Value::String(String::from("Towel")),
        ])
    );
    activity.equipment = vec![String::from("a \"b\""), String::from("c\\d\n")];
    assert_eq!(activity.equipment_json(), "[\"a \\\"b\\\"\",\"c\\\\d\\n\"]");
    activity.equipment = Vec::new();
    assert_eq!(activity.equipment_json(), "[]");
}

#[test]
fn fixture_password_is_the_fixed_text() {
    assert_eq!(FIXTURE_PASSWORD, "thehobbyproject");
}

use argon2::password_hash::{PasswordHash, PasswordVerifier};
use hobby_seed::draws::{RANDOM_VERSION_AND_VARIANT, VERSION_AND_VARIANT_BITS};
use hobby_seed::rows::{equipment, ACTIVITY_TITLE, BUSINESS_DESCRIPTION, FIXTURE_PASSWORD};
use hobby_seed::seed::seed_user;
use hobby_seed::{
    seed_activities, seed_bookings, seed_businesses, seed_users, SeedError, Timestamp,
};

fn is_random(id: u128) -> bool {
    id & VERSION_AND_VARIANT_BITS == RANDOM_VERSION_AND_VARIANT
}

fn is_recent(time: Timestamp) -> bool {
    time.secs > 1_600_000_000 && time.nanos < 1_000_000_000
}

#[test]
fn seed_user_without_a_hash_is_skipped() {
    assert_eq!(seed_user(0, None), None);
    assert_eq!(seed_user(41, None), None);
}

#[test]
fn seed_user_with_a_hash_carries_it_and_its_position() {
    let user = seed_user(41, Some(String::from("$argon2id$v=19$x"))).unwrap();
    assert_eq!(user.password_hash, "$argon2id$v=19$x");
    assert!(user.email.starts_with("user41-"));
    assert!(user.email.len() > "user41-".len());
    assert!(is_random(user.id));
    assert!(is_recent(user.created_at));
}

#[test]
fn seed_users_of_zero_is_empty() {
    assert_eq!(seed_users(0), vec![]);
}

#[test]
fn seed_users_gives_one_user_for_each_position() {
    let users = seed_users(3);
    assert_eq!(users.len(), 3);
    for (position, user) in users.iter().enumerate() {
        let prefix = format!("user{}-", position);
        assert!(user.email.starts_with(&prefix));
        assert!(user.email.len() > prefix.len());
        assert!(user.email.contains('@'));
        assert!(is_random(user.id));
        assert!(is_recent(user.created_at));
    }
}

#[test]
fn seed_users_gives_distinct_identifiers_and_emails() {
    let users = seed_users(4);
    for first in 0..users.len() {
        for second in first + 1..users.len() {
            assert_ne!(users[first].id, users[second].id);
            assert_ne!(users[first].email, users[second].email);
        }
    }
}

#[test]
fn seed_users_hashes_the_fixture_password_with_a_salt_of_its_own() {
    let users = seed_users(2);
    assert_eq!(users.len(), 2);
    for user in &users {
        assert!(!user.password_hash.is_empty());
        assert!(user.password_hash.starts_with("$argon2id$"));
        assert!(!user.password_hash.contains(FIXTURE_PASSWORD));
        let hash = PasswordHash::new(&user.password_hash).unwrap();
        assert!(argon2::Argon2::default()
            .verify_password(FIXTURE_PASSWORD.as_bytes(), &hash)
            .is_ok());
        assert!(argon2::Argon2::default().verify_password(b"another password", &hash).is_err());
        assert_eq!(hash.salt.unwrap().as_str().len(), 22);
    }
    assert_ne!(users[0].password_hash, users[1].password_hash);
}

#[test]
fn seed_businesses_needs_a_user_for_each_position() {
    assert_eq!(seed_businesses(&[], 1), Err(SeedError::NotFound));
    assert_eq!(seed_businesses(&[7, 8], 3), Err(SeedError::NotFound));
    assert_eq!(seed_businesses(&[7, 8], u32::MAX), Err(SeedError::NotFound));
}

#[test]
fn seed_businesses_of_zero_is_empty() {
    assert_eq!(seed_businesses(&[], 0), Ok(vec![]));
    assert_eq!(seed_businesses(&[7, 8], 0), Ok(vec![]));
}

#[test]
fn seed_businesses_gives_each_user_a_business_in_order() {
    let owners = [70u128, 80, 90, 100];
    let businesses = seed_businesses(&owners, 3).unwrap();
    assert_eq!(businesses.len(), 3);
    for (position, business) in businesses.iter().enumerate() {
        let prefix = format!("Business-{}-", position);
        assert!(business.name.starts_with(&prefix));
        assert!(business.name.len() > prefix.len());
        assert_eq!(business.description, BUSINESS_DESCRIPTION);
        assert_eq!(business.owner_id, owners[position]);
        assert!(is_random(business.id));
        assert!(is_recent(business.created_at));
    }
    assert_ne!(businesses[0].id, businesses[1].id);
    assert_ne!(businesses[1].id, businesses[2].id);
}

#[test]
fn seed_activities_needs_a_business_for_each_position() {
    assert_eq!(seed_activities(&[], 1), Err(SeedError::NotFound));
    assert_eq!(seed_activities(&[1, 2, 3], 4), Err(SeedError::NotFound));
}

#[test]
fn seed_activities_of_zero_is_empty() {
    assert_eq!(seed_activities(&[], 0), Ok(vec![]));
}

#[test]
fn seed_activities_gives_each_business_an_activity_in_order() {
    let businesses = [11u128, 22, 33];
    let activities = seed_activities(&businesses, 3).unwrap();
    assert_eq!(activities.len(), 3);
    for (position, activity) in activities.iter().enumerate() {
        assert_eq!(activity.business_id, businesses[position]);
        assert_eq!(activity.title, ACTIVITY_TITLE);
        assert_eq!(activity.capacity, 10);
        assert_eq!(activity.equipment, equipment());
        assert_eq!(activity.equipment_json(), "[\"Water Bottle\",\"Mat\",\"Towel\"]");
        assert!(!activity.location.is_empty());
        assert!(is_random(activity.id));
        assert!(is_recent(activity.created_at));
        assert!(activity.time.nanos < 1_000_000_000);
        let ahead = activity.time.secs - activity.created_at.secs;
        assert!(-5 <= ahead && ahead <= 255 * 86_400);
        assert!((ahead + 5) % 86_400 <= 5);
    }
    assert_ne!(activities[0].id, activities[1].id);
    assert_ne!(activities[0].business_id, activities[1].business_id);
    assert_ne!(activities[1].business_id, activities[2].business_id);
}

#[test]
fn seed_bookings_needs_a_user_and_an_activity_for_each_position() {
    assert_eq!(seed_bookings(&[1], &[2, 3], 2), Err(SeedError::NotFound));
    assert_eq!(seed_bookings(&[1, 4], &[2], 2), Err(SeedError::NotFound));
    assert_eq!(seed_bookings(&[], &[], 1), Err(SeedError::NotFound));
}

#[test]
fn seed_bookings_of_zero_is_empty() {
    assert_eq!(seed_bookings(&[], &[], 0), Ok(vec![]));
}

#[test]
fn seed_bookings_links_users_and_activities_by_position() {
    let users = [1u128, 2, 3];
    let activities = [10u128, 20, 30, 40];
    let bookings = seed_bookings(&users, &activities, 3).unwrap();
    assert_eq!(bookings.len(), 3);
    for (position, booking) in bookings.iter().enumerate() {
        assert_eq!(booking.user_id, users[position]);
        assert_eq!(booking.activity_id, activities[position]);
        assert!(is_random(booking.id));
        assert!(is_recent(booking.booked_at));
    }
    assert_ne!(bookings[0].id, bookings[1].id);
    assert_ne!(bookings[1].id, bookings[2].id);
}

#[test]
fn seeded_identifiers_are_version_4_uuids() {
    for booking in seed_bookings(&[1, 2], &[3, 4], 2).unwrap() {
        let id = uuid::Uuid::from_u128(booking.id);
        assert_eq!(id.get_version_num(), 4);
        assert_eq!(id.get_variant(), uuid::Variant::RFC4122);
    }
}

#[test]
fn seeded_times_are_close_to_the_clock() {
    let before = chrono::Utc::now().timestamp();
    let bookings = seed_bookings(&[1], &[3], 1).unwrap();
    let after = chrono::Utc::now().timestamp();
    assert!(before <= bookings[0].booked_at.secs && bookings[0].booked_at.secs <= after);
}

//! Synthetic data for a hobby-booking database.
//!
//! The crate decides what is written to the database and leaves the writing to
//! its caller: it gives the SQL statements, in the order in which they run, and
//! the rows of users, businesses, activities and bookings that a seeding run
//! inserts. It also reads the lines that the menu of the command-line tool is
//! answered with.

pub mod decimal;
pub mod draws;
pub mod menu;
pub mod rows;
pub mod schema;
pub mod seed;
pub mod text;
pub mod time;

pub use rows::{Activity, Booking, Business, User};
pub use schema::{create_tables, flush_tables, seed_all, Table};
pub use seed::{seed_activities, seed_bookings, seed_businesses, seed_users, SeedError};
pub use time::Timestamp;

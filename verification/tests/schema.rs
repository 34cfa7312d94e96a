use hobby_seed::schema::{all_tables, fetch_limit, Table};
use hobby_seed::{create_tables, flush_tables, seed_all};

const TABLES: [Table; 5] =
    [Table::Users, Table::Businesses, Table::Activities, Table::Bookings, Table::Logs];

#[test]
fn tables_have_their_names() {
    assert_eq!(Table::Users.name(), "users");
    assert_eq!(Table::Businesses.name(), "businesses");
    assert_eq!(Table::Activities.name(), "activities");
    assert_eq!(Table::Bookings.name(), "bookings");
    assert_eq!(Table::Logs.name(), "logs");
}

#[test]
fn create_tables_gives_one_statement_for_each_table_in_order() {
    let statements = create_tables();
    assert_eq!(statements.len(), 5);
    assert_eq!(
        statements[0],
        "CREATE TABLE IF NOT EXISTS users (id UUID PRIMARY KEY DEFAULT gen_random_uuid(), \
         email TEXT NOT NULL UNIQUE, password_hash TEXT NOT NULL, \
         created_at TIMESTAMPTZ DEFAULT NOW());"
    );
    assert_eq!(
        statements[1],
        "CREATE TABLE IF NOT EXISTS businesses (id UUID PRIMARY KEY DEFAULT gen_random_uuid(), \
         name TEXT NOT NULL, description TEXT, \
         owner_id UUID REFERENCES users(id) ON DELETE CASCADE, \
         created_at TIMESTAMPTZ DEFAULT NOW());"
    );
    assert_eq!(
        statements[2],
        "CREATE TABLE IF NOT EXISTS activities (id UUID PRIMARY KEY DEFAULT gen_random_uuid(), \
         business_id UUID REFERENCES businesses(id) ON DELETE CASCADE, \
         title TEXT NOT NULL, location TEXT NOT NULL, capacity INT NOT NULL, \
         time TIMESTAMPTZ NOT NULL, equipment JSONB DEFAULT '[]', \
         created_at TIMESTAMPTZ DEFAULT NOW());"
    );
    assert_eq!(
        statements[3],
        "CREATE TABLE IF NOT EXISTS bookings (id UUID PRIMARY KEY DEFAULT gen_random_uuid(), \
         user_id UUID REFERENCES users(id) ON DELETE CASCADE, \
         activity_id UUID REFERENCES activities(id) ON DELETE CASCADE, \
         booked_at TIMESTAMPTZ DEFAULT NOW());"
    );
    assert_eq!(
        statements[4],
        "CREATE TABLE IF NOT EXISTS logs (id UUID PRIMARY KEY DEFAULT gen_random_uuid(), \
         level TEXT NOT NULL, message TEXT NOT NULL, context JSONB DEFAULT '{}', \
         created_at TIMESTAMPTZ DEFAULT NOW());"
    );
}

#[test]
fn create_tables_twice_gives_the_same_statements() {
    assert_eq!(create_tables(), create_tables());
    for statement in create_tables() {
        assert!(statement.starts_with("CREATE TABLE IF NOT EXISTS "));
    }
}

#[test]
fn create_statement_is_that_of_create_tables() {
    let statements = create_tables();
    for (position, table) in TABLES.iter().enumerate() {
        assert_eq!(table.create_statement(), statements[position]);
    }
}

#[test]
fn flush_tables_deletes_from_all_five_tables_in_order() {
    assert_eq!(
        flush_tables(),
        vec![
            "DELETE FROM users;",
            "DELETE FROM businesses;",
            "DELETE FROM activities;",
            "DELETE FROM bookings;",
            "DELETE FROM logs;",
        ]
    );
}

#[test]
fn delete_statement_has_no_condition() {
    for table in TABLES {
        let statement = table.delete_statement();
        assert_eq!(statement, format!("DELETE FROM {};", table.name()));
        assert!(!statement.contains("WHERE"));
    }
}

#[test]
fn select_ids_statement_reads_identifiers_up_to_a_limit() {
    assert_eq!(Table::Users.select_ids_statement(), "SELECT id FROM users LIMIT $1");
    assert_eq!(Table::Businesses.select_ids_statement(), "SELECT id FROM businesses LIMIT $1");
    assert_eq!(Table::Activities.select_ids_statement(), "SELECT id FROM activities LIMIT $1");
    assert_eq!(Table::Bookings.select_ids_statement(), "SELECT id FROM bookings LIMIT $1");
    assert_eq!(Table::Logs.select_ids_statement(), "SELECT id FROM logs LIMIT $1");
}

#[test]
fn insert_statement_names_the_columns_of_a_seeded_row() {
    assert_eq!(
        Table::Users.insert_statement().unwrap(),
        "INSERT INTO users (id, email, password_hash, created_at) VALUES ($1, $2, $3, $4)"
    );
    assert_eq!(
        Table::Businesses.insert_statement().unwrap(),
        "INSERT INTO businesses (id, name, description, owner_id, created_at) \
         VALUES ($1, $2, $3, $4, $5)"
    );
    assert_eq!(
        Table::Activities.insert_statement().unwrap(),
        "INSERT INTO activities (id, business_id, title, location, capacity, time, equipment, \
         created_at) VALUES ($1, $2, $3, $4, $5, $6, $7::jsonb, $8)"
    );
    assert_eq!(
        Table::Bookings.insert_statement().unwrap(),
        "INSERT INTO bookings (id, user_id, activity_id, booked_at) VALUES ($1, $2, $3, $4)"
    );
    assert_eq!(Table::Logs.insert_statement(), None);
}

#[test]
fn insert_statement_has_one_parameter_for_each_column() {
    for table in seed_all() {
        let statement = table.insert_statement().unwrap();
        let columns = statement.split(") VALUES (").next().unwrap().split(", ").count();
        let values = statement.split(") VALUES (").nth(1).unwrap().split(", ").count();
        assert_eq!(columns, values);
    }
}

#[test]
fn references_are_those_of_the_column_definitions() {
    assert_eq!(Table::Users.references(), vec![]);
    assert_eq!(Table::Businesses.references(), vec![Table::Users]);
    assert_eq!(Table::Activities.references(), vec![Table::Businesses]);
    assert_eq!(Table::Bookings.references(), vec![Table::Users, Table::Activities]);
    assert_eq!(Table::Logs.references(), vec![]);
    for table in TABLES {
        let columns = table.column_definitions();
        assert_eq!(columns.matches(" REFERENCES ").count(), table.references().len());
        assert_eq!(columns.matches(" ON DELETE CASCADE").count(), table.references().len());
        for referred in table.references() {
            assert!(columns.contains(&format!(
                " UUID REFERENCES {}(id) ON DELETE CASCADE",
                referred.name()
            )));
        }
    }
}

#[test]
fn every_table_comes_after_the_tables_it_refers_to() {
    for order in [all_tables(), seed_all()] {
        for (position, table) in order.iter().enumerate() {
            for referred in table.references() {
                assert!(order[..position].contains(&referred));
            }
        }
    }
}

#[test]
fn all_tables_are_the_five_tables() {
    assert_eq!(all_tables(), TABLES.to_vec());
}

#[test]
fn seed_all_seeds_the_four_tables_in_order() {
    assert_eq!(
        seed_all(),
        vec![Table::Users, Table::Businesses, Table::Activities, Table::Bookings]
    );
    for table in TABLES {
        assert_eq!(seed_all().contains(&table), table.insert_statement().is_some());
    }
}

#[test]
fn fetch_limit_is_the_number_of_positions() {
    assert_eq!(fetch_limit(0), 0);
    assert_eq!(fetch_limit(25), 25);
    assert_eq!(fetch_limit(u32::MAX), 4_294_967_295);
}

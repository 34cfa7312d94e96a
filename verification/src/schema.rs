//! The tables of the database and the SQL statements that are run on them.
//!
//! The statements are PostgreSQL. Every statement with a parameter takes it as
//! `$1`, `$2` and so on, in the order of the columns it names.

use vstd::prelude::*;

verus! {

/// A table of the database.
#[derive(Clone, Copy, Debug, PartialEq, Eq, Structural)]
pub enum Table {
    /// The accounts.
    Users,
    /// The organizations; each is owned by a user.
    Businesses,
    /// The listings; each is offered by a business.
    Activities,
    /// The reservations; each is made by a user for an activity.
    Bookings,
    /// The log lines. No row of another table refers to them and they refer
    /// to none.
    Logs,
}

/// How a statement begins that creates a table unless the table exists.
pub const CREATE_IF_ABSENT: &'static str = "CREATE TABLE IF NOT EXISTS ";

/// How a statement begins that deletes every row of a table.
pub const DELETE_ALL: &'static str = "DELETE FROM ";

/// How a statement begins that reads identifiers from a table.
pub const SELECT_IDS: &'static str = "SELECT id FROM ";

/// How a statement ends that reads identifiers; its parameter is the greatest
/// number of them that it gives.
pub const LIMIT: &'static str = " LIMIT $1";

/// How a statement begins that inserts a row into a table.
pub const INSERT: &'static str = "INSERT INTO ";

/// The columns of the table `users`, as the statement that creates it defines
/// them.
pub const USERS_COLUMNS: &'static str =
    "id UUID PRIMARY KEY DEFAULT gen_random_uuid(), email TEXT NOT NULL UNIQUE, password_hash TEXT NOT NULL, created_at TIMESTAMPTZ DEFAULT NOW()";

/// The columns of the table `businesses`, as the statement that creates it defines
/// them.
pub const BUSINESSES_COLUMNS: &'static str =
    "id UUID PRIMARY KEY DEFAULT gen_random_uuid(), name TEXT NOT NULL, description TEXT, owner_id UUID REFERENCES users(id) ON DELETE CASCADE, created_at TIMESTAMPTZ DEFAULT NOW()";

/// The columns of the table `activities`, as the statement that creates it defines
/// them.
pub const ACTIVITIES_COLUMNS: &'static str =
    "id UUID PRIMARY KEY DEFAULT gen_random_uuid(), business_id UUID REFERENCES businesses(id) ON DELETE CASCADE, title TEXT NOT NULL, location TEXT NOT NULL, capacity INT NOT NULL, time TIMESTAMPTZ NOT NULL, equipment JSONB DEFAULT '[]', created_at TIMESTAMPTZ DEFAULT NOW()";

/// The columns of the table `bookings`, as the statement that creates it defines
/// them.
pub const BOOKINGS_COLUMNS: &'static str =
    "id UUID PRIMARY KEY DEFAULT gen_random_uuid(), user_id UUID REFERENCES users(id) ON DELETE CASCADE, activity_id UUID REFERENCES activities(id) ON DELETE CASCADE, booked_at TIMESTAMPTZ DEFAULT NOW()";

/// The columns of the table `logs`, as the statement that creates it defines
/// them.
pub const LOGS_COLUMNS: &'static str =
    "id UUID PRIMARY KEY DEFAULT gen_random_uuid(), level TEXT NOT NULL, message TEXT NOT NULL, context JSONB DEFAULT '{}', created_at TIMESTAMPTZ DEFAULT NOW()";

/// The columns that a seeded row of `users` fills, in the order of the row's
/// fields.
pub const USERS_INSERT_COLUMNS: &'static str = "id, email, password_hash, created_at";

/// The parameters that stand for the values of those columns.
pub const USERS_INSERT_VALUES: &'static str = "$1, $2, $3, $4";

/// The columns that a seeded row of `businesses` fills, in the order of the row's
/// fields.
pub const BUSINESSES_INSERT_COLUMNS: &'static str = "id, name, description, owner_id, created_at";

/// The parameters that stand for the values of those columns.
pub const BUSINESSES_INSERT_VALUES: &'static str = "$1, $2, $3, $4, $5";

/// The columns that a seeded row of `activities` fills, in the order of the row's
/// fields.
pub const ACTIVITIES_INSERT_COLUMNS: &'static str =
    "id, business_id, title, location, capacity, time, equipment, created_at";

/// The parameters that stand for the values of those columns. The equipment
/// is handed over as text and read as JSON.
pub const ACTIVITIES_INSERT_VALUES: &'static str = "$1, $2, $3, $4, $5, $6, $7::jsonb, $8";

/// The columns that a seeded row of `bookings` fills, in the order of the row's
/// fields.
pub const BOOKINGS_INSERT_COLUMNS: &'static str = "id, user_id, activity_id, booked_at";

/// The parameters that stand for the values of those columns.
pub const BOOKINGS_INSERT_VALUES: &'static str = "$1, $2, $3, $4";

impl Table {
    /// The name of the table in the database.
    pub open spec fn spec_name(self) -> Seq<char> {
        match self {
            Table::Users => "users"@,
            Table::Businesses => "businesses"@,
            Table::Activities => "activities"@,
            Table::Bookings => "bookings"@,
            Table::Logs => "logs"@,
        }
    }

    /// The columns of the table as its `CREATE TABLE` statement defines them.
    /// A column that refers to another table is deleted with the row it
    /// refers to.
    pub open spec fn spec_column_definitions(self) -> Seq<char> {
        match self {
            Table::Users => USERS_COLUMNS@,
            Table::Businesses => BUSINESSES_COLUMNS@,
            Table::Activities => ACTIVITIES_COLUMNS@,
            Table::Bookings => BOOKINGS_COLUMNS@,
            Table::Logs => LOGS_COLUMNS@,
        }
    }

    /// The columns that a seeded row fills, in the order of the row's fields;
    /// none for the table that is not seeded.
    pub open spec fn spec_insert_columns(self) -> Option<Seq<char>> {
        match self {
            Table::Users => Some(USERS_INSERT_COLUMNS@),
            Table::Businesses => Some(BUSINESSES_INSERT_COLUMNS@),
            Table::Activities => Some(ACTIVITIES_INSERT_COLUMNS@),
            Table::Bookings => Some(BOOKINGS_INSERT_COLUMNS@),
            Table::Logs => None,
        }
    }

    /// The parameters that stand for the values of those columns. The
    /// equipment of an activity is handed over as text and read as JSON.
    pub open spec fn spec_insert_values(self) -> Option<Seq<char>> {
        match self {
            Table::Users => Some(USERS_INSERT_VALUES@),
            Table::Businesses => Some(BUSINESSES_INSERT_VALUES@),
            Table::Activities => Some(ACTIVITIES_INSERT_VALUES@),
            Table::Bookings => Some(BOOKINGS_INSERT_VALUES@),
            Table::Logs => None,
        }
    }

    /// The tables that the rows of this table refer to.
    pub open spec fn spec_references(self) -> Seq<Table> {
        match self {
            Table::Users => seq![],
            Table::Businesses => seq![Table::Users],
            Table::Activities => seq![Table::Businesses],
            Table::Bookings => seq![Table::Users, Table::Activities],
            Table::Logs => seq![],
        }
    }

    /// The statement that creates the table unless it exists.
    pub open spec fn create_text(self) -> Seq<char> {
        CREATE_IF_ABSENT@ + self.spec_name() + " ("@ + self.spec_column_definitions() + ");"@
    }

    /// The statement that deletes every row of the table.
    pub open spec fn delete_text(self) -> Seq<char> {
        DELETE_ALL@ + self.spec_name() + ";"@
    }

    /// The statement that reads identifiers of the table's rows, no more of
    /// them than its parameter says.
    pub open spec fn select_ids_text(self) -> Seq<char> {
        SELECT_IDS@ + self.spec_name() + LIMIT@
    }

    /// The statement that inserts a seeded row into the table; none for the
    /// table that is not seeded.
    pub open spec fn insert_text(self) -> Option<Seq<char>> {
        match (self.spec_insert_columns(), self.spec_insert_values()) {
            (Some(columns), Some(values)) => Some(
                INSERT@ + self.spec_name() + " ("@ + columns + ") VALUES ("@ + values + ")"@,
            ),
            _ => None,
        }
    }

    /// The name of the table in the database.
    pub fn name(self) -> (name: &'static str)
        ensures
            name@ == self.spec_name(),
    {
        match self {
            Table::Users => "users",
            Table::Businesses => "businesses",
            Table::Activities => "activities",
            Table::Bookings => "bookings",
            Table::Logs => "logs",
        }
    }

    /// The columns of the table as its `CREATE TABLE` statement defines them.
    pub fn column_definitions(self) -> (columns: &'static str)
        ensures
            columns@ == self.spec_column_definitions(),
    {
        match self {
            Table::Users => USERS_COLUMNS,
            Table::Businesses => BUSINESSES_COLUMNS,
            Table::Activities => ACTIVITIES_COLUMNS,
            Table::Bookings => BOOKINGS_COLUMNS,
            Table::Logs => LOGS_COLUMNS,
        }
    }

    /// The tables that the rows of this table refer to.
    pub fn references(self) -> (tables: Vec<Table>)
        ensures
            tables@ == self.spec_references(),
    {
        let mut tables: Vec<Table> = Vec::new();
        match self {
            Table::Users => {},
            Table::Businesses => {
                tables.push(Table::Users);
            },
            Table::Activities => {
                tables.push(Table::Businesses);
            },
            Table::Bookings => {
                tables.push(Table::Users);
                tables.push(Table::Activities);
            },
            Table::Logs => {},
        }
        assert(tables@ =~= self.spec_references());
        tables
    }

    /// The statement that creates the table unless it exists.
    pub fn create_statement(self) -> (statement: String)
        ensures
            statement@ == self.create_text(),
    {
        let mut statement = String::from_str(CREATE_IF_ABSENT);
        statement.append(self.name());
        statement.append(" (");
        statement.append(self.column_definitions());
        statement.append(");");
        statement
    }

    /// The statement that deletes every row of the table.
    pub fn delete_statement(self) -> (statement: String)
        ensures
            statement@ == self.delete_text(),
    {
        let mut statement = String::from_str(DELETE_ALL);
        statement.append(self.name());
        statement.append(";");
        statement
    }

    /// The statement that reads identifiers of the table's rows, no more of
    /// them than its parameter says.
    pub fn select_ids_statement(self) -> (statement: String)
        ensures
            statement@ == self.select_ids_text(),
    {
        let mut statement = String::from_str(SELECT_IDS);
        statement.append(self.name());
        statement.append(LIMIT);
        statement
    }

    /// The statement that inserts a seeded row into the table; none for the
    /// table that is not seeded.
    pub fn insert_statement(self) -> (statement: Option<String>)
        ensures
            match statement {
                Some(text) => self.insert_text() == Some(text@),
                None => self.insert_text() is None,
            },
    {
        let (columns, values): (&'static str, &'static str) = match self {
            Table::Users => (USERS_INSERT_COLUMNS, USERS_INSERT_VALUES),
            Table::Businesses => (BUSINESSES_INSERT_COLUMNS, BUSINESSES_INSERT_VALUES),
            Table::Activities => (ACTIVITIES_INSERT_COLUMNS, ACTIVITIES_INSERT_VALUES),
            Table::Bookings => (BOOKINGS_INSERT_COLUMNS, BOOKINGS_INSERT_VALUES),
            Table::Logs => {
                return None;
            },
        };
        let mut text = String::from_str(INSERT);
        text.append(self.name());
        text.append(" (");
        text.append(columns);
        text.append(") VALUES (");
        text.append(values);
        text.append(")");
        Some(text)
    }
}

/// All tables, each after the tables that its rows refer to.
pub open spec fn table_order() -> Seq<Table> {
    seq![Table::Users, Table::Businesses, Table::Activities, Table::Bookings, Table::Logs]
}

/// The tables that are seeded, each after the tables that its rows refer to.
pub open spec fn seeding_order() -> Seq<Table> {
    seq![Table::Users, Table::Businesses, Table::Activities, Table::Bookings]
}

/// Whether every table of `order` stands behind all tables that its rows
/// refer to.
pub open spec fn references_come_first(order: Seq<Table>) -> bool {
    forall|k: int, r: int|
        #![trigger order[k].spec_references()[r]]
        0 <= k < order.len() && 0 <= r < order[k].spec_references().len() ==> exists|j: int|
            0 <= j < k && #[trigger] order[j] == order[k].spec_references()[r]
}

/// All tables, each after the tables that its rows refer to.
pub fn all_tables() -> (tables: Vec<Table>)
    ensures
        tables@ == table_order(),
{
    let mut tables: Vec<Table> = Vec::new();
    tables.push(Table::Users);
    tables.push(Table::Businesses);
    tables.push(Table::Activities);
    tables.push(Table::Bookings);
    tables.push(Table::Logs);
    assert(tables@ =~= table_order());
    tables
}

/// The statements that make sure that every table exists, in the order in
/// which they are to run: one for each table, which creates it unless it
/// exists.
pub fn create_tables() -> (statements: Vec<String>)
    ensures
        statements@.len() == table_order().len(),
        forall|i: int|
            0 <= i < statements@.len() ==> (#[trigger] statements@[i])@
                == table_order()[i].create_text(),
{
    let tables = all_tables();
    let mut statements: Vec<String> = Vec::new();
    let mut index: usize = 0;
    while index < tables.len()
        invariant
            tables@ == table_order(),
            index <= tables@.len(),
            statements@.len() == index,
            forall|i: int|
                0 <= i < index ==> (#[trigger] statements@[i])@ == table_order()[i].create_text(),
        decreases tables@.len() - index,
    {
        statements.push(tables[index].create_statement());
        index = index + 1;
    }
    statements
}

/// The statements that empty the database, in the order in which they are to
/// run: one for each table, which deletes every row of it.
pub fn flush_tables() -> (statements: Vec<String>)
    ensures
        statements@.len() == table_order().len(),
        forall|i: int|
            0 <= i < statements@.len() ==> (#[trigger] statements@[i])@
                == table_order()[i].delete_text(),
{
    let tables = all_tables();
    let mut statements: Vec<String> = Vec::new();
    let mut index: usize = 0;
    while index < tables.len()
        invariant
            tables@ == table_order(),
            index <= tables@.len(),
            statements@.len() == index,
            forall|i: int|
                0 <= i < index ==> (#[trigger] statements@[i])@ == table_order()[i].delete_text(),
        decreases tables@.len() - index,
    {
        statements.push(tables[index].delete_statement());
        index = index + 1;
    }
    statements
}

/// The tables that a run over all of them seeds, in the order in which they
/// are seeded, each with the same number of rows. The run stops at the first
/// table that cannot be seeded and leaves what it has inserted.
pub fn seed_all() -> (tables: Vec<Table>)
    ensures
        tables@ == seeding_order(),
{
    let mut tables: Vec<Table> = Vec::new();
    tables.push(Table::Users);
    tables.push(Table::Businesses);
    tables.push(Table::Activities);
    tables.push(Table::Bookings);
    assert(tables@ =~= seeding_order());
    tables
}

/// The greatest number of identifiers that a run over `total` positions reads
/// from a table: the parameter of the statement that reads them.
pub fn fetch_limit(total: u32) -> (limit: i64)
    ensures
        limit == total,
{
    total as i64
}

/// Tables are created, emptied and seeded in an order in which no table comes
/// before one that its rows refer to. Exactly the tables with a statement
/// that inserts into them are seeded.
pub proof fn lemma_orders_follow_references()
    ensures
        references_come_first(table_order()),
        references_come_first(seeding_order()),
        forall|table: Table| #[trigger]
            seeding_order().contains(table) <==> table.insert_text() is Some,
        forall|table: Table| #[trigger] table_order().contains(table),
{
    let all = table_order();
    let seeded = seeding_order();
    assert(all[0] == Table::Users && all[1] == Table::Businesses && all[2] == Table::Activities
        && all[3] == Table::Bookings && all[4] == Table::Logs);
    assert(seeded[0] == Table::Users && seeded[1] == Table::Businesses && seeded[2]
        == Table::Activities && seeded[3] == Table::Bookings);
}

/// Every statement that creates a table creates it only where it does not
/// exist, and every statement that empties one deletes without a condition:
/// the first begins with `CREATE TABLE IF NOT EXISTS` and the table's name,
/// the second is `DELETE FROM`, the name and a semicolon.
pub proof fn lemma_statement_forms(table: Table)
    ensures
        (CREATE_IF_ABSENT@ + table.spec_name()).is_prefix_of(table.create_text()),
        table.delete_text() == DELETE_ALL@ + table.spec_name() + ";"@,
{
    let head = CREATE_IF_ABSENT@ + table.spec_name();
    let text = table.create_text();
    assert(text.subrange(0, head.len() as int) =~= head);
}

} // verus!

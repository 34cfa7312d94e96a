//! The menu of the command-line tool: what it shows, and what the line that
//! answers it asks for.

use vstd::prelude::*;
use crate::decimal::{parse_unsigned, parsed_unsigned};
use crate::text::{trim, trimmed};

verus! {

/// The menu, as it is shown before each selection.
pub const MENU: &'static str =
    "> Welcome to [T]he [H]obby [P]roject CLI tool!\n> Please select an operation\n> [1] Seed Users\n> [2] Seed Businesses\n> [3] Seed Activities\n> [4] Seed Bookings\n> [5] Seed All\n> [6] Flush DB\n> [0] Exit\n";

/// What is shown after a number that stands for no operation.
pub const INVALID_SELECTION: &'static str = "Invalid selection try again...";

/// An operation of the menu.
#[derive(Clone, Copy, Debug, PartialEq, Eq, Structural)]
pub enum Command {
    /// Leave the program.
    Exit,
    SeedUsers,
    SeedBusinesses,
    SeedActivities,
    SeedBookings,
    /// Seed all four tables with the same number of rows.
    SeedAll,
    /// Delete every row of every table.
    Flush,
}

/// What a line that answers the menu asks for.
#[derive(Clone, Copy, Debug, PartialEq, Eq, Structural)]
pub enum Selection {
    /// The line holds the number of this operation.
    Run(Command),
    /// The line holds a number that stands for no operation. The menu is
    /// shown again.
    Invalid,
    /// The line holds no number from 0 to 65535. The menu is shown again.
    Unreadable,
}

impl Command {
    /// The number that selects the operation.
    pub open spec fn spec_number(self) -> u16 {
        match self {
            Command::Exit => 0,
            Command::SeedUsers => 1,
            Command::SeedBusinesses => 2,
            Command::SeedActivities => 3,
            Command::SeedBookings => 4,
            Command::SeedAll => 5,
            Command::Flush => 6,
        }
    }

    /// The operation that `number` selects, if any.
    pub open spec fn spec_from_number(number: u16) -> Option<Command> {
        if number == 0 {
            Some(Command::Exit)
        } else if number == 1 {
            Some(Command::SeedUsers)
        } else if number == 2 {
            Some(Command::SeedBusinesses)
        } else if number == 3 {
            Some(Command::SeedActivities)
        } else if number == 4 {
            Some(Command::SeedBookings)
        } else if number == 5 {
            Some(Command::SeedAll)
        } else if number == 6 {
            Some(Command::Flush)
        } else {
            None
        }
    }

    /// Whether the operation needs a number of rows, which is asked for in a
    /// line of its own.
    pub open spec fn spec_asks_for_count(self) -> bool {
        1 <= self.spec_number() <= 5
    }

    /// What is shown when the operation has been selected: the question for
    /// the number of rows, or what is about to happen.
    pub open spec fn spec_message(self) -> Seq<char> {
        match self {
            Command::Exit => "Exiting Program"@,
            Command::SeedUsers => "How many users to seed?"@,
            Command::SeedBusinesses => "How many businesses to seed?"@,
            Command::SeedActivities => "How many activities to seed?"@,
            Command::SeedBookings => "How many bookings to seed?"@,
            Command::SeedAll => "How many of each to seed?"@,
            Command::Flush => "Flushing DB..."@,
        }
    }

    /// The number that selects the operation.
    #[verifier::when_used_as_spec(spec_number)]
    pub fn number(self) -> (number: u16)
        ensures
            number == self.spec_number(),
            Command::spec_from_number(number) == Some(self),
    {
        match self {
            Command::Exit => 0,
            Command::SeedUsers => 1,
            Command::SeedBusinesses => 2,
            Command::SeedActivities => 3,
            Command::SeedBookings => 4,
            Command::SeedAll => 5,
            Command::Flush => 6,
        }
    }

    /// The operation that `number` selects, if any.
    #[verifier::when_used_as_spec(spec_from_number)]
    pub fn from_number(number: u16) -> (command: Option<Command>)
        ensures
            command == Command::spec_from_number(number),
            command is Some <==> number <= 6,
            command matches Some(c) ==> c.spec_number() == number,
    {
        match number {
            0 => Some(Command::Exit),
            1 => Some(Command::SeedUsers),
            2 => Some(Command::SeedBusinesses),
            3 => Some(Command::SeedActivities),
            4 => Some(Command::SeedBookings),
            5 => Some(Command::SeedAll),
            6 => Some(Command::Flush),
            _ => None,
        }
    }

    /// Whether the operation needs a number of rows, which is asked for in a
    /// line of its own.
    #[verifier::when_used_as_spec(spec_asks_for_count)]
    pub fn asks_for_count(self) -> (asks: bool)
        ensures
            asks == self.spec_asks_for_count(),
    {
        match self {
            Command::Exit => false,
            Command::Flush => false,
            _ => true,
        }
    }

    /// What is shown when the operation has been selected: the question for
    /// the number of rows, or what is about to happen.
    pub fn message(self) -> (message: &'static str)
        ensures
            message@ == self.spec_message(),
    {
        match self {
            Command::Exit => "Exiting Program",
            Command::SeedUsers => "How many users to seed?",
            Command::SeedBusinesses => "How many businesses to seed?",
            Command::SeedActivities => "How many activities to seed?",
            Command::SeedBookings => "How many bookings to seed?",
            Command::SeedAll => "How many of each to seed?",
            Command::Flush => "Flushing DB...",
        }
    }
}

impl Selection {
    /// Whether the program ends after this selection. After any other the
    /// menu is shown again.
    pub open spec fn spec_ends_session(self) -> bool {
        self == Selection::Run(Command::Exit)
    }

    /// Whether the program ends after this selection. After any other the
    /// menu is shown again.
    #[verifier::when_used_as_spec(spec_ends_session)]
    pub fn ends_session(self) -> (ends: bool)
        ensures
            ends == self.spec_ends_session(),
    {
        match self {
            Selection::Run(Command::Exit) => true,
            _ => false,
        }
    }
}

/// The number from 0 to 65535 that a line holds between the white space at
/// its ends, if it holds one.
pub open spec fn selected_number(line: Seq<char>) -> Option<nat> {
    parsed_unsigned(trimmed(line), u16::MAX as nat)
}

/// The number of rows that a line holds between the white space at its ends,
/// if it holds one.
pub open spec fn counted(line: Seq<char>) -> Option<nat> {
    parsed_unsigned(trimmed(line), u32::MAX as nat)
}

/// What a line that answers the menu asks for.
pub open spec fn selection_of(line: Seq<char>) -> Selection {
    match selected_number(line) {
        Some(number) => match Command::spec_from_number(number as u16) {
            Some(command) => Selection::Run(command),
            None => Selection::Invalid,
        },
        None => Selection::Unreadable,
    }
}

/// The number from 0 to 65535 that `line` holds between the white space at
/// its ends, if it holds one.
pub fn parse_selection(line: &str) -> (number: Option<u16>)
    ensures
        match number {
            Some(n) => selected_number(line@) == Some(n as nat),
            None => selected_number(line@) is None,
        },
{
    match parse_unsigned(trim(line), 0xffff) {
        Some(n) => Some(n as u16),
        None => None,
    }
}

/// The number of rows that `line` holds between the white space at its ends,
/// if it holds one.
pub fn parse_count(line: &str) -> (total: Option<u32>)
    ensures
        match total {
            Some(n) => counted(line@) == Some(n as nat),
            None => counted(line@) is None,
        },
{
    parse_unsigned(trim(line), 0xffff_ffff)
}

/// What the line `line`, as it was read after the menu, asks for.
///
/// A line that holds no number runs nothing and does not end the program.
pub fn select(line: &str) -> (selection: Selection)
    ensures
        selection == selection_of(line@),
        selected_number(line@) is None ==> selection == Selection::Unreadable
            && !selection.spec_ends_session(),
{
    match parse_selection(line) {
        Some(number) => match Command::from_number(number) {
            Some(command) => Selection::Run(command),
            None => Selection::Invalid,
        },
        None => Selection::Unreadable,
    }
}

/// A line selects an operation exactly where it holds the operation's number,
/// and a line that holds no number, or the number of no operation, leaves the
/// menu open.
pub proof fn lemma_selection(line: Seq<char>)
    ensures
        forall|command: Command|
            selection_of(line) == Selection::Run(command) <==> selected_number(line) == Some(
                #[trigger] command.spec_number() as nat,
            ),
        selection_of(line) is Run || !selection_of(line).spec_ends_session(),
        selection_of(line).spec_ends_session() <==> selected_number(line) == Some(0nat),
{
}

} // verus!

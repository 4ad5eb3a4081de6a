//! The appliance's database: its history of migrations, and how the pending
//! chores are written into a row and read from one.

use crate::application_state::ApplicationState;
use crate::calendar::DateTime;
use crate::db::{
    fmt_naivedatetime_for_sqlite, migrations_to_run, parse_naivedatetime_from_sqlite, runs_all,
    sqlite_datetime, sqlite_text, Db, InvalidDateTime, Migration, Statement,
    UnknownMigrationError,
};
use vstd::prelude::*;

verus! {

/// Whether a list of migrations is the history of the appliance's database: the
/// table of pending chores, then its third column.
pub open spec fn is_history(history: Seq<Migration>) -> bool {
    &&& history.len() == 2
    &&& history[0].id@ == "001"@
    &&& history[0].sql@ == "CREATE TABLE application_state (
                  id                    INTEGER PRIMARY KEY
                , take_pills_pending    TIMESTAMP
                , water_plants_pending  TIMESTAMP
                , created_on            DEFAULT CURRENT_TIMESTAMP
            )"@
    &&& history[1].id@ == "002"@
    &&& history[1].sql@ == "ALTER TABLE application_state ADD COLUMN i_pending TIMESTAMP"@
}

/// The history of the database's layout, oldest migration first.
pub fn migrations() -> (history: Vec<Migration>)
    ensures
        is_history(history@),
{
    let mut history: Vec<Migration> = Vec::new();
    history.push(
        Migration {
            id: "001".to_owned(),
            sql: "CREATE TABLE application_state (
                  id                    INTEGER PRIMARY KEY
                , take_pills_pending    TIMESTAMP
                , water_plants_pending  TIMESTAMP
                , created_on            DEFAULT CURRENT_TIMESTAMP
            )".to_owned(),
        },
    );
    history.push(
        Migration {
            id: "002".to_owned(),
            sql: "ALTER TABLE application_state ADD COLUMN i_pending TIMESTAMP".to_owned(),
        },
    );
    history
}

/// One row of the table of pending chores: a text for each chore that is
/// pending.
#[derive(Debug, PartialEq, Eq)]
pub struct ApplicationStateRow {
    pub take_pills_pending: Option<String>,
    pub water_plants_pending: Option<String>,
    pub i_pending: Option<String>,
}

/// The text of an instant that may be there.
pub open spec fn text_of(pending: Option<DateTime>) -> Option<Seq<char>> {
    match pending {
        Some(datetime) => sqlite_text(datetime),
        None => None,
    }
}

/// What a column of a row holds, as plain text.
pub open spec fn column(text: Option<String>) -> Option<Seq<char>> {
    match text {
        Some(t) => Some(t@),
        None => None,
    }
}

/// Whether a column holds a text that is no date-time.
pub open spec fn is_invalid(text: Option<String>) -> bool {
    text matches Some(t) && sqlite_datetime(t@) is None
}

/// The instant that a column stands for, where it is not invalid.
pub open spec fn pending_of(text: Option<String>) -> Option<DateTime> {
    match text {
        Some(t) => sqlite_datetime(t@),
        None => None,
    }
}

fn encode_pending(pending: Option<DateTime>) -> (text: Option<String>)
    ensures
        column(text) == text_of(pending),
        text is Some <==> pending is Some,
{
    match pending {
        Some(datetime) => Some(fmt_naivedatetime_for_sqlite(&datetime)),
        None => None,
    }
}

fn decode_pending(text: &Option<String>) -> (pending: Result<Option<DateTime>, InvalidDateTime>)
    ensures
        match pending {
            Ok(p) => !is_invalid(*text) && p == pending_of(*text),
            Err(err) => is_invalid(*text) && Some(err.0@) == column(*text),
        },
{
    match text {
        Some(encoded) => match parse_naivedatetime_from_sqlite(encoded.as_str()) {
            Ok(datetime) => Ok(Some(datetime)),
            Err(err) => Err(err),
        },
        None => Ok(None),
    }
}

/// The appliance's database.
pub struct AppDb {
    db: Db,
}

impl AppDb {
    pub closed spec fn path(self) -> Seq<char> {
        self.db.path()
    }

    pub fn new(path: String) -> (appdb: Self)
        ensures
            appdb.path() == path@,
    {
        Self { db: Db::new(path) }
    }

    pub fn db(&self) -> (db: &Db)
        ensures
            db.path() == self.path(),
    {
        &self.db
    }

    /// The statements that bring the appliance's database up to date, given the
    /// id of the migration that it had last, if it had any.
    pub fn run_migrations(&self, current_migration: Option<String>) -> (upgrade: Result<
        Vec<Statement>,
        UnknownMigrationError,
    >)
        ensures
            exists|history: Seq<Migration>|
                is_history(history) && match migrations_to_run(
                    history,
                    match current_migration {
                        Some(id) => Some(id@),
                        None => None,
                    },
                ) {
                    Some(rest) => upgrade matches Ok(statements) && runs_all(statements@, rest),
                    None => upgrade matches Err(err) && Some(err.0@) == match current_migration {
                        Some(id) => Some(id@),
                        None => None,
                    },
                },
    {
        let history = migrations();
        self.db.upgrade(history.as_slice(), current_migration)
    }

    /// The row that stores the pending chores: each instant as its text. The
    /// litter tray has no column.
    pub fn update_application_state(&self, application_state: &ApplicationState) -> (row:
        ApplicationStateRow)
        ensures
            column(row.take_pills_pending) == text_of(application_state.take_pills_pending),
            column(row.water_plants_pending) == text_of(application_state.water_plants_pending),
            column(row.i_pending) == text_of(application_state.i_pending),
    {
        let take_pills_pending = encode_pending(application_state.take_pills_pending);
        let water_plants_pending = encode_pending(application_state.water_plants_pending);
        let i_pending = encode_pending(application_state.i_pending);
        ApplicationStateRow { take_pills_pending, water_plants_pending, i_pending }
    }

    /// The pending chores that the newest row stores, if there is a row. The
    /// first column, in the order pills, plants, third, that holds no date-time
    /// is an error. The litter tray is never pending after a load.
    pub fn load_application_state(&self, result: Option<ApplicationStateRow>) -> (loaded: Result<
        Option<ApplicationState>,
        InvalidDateTime,
    >)
        ensures
            match result {
                None => loaded == Ok::<Option<ApplicationState>, InvalidDateTime>(None),
                Some(row) => if is_invalid(row.take_pills_pending) {
                    loaded matches Err(err) && Some(err.0@) == column(row.take_pills_pending)
                } else if is_invalid(row.water_plants_pending) {
                    loaded matches Err(err) && Some(err.0@) == column(row.water_plants_pending)
                } else if is_invalid(row.i_pending) {
                    loaded matches Err(err) && Some(err.0@) == column(row.i_pending)
                } else {
                    loaded == Ok::<Option<ApplicationState>, InvalidDateTime>(
                        Some(
                            ApplicationState {
                                take_pills_pending: pending_of(row.take_pills_pending),
                                water_plants_pending: pending_of(row.water_plants_pending),
                                i_pending: pending_of(row.i_pending),
                                clean_litter_tray_pending: None,
                            },
                        ),
                    )
                },
            },
    {
        match result {
            Some(row) => {
                let take_pills_pending = match decode_pending(&row.take_pills_pending) {
                    Ok(pending) => pending,
                    Err(err) => {
                        return Err(err);
                    },
                };
                let water_plants_pending = match decode_pending(&row.water_plants_pending) {
                    Ok(pending) => pending,
                    Err(err) => {
                        return Err(err);
                    },
                };
                let i_pending = match decode_pending(&row.i_pending) {
                    Ok(pending) => pending,
                    Err(err) => {
                        return Err(err);
                    },
                };
                Ok(
                    Some(
                        ApplicationState {
                            take_pills_pending,
                            water_plants_pending,
                            i_pending,
                            clean_litter_tray_pending: None,
                        },
                    ),
                )
            },
            None => Ok(None),
        }
    }
}

} // verus!

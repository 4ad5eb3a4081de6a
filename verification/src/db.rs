//! Which migrations a database still needs.

use crate::calendar::{
    Date, DateTime, TimeOfDay, DATE_MAX_DAYS, DATE_MIN_DAYS, NANOS_PER_SEC, SECS_PER_DAY,
};
use vstd::prelude::*;
use vstd::slice::slice_subrange;

verus! {

/// How a date-time is written into the database, in the words of chrono's
/// `strftime`: the date, a `T`, the time with nine digits of nanoseconds, a `Z`.
pub const SQLITE_DATETIME_FMT: &'static str = "%Y-%m-%dT%H:%M:%S.%fZ";

/// Chrono's error for a text that it does not take as a date-time. Nothing is
/// read from it.
#[verifier::external_type_specification]
#[verifier::external_body]
pub struct ExParseError(chrono::ParseError);

/// The text that chrono gives for the date-time with this day number, these
/// seconds since midnight and these nanoseconds, in `SQLITE_DATETIME_FMT`;
/// `None` where chrono has no such date-time.
pub uninterp spec fn chrono_sqlite_text(day_number: i32, secs: u32, nanos: u32) -> Option<
    Seq<char>,
>;

/// The day number, seconds since midnight and nanoseconds of the date-time that
/// chrono reads from a text in `SQLITE_DATETIME_FMT`; `None` where chrono does
/// not take the text.
pub uninterp spec fn chrono_sqlite_datetime(encoded: Seq<char>) -> Option<(i32, u32, u32)>;

/// Builds the date-time with chrono's `NaiveDate::from_num_days_from_ce_opt`,
/// `NaiveTime::from_num_seconds_from_midnight_opt` and `NaiveDate::and_time`, and
/// writes it with `NaiveDateTime::format`. Claimed without proof: the text
/// depends on the three numbers alone, and there is one for every day number of
/// the calendar and every time of day without a leap second.
#[verifier::external_body]
fn sqlite_text_of(day_number: i32, secs: u32, nanos: u32) -> (text: Option<String>)
    ensures
        match text {
            Some(t) => Some(t@),
            None => None,
        } == chrono_sqlite_text(day_number, secs, nanos),
        DATE_MIN_DAYS <= day_number <= DATE_MAX_DAYS && secs < SECS_PER_DAY && nanos
            < NANOS_PER_SEC ==> text is Some,
{
    match (
        chrono::NaiveDate::from_num_days_from_ce_opt(day_number),
        chrono::NaiveTime::from_num_seconds_from_midnight_opt(secs, nanos),
    ) {
        (Some(date), Some(time)) => Some(
            date.and_time(time).format(SQLITE_DATETIME_FMT).to_string(),
        ),
        _ => None,
    }
}

/// Reads a text with chrono's `NaiveDateTime::parse_from_str`, and takes the
/// date-time apart with `Datelike::num_days_from_ce`,
/// `Timelike::num_seconds_from_midnight` and `Timelike::nanosecond`. Claimed
/// without proof: whether the text is taken, and the three numbers, depend on
/// the text alone.
#[verifier::external_body]
fn sqlite_datetime_of(encoded: &str) -> (parsed: Result<(i32, u32, u32), chrono::ParseError>)
    ensures
        match parsed {
            Ok(parts) => Some(parts),
            Err(_) => None,
        } == chrono_sqlite_datetime(encoded@),
{
    match chrono::NaiveDateTime::parse_from_str(encoded, SQLITE_DATETIME_FMT) {
        Ok(datetime) => Ok(
            (
                chrono::Datelike::num_days_from_ce(&datetime),
                chrono::Timelike::num_seconds_from_midnight(&datetime),
                chrono::Timelike::nanosecond(&datetime),
            ),
        ),
        Err(err) => Err(err),
    }
}

/// A text from the database that is no date-time.
#[derive(Debug, PartialEq, Eq)]
pub struct InvalidDateTime(pub String);

/// The date-time that a text of the database stands for: the one that chrono
/// reads, where its parts are a date of the calendar and a time of day without
/// a leap second.
pub open spec fn sqlite_datetime(encoded: Seq<char>) -> Option<DateTime> {
    match chrono_sqlite_datetime(encoded) {
        Some((day_number, secs, nanos)) => if DATE_MIN_DAYS <= day_number <= DATE_MAX_DAYS && secs
            < SECS_PER_DAY && nanos < NANOS_PER_SEC {
            Some(DateTime::of(Date::at_day(day_number as int), TimeOfDay::at(secs, nanos)))
        } else {
            None
        },
        None => None,
    }
}

/// The text that stands for a date-time in the database.
pub open spec fn sqlite_text(datetime: DateTime) -> Option<Seq<char>> {
    chrono_sqlite_text(
        datetime.date().day_number() as i32,
        (datetime.time().nanos_since_midnight() / (NANOS_PER_SEC as int)) as u32,
        (datetime.time().nanos_since_midnight() % (NANOS_PER_SEC as int)) as u32,
    )
}

/// Reads a date-time from its text in the database.
pub fn parse_naivedatetime_from_sqlite(encoded: &str) -> (parsed: Result<
    DateTime,
    InvalidDateTime,
>)
    ensures
        match sqlite_datetime(encoded@) {
            Some(datetime) => parsed == Ok::<DateTime, InvalidDateTime>(datetime),
            None => parsed matches Err(err) && err.0@ == encoded@,
        },
{
    match sqlite_datetime_of(encoded) {
        Ok((day_number, secs, nanos)) => {
            match (
                Date::from_num_days_from_ce_opt(day_number),
                TimeOfDay::from_num_seconds_from_midnight_opt(secs, nanos),
            ) {
                (Some(date), Some(time)) => {
                    proof {
                        Date::lemma_at_day(day_number as int);
                        Date::lemma_day_number_injective(date, Date::at_day(day_number as int));
                        TimeOfDay::lemma_at(secs, nanos);
                        TimeOfDay::lemma_nanos_injective(time, TimeOfDay::at(secs, nanos));
                    }
                    Ok(DateTime::new(date, time))
                },
                _ => Err(InvalidDateTime(encoded.to_owned())),
            }
        },
        Err(_) => Err(InvalidDateTime(encoded.to_owned())),
    }
}

/// Writes a date-time as the database holds it.
pub fn fmt_naivedatetime_for_sqlite(datetime: &DateTime) -> (text: String)
    ensures
        Some(text@) == sqlite_text(*datetime),
{
    let date = datetime.date();
    let time = datetime.time();
    match sqlite_text_of(
        date.num_days_from_ce(),
        time.num_seconds_from_midnight(),
        time.nanosecond(),
    ) {
        Some(text) => text,
        None => String::new(),
    }
}

/// The database names a migration that the history does not hold.
#[derive(Debug, PartialEq, Eq)]
pub struct UnknownMigrationError(pub String);

/// The text of std's `format!` for the error: the three parts in a row, the
/// migration's id in the middle.
#[verifier::external_body]
fn unknown_migration_text(id: &String) -> (text: String)
    ensures
        text@ == "migration ID "@ + id@ + " in database doesn't appear in migration history"@,
{
    format!("migration ID {} in database doesn't appear in migration history", id)
}

impl UnknownMigrationError {
    /// The error in words.
    pub fn message(&self) -> (text: String)
        ensures
            text@ == "migration ID "@ + self.0@
                + " in database doesn't appear in migration history"@,
    {
        unknown_migration_text(&self.0)
    }
}

/// One step in the history of a database's layout.
#[derive(Debug, PartialEq, Eq)]
pub struct Migration {
    pub id: String,
    pub sql: String,
}

/// The place of the first migration at or after `from` whose id is `id`.
pub open spec fn position_from(migrations: Seq<Migration>, id: Seq<char>, from: int) -> Option<int>
    decreases migrations.len() - from,
{
    if from >= migrations.len() {
        None
    } else if migrations[from].id@ == id {
        Some(from)
    } else {
        position_from(migrations, id, from + 1)
    }
}

/// The migrations that are still to be run on a database whose last migration
/// is `current_migration`: all of them on a database that has had none; those
/// after the current one where the history holds it.
pub open spec fn migrations_to_run(
    migrations: Seq<Migration>,
    current_migration: Option<Seq<char>>,
) -> Option<Seq<Migration>> {
    match current_migration {
        None => Some(migrations),
        Some(id) => match position_from(migrations, id, 0) {
            Some(idx) => Some(migrations.subrange(idx + 1, migrations.len() as int)),
            None => None,
        },
    }
}

/// What `position_from` finds has the id, and nothing between `from` and it has.
pub proof fn lemma_position_from(migrations: Seq<Migration>, id: Seq<char>, from: int)
    requires
        0 <= from <= migrations.len(),
    ensures
        match position_from(migrations, id, from) {
            Some(idx) => from <= idx < migrations.len() && migrations[idx].id@ == id
                && forall|j: int| from <= j < idx ==> (#[trigger] migrations[j]).id@ != id,
            None => forall|j: int|
                from <= j < migrations.len() ==> (#[trigger] migrations[j]).id@ != id,
        },
    decreases migrations.len() - from,
{
    if from < migrations.len() && migrations[from].id@ != id {
        lemma_position_from(migrations, id, from + 1);
    }
}

/// One statement for the database, with the texts that are bound to its
/// parameters, in their order.
#[derive(Debug, PartialEq, Eq)]
pub struct Statement {
    pub sql: String,
    pub params: Vec<String>,
}

/// The statement that records a migration as run. Its one parameter is the
/// migration's id.
pub const RECORD_MIGRATION: &'static str = "
                    INSERT INTO migrations (migration_id)
                    VALUES (?1)
                ";

/// Whether two statements in a row run a migration and record it.
pub open spec fn runs_and_records(run: Statement, record: Statement, migration: Migration) -> bool {
    &&& run.sql@ == migration.sql@
    &&& run.params@.len() == 0
    &&& record.sql@ == RECORD_MIGRATION@
    &&& record.params@.len() == 1
    &&& record.params@[0]@ == migration.id@
}

/// Whether a list of statements runs the migrations in order, each followed by
/// the statement that records it.
pub open spec fn runs_all(statements: Seq<Statement>, migrations: Seq<Migration>) -> bool {
    &&& statements.len() == 2 * migrations.len()
    &&& forall|i: int|
        0 <= i < migrations.len() ==> runs_and_records(
            statements[2 * i],
            statements[2 * i + 1],
            #[trigger] migrations[i],
        )
}

/// A database, known by the path of its file.
pub struct Db {
    file_path: String,
}

impl Db {
    pub closed spec fn path(self) -> Seq<char> {
        self.file_path@
    }

    pub fn new(file_path: String) -> (db: Self)
        ensures
            db.path() == file_path@,
    {
        Self { file_path }
    }

    pub fn file_path(&self) -> (path: &String)
        ensures
            path@ == self.path(),
    {
        &self.file_path
    }

    /// The migrations that are still to be run, given the id of the migration
    /// that the database had last, if it had any. An id that the history does
    /// not hold is an error.
    pub fn calculate_migrations_to_run<'a>(
        &self,
        migrations: &'a [Migration],
        current_migration: Option<String>,
    ) -> (to_run: Result<&'a [Migration], UnknownMigrationError>)
        ensures
            match migrations_to_run(
                migrations@,
                match current_migration {
                    Some(id) => Some(id@),
                    None => None,
                },
            ) {
                Some(rest) => to_run matches Ok(slice) && slice@ == rest,
                None => to_run matches Err(err) && Some(err.0@) == match current_migration {
                    Some(id) => Some(id@),
                    None => None,
                },
            },
    {
        match current_migration {
            Some(current_migration_id) => {
                let mut idx: usize = 0;
                while idx < migrations.len()
                    invariant
                        idx <= migrations@.len(),
                        current_migration == Some(current_migration_id),
                        position_from(migrations@, current_migration_id@, 0) == position_from(
                            migrations@,
                            current_migration_id@,
                            idx as int,
                        ),
                    decreases migrations@.len() - idx,
                {
                    if migrations[idx].id == current_migration_id {
                        return Ok(slice_subrange(migrations, idx + 1, migrations.len()));
                    }
                    idx = idx + 1;
                }
                Err(UnknownMigrationError(current_migration_id))
            },
            None => Ok(migrations),
        }
    }

    /// The statements that run the given migrations: for each in turn its own
    /// statement, then the one that records it.
    pub fn run_migrations(&self, migrations: &[Migration]) -> (statements: Vec<Statement>)
        ensures
            runs_all(statements@, migrations@),
    {
        let mut statements: Vec<Statement> = Vec::new();
        let mut i: usize = 0;
        while i < migrations.len()
            invariant
                i <= migrations@.len(),
                runs_all(statements@, migrations@.take(i as int)),
            decreases migrations@.len() - i,
        {
            let migration = &migrations[i];
            let mut params: Vec<String> = Vec::new();
            params.push(migration.id.clone());
            let ghost before = statements@;
            statements.push(Statement { sql: migration.sql.clone(), params: Vec::new() });
            statements.push(Statement { sql: RECORD_MIGRATION.to_owned(), params });
            proof {
                let done = migrations@.take(i + 1);
                assert forall|j: int| 0 <= j < done.len() implies runs_and_records(
                    statements@[2 * j],
                    statements@[2 * j + 1],
                    #[trigger] done[j],
                ) by {
                    if j < i {
                        assert(migrations@.take(i as int)[j] == done[j]);
                        assert(statements@[2 * j] == before[2 * j]);
                        assert(statements@[2 * j + 1] == before[2 * j + 1]);
                    }
                }
            }
            i = i + 1;
        }
        proof {
            assert(migrations@.take(migrations@.len() as int) =~= migrations@);
        }
        statements
    }

    /// The statements that bring a database up to date whose last migration is
    /// `current_migration`: those that run the migrations it still needs. An
    /// id that the history does not hold is an error.
    pub fn upgrade(&self, migrations: &[Migration], current_migration: Option<String>) -> (upgrade:
        Result<Vec<Statement>, UnknownMigrationError>)
        ensures
            match migrations_to_run(
                migrations@,
                match current_migration {
                    Some(id) => Some(id@),
                    None => None,
                },
            ) {
                Some(rest) => upgrade matches Ok(statements) && runs_all(statements@, rest),
                None => upgrade matches Err(err) && Some(err.0@) == match current_migration {
                    Some(id) => Some(id@),
                    None => None,
                },
            },
    {
        match self.calculate_migrations_to_run(migrations, current_migration) {
            Ok(migrations_to_run) => Ok(self.run_migrations(migrations_to_run)),
            Err(err) => Err(err),
        }
    }
}

} // verus!

//! The capability profile of the attached terminal, reduced to the plain
//! values the command catalog consults, and its construction from a loaded
//! terminfo database.  Loading the database from the environment is I/O and
//! happens outside the library; reading it is a lookup and happens here.

use vstd::prelude::*;

verus! {

/// What the attached terminal supports, as far as the command catalog cares:
/// whether it has an alternate screen buffer, and how many colors it offers
/// (`None` when it has no color capability at all).
#[derive(Clone, Copy, Debug)]
pub struct Profile {
    /// The terminal can switch to and back from the alternate screen buffer.
    pub alternate_screen: bool,
    /// The number of colors the terminal supports; `None` for a terminal
    /// without any color capability.
    pub max_colors: Option<u16>,
}

#[verifier::external_type_specification]
#[verifier::external_body]
pub struct ExDatabase(terminfo::Database);

/// The names of the string capabilities a terminfo database holds.
pub uninterp spec fn db_string_caps(db: terminfo::Database) -> Set<Seq<char>>;

/// The numeric capabilities a terminfo database holds, by name.
pub uninterp spec fn db_numeric_caps(db: terminfo::Database) -> Map<Seq<char>, i32>;

/// Relies on `terminfo::Database::get::<EnterCaMode>`, which returns `Some`
/// exactly when the database holds a string value under "enter_ca_mode".
#[verifier::external_body]
fn database_has_enter_ca_mode(db: &terminfo::Database) -> (r: bool)
    ensures
        r == db_string_caps(*db).contains("enter_ca_mode"@),
{
    db.get::<terminfo::capability::EnterCaMode>().is_some()
}

/// Relies on `terminfo::Database::get::<ExitCaMode>`, which returns `Some`
/// exactly when the database holds a string value under "exit_ca_mode".
#[verifier::external_body]
fn database_has_exit_ca_mode(db: &terminfo::Database) -> (r: bool)
    ensures
        r == db_string_caps(*db).contains("exit_ca_mode"@),
{
    db.get::<terminfo::capability::ExitCaMode>().is_some()
}

/// Relies on `terminfo::Database::get::<MaxColors>`, which returns the
/// numeric value the database holds under "max_colors", if any.
#[verifier::external_body]
fn database_max_colors(db: &terminfo::Database) -> (r: Option<i32>)
    ensures
        r == (if db_numeric_caps(*db).dom().contains("max_colors"@) {
            Some(db_numeric_caps(*db)["max_colors"@])
        } else {
            None::<i32>
        }),
{
    db.get::<terminfo::capability::MaxColors>().map(|c: terminfo::capability::MaxColors| c.0)
}

/// The profile a terminfo database describes: the alternate screen needs both
/// the enter and the leave sequence, and a color count is taken only when it
/// is positive and fits the profile's bound.
pub open spec fn profile_of_database(db: terminfo::Database) -> Profile {
    Profile {
        alternate_screen: db_string_caps(db).contains("enter_ca_mode"@) && db_string_caps(
            db,
        ).contains("exit_ca_mode"@),
        max_colors: if db_numeric_caps(db).dom().contains("max_colors"@) {
            let v = db_numeric_caps(db)["max_colors"@];
            if 1 <= v <= u16::MAX {
                Some(v as u16)
            } else {
                None
            }
        } else {
            None
        },
    }
}

/// Reads the capabilities the library gates on out of a loaded terminfo
/// database.
pub fn profile_from_database(db: &terminfo::Database) -> (r: Profile)
    ensures
        r == profile_of_database(*db),
{
    let enter = database_has_enter_ca_mode(db);
    let leave = database_has_exit_ca_mode(db);
    let max_colors = match database_max_colors(db) {
        Some(v) => if 1 <= v && v <= 65535 {
            Some(v as u16)
        } else {
            None
        },
        None => None,
    };
    Profile { alternate_screen: enter && leave, max_colors }
}

} // verus!

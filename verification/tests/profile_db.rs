//! The profile read out of a real terminfo database, built in memory with
//! the terminfo crate's own builder.

use supaterm::profile::profile_from_database;

fn build_database(entries: &[(&str, terminfo::Value)]) -> terminfo::Database {
    let mut b = terminfo::Database::new();
    b.name("testterm");
    b.description("a terminal built for these tests");
    for (name, value) in entries {
        b.raw(name, value.clone());
    }
    b.build().expect("the database should build")
}

#[test]
fn full_database_yields_full_profile() {
    let db = build_database(&[
        ("smcup", terminfo::Value::String(b"\x1b[?1049h".to_vec())),
        ("rmcup", terminfo::Value::String(b"\x1b[?1049l".to_vec())),
        ("colors", terminfo::Value::Number(8)),
    ]);
    let profile = profile_from_database(&db);
    assert!(profile.alternate_screen);
    assert_eq!(profile.max_colors, Some(8));
}

#[test]
fn missing_exit_sequence_disables_alternate_screen() {
    let db = build_database(&[("smcup", terminfo::Value::String(b"\x1b[?1049h".to_vec()))]);
    let profile = profile_from_database(&db);
    assert!(!profile.alternate_screen);
}

#[test]
fn missing_color_entry_yields_no_color_capability() {
    let db = build_database(&[
        ("smcup", terminfo::Value::String(b"\x1b[?1049h".to_vec())),
        ("rmcup", terminfo::Value::String(b"\x1b[?1049l".to_vec())),
    ]);
    let profile = profile_from_database(&db);
    assert_eq!(profile.max_colors, None);
}

#[test]
fn non_positive_color_count_yields_no_color_capability() {
    let db = build_database(&[("colors", terminfo::Value::Number(0))]);
    assert_eq!(profile_from_database(&db).max_colors, None);

    let db = build_database(&[("colors", terminfo::Value::Number(-1))]);
    assert_eq!(profile_from_database(&db).max_colors, None);
}

#[test]
fn large_color_count_is_kept_up_to_the_bound() {
    let db = build_database(&[("colors", terminfo::Value::Number(256))]);
    assert_eq!(profile_from_database(&db).max_colors, Some(256));

    let db = build_database(&[("colors", terminfo::Value::Number(0x10000))]);
    assert_eq!(profile_from_database(&db).max_colors, None);
}

#[test]
fn empty_database_yields_empty_profile() {
    let db = build_database(&[]);
    let profile = profile_from_database(&db);
    assert!(!profile.alternate_screen);
    assert_eq!(profile.max_colors, None);
}

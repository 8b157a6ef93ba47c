//! The relational schema and its first-run seed data.
//!
//! The domain invariants — the spaced-repetition review lifecycle, the
//! singleton timer row, the hierarchical syllabus — are encoded directly
//! as storage constraints and cascade rules, not as application code.

use vstd::prelude::*;

verus! {

/// The idempotent schema batch: enables foreign-key enforcement on the
/// connection (the cascade and set-null rules below are inert without
/// it), then creates every table and index if absent.
pub const SCHEMA_SQL: &'static str = "
    PRAGMA foreign_keys = ON;

    CREATE TABLE IF NOT EXISTS subjects (
        id INTEGER PRIMARY KEY AUTOINCREMENT,
        name TEXT NOT NULL,
        created_at TIMESTAMP DEFAULT CURRENT_TIMESTAMP,
        updated_at TIMESTAMP DEFAULT CURRENT_TIMESTAMP
    );

    CREATE TABLE IF NOT EXISTS entries (
        id INTEGER PRIMARY KEY AUTOINCREMENT,
        subject_id INTEGER NOT NULL,
        study_date DATE NOT NULL,
        study_notes TEXT NOT NULL,
        morning_recall_notes TEXT,
        created_at TIMESTAMP DEFAULT CURRENT_TIMESTAMP,
        updated_at TIMESTAMP DEFAULT CURRENT_TIMESTAMP,
        FOREIGN KEY (subject_id) REFERENCES subjects(id) ON DELETE CASCADE
    );

    CREATE TABLE IF NOT EXISTS revision_intervals (
        id INTEGER PRIMARY KEY AUTOINCREMENT,
        entry_id INTEGER NOT NULL,
        interval_days INTEGER NOT NULL,
        FOREIGN KEY (entry_id) REFERENCES entries(id) ON DELETE CASCADE
    );

    CREATE TABLE IF NOT EXISTS revisions (
        id INTEGER PRIMARY KEY AUTOINCREMENT,
        entry_id INTEGER NOT NULL,
        interval_days INTEGER NOT NULL,
        due_date DATE NOT NULL,
        status TEXT NOT NULL CHECK(status IN ('pending', 'completed', 'overdue', 'rescheduled')),
        completed_at TIMESTAMP,
        created_at TIMESTAMP DEFAULT CURRENT_TIMESTAMP,
        updated_at TIMESTAMP DEFAULT CURRENT_TIMESTAMP,
        FOREIGN KEY (entry_id) REFERENCES entries(id) ON DELETE CASCADE
    );

    CREATE TABLE IF NOT EXISTS settings (
        key TEXT PRIMARY KEY,
        value TEXT NOT NULL,
        updated_at TIMESTAMP DEFAULT CURRENT_TIMESTAMP
    );

    CREATE TABLE IF NOT EXISTS activity_log (
        id INTEGER PRIMARY KEY AUTOINCREMENT,
        entry_id INTEGER NOT NULL,
        activity_type TEXT NOT NULL CHECK(activity_type IN ('study', 'revision_completed', 'entry_created')),
        activity_date DATE NOT NULL,
        details TEXT,
        created_at TIMESTAMP DEFAULT CURRENT_TIMESTAMP,
        FOREIGN KEY (entry_id) REFERENCES entries(id) ON DELETE CASCADE
    );

    CREATE TABLE IF NOT EXISTS pomodoro_sessions (
        id INTEGER PRIMARY KEY AUTOINCREMENT,
        session_type TEXT NOT NULL CHECK(session_type IN ('work', 'short_break', 'long_break')),
        duration_minutes INTEGER NOT NULL,
        subject_id INTEGER,
        syllabus_item_id INTEGER,
        completed_at TIMESTAMP DEFAULT CURRENT_TIMESTAMP,
        FOREIGN KEY (subject_id) REFERENCES subjects(id) ON DELETE SET NULL,
        FOREIGN KEY (syllabus_item_id) REFERENCES syllabus_items(id) ON DELETE SET NULL
    );

    CREATE TABLE IF NOT EXISTS pomodoro_state (
        id INTEGER PRIMARY KEY CHECK(id = 1),
        session_type TEXT NOT NULL CHECK(session_type IN ('work', 'short_break', 'long_break')),
        start_timestamp INTEGER,
        duration_seconds INTEGER NOT NULL,
        remaining_seconds INTEGER NOT NULL,
        is_running INTEGER DEFAULT 0,
        pomodoro_count INTEGER DEFAULT 0 CHECK(pomodoro_count >= 0 AND pomodoro_count <= 4),
        updated_at TIMESTAMP DEFAULT CURRENT_TIMESTAMP
    );

    CREATE TABLE IF NOT EXISTS syllabus_items (
        id INTEGER PRIMARY KEY AUTOINCREMENT,
        subject_id INTEGER NOT NULL,
        parent_id INTEGER,
        title TEXT NOT NULL,
        description TEXT,
        estimated_hours REAL,
        due_date DATE,
        is_completed INTEGER DEFAULT 0,
        sort_order INTEGER DEFAULT 0,
        created_at TIMESTAMP DEFAULT CURRENT_TIMESTAMP,
        updated_at TIMESTAMP DEFAULT CURRENT_TIMESTAMP,
        FOREIGN KEY (subject_id) REFERENCES subjects(id) ON DELETE CASCADE,
        FOREIGN KEY (parent_id) REFERENCES syllabus_items(id) ON DELETE CASCADE
    );

    CREATE TABLE IF NOT EXISTS entry_syllabus_links (
        entry_id INTEGER NOT NULL,
        syllabus_item_id INTEGER NOT NULL,
        created_at TIMESTAMP DEFAULT CURRENT_TIMESTAMP,
        PRIMARY KEY (entry_id, syllabus_item_id),
        FOREIGN KEY (entry_id) REFERENCES entries(id) ON DELETE CASCADE,
        FOREIGN KEY (syllabus_item_id) REFERENCES syllabus_items(id) ON DELETE CASCADE
    );

    CREATE TABLE IF NOT EXISTS pdf_attachments (
        id INTEGER PRIMARY KEY AUTOINCREMENT,
        entry_id INTEGER NOT NULL,
        file_name TEXT NOT NULL,
        file_path TEXT NOT NULL,
        file_size INTEGER NOT NULL,
        page_count INTEGER,
        last_viewed_page INTEGER DEFAULT 1,
        created_at TIMESTAMP DEFAULT CURRENT_TIMESTAMP,
        FOREIGN KEY (entry_id) REFERENCES entries(id) ON DELETE CASCADE
    );

    CREATE TABLE IF NOT EXISTS export_history (
        id INTEGER PRIMARY KEY AUTOINCREMENT,
        export_type TEXT NOT NULL,
        file_name TEXT NOT NULL,
        file_path TEXT NOT NULL,
        file_size INTEGER,
        exported_at TIMESTAMP DEFAULT CURRENT_TIMESTAMP
    );

    CREATE INDEX IF NOT EXISTS idx_entries_subject_id ON entries(subject_id);
    CREATE INDEX IF NOT EXISTS idx_entries_study_date ON entries(study_date);
    CREATE INDEX IF NOT EXISTS idx_revisions_entry_id ON revisions(entry_id);
    CREATE INDEX IF NOT EXISTS idx_revisions_due_date ON revisions(due_date);
    CREATE INDEX IF NOT EXISTS idx_revisions_status ON revisions(status);
    CREATE INDEX IF NOT EXISTS idx_activity_log_entry_id ON activity_log(entry_id);
    CREATE INDEX IF NOT EXISTS idx_activity_log_activity_date ON activity_log(activity_date);
    CREATE INDEX IF NOT EXISTS idx_pomodoro_sessions_completed_at ON pomodoro_sessions(completed_at);
    CREATE INDEX IF NOT EXISTS idx_pomodoro_sessions_subject_id ON pomodoro_sessions(subject_id);
    CREATE INDEX IF NOT EXISTS idx_syllabus_items_subject_id ON syllabus_items(subject_id);
    CREATE INDEX IF NOT EXISTS idx_syllabus_items_parent_id ON syllabus_items(parent_id);
    CREATE INDEX IF NOT EXISTS idx_pdf_attachments_entry_id ON pdf_attachments(entry_id);
    CREATE INDEX IF NOT EXISTS idx_export_history_exported_at ON export_history(exported_at);
    ";

/// Inserts one settings row unless its key already exists: the seeding
/// step never overwrites an existing value.
pub const SEED_SETTING_SQL: &'static str =
    "INSERT OR IGNORE INTO settings (key, value) VALUES (?1, ?2)";

/// Inserts the singleton timer row unless it already exists: id fixed to
/// 1 by the table's constraint, a fresh 25-minute work session, not
/// running, with no completed work sessions counted.
pub const SEED_POMODORO_SQL: &'static str =
    "INSERT OR IGNORE INTO pomodoro_state (id, session_type, duration_seconds, remaining_seconds, pomodoro_count) VALUES (1, 'work', 1500, 1500, 0)";

/// The default configuration rows seeded on first run, as key/value
/// pairs, in seeding order.
pub fn default_settings() -> (r: Vec<(String, String)>)
    ensures
        r@.len() == 9,
        r@[0].0@ == "default_intervals"@ && r@[0].1@ == "3,7"@,
        r@[1].0@ == "notification_enabled"@ && r@[1].1@ == "true"@,
        r@[2].0@ == "notification_time"@ && r@[2].1@ == "10:00"@,
        r@[3].0@ == "pomodoro_work_duration"@ && r@[3].1@ == "25"@,
        r@[4].0@ == "pomodoro_short_break"@ && r@[4].1@ == "5"@,
        r@[5].0@ == "pomodoro_long_break_default"@ && r@[5].1@ == "20"@,
        r@[6].0@ == "pomodoro_sound_enabled"@ && r@[6].1@ == "true"@,
        r@[7].0@ == "pomodoro_sound_choice"@ && r@[7].1@ == "gentle_bell"@,
        r@[8].0@ == "dark_mode_enabled"@ && r@[8].1@ == "false"@,
{
    let mut out: Vec<(String, String)> = Vec::new();
    out.push(("default_intervals".to_owned(), "3,7".to_owned()));
    out.push(("notification_enabled".to_owned(), "true".to_owned()));
    out.push(("notification_time".to_owned(), "10:00".to_owned()));
    out.push(("pomodoro_work_duration".to_owned(), "25".to_owned()));
    out.push(("pomodoro_short_break".to_owned(), "5".to_owned()));
    out.push(("pomodoro_long_break_default".to_owned(), "20".to_owned()));
    out.push(("pomodoro_sound_enabled".to_owned(), "true".to_owned()));
    out.push(("pomodoro_sound_choice".to_owned(), "gentle_bell".to_owned()));
    out.push(("dark_mode_enabled".to_owned(), "false".to_owned()));
    out
}

} // verus!

use dev_pets::constants::DB_NAME_TYPE;
use dev_pets::constants::DEFAULT_SQL_SCHEMA;
use dev_pets::pet_window::pet_window_settings;
use dev_pets::pet_window::pet_window_toggle;
use dev_pets::pet_window::WindowCommand;
use dev_pets::pet_window::PET_WINDOW_LABEL;
use dev_pets::startup::migrations;
use dev_pets::startup::run;
use dev_pets::startup::tray_menu_action;
use dev_pets::startup::MenuEntry;
use dev_pets::startup::Migration;
use dev_pets::startup::MigrationKind;
use dev_pets::startup::TrayAction;

#[test]
fn showing_ignores_the_cursor_then_shows() {
    assert_eq!(
        pet_window_toggle(true),
        vec![WindowCommand::SetIgnoreCursorEvents { ignore: true }, WindowCommand::Show]
    );
}

#[test]
fn hiding_hides_then_takes_the_cursor_again() {
    assert_eq!(
        pet_window_toggle(false),
        vec![WindowCommand::Hide, WindowCommand::SetIgnoreCursorEvents { ignore: false }]
    );
}

#[test]
fn pet_window_is_a_hidden_transparent_overlay() {
    let settings = pet_window_settings();
    assert_eq!(PET_WINDOW_LABEL, "pet");
    assert_eq!(settings.label, "pet");
    assert_eq!(settings.path, "/pet");
    assert!(settings.transparent);
    assert!(!settings.decorations);
    assert!(settings.always_on_top);
    assert!(settings.skip_taskbar);
    assert!(settings.maximized);
    assert!(!settings.visible);
}

#[test]
fn tray_quit_exits_with_zero() {
    assert_eq!(tray_menu_action("quit"), TrayAction::Exit { code: 0 });
}

#[test]
fn other_tray_entries_are_unhandled() {
    assert_eq!(tray_menu_action("Quit"), TrayAction::Unhandled);
    assert_eq!(tray_menu_action(""), TrayAction::Unhandled);
    assert_eq!(tray_menu_action("quit "), TrayAction::Unhandled);
    assert_eq!(tray_menu_action("settings"), TrayAction::Unhandled);
}

#[test]
fn startup_holds_database_window_and_tray() {
    let startup = run();
    assert_eq!(startup.database, "sqlite:devpets.db");
    assert_eq!(startup.database, DB_NAME_TYPE);
    assert_eq!(startup.migrations, migrations());
    assert_eq!(startup.pet_window, pet_window_settings());
    assert_eq!(startup.tray_menu, vec![MenuEntry { id: "quit", title: "Quit", enabled: true }]);
    assert!(startup.menu_on_left_click);
}

#[test]
fn schema_installation_is_migration_one_named_init() {
    assert_eq!(
        migrations(),
        vec![Migration {
            version: 1,
            description: "init",
            sql: DEFAULT_SQL_SCHEMA,
            kind: MigrationKind::Up,
        }]
    );
}

#[test]
fn schema_creates_ten_tables_and_four_unique_indexes() {
    let tables = [
        "users",
        "clients",
        "cars",
        "bookings",
        "payments",
        "maintenance",
        "comments",
        "hijacking",
        "points",
        "backups",
    ];
    for table in tables {
        assert!(DEFAULT_SQL_SCHEMA.contains(&format!("CREATE TABLE `{}` (", table)));
    }
    assert_eq!(DEFAULT_SQL_SCHEMA.matches("CREATE TABLE ").count(), 10);
    let indexes = [
        "CREATE UNIQUE INDEX `cars_license_plate_unique` ON `cars` (`license_plate`);",
        "CREATE UNIQUE INDEX `clients_email_unique` ON `clients` (`email`);",
        "CREATE UNIQUE INDEX `payments_transaction_id_unique` ON `payments` (`transaction_id`);",
        "CREATE UNIQUE INDEX `users_email_unique` ON `users` (`email`);",
    ];
    for index in indexes {
        assert!(DEFAULT_SQL_SCHEMA.contains(index));
    }
    assert_eq!(DEFAULT_SQL_SCHEMA.matches("CREATE UNIQUE INDEX ").count(), 4);
    assert_eq!(DEFAULT_SQL_SCHEMA.matches("--> statement-breakpoint").count(), 13);
    assert!(DEFAULT_SQL_SCHEMA.starts_with("CREATE TABLE `backups` ("));
    assert!(DEFAULT_SQL_SCHEMA.ends_with("CREATE UNIQUE INDEX `users_email_unique` ON `users` (`email`);"));
}

#[test]
fn schema_stores_timestamps_as_millisecond_epochs() {
    let stamp = "`created_at` integer DEFAULT (cast((julianday('now') - 2440587.5)*86400000 as integer)) NOT NULL";
    assert_eq!(DEFAULT_SQL_SCHEMA.matches(stamp).count(), 8);
}

//! What the host framework is told when the application starts: the database
//! and its migrations, the overlay window, and the tray menu.

use crate::constants::DB_NAME_TYPE;
use crate::constants::DEFAULT_SQL_SCHEMA;
use crate::pet_window::pet_window_settings;
use crate::pet_window::PetWindowSettings;
use crate::pet_window::PET_WINDOW_LABEL;
use crate::pet_window::PET_WINDOW_PATH;
use vstd::prelude::*;
use vstd::string::*;

verus! {

/// The version of the one migration: the schema of a fresh install.
pub const INITIAL_VERSION: i64 = 1;

/// The description of the one migration.
pub const INITIAL_DESCRIPTION: &'static str = "init";

/// The identifier of the tray menu entry that quits the application.
pub const QUIT_ITEM_ID: &'static str = "quit";

/// The title of the tray menu entry that quits the application.
pub const QUIT_ITEM_TITLE: &'static str = "Quit";

/// The direction of a migration.
#[derive(Clone, Copy, Debug, PartialEq, Eq, Structural)]
pub enum MigrationKind {
    Up,
    Down,
}

/// One step in the history of the database schema.
#[derive(Clone, Copy, Debug, PartialEq, Eq)]
pub struct Migration {
    pub version: i64,
    pub description: &'static str,
    pub sql: &'static str,
    pub kind: MigrationKind,
}

/// One entry of the tray menu.
#[derive(Clone, Copy, Debug, PartialEq, Eq)]
pub struct MenuEntry {
    pub id: &'static str,
    pub title: &'static str,
    pub enabled: bool,
}

/// What a click on a tray menu entry leads to.
#[derive(Clone, Copy, Debug, PartialEq, Eq, Structural)]
pub enum TrayAction {
    /// Leave the application with this exit code.
    Exit { code: i32 },
    /// The entry is not known: note it and go on.
    Unhandled,
}

/// Everything the host framework is told at start-up.
#[derive(Debug)]
pub struct Startup {
    pub database: &'static str,
    pub migrations: Vec<Migration>,
    pub pet_window: PetWindowSettings,
    pub tray_menu: Vec<MenuEntry>,
    pub menu_on_left_click: bool,
}

/// `migration` is the schema of a fresh install: version 1, named `init`,
/// applied upwards.
pub open spec fn is_initial_migration(migration: Migration) -> bool {
    &&& migration.version == 1
    &&& migration.description@ == INITIAL_DESCRIPTION@
    &&& migration.sql@ == DEFAULT_SQL_SCHEMA@
    &&& migration.kind == MigrationKind::Up
}

/// `entry` is the enabled entry that quits the application.
pub open spec fn is_quit_entry(entry: MenuEntry) -> bool {
    &&& entry.id@ == QUIT_ITEM_ID@
    &&& entry.title@ == QUIT_ITEM_TITLE@
    &&& entry.enabled
}

/// Whether two texts are the same.
fn same_text(a: &str, b: &str) -> (same: bool)
    ensures
        same == (a@ == b@),
{
    String::from_str(a) == String::from_str(b)
}

/// The migrations of the database: the fixed schema, once.
pub fn migrations() -> (list: Vec<Migration>)
    ensures
        list@.len() == 1,
        is_initial_migration(list@[0]),
{
    let mut list: Vec<Migration> = Vec::new();
    list.push(
        Migration {
            version: INITIAL_VERSION,
            description: INITIAL_DESCRIPTION,
            sql: DEFAULT_SQL_SCHEMA,
            kind: MigrationKind::Up,
        },
    );
    list
}

/// What a click on the tray menu entry `id` leads to: the entry `quit` ends
/// the application with exit code 0, any other entry is unhandled.
pub fn tray_menu_action(id: &str) -> (action: TrayAction)
    ensures
        id@ == QUIT_ITEM_ID@ ==> action == (TrayAction::Exit { code: 0 }),
        id@ != QUIT_ITEM_ID@ ==> action == TrayAction::Unhandled,
{
    if same_text(id, QUIT_ITEM_ID) {
        TrayAction::Exit { code: 0 }
    } else {
        TrayAction::Unhandled
    }
}

/// What the application starts with: the database `DB_NAME_TYPE` with its
/// one migration, the hidden overlay window, and a tray menu with the one
/// entry that quits, shown on a left click too.
pub fn run() -> (startup: Startup)
    ensures
        startup.database@ == DB_NAME_TYPE@,
        startup.migrations@.len() == 1,
        is_initial_migration(startup.migrations@[0]),
        startup.pet_window.label@ == PET_WINDOW_LABEL@,
        startup.pet_window.path@ == PET_WINDOW_PATH@,
        startup.pet_window.transparent,
        !startup.pet_window.decorations,
        startup.pet_window.always_on_top,
        startup.pet_window.skip_taskbar,
        startup.pet_window.maximized,
        !startup.pet_window.visible,
        startup.tray_menu@.len() == 1,
        is_quit_entry(startup.tray_menu@[0]),
        startup.menu_on_left_click,
{
    let mut tray_menu: Vec<MenuEntry> = Vec::new();
    tray_menu.push(MenuEntry { id: QUIT_ITEM_ID, title: QUIT_ITEM_TITLE, enabled: true });
    Startup {
        database: DB_NAME_TYPE,
        migrations: migrations(),
        pet_window: pet_window_settings(),
        tray_menu,
        menu_on_left_click: true,
    }
}

} // verus!

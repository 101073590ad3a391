//! The pet overlay window: how it is created and how it is shown and hidden.
//!
//! The window belongs to the host framework. Decided here is what the
//! framework is told: the settings of the window, and the commands, in their
//! order, that show or hide it.

use vstd::prelude::*;

verus! {

/// The label under which the overlay window is known to the framework.
pub const PET_WINDOW_LABEL: &'static str = "pet";

/// The path of the page that the overlay window shows.
pub const PET_WINDOW_PATH: &'static str = "/pet";

/// One thing to tell the overlay window.
#[derive(Clone, Copy, Debug, PartialEq, Eq, Structural)]
pub enum WindowCommand {
    /// Let clicks pass through the window (`ignore`), or take them again.
    SetIgnoreCursorEvents { ignore: bool },
    /// Show the window.
    Show,
    /// Hide the window.
    Hide,
}

/// What is seen of the overlay window.
pub ghost struct WindowState {
    pub shown: bool,
    pub ignores_cursor: bool,
}

/// The window after one command.
pub open spec fn after_command(state: WindowState, command: WindowCommand) -> WindowState {
    match command {
        WindowCommand::SetIgnoreCursorEvents { ignore } => WindowState { ignores_cursor: ignore, ..state },
        WindowCommand::Show => WindowState { shown: true, ..state },
        WindowCommand::Hide => WindowState { shown: false, ..state },
    }
}

/// The window after `commands`, carried out in their order.
pub open spec fn after_commands(state: WindowState, commands: Seq<WindowCommand>) -> WindowState
    decreases commands.len(),
{
    if commands.len() == 0 {
        state
    } else {
        after_command(after_commands(state, commands.drop_last()), commands.last())
    }
}

/// The commands of a toggle, in their order. To show the window, clicks are
/// first made to pass through it; to hide it, it is hidden first.
pub open spec fn toggle_commands(visible: bool) -> Seq<WindowCommand> {
    if visible {
        seq![WindowCommand::SetIgnoreCursorEvents { ignore: true }, WindowCommand::Show]
    } else {
        seq![WindowCommand::Hide, WindowCommand::SetIgnoreCursorEvents { ignore: false }]
    }
}

/// Shows the overlay window and lets clicks pass through it, or hides it and
/// makes it take clicks again: returns the commands for the window labelled
/// `PET_WINDOW_LABEL`, to be carried out in this order.
pub fn pet_window_toggle(visible: bool) -> (commands: Vec<WindowCommand>)
    ensures
        commands@ == toggle_commands(visible),
{
    let mut commands: Vec<WindowCommand> = Vec::new();
    if visible {
        commands.push(WindowCommand::SetIgnoreCursorEvents { ignore: true });
        commands.push(WindowCommand::Show);
    } else {
        commands.push(WindowCommand::Hide);
        commands.push(WindowCommand::SetIgnoreCursorEvents { ignore: false });
    }
    assert(commands@ =~= toggle_commands(visible));
    commands
}

/// Whatever the window was like, after a toggle it is shown and lets clicks
/// pass exactly if `visible` was asked for.
pub proof fn lemma_toggle_sets_both(state: WindowState, visible: bool)
    ensures
        after_commands(state, toggle_commands(visible)) == (WindowState {
            shown: visible,
            ignores_cursor: visible,
        }),
{
    let commands = toggle_commands(visible);
    let first = commands.drop_last();
    assert(first.drop_last() =~= Seq::<WindowCommand>::empty());
    assert(after_commands(state, first.drop_last()) == state);
    assert(after_commands(state, first) == after_command(state, commands[0]));
}

/// How the overlay window is created.
#[derive(Clone, Copy, Debug, PartialEq, Eq)]
pub struct PetWindowSettings {
    pub label: &'static str,
    pub path: &'static str,
    pub transparent: bool,
    pub decorations: bool,
    pub always_on_top: bool,
    pub skip_taskbar: bool,
    pub maximized: bool,
    pub visible: bool,
}

/// The overlay window is transparent, without decorations, above all other
/// windows, absent from the taskbar, maximized, and hidden until it is toggled.
pub fn pet_window_settings() -> (settings: PetWindowSettings)
    ensures
        settings.label@ == PET_WINDOW_LABEL@,
        settings.path@ == PET_WINDOW_PATH@,
        settings.transparent,
        !settings.decorations,
        settings.always_on_top,
        settings.skip_taskbar,
        settings.maximized,
        !settings.visible,
{
    PetWindowSettings {
        label: PET_WINDOW_LABEL,
        path: PET_WINDOW_PATH,
        transparent: true,
        decorations: false,
        always_on_top: true,
        skip_taskbar: true,
        maximized: true,
        visible: false,
    }
}

} // verus!

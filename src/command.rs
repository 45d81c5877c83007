//! Commands that an application hands to the runtime: a message to deliver,
//! or an action on its window.
use vstd::prelude::*;

verus! {

/// A message of an application: one of its own, or one for the shell runtime.
#[derive(Clone, Debug, PartialEq, Eq)]
pub enum Message<M, C> {
    App(M),
    Cosmic(C),
}

/// An action that the runtime performs on the application's window.
#[derive(Clone, Debug, PartialEq, Eq)]
pub enum WindowAction {
    Drag,
    Fullscreen,
    Minimize,
    SetTitle(String),
    SetWindowed,
    ToggleFullscreen,
}

/// What the runtime is asked to do.
#[derive(Clone, Debug, PartialEq, Eq)]
pub enum Command<M, C> {
    /// Deliver this message to the application.
    Deliver(Message<M, C>),
    /// Perform this action on the window.
    Window(WindowAction),
}

/// Creates a command which yields a message.
pub fn message<M, C>(msg: Message<M, C>) -> (r: Command<M, C>)
    ensures
        r == Command::<M, C>::Deliver(msg),
{
    Command::Deliver(msg)
}

/// Creates a command which yields an application message.
pub fn app<M, C>(msg: M) -> (r: Command<M, C>)
    ensures
        r == Command::<M, C>::Deliver(Message::App(msg)),
{
    message(Message::App(msg))
}

/// Creates a command which yields a message for the shell runtime.
pub fn cosmic<M, C>(msg: C) -> (r: Command<M, C>)
    ensures
        r == Command::<M, C>::Deliver(Message::Cosmic(msg)),
{
    message(Message::Cosmic(msg))
}

/// Starts an interactive move of the window.
pub fn drag<M, C>() -> (r: Command<M, C>)
    ensures
        r == Command::<M, C>::Window(WindowAction::Drag),
{
    Command::Window(WindowAction::Drag)
}

/// Makes the window fullscreen.
pub fn fullscreen<M, C>() -> (r: Command<M, C>)
    ensures
        r == Command::<M, C>::Window(WindowAction::Fullscreen),
{
    Command::Window(WindowAction::Fullscreen)
}

/// Minimizes the window.
pub fn minimize<M, C>() -> (r: Command<M, C>)
    ensures
        r == Command::<M, C>::Window(WindowAction::Minimize),
{
    Command::Window(WindowAction::Minimize)
}

/// Sets the title of the window.
pub fn set_title<M, C>(title: String) -> (r: Command<M, C>)
    ensures
        r == Command::<M, C>::Window(WindowAction::SetTitle(title)),
{
    Command::Window(WindowAction::SetTitle(title))
}

/// Returns the window from fullscreen to windowed mode.
pub fn set_windowed<M, C>() -> (r: Command<M, C>)
    ensures
        r == Command::<M, C>::Window(WindowAction::SetWindowed),
{
    Command::Window(WindowAction::SetWindowed)
}

/// Switches the window between fullscreen and windowed mode.
pub fn toggle_fullscreen<M, C>() -> (r: Command<M, C>)
    ensures
        r == Command::<M, C>::Window(WindowAction::ToggleFullscreen),
{
    Command::Window(WindowAction::ToggleFullscreen)
}

} // verus!

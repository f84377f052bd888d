//! The `Model` trait at the centre of the Model-View-Update architecture.

use vstd::prelude::*;

verus! {

/// The interface of an application: its state, how it reacts to messages and
/// how it is rendered.
///
/// `Msg` is the type of the messages the model receives and `Cmd` the type of
/// the commands it asks the runtime to execute.
pub trait Model: Send + Sized + 'static {
    /// The messages the model receives.
    type Msg;
    /// The commands the model issues.
    type Cmd;

    /// Initialize the model with its initial state and optional command.
    fn init() -> (Self, Option<Self::Cmd>);

    /// Update the model in response to a message.
    fn update(&mut self, msg: Self::Msg) -> Option<Self::Cmd>;

    /// Render the model as a string for display in the terminal.
    fn view(&self) -> String;
}

} // verus!

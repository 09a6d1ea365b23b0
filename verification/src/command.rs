//! The uniform result of asking a handler to parse a chat message.

use vstd::prelude::*;

verus! {

/// What a handler decided about an incoming chat message.
///
/// `WrongCommand` means the message is not addressed to this handler at all;
/// `BadArguments` carries the reply text that should be sent back to the
/// requester; `Execute` carries the structured arguments for the handler's
/// `execute` step.
pub enum CommandArgsResult<Args> {
    WrongCommand,
    InsufficientPermissions,
    BadArguments(String),
    Execute(Args),
}

/// The mathematical value of a parse outcome, with the reply text and the
/// arguments replaced by their own mathematical values.
pub ghost enum CommandParseView<A> {
    WrongCommand,
    InsufficientPermissions,
    BadArguments(Seq<char>),
    Execute(A),
}

impl<Args: View> View for CommandArgsResult<Args> {
    type V = CommandParseView<Args::V>;

    open spec fn view(&self) -> CommandParseView<Args::V> {
        match self {
            CommandArgsResult::WrongCommand => CommandParseView::WrongCommand,
            CommandArgsResult::InsufficientPermissions => CommandParseView::InsufficientPermissions,
            CommandArgsResult::BadArguments(m) => CommandParseView::BadArguments(m@),
            CommandArgsResult::Execute(a) => CommandParseView::Execute(a@),
        }
    }
}

} // verus!

//! The editor-theme chat command: its parsing and the wire message the
//! editor integration broadcasts. The TCP listener that carries the message
//! belongs to the caller.

use vstd::prelude::*;

use crate::command::{CommandArgsResult, CommandParseView};
use crate::text::{find_char, first_word, lemma_first_index_of, second_token, str_eq};

verus! {

/// A chat command addressed to the editor integration.
pub enum NeovimArgs {
    SetTheme(String),
}

pub ghost enum NeovimArgsView {
    SetTheme(Seq<char>),
}

impl View for NeovimArgs {
    type V = NeovimArgsView;

    open spec fn view(&self) -> NeovimArgsView {
        match self {
            NeovimArgs::SetTheme(theme) => NeovimArgsView::SetTheme(theme@),
        }
    }
}

/// How the editor integration reads a chat message.
pub open spec fn spec_neovim_parse(s: Seq<char>) -> CommandParseView<NeovimArgsView> {
    let w = first_word(s);
    if w == "!theme"@ || w == "!settheme"@ || w == "!colorscheme"@ {
        match second_token(s) {
            None => CommandParseView::BadArguments("Usage: !theme [theme]"@),
            Some(t) => CommandParseView::Execute(NeovimArgsView::SetTheme(t)),
        }
    } else {
        CommandParseView::WrongCommand
    }
}

/// Read a chat message addressed to the editor integration.
pub fn parse_args(message_text: &str) -> (r: CommandArgsResult<NeovimArgs>)
    ensures
        r@ == spec_neovim_parse(message_text@),
{
    let n = message_text.unicode_len();
    proof {
        lemma_first_index_of(message_text@, ' ');
    }
    let sp = find_char(message_text, ' ');
    let word = message_text.substring_char(0, sp);
    if str_eq(word, "!theme") || str_eq(word, "!settheme") || str_eq(word, "!colorscheme") {
        if sp == n {
            return CommandArgsResult::BadArguments(String::from_str("Usage: !theme [theme]"));
        }
        let rest = message_text.substring_char(sp + 1, n);
        proof {
            assert(rest@ =~= message_text@.skip(sp as int + 1));
            lemma_first_index_of(rest@, ' ');
        }
        let sp2 = find_char(rest, ' ');
        let theme = rest.substring_char(0, sp2).to_owned();
        return CommandArgsResult::Execute(NeovimArgs::SetTheme(theme));
    }
    CommandArgsResult::WrongCommand
}

/// The wire message that sets the editor's theme.
pub fn set_theme_message(theme: &str) -> (r: String)
    ensures
        r@ == "set_theme "@ + theme@,
{
    String::from_str("set_theme ").concat(theme)
}

} // verus!

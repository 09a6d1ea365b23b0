//! The bot's command handlers and the registry that fans each chat message
//! out to all of them, in a fixed order, collecting the replies to send and
//! the side effects the caller must perform.

pub mod fetcher;
pub mod neovim;
pub mod radio;
pub mod simple_reply;

use vstd::prelude::*;

use crate::command::{CommandArgsResult, CommandParseView};
use crate::commands::neovim::{spec_neovim_parse, NeovimArgs, NeovimArgsView};
use crate::commands::radio::{
    spec_radio_parse, spec_to_url, MediaEvent, Radio, RadioAction, RadioActionView, RadioArgs,
    RadioArgsView, RadioPlatformSongView, UpdateDecision,
};
use crate::commands::simple_reply::{
    spec_lookup, spec_simple_parse, SimpleReplyCommandHandler, SimpleReplyCommandView,
};
use crate::config::Config;

verus! {

/// The reply the radio contributes to one message: the error text of a bad
/// request, or the current song's URL when it was asked for.
pub open spec fn spec_radio_reply(queue: Seq<RadioPlatformSongView>, s: Seq<char>) -> Seq<
    Seq<char>,
> {
    match spec_radio_parse(s) {
        CommandParseView::BadArguments(m) => seq![m],
        CommandParseView::Execute(RadioArgsView::DisplayCurrentSong) => if queue.len() > 0 {
            seq![spec_to_url(queue[0])]
        } else {
            Seq::empty()
        },
        _ => Seq::empty(),
    }
}

/// The reply the editor integration contributes: only usage help for a bad
/// theme command.
pub open spec fn spec_neovim_reply(s: Seq<char>) -> Seq<Seq<char>> {
    match spec_neovim_parse(s) {
        CommandParseView::BadArguments(m) => seq![m],
        _ => Seq::empty(),
    }
}

/// The reply the fixed-reply handler contributes.
pub open spec fn spec_simple_reply(
    entries: Seq<(Seq<char>, SimpleReplyCommandView)>,
    s: Seq<char>,
) -> Seq<Seq<char>> {
    match spec_simple_parse(entries, s) {
        CommandParseView::Execute(k) => match spec_lookup(entries, k) {
            Some(resp) => seq![resp],
            None => Seq::empty(),
        },
        _ => Seq::empty(),
    }
}

/// Every reply one chat message produces, in the order the handlers run:
/// radio, editor integration, fixed replies.
pub open spec fn spec_dispatch_replies(
    queue: Seq<RadioPlatformSongView>,
    entries: Seq<(Seq<char>, SimpleReplyCommandView)>,
    s: Seq<char>,
) -> Seq<Seq<char>> {
    spec_radio_reply(queue, s) + spec_neovim_reply(s) + spec_simple_reply(entries, s)
}

/// The sink or fetch work one chat message asks of the caller.
pub open spec fn spec_dispatch_action(s: Seq<char>) -> RadioActionView {
    match spec_radio_parse(s) {
        CommandParseView::Execute(RadioArgsView::SkipCurrentSong) => RadioActionView::SkipSink,
        CommandParseView::Execute(RadioArgsView::SongRequest(v)) => RadioActionView::Fetch(v),
        _ => RadioActionView::Nothing,
    }
}

/// The editor wire message one chat message produces.
pub open spec fn spec_dispatch_theme(s: Seq<char>) -> Option<Seq<char>> {
    match spec_neovim_parse(s) {
        CommandParseView::Execute(NeovimArgsView::SetTheme(t)) => Some("set_theme "@ + t),
        _ => None,
    }
}

/// What dispatching one chat message asks of the caller: the replies to send
/// back (each referencing the incoming message), the radio work to perform,
/// and the editor wire message to broadcast.
pub struct DispatchOutcome {
    pub replies: Vec<String>,
    pub radio_action: RadioAction,
    pub neovim_message: Option<String>,
}

/// The ordered collection of command handlers. Each incoming chat message is
/// offered to every handler; a failing handler never blocks the others.
pub struct CommandRegistry {
    pub radio: Radio,
    pub simple_reply_commands: SimpleReplyCommandHandler,
}

impl CommandRegistry {
    /// Build the registry from the loaded configuration: an idle radio and
    /// the configured fixed replies. The caller owns the audio sink and the
    /// editor's listener, and performs the radio's one-time playlist sync.
    pub fn initialize(config: &Config) -> (r: CommandRegistry)
        requires
            config.data is Some,
        ensures
            r.radio.config == config.radio,
            r.radio.history() == Seq::<RadioPlatformSongView>::empty(),
            r.radio.queue_view() == Seq::<RadioPlatformSongView>::empty(),
            r.radio.wf(),
            config.data matches Some(d) ==> r.simple_reply_commands@ == d.simple_reply_commands@,
    {
        CommandRegistry {
            radio: Radio::initialize(config.radio.clone()),
            simple_reply_commands: config.data().simple_reply_commands.clone(),
        }
    }

    /// Offer one chat message to every handler in order. The radio answers
    /// first, then the editor integration, then the fixed replies; a
    /// handler's bad-arguments text is sent back as a reply, and the side
    /// effects are handed to the caller. No handler mutates the registry.
    pub fn try_execute(&self, message_text: &str) -> (outcome: DispatchOutcome)
        ensures
            outcome.replies.deep_view() == spec_dispatch_replies(
                self.radio.queue_view(),
                self.simple_reply_commands@,
                message_text@,
            ),
            outcome.radio_action@ == spec_dispatch_action(message_text@),
            match outcome.neovim_message {
                Some(m) => spec_dispatch_theme(message_text@) == Some(m@),
                None => spec_dispatch_theme(message_text@) is None,
            },
    {
        let ghost s = message_text@;
        let ghost r0 = spec_radio_reply(self.radio.queue_view(), s);
        let ghost r1 = spec_neovim_reply(s);
        let ghost r2 = spec_simple_reply(self.simple_reply_commands@, s);

        let mut replies: Vec<String> = Vec::new();
        let mut radio_action = RadioAction::Nothing;
        match self.radio.parse_args(message_text) {
            CommandArgsResult::BadArguments(m) => {
                replies.push(m);
                proof {
                    assert(replies.deep_view() =~= r0);
                }
            },
            CommandArgsResult::Execute(args) => {
                let (reply, action) = self.radio.execute(args);
                match reply {
                    Some(t) => {
                        replies.push(t);
                        proof {
                            assert(replies.deep_view() =~= r0);
                        }
                    },
                    None => {
                        proof {
                            assert(replies.deep_view() =~= r0);
                        }
                    },
                }
                radio_action = action;
            },
            _ => {
                proof {
                    assert(replies.deep_view() =~= r0);
                }
            },
        }
        proof {
            assert(replies.deep_view() == r0);
            assert(radio_action@ == spec_dispatch_action(s));
        }

        let ghost after_radio = replies.deep_view();
        let mut neovim_message: Option<String> = None;
        match neovim::parse_args(message_text) {
            CommandArgsResult::BadArguments(m) => {
                replies.push(m);
                proof {
                    assert(replies.deep_view() =~= after_radio + r1);
                }
            },
            CommandArgsResult::Execute(args) => {
                match args {
                    NeovimArgs::SetTheme(theme) => {
                        neovim_message = Some(neovim::set_theme_message(theme.as_str()));
                    },
                }
                proof {
                    assert(replies.deep_view() =~= after_radio + r1);
                }
            },
            _ => {
                proof {
                    assert(replies.deep_view() =~= after_radio + r1);
                }
            },
        }
        proof {
            assert(replies.deep_view() == r0 + r1);
            match &neovim_message {
                Some(m) => assert(spec_dispatch_theme(s) == Some(m@)),
                None => assert(spec_dispatch_theme(s) is None),
            }
        }

        let ghost after_neovim = replies.deep_view();
        match self.simple_reply_commands.parse_args(message_text) {
            CommandArgsResult::Execute(key) => {
                match self.simple_reply_commands.execute(&key) {
                    Some(resp) => {
                        replies.push(resp);
                        proof {
                            assert(replies.deep_view() =~= after_neovim + r2);
                        }
                    },
                    None => {
                        proof {
                            assert(replies.deep_view() =~= after_neovim + r2);
                        }
                    },
                }
            },
            _ => {
                proof {
                    assert(replies.deep_view() =~= after_neovim + r2);
                }
            },
        }
        proof {
            assert(replies.deep_view() =~= r0 + r1 + r2);
        }

        DispatchOutcome { replies, radio_action, neovim_message }
    }

    /// One main-loop tick: hand the drained media-control event and the
    /// sink's state to the radio and pass its decision back to the caller.
    pub fn update(
        &mut self,
        event: Option<MediaEvent>,
        sink_paused: bool,
        sink_empty: bool,
        filenames: &Vec<String>,
    ) -> (r: UpdateDecision)
        ensures
            old(self).radio.wf() ==> final(self).radio.wf(),
            final(self).simple_reply_commands == old(self).simple_reply_commands,
            final(self).radio.config == old(self).radio.config,
            final(self).radio.history() == old(self).radio.history(),
            r.sink_action == crate::commands::radio::spec_sink_action(event, sink_paused),
            !sink_empty ==> final(self).radio == old(self).radio && r.next_song is None,
            sink_empty ==> match r.next_song {
                Some(f) => (exists|i: int|
                    0 <= i < filenames@.len() && #[trigger] filenames@[i]@ == f@)
                    && crate::commands::radio::spec_eligible(
                    old(self).radio.history(),
                    old(self).radio.config.audio_format_ext@,
                    f@,
                ) && final(self).radio.queue_view() == if old(self).radio.queue_view().len() > 0 {
                    old(self).radio.queue_view().skip(1)
                } else {
                    old(self).radio.queue_view()
                },
                None => (forall|i: int|
                    0 <= i < filenames@.len() ==> !crate::commands::radio::spec_eligible(
                        old(self).radio.history(),
                        old(self).radio.config.audio_format_ext@,
                        #[trigger] filenames@[i]@,
                    )) && final(self).radio == old(self).radio,
            },
    {
        self.radio.update(event, sink_paused, sink_empty, filenames)
    }
}

} // verus!

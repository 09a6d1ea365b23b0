//! Fixed-reply chat commands loaded from configuration: each command owns a
//! set of names, and a message whose lowercase form starts with `!` followed
//! by one of those names gets the command's fixed reply.

use vstd::prelude::*;

use crate::command::{CommandArgsResult, CommandParseView};
use crate::text::{has_prefix, is_prefix_of, str_eq};

verus! {

/// What `str::to_lowercase` returns: a function of the characters alone.
pub uninterp spec fn lower_of(s: Seq<char>) -> Seq<char>;

/// Relies on `str::to_lowercase`: the lowercase form of a string depends on
/// its characters alone.
#[verifier::external_body]
fn to_lowercase_str(s: &str) -> (r: String)
    ensures
        r@ == lower_of(s@),
{
    s.to_lowercase()
}

/// One fixed-reply command: the chat names that trigger it and the reply it
/// sends.
pub struct SimpleReplyCommand {
    pub names: Vec<String>,
    pub responds: String,
}

pub ghost struct SimpleReplyCommandView {
    pub names: Seq<Seq<char>>,
    pub responds: Seq<char>,
}

impl View for SimpleReplyCommand {
    type V = SimpleReplyCommandView;

    open spec fn view(&self) -> SimpleReplyCommandView {
        SimpleReplyCommandView { names: self.names.deep_view(), responds: self.responds@ }
    }
}

impl DeepView for SimpleReplyCommand {
    type V = SimpleReplyCommandView;

    open spec fn deep_view(&self) -> SimpleReplyCommandView {
        self.view()
    }
}

fn clone_string_vec(v: &Vec<String>) -> (r: Vec<String>)
    ensures
        r.deep_view() == v.deep_view(),
{
    let mut r: Vec<String> = Vec::new();
    let mut i: usize = 0;
    while i < v.len()
        invariant
            0 <= i <= v@.len(),
            r@.len() == i,
            forall|j: int| 0 <= j < i ==> r@[j]@ == v@[j]@,
        decreases v@.len() - i,
    {
        r.push(v[i].clone());
        i += 1;
    }
    proof {
        assert(r.deep_view() =~= v.deep_view());
    }
    r
}

impl Clone for SimpleReplyCommand {
    fn clone(&self) -> (r: Self)
        ensures
            r@ == self@,
    {
        SimpleReplyCommand {
            names: clone_string_vec(&self.names),
            responds: self.responds.clone(),
        }
    }
}

/// The configured fixed-reply commands, each under its configuration key, in
/// a fixed order with no key repeated.
pub struct SimpleReplyCommandHandler {
    pub commands: Vec<(String, SimpleReplyCommand)>,
}

impl View for SimpleReplyCommandHandler {
    type V = Seq<(Seq<char>, SimpleReplyCommandView)>;

    open spec fn view(&self) -> Seq<(Seq<char>, SimpleReplyCommandView)> {
        self.commands.deep_view()
    }
}

/// The lowercased message starts with `!` followed by `name`.
pub open spec fn name_matches(lowered: Seq<char>, name: Seq<char>) -> bool {
    is_prefix_of(seq!['!'] + name, lowered)
}

/// The lowercased message triggers this command under one of its names.
pub open spec fn cmd_matches(c: SimpleReplyCommandView, lowered: Seq<char>) -> bool {
    exists|j: int| 0 <= j < c.names.len() && name_matches(lowered, #[trigger] c.names[j])
}

/// The key of the first configured command the lowercased message triggers.
pub open spec fn first_match(
    entries: Seq<(Seq<char>, SimpleReplyCommandView)>,
    lowered: Seq<char>,
) -> Option<Seq<char>>
    decreases entries.len(),
{
    if entries.len() == 0 {
        None
    } else if cmd_matches(entries[0].1, lowered) {
        Some(entries[0].0)
    } else {
        first_match(entries.skip(1), lowered)
    }
}

proof fn lemma_first_match_is(
    entries: Seq<(Seq<char>, SimpleReplyCommandView)>,
    lowered: Seq<char>,
    i: int,
)
    requires
        0 <= i <= entries.len(),
        forall|j: int| 0 <= j < i ==> !cmd_matches(#[trigger] entries[j].1, lowered),
        i < entries.len() ==> cmd_matches(entries[i].1, lowered),
    ensures
        first_match(entries, lowered) == if i == entries.len() {
            None::<Seq<char>>
        } else {
            Some(entries[i].0)
        },
    decreases entries.len(),
{
    if entries.len() == 0 {
    } else if cmd_matches(entries[0].1, lowered) {
        assert(i == 0);
    } else {
        assert(i >= 1);
        assert forall|j: int| 0 <= j < i - 1 implies !cmd_matches(
            #[trigger] entries.skip(1)[j].1,
            lowered,
        ) by {
            assert(entries.skip(1)[j] == entries[j + 1]);
        }
        if i < entries.len() {
            assert(entries.skip(1)[i - 1] == entries[i]);
        }
        lemma_first_match_is(entries.skip(1), lowered, i - 1);
    }
}

/// The reply of the first command under `key`, if any command carries it.
pub open spec fn spec_lookup(
    entries: Seq<(Seq<char>, SimpleReplyCommandView)>,
    key: Seq<char>,
) -> Option<Seq<char>>
    decreases entries.len(),
{
    if entries.len() == 0 {
        None
    } else if entries[0].0 == key {
        Some(entries[0].1.responds)
    } else {
        spec_lookup(entries.skip(1), key)
    }
}

proof fn lemma_spec_lookup_is(
    entries: Seq<(Seq<char>, SimpleReplyCommandView)>,
    key: Seq<char>,
    i: int,
)
    requires
        0 <= i <= entries.len(),
        forall|j: int| 0 <= j < i ==> (#[trigger] entries[j]).0 != key,
        i < entries.len() ==> entries[i].0 == key,
    ensures
        spec_lookup(entries, key) == if i == entries.len() {
            None::<Seq<char>>
        } else {
            Some(entries[i].1.responds)
        },
    decreases entries.len(),
{
    if entries.len() == 0 {
    } else if entries[0].0 == key {
        assert(i == 0);
    } else {
        assert(i >= 1);
        assert forall|j: int| 0 <= j < i - 1 implies (#[trigger] entries.skip(1)[j]).0 != key by {
            assert(entries.skip(1)[j] == entries[j + 1]);
        }
        if i < entries.len() {
            assert(entries.skip(1)[i - 1] == entries[i]);
        }
        lemma_spec_lookup_is(entries.skip(1), key, i - 1);
    }
}

/// How the fixed-reply handler reads a chat message: the key of the first
/// matching command, or no command at all.
pub open spec fn spec_simple_parse(
    entries: Seq<(Seq<char>, SimpleReplyCommandView)>,
    s: Seq<char>,
) -> CommandParseView<Seq<char>> {
    match first_match(entries, lower_of(s)) {
        Some(k) => CommandParseView::Execute(k),
        None => CommandParseView::WrongCommand,
    }
}

fn command_matches(c: &SimpleReplyCommand, lowered: &str) -> (r: bool)
    ensures
        r == cmd_matches(c@, lowered@),
{
    let mut j: usize = 0;
    while j < c.names.len()
        invariant
            0 <= j <= c.names@.len(),
            c@.names.len() == c.names@.len(),
            forall|k: int| 0 <= k < j ==> !name_matches(lowered@, #[trigger] c@.names[k]),
        decreases c.names@.len() - j,
    {
        let prefix = String::from_str("!").concat(c.names[j].as_str());
        proof {
            reveal_strlit("!");
            assert(prefix@ =~= seq!['!'] + c@.names[j as int]);
        }
        if has_prefix(lowered, prefix.as_str()) {
            assert(name_matches(lowered@, c@.names[j as int]));
            return true;
        }
        j += 1;
    }
    false
}

impl SimpleReplyCommandHandler {
    /// No two commands share a configuration key.
    pub open spec fn wf(&self) -> bool {
        forall|i: int, j: int| 0 <= i < j < self@.len() ==> self@[i].0 != self@[j].0
    }

    /// Read a chat message: the key of the first configured command whose
    /// name, prefixed with `!`, starts the lowercased message.
    pub fn parse_args(&self, message_text: &str) -> (r: CommandArgsResult<String>)
        ensures
            r@ == spec_simple_parse(self@, message_text@),
    {
        let lowered = to_lowercase_str(message_text);
        let ghost entries = self@;
        let mut i: usize = 0;
        while i < self.commands.len()
            invariant
                0 <= i <= self.commands@.len(),
                entries == self@,
                entries.len() == self.commands@.len(),
                lowered@ == lower_of(message_text@),
                forall|j: int| 0 <= j < i ==> !cmd_matches(#[trigger] entries[j].1, lowered@),
            decreases self.commands@.len() - i,
        {
            proof {
                assert(entries[i as int]
                    == (self.commands@[i as int].0@, self.commands@[i as int].1.deep_view()));
            }
            if command_matches(&self.commands[i].1, lowered.as_str()) {
                proof {
                    lemma_first_match_is(entries, lowered@, i as int);
                }
                return CommandArgsResult::Execute(self.commands[i].0.clone());
            }
            i += 1;
        }
        proof {
            lemma_first_match_is(entries, lowered@, entries.len() as int);
        }
        CommandArgsResult::WrongCommand
    }

    /// The fixed reply of the command under `key`, if one is configured.
    pub fn execute(&self, key: &String) -> (r: Option<String>)
        ensures
            match r {
                Some(resp) => spec_lookup(self@, key@) == Some(resp@),
                None => spec_lookup(self@, key@) is None,
            },
    {
        let ghost entries = self@;
        let mut i: usize = 0;
        while i < self.commands.len()
            invariant
                0 <= i <= self.commands@.len(),
                entries == self@,
                entries.len() == self.commands@.len(),
                forall|j: int| 0 <= j < i ==> (#[trigger] entries[j]).0 != key@,
            decreases self.commands@.len() - i,
        {
            proof {
                assert(entries[i as int]
                    == (self.commands@[i as int].0@, self.commands@[i as int].1.deep_view()));
            }
            if str_eq(self.commands[i].0.as_str(), key.as_str()) {
                proof {
                    lemma_spec_lookup_is(entries, key@, i as int);
                }
                return Some(self.commands[i].1.responds.clone());
            }
            i += 1;
        }
        proof {
            lemma_spec_lookup_is(entries, key@, entries.len() as int);
        }
        None
    }
}

impl Clone for SimpleReplyCommandHandler {
    fn clone(&self) -> (r: Self)
        ensures
            r@ == self@,
    {
        let mut commands: Vec<(String, SimpleReplyCommand)> = Vec::new();
        let mut i: usize = 0;
        while i < self.commands.len()
            invariant
                0 <= i <= self.commands@.len(),
                commands@.len() == i,
                forall|j: int|
                    0 <= j < i ==> #[trigger] commands.deep_view()[j]
                        == self.commands.deep_view()[j],
            decreases self.commands@.len() - i,
        {
            let ghost before = commands.deep_view();
            let k = self.commands[i].0.clone();
            let c = self.commands[i].1.clone();
            commands.push((k, c));
            proof {
                assert(k.deep_view() == self.commands@[i as int].0.deep_view());
                assert(c.deep_view() == self.commands@[i as int].1.deep_view());
                assert(commands.deep_view() =~= before.push(
                    self.commands.deep_view()[i as int],
                ));
            }
            i += 1;
        }
        let r = SimpleReplyCommandHandler { commands };
        proof {
            assert(r@ =~= self@);
        }
        r
    }
}

} // verus!

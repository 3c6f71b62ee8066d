//! Log-line handlers for whispers and missions.
use vstd::prelude::*;
use crate::text::{find_seq, contains_seq, chars_of, string_of, find, contains, slice};

verus! {

/// The log names a new chat tab.
pub open spec fn tab_marker() -> Seq<char> {
    "ChatRedux::AddTab: Adding tab with channel name"@
}

/// The player a whisper tab was opened for: the channel name between
/// "channel name: " and " to index", which must begin with "F"; a last
/// character outside ASCII is dropped, then the leading "F". `None` when the line
/// opens no such tab.
pub open spec fn conversation_player_spec(line: Seq<char>) -> Option<Seq<char>> {
    if !contains_seq(line, tab_marker()) {
        None
    } else {
        match find_seq(line, "channel name: "@) {
            None => None,
            Some(start) => {
                let content = line.subrange(start + 14, line.len() as int);
                match find_seq(content, " to index"@) {
                    None => None,
                    Some(end) => {
                        let name = content.subrange(0, end);
                        if name.len() == 0 || name[0] != 'F' {
                            None
                        } else {
                            let trimmed = if (name.last() as u32) >= 0x80 { name.drop_last() } else { name };
                            Some(if trimmed.len() > 0 { trimmed.drop_first() } else { trimmed })
                        }
                    },
                }
            },
        }
    }
}

/// The player a whisper tab was opened for (see `conversation_player_spec`).
pub fn conversation_player(line: &str) -> (res: Option<String>)
    ensures
        match res {
            Some(s) => conversation_player_spec(line@) == Some(s@),
            None => conversation_player_spec(line@) is None,
        },
{
    let l = chars_of(line);
    if !contains(&l, &chars_of("ChatRedux::AddTab: Adding tab with channel name")) {
        return None;
    }
    let marker = chars_of("channel name: ");
    proof {
        reveal_strlit("channel name: ");
    }
    let start = match find(&l, &marker) {
        Some(s) => s,
        None => return None,
    };
    proof {
        crate::text::lemma_find_seq(l@, marker@);
        assert(marker@.len() == 14);
        assert(crate::text::matches_at(l@, marker@, start as int));
        assert(start + 14 <= l.len());
    }
    let content = slice(&l, start + 14, l.len());
    let to_index = chars_of(" to index");
    let end = match find(&content, &to_index) {
        Some(e) => e,
        None => return None,
    };
    proof {
        crate::text::lemma_find_seq(content@, to_index@);
    }
    let mut name = slice(&content, 0, end);
    if name.len() == 0 || name[0] != 'F' {
        return None;
    }
    let last = name[name.len() - 1];
    if (last as u32) >= 0x80 {
        name.pop();
        assert(name@ == content@.subrange(0, end as int).drop_last());
    }
    if name.len() > 0 {
        let rest = slice(&name, 1, name.len());
        assert(rest@ =~= name@.drop_first());
        return Some(string_of(&rest));
    }
    Some(string_of(&name))
}

/// A whisper conversation with a player.
#[derive(Debug)]
pub struct Conversation {
    pub user_name: String,
}

impl Conversation {
    /// A conversation with the given player.
    pub fn new(user_name: &str) -> (res: Conversation)
        ensures
            res.user_name@ == user_name@,
    {
        Conversation { user_name: user_name.to_owned() }
    }
}

/// The whisper watcher; it keeps no state.
#[derive(Debug)]
pub struct OnConversationEvent {}

impl OnConversationEvent {
    /// A watcher.
    pub fn new() -> (res: OnConversationEvent) {
        OnConversationEvent {}
    }

    /// Handles a log line: the player to greet (see `conversation_player_spec`),
    /// and always `(false, false)`: the line is neither consumed nor stops the
    /// other handlers.
    pub fn process_line(&mut self, line: &str) -> (res: ((bool, bool), Option<String>))
        ensures
            res.0 == (false, false),
            match res.1 {
                Some(s) => conversation_player_spec(line@) == Some(s@),
                None => conversation_player_spec(line@) is None,
            },
    {
        ((false, false), conversation_player(line))
    }
}

/// The mission watcher. It collects nothing: every line is left alone.
#[derive(Debug)]
pub struct OnMissionEvent {
    pub logs: Vec<String>,
    pub getting_mission_multiline: bool,
}

impl OnMissionEvent {
    /// A watcher with nothing collected.
    pub fn new() -> (res: OnMissionEvent)
        ensures
            res.logs@.len() == 0,
            !res.getting_mission_multiline,
    {
        OnMissionEvent { logs: Vec::new(), getting_mission_multiline: false }
    }

    /// Handles a log line: always `false`, and nothing changes.
    pub fn process_line(&mut self, line: &str, pos: u64) -> (res: bool)
        ensures
            !res,
            final(self).logs@ == old(self).logs@,
            final(self).getting_mission_multiline == old(self).getting_mission_multiline,
    {
        false
    }
}

} // verus!

use vstd::prelude::*;

use crate::common::{SubjectData, SubjectDataV, SubjectId};
use crate::event::{EventMeta, GameEvent, GameEventV};
use crate::raw_event::RawEventType;
use crate::subjectmap::{lemma_sm_find, sm_find, SubjectMap};

verus! {

/// Whether a chat line went to everyone or to the speaker's team.
#[derive(Debug, Clone, Copy, PartialEq, Eq, Structural)]
pub enum ChatType {
    All,
    Team,
}

/// A chat line as collected during the parse, before names are resolved.
#[derive(Debug, PartialEq, Eq)]
pub struct BareChatMessage {
    pub time: u32,
    pub subject: SubjectId,
    pub message: Vec<u8>,
    pub chat_type: ChatType,
}

/// The mathematical shape of a collected chat line.
pub struct BareChatMessageV {
    pub time: u32,
    pub subject: SubjectId,
    pub message: Seq<u8>,
    pub chat_type: ChatType,
}

impl View for BareChatMessage {
    type V = BareChatMessageV;

    open spec fn view(&self) -> BareChatMessageV {
        BareChatMessageV {
            time: self.time,
            subject: self.subject,
            message: self.message@,
            chat_type: self.chat_type,
        }
    }
}

/// A chat line with the speaker's name and steam64 id filled in.
#[derive(Debug, PartialEq, Eq)]
pub struct ChatMessage {
    pub time: u32,
    pub name: Vec<u8>,
    pub steam_id: u64,
    pub message: Vec<u8>,
    pub chat_type: ChatType,
}

/// The mathematical shape of a resolved chat line.
pub struct ChatMessageV {
    pub time: u32,
    pub name: Seq<u8>,
    pub steam_id: u64,
    pub message: Seq<u8>,
    pub chat_type: ChatType,
}

impl View for ChatMessage {
    type V = ChatMessageV;

    open spec fn view(&self) -> ChatMessageV {
        ChatMessageV {
            time: self.time,
            name: self.name@,
            steam_id: self.steam_id,
            message: self.message@,
            chat_type: self.chat_type,
        }
    }
}

/// Collects say and say-team lines spoken by players, in input order.
#[derive(Debug, PartialEq, Eq)]
pub struct ChatMessages {
    pub messages: Vec<BareChatMessage>,
}

impl View for ChatMessages {
    type V = Seq<BareChatMessageV>;

    open spec fn view(&self) -> Seq<BareChatMessageV> {
        Seq::new(self.messages@.len(), |i: int| self.messages@[i]@)
    }
}

/// The event tags the chat collector consumes.
pub open spec fn chat_does_handle_spec(ty: RawEventType) -> bool {
    ty == RawEventType::Say || ty == RawEventType::SayTeam
}

/// One collection step: a say or say-team line from a player subject is
/// appended; everything else leaves the list unchanged.
pub open spec fn chat_step(
    s: Seq<BareChatMessageV>,
    time: u32,
    subject: SubjectId,
    ev: GameEventV,
) -> Seq<BareChatMessageV> {
    if !(subject is Player) {
        s
    } else {
        match ev {
            GameEventV::Say(m) => s.push(
                BareChatMessageV { time, subject, message: m.text, chat_type: ChatType::All },
            ),
            GameEventV::SayTeam(m) => s.push(
                BareChatMessageV { time, subject, message: m.text, chat_type: ChatType::Team },
            ),
            _ => s,
        }
    }
}

/// The resolved chat lines: each collected line whose speaker is known as a
/// player, with that player's name and steam64 id.
pub open spec fn chat_finish_spec<T>(
    bares: Seq<BareChatMessageV>,
    entries: Seq<(SubjectId, SubjectData, T)>,
) -> Seq<ChatMessageV>
    decreases bares.len(),
{
    if bares.len() == 0 {
        Seq::empty()
    } else {
        let b = bares[0];
        let f = sm_find(entries, b.subject);
        let head: Seq<ChatMessageV> = if f < entries.len() {
            match entries[f].1@ {
                SubjectDataV::Player { name, steam_id, .. } => seq![
                    ChatMessageV {
                        time: b.time,
                        name,
                        steam_id,
                        message: b.message,
                        chat_type: b.chat_type,
                    },
                ],
                _ => Seq::empty(),
            }
        } else {
            Seq::empty()
        };
        head + chat_finish_spec(bares.subrange(1, bares.len() as int), entries)
    }
}

impl ChatMessages {
    pub fn new() -> (r: Self)
        ensures
            r@ =~= Seq::<BareChatMessageV>::empty(),
    {
        ChatMessages { messages: Vec::new() }
    }

    pub fn does_handle(ty: RawEventType) -> (r: bool)
        ensures
            r == chat_does_handle_spec(ty),
    {
        match ty {
            RawEventType::Say | RawEventType::SayTeam => true,
            _ => false,
        }
    }

    /// Collects a chat line when a player speaks.
    pub fn handle_event(&mut self, meta: &EventMeta, subject: SubjectId, event: &GameEvent)
        ensures
            final(self)@ =~= chat_step(old(self)@, meta.time, subject, event@),
    {
        let is_player = match subject {
            SubjectId::Player(_) => true,
            _ => false,
        };
        if !is_player {
            return ;
        }
        match event {
            GameEvent::Say(m) => {
                self.messages.push(
                    BareChatMessage {
                        time: meta.time,
                        subject,
                        message: vstd::slice::slice_to_vec(m.text),
                        chat_type: ChatType::All,
                    },
                );
            },
            GameEvent::SayTeam(m) => {
                self.messages.push(
                    BareChatMessage {
                        time: meta.time,
                        subject,
                        message: vstd::slice::slice_to_vec(m.text),
                        chat_type: ChatType::Team,
                    },
                );
            },
            _ => {},
        }
    }

    /// Resolves the collected lines against the subject map.
    pub fn finish<T>(&self, subjects: &SubjectMap<T>) -> (r: Vec<ChatMessage>)
        ensures
            Seq::new(r@.len(), |i: int| r@[i]@) =~= chat_finish_spec(self@, subjects.entries@),
    {
        let mut out: Vec<ChatMessage> = Vec::new();
        let mut i: usize = 0;
        proof {
            lemma_chat_finish_take(self@, subjects.entries@, 0);
        }
        while i < self.messages.len()
            invariant
                0 <= i <= self.messages@.len(),
                Seq::new(out@.len(), |k: int| out@[k]@) =~= chat_finish_spec(
                    self@.subrange(0, i as int),
                    subjects.entries@,
                ),
            decreases self.messages@.len() - i,
        {
            let bare = &self.messages[i];
            let ghost pre = Seq::new(out@.len(), |k: int| out@[k]@);
            let ghost b = self@[i as int];
            let ghost single = seq![b];
            proof {
                assert(single.subrange(1, 1) =~= Seq::<BareChatMessageV>::empty());
                assert(single[0] == b);
                assert(b == bare@);
                assert(chat_finish_spec(Seq::<BareChatMessageV>::empty(), subjects.entries@)
                    =~= Seq::<ChatMessageV>::empty());
                assert(chat_finish_spec(single.subrange(1, 1), subjects.entries@)
                    =~= Seq::<ChatMessageV>::empty());
            }
            match subjects.index_of(bare.subject) {
                Some(f) => {
                    match &subjects.entries[f].1 {
                        SubjectData::Player { name, steam_id, .. } => {
                            let msg = ChatMessage {
                                time: bare.time,
                                name: vstd::slice::slice_to_vec(name.as_slice()),
                                steam_id: *steam_id,
                                message: vstd::slice::slice_to_vec(bare.message.as_slice()),
                                chat_type: bare.chat_type,
                            };
                            proof {
                                assert(chat_finish_spec(single, subjects.entries@) =~= seq![
                                    msg@,
                                ]);
                            }
                            out.push(msg);
                            proof {
                                assert(Seq::new(out@.len(), |k: int| out@[k]@) =~= pre.push(
                                    msg@,
                                ));
                            }
                        },
                        _ => {
                            proof {
                                assert(chat_finish_spec(single, subjects.entries@)
                                    =~= Seq::<ChatMessageV>::empty());
                            }
                        },
                    }
                },
                None => {
                    proof {
                        assert(chat_finish_spec(single, subjects.entries@)
                            =~= Seq::<ChatMessageV>::empty());
                    }
                },
            }
            proof {
                lemma_chat_finish_snoc(self@, subjects.entries@, i as int);
                assert(Seq::new(out@.len(), |k: int| out@[k]@) =~= pre + chat_finish_spec(
                    single,
                    subjects.entries@,
                ));
            }
            i += 1;
        }
        proof {
            assert(self@.subrange(0, self@.len() as int) =~= self@);
        }
        out
    }
}

/// Splitting off the last collected line splits the resolved lines the same way.
proof fn lemma_chat_finish_snoc<T>(
    bares: Seq<BareChatMessageV>,
    entries: Seq<(SubjectId, SubjectData, T)>,
    i: int,
)
    requires
        0 <= i < bares.len(),
    ensures
        chat_finish_spec(bares.subrange(0, i + 1), entries) =~= chat_finish_spec(
            bares.subrange(0, i),
            entries,
        ) + chat_finish_spec(seq![bares[i]], entries),
    decreases i,
{
    if i == 0 {
        assert(bares.subrange(0, 0) =~= Seq::<BareChatMessageV>::empty());
        assert(bares.subrange(0, 1) =~= seq![bares[0]]);
    } else {
        let p1 = bares.subrange(0, i + 1);
        let p0 = bares.subrange(0, i);
        let t = bares.subrange(1, bares.len() as int);
        lemma_chat_finish_snoc(t, entries, i - 1);
        assert(p1[0] == bares[0]);
        assert(p0[0] == bares[0]);
        assert(p1.subrange(1, p1.len() as int) =~= t.subrange(0, i));
        assert(p0.subrange(1, p0.len() as int) =~= t.subrange(0, i - 1));
        assert(t[i - 1] == bares[i]);
    }
}

/// The empty prefix resolves to nothing.
proof fn lemma_chat_finish_take<T>(
    bares: Seq<BareChatMessageV>,
    entries: Seq<(SubjectId, SubjectData, T)>,
    i: int,
)
    ensures
        chat_finish_spec(bares.subrange(0, 0), entries) =~= Seq::<ChatMessageV>::empty(),
{
    assert(bares.subrange(0, 0) =~= Seq::<BareChatMessageV>::empty());
}

} // verus!

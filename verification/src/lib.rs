//! A verified parsing and statistics core for dedicated game-server logs: a
//! line splitter, a raw-event parser, typed-event payload decoders, and a
//! stack of statistics handlers fed by a top-level driver.
use vstd::prelude::*;

pub mod common;
pub mod date;
pub mod error;
pub mod event;
pub mod find;
pub mod keywords;
pub mod module;
pub mod num;
pub mod parsing;
pub mod raw_event;
pub mod steam;
pub mod subjectmap;

use crate::common::{SteamId3, SubjectId};
use crate::date::{contains_line_start, dt_bounded, parse_date, parse_date_spec, DateTime};
use crate::error::Error;
use crate::event::{EventMeta, GameEvent};
use crate::find::{find_needle, findseq_idx, lemma_findseq_idx};
use crate::keywords::RawEventType;
use crate::common::{subject_data_id_spec, subject_data_spec, subject_id_spec, subject_steam_id_spec,
    SubjectData, SubjectDataV};
use crate::date::{line_start_seq, timestamp_spec};
use crate::event::{game_event_spec, tag_supported, GameEventV};
use crate::error::GameEventError;
use crate::module::EventHandler;
use crate::module::chat::{chat_does_handle_spec, chat_finish_spec, chat_step, BareChatMessageV,
    ChatMessage, ChatMessageV, ChatMessages};
use crate::module::classstats::{class_does_handle_spec, class_finish_spec, class_step,
    class_stats_empty, ClassStats, ClassStatsHandler, ClassStatsHandlerV};
use crate::module::healspread::{heal_does_handle_spec, heal_step, hs_sorted, HealSpread};
use crate::module::medicstats::{medic_builder_empty, medic_does_handle_spec, medic_finish_spec,
    medic_step, MedicStats, MedicStatsBuilder};
use crate::raw_event::{raw_event_spec, RawEvent, RawSubject, RawSubjectView};
use crate::subjectmap::{lemma_sm_find, sm_find, SubjectMap};

verus! {

/// The three-byte delimiter between log lines.
pub open spec fn line_delim() -> Seq<u8> {
    seq!['\n' as u8, 'L' as u8, ' ' as u8]
}

/// The two-byte prefix that every line carries.
pub open spec fn line_prefix() -> Seq<u8> {
    seq!['L' as u8, ' ' as u8]
}

/// A string with its trailing newlines removed.
pub open spec fn trim_nl(s: Seq<u8>) -> Seq<u8>
    decreases s.len(),
{
    if s.len() > 0 && s[s.len() - 1] == '\n' as u8 {
        trim_nl(s.subrange(0, s.len() - 1))
    } else {
        s
    }
}

/// The buffer after the leading byte-order mark or `L ` prefix is dropped:
/// everything after the first `L `, or nothing when there is none.
pub open spec fn line_split_init(s: Seq<u8>) -> Seq<u8> {
    let f = findseq_idx(s, line_prefix());
    if f < s.len() {
        s.subrange(f + 2, s.len() as int)
    } else {
        Seq::empty()
    }
}

/// The lines of the body: slices between `\nL ` delimiters, the final one with
/// its trailing newlines removed, and nothing after a trailing delimiter.
pub open spec fn split_lines_from(s: Seq<u8>) -> Seq<Seq<u8>>
    decreases s.len() via split_lines_from_decreases
{
    let f = findseq_idx(s, line_delim());
    if f < s.len() {
        seq![s.subrange(0, f)] + split_lines_from(s.subrange(f + 3, s.len() as int))
    } else if s.len() > 0 {
        seq![trim_nl(s)]
    } else {
        Seq::empty()
    }
}

#[via_fn]
proof fn split_lines_from_decreases(s: Seq<u8>) {
    lemma_findseq_idx(s, line_delim());
}

/// The lazy splitter over a log buffer: yields each line between delimiters.
pub struct LineSplit<'a> {
    pub input: &'a [u8],
    pub start: usize,
}

impl<'a> LineSplit<'a> {
    /// Skips the first `L ` (and anything before it, such as a byte-order
    /// mark) and stands ready to yield lines.
    pub fn new(input: &'a [u8]) -> (r: Self)
        ensures
            r.start <= r.input@.len(),
            r.input@.subrange(r.start as int, r.input@.len() as int) == line_split_init(input@),
    {
        let mut prefix: Vec<u8> = Vec::new();
        prefix.push('L' as u8);
        prefix.push(' ' as u8);
        proof {
            assert(prefix@ =~= line_prefix());
            lemma_findseq_idx(input@, line_prefix());
        }
        let f = find_needle(input, prefix.as_slice());
        if f < input.len() {
            let r = LineSplit { input, start: f + 2 };
            proof {
                assert(r.input@.subrange(r.start as int, r.input@.len() as int)
                    == line_split_init(input@));
            }
            r
        } else {
            let r = LineSplit { input: &input[0..0], start: 0 };
            proof {
                assert(r.input@.subrange(0, 0) =~= Seq::<u8>::empty());
            }
            r
        }
    }

    /// The next line, if one is left.
    pub fn next(&mut self) -> (r: Option<&'a [u8]>)
        requires
            old(self).start <= old(self).input@.len(),
        ensures
            final(self).input == old(self).input,
            final(self).start <= final(self).input@.len(),
            ({
                let rem = old(self).input@.subrange(
                    old(self).start as int,
                    old(self).input@.len() as int,
                );
                let f = findseq_idx(rem, line_delim());
                if f < rem.len() {
                    r matches Some(line) && line@ == rem.subrange(0, f)
                        && final(self).input@.subrange(
                        final(self).start as int,
                        final(self).input@.len() as int,
                    ) == rem.subrange(f + 3, rem.len() as int)
                } else if rem.len() > 0 {
                    r matches Some(line) && line@ == trim_nl(rem)
                        && final(self).start == final(self).input@.len()
                } else {
                    r is None && final(self).start == old(self).start
                }
            }),
    {
        let n = self.input.len();
        let rem = &self.input[self.start..n];
        let mut delim: Vec<u8> = Vec::new();
        delim.push('\n' as u8);
        delim.push('L' as u8);
        delim.push(' ' as u8);
        proof {
            assert(delim@ =~= line_delim());
            lemma_findseq_idx(rem@, line_delim());
        }
        let f = find_needle(rem, delim.as_slice());
        if f < rem.len() {
            let line = &self.input[self.start..self.start + f];
            self.start = self.start + f + 3;
            proof {
                assert(line@ =~= old(self).input@.subrange(
                    old(self).start as int,
                    old(self).input@.len() as int,
                ).subrange(0, f as int));
                assert(self.input@.subrange(self.start as int, self.input@.len() as int)
                    =~= old(self).input@.subrange(
                    old(self).start as int,
                    old(self).input@.len() as int,
                ).subrange(f + 3, old(self).input@.len() - old(self).start));
            }
            Some(line)
        } else if self.start < n {
            let mut hi = n;
            proof {
                assert(self.input@.subrange(self.start as int, hi as int) =~= rem@);
            }
            while hi > self.start && self.input[hi - 1] == '\n' as u8
                invariant
                    old(self).start <= hi <= old(self).input@.len(),
                    self == old(self),
                    trim_nl(
                        self.input@.subrange(self.start as int, self.input@.len() as int),
                    ) == trim_nl(self.input@.subrange(self.start as int, hi as int)),
                decreases hi,
            {
                proof {
                    assert(self.input@.subrange(self.start as int, hi as int).subrange(
                        0,
                        hi - self.start - 1,
                    ) =~= self.input@.subrange(self.start as int, hi - 1));
                }
                hi -= 1;
            }
            let line = &self.input[self.start..hi];
            self.start = n;
            Some(line)
        } else {
            None
        }
    }
}

/// All lines of a log buffer, in order.
pub fn split_lines<'a>(input: &'a [u8]) -> (r: Vec<&'a [u8]>)
    ensures
        Seq::new(r@.len(), |i: int| r@[i]@) =~= split_lines_from(line_split_init(input@)),
{
    let mut split = LineSplit::new(input);
    let mut out: Vec<&'a [u8]> = Vec::new();
    loop
        invariant
            split.start <= split.input@.len(),
            split_lines_from(line_split_init(input@)) =~= Seq::new(out@.len(), |i: int| out@[i]@)
                + split_lines_from(
                split.input@.subrange(split.start as int, split.input@.len() as int),
            ),
        decreases split.input@.len() - split.start + 1,
    {
        let ghost rem = split.input@.subrange(split.start as int, split.input@.len() as int);
        let ghost pre = Seq::new(out@.len(), |i: int| out@[i]@);
        proof {
            lemma_findseq_idx(rem, line_delim());
        }
        match split.next() {
            Some(line) => {
                out.push(line);
                proof {
                    assert(Seq::new(out@.len(), |i: int| out@[i]@) =~= pre.push(line@));
                    let f = findseq_idx(rem, line_delim());
                    if f < rem.len() {
                        assert(split_lines_from(rem) == seq![rem.subrange(0, f)]
                            + split_lines_from(rem.subrange(f + 3, rem.len() as int)));
                    } else {
                        assert(split_lines_from(rem) == seq![trim_nl(rem)]);
                        assert(split.input@.subrange(
                            split.start as int,
                            split.input@.len() as int,
                        ) =~= Seq::<u8>::empty());
                        assert(split_lines_from(Seq::<u8>::empty()) =~= Seq::<Seq<u8>>::empty());
                    }
                }
            },
            None => {
                proof {
                    assert(split_lines_from(rem) =~= Seq::<Seq<u8>>::empty());
                }
                return out;
            },
        }
    }
}

/// Joining lines with the delimiter, as the log producer wrote them.
pub open spec fn join_lines(ls: Seq<Seq<u8>>) -> Seq<u8>
    decreases ls.len(),
{
    if ls.len() == 0 {
        Seq::empty()
    } else if ls.len() == 1 {
        ls[0]
    } else {
        ls[0] + line_delim() + join_lines(ls.subrange(1, ls.len() as int))
    }
}

/// Trimming trailing newlines reaches past a concatenation whose front does
/// not itself end in a newline.
proof fn lemma_trim_nl_concat(a: Seq<u8>, b: Seq<u8>)
    requires
        a.len() > 0,
        a[a.len() - 1] != '\n' as u8,
    ensures
        trim_nl(a + b) == a + trim_nl(b),
    decreases b.len(),
{
    let w = a + b;
    if b.len() == 0 {
        assert(w =~= a);
        assert(trim_nl(b) =~= Seq::<u8>::empty());
        assert(a + trim_nl(b) =~= a);
    } else if b[b.len() - 1] == '\n' as u8 {
        assert(w[w.len() - 1] == b[b.len() - 1]);
        lemma_trim_nl_concat(a, b.subrange(0, b.len() - 1));
        assert(w.subrange(0, w.len() - 1) =~= a + b.subrange(0, b.len() - 1));
    } else {
        assert(w[w.len() - 1] == b[b.len() - 1]);
    }
}

/// Splitting a log body into lines loses nothing: joining the lines with the
/// delimiter reconstructs the body, up to the trailing newlines the final
/// line sheds, for any body not ending in a dangling delimiter.
pub proof fn lemma_split_reconstruct(body: Seq<u8>)
    requires
        body.len() > 0,
        !line_delim().is_suffix_of(body),
    ensures
        join_lines(split_lines_from(body)) == trim_nl(body),
    decreases body.len(),
{
    lemma_findseq_idx(body, line_delim());
    let f = findseq_idx(body, line_delim());
    if f < body.len() {
        let head = body.subrange(0, f);
        let rest = body.subrange(f + 3, body.len() as int);
        if rest.len() == 0 {
            assert(body.subrange(f, f + 3) == line_delim());
            assert(body.subrange(body.len() - 3, body.len() as int) =~= line_delim());
            assert(line_delim().is_suffix_of(body));
        } else {
            assert(rest[rest.len() - 1] == body[body.len() - 1]);
            assert(!line_delim().is_suffix_of(rest)) by {
                if line_delim().is_suffix_of(rest) {
                    assert(body.subrange(body.len() - 3, body.len() as int) =~= rest.subrange(
                        rest.len() - 3,
                        rest.len() as int,
                    ));
                }
            }
            lemma_split_reconstruct(rest);
            let ls = split_lines_from(body);
            let rls = split_lines_from(rest);
            assert(ls == seq![head] + rls);
            assert(rls.len() >= 1);
            assert(ls[0] == head);
            assert(ls.subrange(1, ls.len() as int) =~= rls);
            assert(body =~= head + line_delim() + rest) by {
                assert(body.subrange(f, f + 3) == line_delim());
            }
            let front = head + line_delim();
            assert(front.len() > 0 && front[front.len() - 1] != '\n' as u8);
            lemma_trim_nl_concat(front, rest);
            assert(body =~= front + rest);
            assert(join_lines(ls) =~= front + join_lines(rls));
        }
    } else {
        assert(split_lines_from(body) == seq![trim_nl(body)]);
    }
}

/// Raw-parses every line of a log buffer.
pub fn raw_events<'a>(log: &'a [u8]) -> (r: Vec<Result<RawEvent<'a>, Error>>)
    ensures
        ({
            let lines = split_lines_from(line_split_init(log@));
            r@.len() == lines.len() && forall|i: int|
                0 <= i < r@.len() ==> (match #[trigger] r@[i] {
                    Ok(ev) => (raw_event_spec(lines[i]) matches Ok(exp) && ev@.date == exp.date
                        && ev@.subject == exp.subject && ev@.ty == exp.ty && ev@.params
                        == exp.params),
                    Err(e) => (raw_event_spec(lines[i]) matches Err(expe) && e == expe),
                })
        }),
{
    let lines = split_lines(log);
    let mut out: Vec<Result<RawEvent<'a>, Error>> = Vec::new();
    let ghost linesv = split_lines_from(line_split_init(log@));
    let mut i: usize = 0;
    while i < lines.len()
        invariant
            0 <= i <= lines@.len(),
            linesv == split_lines_from(line_split_init(log@)),
            Seq::new(lines@.len(), |k: int| lines@[k]@) =~= linesv,
            out@.len() == i,
            forall|k: int|
                0 <= k < i ==> (match #[trigger] out@[k] {
                    Ok(ev) => (raw_event_spec(linesv[k]) matches Ok(exp) && ev@.date == exp.date
                        && ev@.subject == exp.subject && ev@.ty == exp.ty && ev@.params
                        == exp.params),
                    Err(e) => (raw_event_spec(linesv[k]) matches Err(expe) && e == expe),
                }),
        decreases lines@.len() - i,
    {
        let line = lines[i];
        proof {
            assert(line@ == linesv[i as int]);
        }
        out.push(RawEvent::parse(line));
        i += 1;
    }
    out
}

/// The handlers that the default parse runs: chat collection, heal spread,
/// medic statistics and per-class statistics for active rounds.
pub struct LogHandler {
    pub chat: ChatMessages,
    pub class_stats: ClassStatsHandler,
}

/// The per-subject cells the default parse keeps.
pub struct PerSubjectData {
    pub heal_spread: HealSpread,
    pub medic_stats: MedicStatsBuilder,
    pub class_stats: ClassStats,
}

/// The whole-match output of the default parse.
#[derive(Debug, PartialEq, Eq)]
pub struct GlobalOutput {
    pub chat: Vec<ChatMessage>,
}

/// The per-player output of the default parse.
#[derive(Debug, PartialEq, Eq)]
pub struct PerSubjectOutput {
    pub heal_spread: HealSpread,
    pub medic_stats: MedicStats,
    pub class_stats: ClassStats,
}

/// The union of the tags any default handler consumes.
pub open spec fn log_does_handle_spec(ty: RawEventType) -> bool {
    chat_does_handle_spec(ty) || heal_does_handle_spec(ty) || medic_does_handle_spec(ty)
        || class_does_handle_spec(ty)
}

impl LogHandler {
    /// Whether any handler in the default stack wants this tag.
    pub fn does_handle(ty: RawEventType) -> (r: bool)
        ensures
            r == log_does_handle_spec(ty),
    {
        ChatMessages::does_handle(ty) || HealSpread::does_handle(ty)
            || MedicStatsBuilder::does_handle(ty) || ClassStatsHandler::does_handle(ty)
    }
}

/// The date a timestamp slice parses to, with the epoch standing in for a
/// malformed one (truncated lines during log combining carry garbage dates).
pub open spec fn date_or_epoch_spec(raw: Seq<u8>) -> DateTime {
    match parse_date_spec(raw) {
        Some(dt) => dt,
        None => (DateTime { year: 1970, month: 1, day: 1, hour: 0, minute: 0, second: 0 }),
    }
}

fn date_or_epoch(raw: &[u8]) -> (r: DateTime)
    ensures
        r == date_or_epoch_spec(raw@),
        dt_bounded(r),
{
    match parse_date(raw) {
        Ok(dt) => dt,
        Err(_) => DateTime { year: 1970, month: 1, day: 1, hour: 0, minute: 0, second: 0 },
    }
}

/// A fresh set of per-subject cells.
fn fresh_cells() -> (r: PerSubjectData)
    ensures
        r@ == cells_fresh(),
        hs_sorted(r.heal_spread@),
{
    let r = PerSubjectData {
        heal_spread: HealSpread::new(),
        medic_stats: MedicStatsBuilder::new(),
        class_stats: ClassStats::new(),
    };
    proof {
        assert(r.heal_spread@ =~= Seq::<(u64, u32)>::empty());
    }
    r
}

/// The view of the start time the driver carries.
pub open spec fn start_view(s: Option<u64>) -> Option<int> {
    match s {
        Some(v) => Some(v as int),
        None => None,
    }
}

/// Resolves an event's subject, seeds fresh cells on first observation, and
/// lets every handler in the default stack take its step.
#[verifier::rlimit(100)]
fn dispatch_event<'a>(
    chat: &mut ChatMessages,
    class_stats: &mut ClassStatsHandler,
    subjects: &mut SubjectMap<PerSubjectData>,
    raw_subject: &RawSubject<'a>,
    time: u32,
    event: &GameEvent<'a>,
)
    requires
        old(subjects).wf(),
        forall|k: int|
            0 <= k < old(subjects).entries@.len() ==> hs_sorted(
                (#[trigger] old(subjects).entries@[k]).2.heal_spread@,
            ),
    ensures
        final(subjects).wf(),
        forall|k: int|
            0 <= k < final(subjects).entries@.len() ==> hs_sorted(
                (#[trigger] final(subjects).entries@[k]).2.heal_spread@,
            ),
        ({
            let st = DriveState {
                chat: old(chat)@,
                class: old(class_stats)@,
                subjects: subjects_view(old(subjects).entries@),
                start: None,
            };
            let st2 = dispatch_step(st, time, raw_subject@, event@);
            final(chat)@ == st2.chat && final(class_stats)@ == st2.class && subjects_view(
                final(subjects).entries@,
            ) == st2.subjects
        }),
{
    let ghost pre_insert = subjects.entries@;
    let fresh = fresh_cells();
    let ghost freshv = fresh;
    let (id, idx) = subjects.insert(raw_subject, fresh);
    proof {
        lemma_sm_find(pre_insert, id);
        lemma_dv_find_bridge(pre_insert, id);
        lemma_dv_find_bridge(subjects.entries@, id);
        assert forall|k: int|
            0 <= k < subjects.entries@.len() implies hs_sorted(
            (#[trigger] subjects.entries@[k]).2.heal_spread@,
        ) by {
            if sm_find(pre_insert, id) < pre_insert.len() {
                assert(subjects.entries@[k] == pre_insert[k]);
            } else if k < pre_insert.len() {
                assert(subjects.entries@.subrange(0, pre_insert.len() as int)[k]
                    == subjects.entries@[k]);
                assert(subjects.entries@[k] == pre_insert[k]);
            } else {
                if (idx as int) < pre_insert.len() {
                    assert(subjects.entries@.subrange(0, pre_insert.len() as int)[idx as int]
                        == subjects.entries@[idx as int]);
                    assert(pre_insert[idx as int].0 == id);
                }
                assert(k == idx);
                assert(subjects.entries@[k].2 == freshv);
            }
        }
        if sm_find(pre_insert, id) < pre_insert.len() {
            assert(subjects_view(subjects.entries@) =~= subjects_view(pre_insert));
        } else {
            assert(idx == pre_insert.len()) by {
                if (idx as int) < pre_insert.len() {
                    assert(subjects.entries@.subrange(0, pre_insert.len() as int)[idx as int]
                        == subjects.entries@[idx as int]);
                    assert(pre_insert[idx as int].0 == id);
                }
            }
            assert forall|k: int|
                0 <= k < pre_insert.len() implies subjects.entries@[k] == pre_insert[k] by {
                assert(subjects.entries@.subrange(0, pre_insert.len() as int)[k]
                    == subjects.entries@[k]);
            }
            assert(subjects_view(subjects.entries@) =~= subjects_view(pre_insert).push(
                (id, subject_data_spec(raw_subject@), freshv@),
            ));
        }
    }
    let meta = EventMeta { time, subject: id };
    let ghost before = subjects.entries@;
    let (eid, edata, mut cells) = subjects.take(idx);
    let ghost cells_before = cells@;
    proof {
        assert(hs_sorted(cells.heal_spread@));
        assert(subjects_view(before)[idx as int] == (eid, edata@, cells_before));
        assert(eid == id);
    }
    chat.handle_event(&meta, id, event);
    cells.heal_spread.handle_event(&meta, id, event);
    cells.medic_stats.handle_event(&meta, id, event);
    class_stats.handle(&meta, id, &mut cells.class_stats, event);
    subjects.restore(idx, (eid, edata, cells));
    proof {
        assert(subjects.entries@ =~= before.update(idx as int, (eid, edata, cells)));
        assert forall|a: int, b: int|
            0 <= a < b < subjects.entries@.len() implies (#[trigger] subjects.entries@[a]).0 != (
        #[trigger] subjects.entries@[b]).0 by {
            assert(subjects.entries@[a].0 == before[a].0);
            assert(subjects.entries@[b].0 == before[b].0);
        }
        assert forall|k: int|
            0 <= k < subjects.entries@.len() implies hs_sorted(
            (#[trigger] subjects.entries@[k]).2.heal_spread@,
        ) by {
            if k != idx {
                assert(subjects.entries@[k] == before[k]);
            }
        }
        let stepped = cells_step(cells_before, time, id, event@, old(class_stats)@);
        assert(cells@ == stepped.0);
        assert(class_stats@ == stepped.1);
        assert(subjects_view(subjects.entries@) =~= subjects_view(before).update(
            idx as int,
            (id, edata@, stepped.0),
        ));
    }
}

/// Parses a complete log: splits it into lines, raw-parses and decodes each
/// event, resolves subjects, and feeds the default handler stack; on
/// completion the chat lines and the per-player statistics come back, the
/// latter keyed and ordered by steam id. The whole run is pinned to a fold
/// over the split lines: the walk `drive_from` decides exactly which lines
/// are skipped, when the parse aborts and with which error, and what every
/// handler's state becomes; `chat_finish_v` and `finish_fold` say what the
/// two outputs are on completion.
#[verifier::rlimit(100)]
pub fn parse(log: &[u8]) -> (r: Result<(GlobalOutput, Vec<(SteamId3, PerSubjectOutput)>), Error>)
    ensures
        ({
            let lines = split_lines_from(line_split_init(log@));
            match drive_from(lines, 0, drive_init()) {
                Ok(fin) => (r matches Ok(out) && Seq::new(
                    out.0.chat@.len(),
                    |i: int| out.0.chat@[i]@,
                ) == chat_finish_v(fin.chat, fin.subjects) && per_view(out.1@) == finish_fold(
                    fin.subjects,
                    fin.class,
                    Seq::empty(),
                )),
                Err(ab) => (r matches Err(e) && (match ab {
                    DriveAbortV::Incomplete => e == Error::Incomplete,
                    DriveAbortV::Event(ty, params) => (e matches Error::MalformedEvent(ge)
                        && ge matches GameEventError::Malformed { ty: t2, params: p2 } && t2 == ty
                        && p2@ == params),
                })),
            }
        }),
        ({
            match r {
                Ok(out) => (forall|a: int, b: int|
                    0 <= a < b < out.1@.len() ==> (#[trigger] out.1@[a]).0.0 <= (
                    #[trigger] out.1@[b]).0.0) && (forall|k: int|
                    0 <= k < out.1@.len() ==> (#[trigger] out.1@[k]).0.0
                        >= 0x0110_0001_0000_0000u64),
                Err(_) => true,
            }
        }),
        log@.len() == 0 ==> (r matches Ok(out) && out.0.chat@.len() == 0 && out.1@.len() == 0),
{
    proof {
        if log@.len() == 0 {
            lemma_findseq_idx(log@, line_prefix());
            assert(line_split_init(log@) =~= Seq::<u8>::empty());
            assert(split_lines_from(Seq::<u8>::empty()) =~= Seq::<Seq<u8>>::empty());
        }
    }
    let lines = split_lines(log);
    let ghost linesv = split_lines_from(line_split_init(log@));
    let mut chat = ChatMessages::new();
    let mut class_stats = ClassStatsHandler::new();
    let mut subjects: SubjectMap<PerSubjectData> = SubjectMap::new();
    let mut start_time: Option<u64> = None;
    let mut i: usize = 0;
    proof {
        assert(subjects_view(subjects.entries@) =~= Seq::<(
            SubjectId,
            SubjectDataV,
            CellsV,
        )>::empty());
        assert(drive_init() == (DriveState {
            chat: chat@,
            class: class_stats@,
            subjects: subjects_view(subjects.entries@),
            start: start_view(start_time),
        }));
    }
    while i < lines.len()
        invariant
            subjects.wf(),
            0 <= i <= lines@.len(),
            linesv == split_lines_from(line_split_init(log@)),
            Seq::new(lines@.len(), |k: int| lines@[k]@) =~= linesv,
            log@.len() == 0 ==> lines@.len() == 0 && subjects.entries@.len() == 0 && chat@.len()
                == 0,
            forall|k: int|
                0 <= k < subjects.entries@.len() ==> hs_sorted(
                    (#[trigger] subjects.entries@[k]).2.heal_spread@,
                ),
            drive_from(linesv, 0, drive_init()) == drive_from(
                linesv,
                i as int,
                (DriveState {
                    chat: chat@,
                    class: class_stats@,
                    subjects: subjects_view(subjects.entries@),
                    start: start_view(start_time),
                }),
            ),
        ensures
            drive_from(linesv, 0, drive_init()) == Ok::<DriveState, DriveAbortV>(
                DriveState {
                    chat: chat@,
                    class: class_stats@,
                    subjects: subjects_view(subjects.entries@),
                    start: start_view(start_time),
                },
            ),
        decreases lines@.len() - i,
    {
        let ghost cur = DriveState {
            chat: chat@,
            class: class_stats@,
            subjects: subjects_view(subjects.entries@),
            start: start_view(start_time),
        };
        let line = lines[i];
        proof {
            assert(line@ == linesv[i as int]);
        }
        let raw = match RawEvent::parse(line) {
            Ok(raw) => raw,
            Err(e) => {
                match e {
                    Error::Skip => {
                        i += 1;
                        continue ;
                    },
                    Error::Incomplete => {
                        if i + 1 == lines.len() {
                            break ;
                        } else {
                            proof {
                                assert(drive_from(linesv, i as int, cur) == Err::<
                                    DriveState,
                                    DriveAbortV,
                                >(DriveAbortV::Incomplete));
                            }
                            return Err(Error::Incomplete);
                        }
                    },
                    other => {
                        proof {
                            assert(e == Error::Skip || e == Error::Incomplete);
                        }
                        return Err(other);
                    },
                }
            },
        };
        let should = LogHandler::does_handle(raw.ty);
        let start_missing = match start_time {
            Some(_) => false,
            None => true,
        };
        if should || start_missing {
            let own_date = date_or_epoch(raw.date.0);
            let ts = own_date.timestamp();
            let start = match start_time {
                Some(s) => s,
                None => {
                    start_time = Some(ts);
                    ts
                },
            };
            if should {
                let event = match GameEvent::parse(&raw) {
                    Ok(ev) => ev,
                    Err(e) => {
                        if contains_line_start(raw.params, &own_date) {
                            i += 1;
                            continue ;
                        }
                        if i + 1 >= lines.len() {
                            break ;
                        }
                        proof {
                            assert(lines@[i + 1]@ == linesv[i + 1]);
                        }
                        match RawEvent::parse(lines[i + 1]) {
                            Ok(next_raw) => {
                                let next_date = date_or_epoch(next_raw.date.0);
                                let next_ts = next_date.timestamp();
                                if next_ts > ts + 60 {
                                    i += 1;
                                    continue ;
                                }
                            },
                            Err(_) => {},
                        }
                        proof {
                            assert(tag_supported(raw@.ty));
                        }
                        return Err(Error::MalformedEvent(e));
                    },
                };
                let elapsed: u64 = if ts >= start {
                    ts - start
                } else {
                    0
                };
                let time: u32 = if elapsed > u32::MAX as u64 {
                    u32::MAX
                } else {
                    elapsed as u32
                };
                dispatch_event(
                    &mut chat,
                    &mut class_stats,
                    &mut subjects,
                    &raw.subject,
                    time,
                    &event,
                );
            }
        }
        i += 1;
    }
    let ghost fin = DriveState {
        chat: chat@,
        class: class_stats@,
        subjects: subjects_view(subjects.entries@),
        start: start_view(start_time),
    };
    let chat_out = chat.finish(&subjects);
    proof {
        lemma_chat_finish_bridge(chat@, subjects.entries@);
        if log@.len() == 0 {
            assert(crate::module::chat::chat_finish_spec(chat@, subjects.entries@)
                =~= Seq::<crate::module::chat::ChatMessageV>::empty());
            assert(Seq::new(chat_out@.len(), |i: int| chat_out@[i]@).len() == chat_out@.len());
        }
    }
    let mut per: Vec<(SteamId3, PerSubjectOutput)> = Vec::new();
    proof {
        assert(per_view(per@) =~= Seq::<(u64, PerOutV)>::empty());
    }
    while subjects.len() > 0
        invariant
            log@.len() == 0 ==> subjects.entries@.len() == 0 && per@.len() == 0,
            forall|a: int, b: int|
                0 <= a < b < per@.len() ==> (#[trigger] per@[a]).0.0 <= (#[trigger] per@[b]).0.0,
            forall|k: int|
                0 <= k < per@.len() ==> (#[trigger] per@[k]).0.0 >= 0x0110_0001_0000_0000u64,
            finish_fold(fin.subjects, fin.class, Seq::empty()) == finish_fold(
                subjects_view(subjects.entries@),
                class_stats@,
                per_view(per@),
            ),
        decreases subjects.entries@.len(),
    {
        let ghost view_before = subjects_view(subjects.entries@);
        let ghost per_before = per_view(per@);
        let ghost class_before = class_stats@;
        let (id, data, cells) = subjects.take(0);
        proof {
            assert(view_before[0] == (id, data@, cells@));
            assert(subjects_view(subjects.entries@) =~= view_before.subrange(
                1,
                view_before.len() as int,
            ));
        }
        match id.steam_id() {
            Some(sid) => {
                proof {
                    match id {
                        SubjectId::Player(account) => {
                            crate::steam::lemma_steam64_injective(account, account);
                        },
                        _ => {},
                    }
                    lemma_per_ins_pos(per_before, sid);
                }
                let cs = class_stats.finish_per_subject(&data, cells.class_stats);
                let out = PerSubjectOutput {
                    heal_spread: cells.heal_spread,
                    medic_stats: cells.medic_stats.finish(),
                    class_stats: cs,
                };
                let ghost outv = PerOutV { heal: out.heal_spread@, medic: out.medic_stats, class: out.class_stats };
                let mut p: usize = 0;
                while p < per.len() && per[p].0.0 < sid
                    invariant
                        0 <= p <= per@.len(),
                        forall|a: int, b: int|
                            0 <= a < b < per@.len() ==> (#[trigger] per@[a]).0.0 <= (
                            #[trigger] per@[b]).0.0,
                        forall|a: int| 0 <= a < p ==> (#[trigger] per@[a]).0.0 < sid,
                    decreases per@.len() - p,
                {
                    p += 1;
                }
                proof {
                    if (p as int) < per@.len() {
                        assert(per@[p as int].0.0 >= sid);
                    }
                    let ip = per_ins_pos(per_before, sid);
                    assert(forall|j: int|
                        0 <= j < per_before.len() ==> (#[trigger] per_before[j]).0 == per@[j].0.0);
                    if ip < p {
                        assert(per_before[ip].0 >= sid);
                        assert(per@[ip].0.0 < sid);
                    } else if (p as int) < ip {
                        assert(per_before[p as int].0 < sid);
                        assert((p as int) < per@.len());
                        assert(per@[p as int].0.0 >= sid);
                    }
                    assert(p as int == ip);
                }
                let ghost old_per = per@;
                per.insert(p, (SteamId3(sid), out));
                proof {
                    assert forall|a: int, b: int|
                        0 <= a < b < per@.len() implies (#[trigger] per@[a]).0.0 <= (
                    #[trigger] per@[b]).0.0 by {
                        if b < p {
                        } else if a < p && b == p {
                        } else if a < p && b > p {
                            assert(old_per[a].0.0 <= old_per[b - 1].0.0);
                        } else if a == p && b > p {
                            assert(old_per[b - 1].0.0 >= sid);
                        } else if a > p {
                            assert(old_per[a - 1].0.0 <= old_per[b - 1].0.0);
                        }
                    }
                    assert(per_view(per@) =~= per_before.insert(p as int, (sid, outv)));
                }
            },
            None => {},
        }
    }
    proof {
        assert(subjects_view(subjects.entries@) =~= Seq::<(
            SubjectId,
            SubjectDataV,
            CellsV,
        )>::empty());
        assert(finish_fold(
            subjects_view(subjects.entries@),
            class_stats@,
            per_view(per@),
        ) == per_view(per@));
    }
    Ok((GlobalOutput { chat: chat_out }, per))
}

/// The mathematical shape of one subject's handler cells.
pub struct CellsV {
    pub heal: Seq<(u64, u32)>,
    pub medic: MedicStatsBuilder,
    pub class: ClassStats,
}

impl View for PerSubjectData {
    type V = CellsV;

    open spec fn view(&self) -> CellsV {
        CellsV { heal: self.heal_spread@, medic: self.medic_stats, class: self.class_stats }
    }
}

/// Fresh cells: nothing healed, nothing tracked, nothing counted.
pub open spec fn cells_fresh() -> CellsV {
    CellsV { heal: Seq::empty(), medic: medic_builder_empty(), class: class_stats_empty() }
}

/// The whole state the driver carries across lines.
pub struct DriveState {
    pub chat: Seq<BareChatMessageV>,
    pub class: ClassStatsHandlerV,
    pub subjects: Seq<(SubjectId, SubjectDataV, CellsV)>,
    pub start: Option<int>,
}

/// The state before the first line.
pub open spec fn drive_init() -> DriveState {
    DriveState {
        chat: Seq::empty(),
        class: ClassStatsHandlerV { active: false, data: Seq::empty() },
        subjects: Seq::empty(),
        start: None,
    }
}

/// Why a parse aborts: a mid-stream incomplete line, or an undecodable event
/// (its tag and its parameter bytes) that neither corruption rule excuses.
pub enum DriveAbortV {
    Incomplete,
    Event(RawEventType, Seq<u8>),
}

/// The first position of `id` among the state's subjects; the length if absent.
pub open spec fn dv_find(s: Seq<(SubjectId, SubjectDataV, CellsV)>, id: SubjectId) -> int
    decreases s.len(),
{
    if s.len() == 0 {
        0
    } else if s[0].0 == id {
        0
    } else {
        1 + dv_find(s.subrange(1, s.len() as int), id)
    }
}

/// The driver state's subjects are the subject map's entries, seen as values.
pub open spec fn subjects_view(e: Seq<(SubjectId, SubjectData, PerSubjectData)>) -> Seq<
    (SubjectId, SubjectDataV, CellsV),
> {
    Seq::new(e.len(), |i: int| (e[i].0, e[i].1@, e[i].2@))
}

/// Lookups in the state agree with lookups among the entries.
pub proof fn lemma_dv_find_bridge(e: Seq<(SubjectId, SubjectData, PerSubjectData)>, id: SubjectId)
    ensures
        dv_find(subjects_view(e), id) == sm_find(e, id),
    decreases e.len(),
{
    if e.len() == 0 {
    } else {
        let t = e.subrange(1, e.len() as int);
        lemma_dv_find_bridge(t, id);
        assert(subjects_view(e)[0].0 == e[0].0);
        assert(subjects_view(e).subrange(1, subjects_view(e).len() as int) =~= subjects_view(t));
    }
}

/// The effect of one decoded event on a subject's cells and the shared class
/// records: healing, medic tracking and class statistics each take one step.
pub open spec fn cells_step(
    c: CellsV,
    time: u32,
    id: SubjectId,
    ev: GameEventV,
    class_h: ClassStatsHandlerV,
) -> (CellsV, ClassStatsHandlerV) {
    let step = class_step(class_h, id, c.class, ev);
    (
        CellsV { heal: heal_step(c.heal, ev), medic: medic_step(c.medic, time, ev), class: step.1 },
        step.0,
    )
}

/// Dispatching one decoded event: the subject is resolved and given fresh
/// cells on first observation, then every handler takes its step.
pub open spec fn dispatch_step(
    st: DriveState,
    time: u32,
    subject: RawSubjectView,
    ev: GameEventV,
) -> DriveState {
    let id = subject_id_spec(subject);
    let f0 = dv_find(st.subjects, id);
    let subjects1 = if f0 < st.subjects.len() {
        st.subjects
    } else {
        st.subjects.push((id, subject_data_spec(subject), cells_fresh()))
    };
    let f = dv_find(subjects1, id);
    let entry = subjects1[f];
    let stepped = cells_step(entry.2, time, id, ev, st.class);
    DriveState {
        chat: chat_step(st.chat, time, id, ev),
        class: stepped.1,
        subjects: subjects1.update(f, (id, entry.1, stepped.0)),
        start: st.start,
    }
}

/// The driver's walk over the lines from position `i`: each line is raw
/// parsed, short lines are skipped, an incomplete final line ends the walk
/// normally, the first observed event fixes the start time, events the
/// handlers want are decoded and dispatched, and a failed decode is skipped
/// exactly under the two corruption rules.
pub open spec fn drive_from(lines: Seq<Seq<u8>>, i: int, st: DriveState) -> Result<
    DriveState,
    DriveAbortV,
>
    decreases lines.len() - i when 0 <= i <= lines.len()
{
    if i >= lines.len() {
        Ok(st)
    } else {
        let line = lines[i];
        match raw_event_spec(line) {
            Err(e) => {
                if e == Error::Skip {
                    drive_from(lines, i + 1, st)
                } else if i + 1 == lines.len() {
                    Ok(st)
                } else {
                    Err(DriveAbortV::Incomplete)
                }
            },
            Ok(ev) => {
                let should = log_does_handle_spec(ev.ty);
                if !should && st.start is Some {
                    drive_from(lines, i + 1, st)
                } else {
                    let own = date_or_epoch_spec(ev.date);
                    let ts = timestamp_spec(own);
                    let start: int = if st.start is Some {
                        st.start->0
                    } else {
                        ts
                    };
                    let st1 = DriveState { start: Some(start), ..st };
                    if !should {
                        drive_from(lines, i + 1, st1)
                    } else {
                        match game_event_spec(ev.ty, ev.params) {
                            None => {
                                if findseq_idx(ev.params, line_start_seq(own)) < ev.params.len() {
                                    drive_from(lines, i + 1, st1)
                                } else if i + 1 >= lines.len() {
                                    Ok(st1)
                                } else {
                                    let gap = match raw_event_spec(lines[i + 1]) {
                                        Ok(nev) => timestamp_spec(date_or_epoch_spec(nev.date))
                                            > ts + 60,
                                        Err(_) => false,
                                    };
                                    if gap {
                                        drive_from(lines, i + 1, st1)
                                    } else {
                                        Err(DriveAbortV::Event(ev.ty, ev.params))
                                    }
                                }
                            },
                            Some(gev) => {
                                let elapsed: int = if ts >= start {
                                    ts - start
                                } else {
                                    0
                                };
                                let time: u32 = if elapsed > u32::MAX {
                                    u32::MAX
                                } else {
                                    elapsed as u32
                                };
                                drive_from(
                                    lines,
                                    i + 1,
                                    dispatch_step(st1, time, ev.subject, gev),
                                )
                            },
                        }
                    }
                }
            },
        }
    }
}

/// The mathematical shape of one player's finished outputs.
pub struct PerOutV {
    pub heal: Seq<(u64, u32)>,
    pub medic: MedicStats,
    pub class: ClassStats,
}

/// The first position whose key is at least `sid`: where a finished player is
/// filed so the output ascends by steam id.
pub open spec fn per_ins_pos(acc: Seq<(u64, PerOutV)>, sid: u64) -> int
    decreases acc.len(),
{
    if acc.len() == 0 {
        0
    } else if acc[0].0 >= sid {
        0
    } else {
        1 + per_ins_pos(acc.subrange(1, acc.len() as int), sid)
    }
}

pub proof fn lemma_per_ins_pos(acc: Seq<(u64, PerOutV)>, sid: u64)
    ensures
        0 <= per_ins_pos(acc, sid) <= acc.len(),
        per_ins_pos(acc, sid) < acc.len() ==> acc[per_ins_pos(acc, sid)].0 >= sid,
        forall|j: int| 0 <= j < per_ins_pos(acc, sid) ==> (#[trigger] acc[j]).0 < sid,
    decreases acc.len(),
{
    if acc.len() == 0 {
    } else if acc[0].0 >= sid {
    } else {
        let t = acc.subrange(1, acc.len() as int);
        lemma_per_ins_pos(t, sid);
        assert forall|j: int| 0 <= j < per_ins_pos(acc, sid) implies (#[trigger] acc[j]).0
            < sid by {
            if j >= 1 {
                assert(t[j - 1] == acc[j]);
            }
        }
    }
}

/// Closing the books, subject by subject in observation order: player
/// identities yield their finished cells, filed in ascending steam-id order;
/// everything else is left out. The class records move as each is claimed.
pub open spec fn finish_fold(
    subjects: Seq<(SubjectId, SubjectDataV, CellsV)>,
    class_h: ClassStatsHandlerV,
    acc: Seq<(u64, PerOutV)>,
) -> Seq<(u64, PerOutV)>
    decreases subjects.len(),
{
    if subjects.len() == 0 {
        acc
    } else {
        let entry = subjects[0];
        let rest = subjects.subrange(1, subjects.len() as int);
        match subject_steam_id_spec(entry.0) {
            Some(sid) => {
                let fin = class_finish_spec(class_h, subject_data_id_spec(entry.1), entry.2.class);
                let out = PerOutV {
                    heal: entry.2.heal,
                    medic: medic_finish_spec(entry.2.medic),
                    class: fin.1,
                };
                finish_fold(rest, fin.0, acc.insert(per_ins_pos(acc, sid), (sid, out)))
            },
            None => finish_fold(rest, class_h, acc),
        }
    }
}

/// The per-player output vector, seen as values.
pub open spec fn per_view(v: Seq<(SteamId3, PerSubjectOutput)>) -> Seq<(u64, PerOutV)> {
    Seq::new(
        v.len(),
        |i: int|
            (
                v[i].0.0,
                PerOutV {
                    heal: v[i].1.heal_spread@,
                    medic: v[i].1.medic_stats,
                    class: v[i].1.class_stats,
                },
            ),
    )
}

/// The resolved chat lines, over the driver state's subjects.
pub open spec fn chat_finish_v(
    bares: Seq<BareChatMessageV>,
    subjects: Seq<(SubjectId, SubjectDataV, CellsV)>,
) -> Seq<ChatMessageV>
    decreases bares.len(),
{
    if bares.len() == 0 {
        Seq::empty()
    } else {
        let b = bares[0];
        let f = dv_find(subjects, b.subject);
        let head: Seq<ChatMessageV> = if f < subjects.len() {
            match subjects[f].1 {
                SubjectDataV::Player { name, steam_id, .. } => seq![
                    ChatMessageV {
                        time: b.time,
                        name,
                        steam_id,
                        message: b.message,
                        chat_type: b.chat_type,
                    },
                ],
                _ => Seq::empty(),
            }
        } else {
            Seq::empty()
        };
        head + chat_finish_v(bares.subrange(1, bares.len() as int), subjects)
    }
}

/// Resolving chat against the entries or against their values is the same.
pub proof fn lemma_chat_finish_bridge(
    bares: Seq<BareChatMessageV>,
    e: Seq<(SubjectId, SubjectData, PerSubjectData)>,
)
    ensures
        chat_finish_spec(bares, e) == chat_finish_v(bares, subjects_view(e)),
    decreases bares.len(),
{
    if bares.len() == 0 {
    } else {
        let b = bares[0];
        lemma_dv_find_bridge(e, b.subject);
        let f = sm_find(e, b.subject);
        crate::subjectmap::lemma_sm_find(e, b.subject);
        if f < e.len() {
            assert(subjects_view(e)[f].1 == e[f].1@);
        }
        lemma_chat_finish_bridge(bares.subrange(1, bares.len() as int), e);
    }
}

/// Parses a complete log through a caller-supplied handler stack: the same
/// line walk, recovery rules and subject bookkeeping as `parse`, with the
/// stack's own `does_handle`, `handle` and finishers. The trait methods carry
/// no contracts, so the ensured facts are structural: the per-subject output
/// is keyed by real player accounts and ascends by steam id.
#[verifier::rlimit(100)]
pub fn parse_with_handler<H: EventHandler>(log: &[u8], handler: H) -> (r: Result<
    (H::GlobalOutput, Vec<(SteamId3, H::PerSubjectOutput)>),
    Error,
>)
    ensures
        ({
            match r {
                Ok(out) => (forall|a: int, b: int|
                    0 <= a < b < out.1@.len() ==> (#[trigger] out.1@[a]).0.0 <= (
                    #[trigger] out.1@[b]).0.0) && (forall|k: int|
                    0 <= k < out.1@.len() ==> (#[trigger] out.1@[k]).0.0
                        >= 0x0110_0001_0000_0000u64),
                Err(_) => true,
            }
        }),
{
    let mut handler = handler;
    let lines = split_lines(log);
    let mut subjects: SubjectMap<H::PerSubjectData> = SubjectMap::new();
    let mut start_time: Option<u64> = None;
    let mut i: usize = 0;
    while i < lines.len()
        invariant
            subjects.wf(),
        decreases lines@.len() - i,
    {
        let line = lines[i];
        let raw = match RawEvent::parse(line) {
            Ok(raw) => raw,
            Err(e) => {
                match e {
                    Error::Skip => {
                        i += 1;
                        continue ;
                    },
                    Error::Incomplete => {
                        if i + 1 == lines.len() {
                            break ;
                        } else {
                            return Err(Error::Incomplete);
                        }
                    },
                    other => {
                        return Err(other);
                    },
                }
            },
        };
        let should = H::does_handle(raw.ty);
        let start_missing = match start_time {
            Some(_) => false,
            None => true,
        };
        if should || start_missing {
            let own_date = date_or_epoch(raw.date.0);
            let ts = own_date.timestamp();
            let start = match start_time {
                Some(s) => s,
                None => {
                    start_time = Some(ts);
                    ts
                },
            };
            if should {
                let event = match GameEvent::parse(&raw) {
                    Ok(ev) => ev,
                    Err(e) => {
                        if contains_line_start(raw.params, &own_date) {
                            i += 1;
                            continue ;
                        }
                        if i + 1 >= lines.len() {
                            break ;
                        }
                        match RawEvent::parse(lines[i + 1]) {
                            Ok(next_raw) => {
                                let next_date = date_or_epoch(next_raw.date.0);
                                let next_ts = next_date.timestamp();
                                if next_ts > ts + 60 {
                                    i += 1;
                                    continue ;
                                }
                            },
                            Err(_) => {},
                        }
                        return Err(Error::MalformedEvent(e));
                    },
                };
                let elapsed: u64 = if ts >= start {
                    ts - start
                } else {
                    0
                };
                let time: u32 = if elapsed > u32::MAX as u64 {
                    u32::MAX
                } else {
                    elapsed as u32
                };
                let fresh = handler.fresh();
                let (id, idx) = subjects.insert(&raw.subject, fresh);
                let meta = EventMeta { time, subject: id };
                let ghost before = subjects.entries@;
                let (eid, edata, mut cell) = subjects.take(idx);
                handler.handle(&meta, id, &mut cell, &event);
                subjects.restore(idx, (eid, edata, cell));
                proof {
                    assert(subjects.entries@ =~= before.update(idx as int, (eid, edata, cell)));
                    assert forall|a: int, b: int|
                        0 <= a < b < subjects.entries@.len() implies (
                    #[trigger] subjects.entries@[a]).0 != (#[trigger] subjects.entries@[b]).0 by {
                        assert(subjects.entries@[a].0 == before[a].0);
                        assert(subjects.entries@[b].0 == before[b].0);
                    }
                }
            }
        }
        i += 1;
    }
    let just = subjects.to_just_subjects();
    let mut per: Vec<(SteamId3, H::PerSubjectOutput)> = Vec::new();
    while subjects.len() > 0
        invariant
            forall|a: int, b: int|
                0 <= a < b < per@.len() ==> (#[trigger] per@[a]).0.0 <= (#[trigger] per@[b]).0.0,
            forall|k: int|
                0 <= k < per@.len() ==> (#[trigger] per@[k]).0.0 >= 0x0110_0001_0000_0000u64,
        decreases subjects.entries@.len(),
    {
        let (id, data, cell) = subjects.take(0);
        match id.steam_id() {
            Some(sid) => {
                proof {
                    match id {
                        SubjectId::Player(account) => {
                            crate::steam::lemma_steam64_injective(account, account);
                        },
                        _ => {},
                    }
                }
                let out = handler.finish_per_subject(&data, cell);
                let mut p: usize = 0;
                while p < per.len() && per[p].0.0 < sid
                    invariant
                        0 <= p <= per@.len(),
                        forall|a: int, b: int|
                            0 <= a < b < per@.len() ==> (#[trigger] per@[a]).0.0 <= (
                            #[trigger] per@[b]).0.0,
                        forall|a: int| 0 <= a < p ==> (#[trigger] per@[a]).0.0 < sid,
                    decreases per@.len() - p,
                {
                    p += 1;
                }
                proof {
                    if (p as int) < per@.len() {
                        assert(per@[p as int].0.0 >= sid);
                    }
                }
                let ghost old_per = per@;
                per.insert(p, (SteamId3(sid), out));
                proof {
                    assert forall|a: int, b: int|
                        0 <= a < b < per@.len() implies (#[trigger] per@[a]).0.0 <= (
                    #[trigger] per@[b]).0.0 by {
                        if b < p {
                        } else if a < p && b == p {
                        } else if a < p && b > p {
                            assert(old_per[a].0.0 <= old_per[b - 1].0.0);
                        } else if a == p && b > p {
                            assert(old_per[b - 1].0.0 >= sid);
                        } else if a > p {
                            assert(old_per[a - 1].0.0 <= old_per[b - 1].0.0);
                        }
                    }
                }
            },
            None => {},
        }
    }
    let global = handler.finish_global(&just);
    Ok((global, per))
}

impl EventHandler for LogHandler {
    type GlobalOutput = GlobalOutput;

    type PerSubjectData = PerSubjectData;

    type PerSubjectOutput = PerSubjectOutput;

    fn does_handle(ty: RawEventType) -> bool {
        LogHandler::does_handle(ty)
    }

    fn fresh(&self) -> PerSubjectData {
        fresh_cells()
    }

    fn handle(
        &mut self,
        meta: &EventMeta,
        subject: SubjectId,
        subject_data: &mut PerSubjectData,
        event: &GameEvent,
    ) {
        self.chat.handle_event(meta, subject, event);
        if subject_data.heal_spread.is_sorted() {
            subject_data.heal_spread.handle_event(meta, subject, event);
        }
        subject_data.medic_stats.handle_event(meta, subject, event);
        self.class_stats.handle(meta, subject, &mut subject_data.class_stats, event);
    }

    fn finish_global(self, subjects: &SubjectMap<()>) -> GlobalOutput {
        GlobalOutput { chat: self.chat.finish(subjects) }
    }

    fn finish_per_subject(
        &mut self,
        subject: &SubjectData,
        data: PerSubjectData,
    ) -> PerSubjectOutput {
        let cs = self.class_stats.finish_per_subject(subject, data.class_stats);
        PerSubjectOutput {
            heal_spread: data.heal_spread,
            medic_stats: data.medic_stats.finish(),
            class_stats: cs,
        }
    }
}

impl LogHandler {
    pub fn new() -> (r: Self)
        ensures
            r.chat@ =~= Seq::<BareChatMessageV>::empty(),
            r.class_stats@.active == false,
            r.class_stats@.data =~= Seq::<(
                SubjectId,
                crate::module::classstats::ClassStatData,
            )>::empty(),
    {
        LogHandler { chat: ChatMessages::new(), class_stats: ClassStatsHandler::new() }
    }
}

} // verus!

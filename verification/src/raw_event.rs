use vstd::prelude::*;

use crate::common::Team;
use crate::error::Error;
use crate::find::{find_idx, findseq_idx, lemma_find_idx, lemma_findseq_idx, rfind_idx,
    lemma_rfind_idx};
use crate::keywords::{event_type_spec, match_event_type, token_of};
use crate::parsing::{skip, skip_matches, split_once, split_subject_end, subject_end_needle};

pub use crate::keywords::RawEventType;

verus! {

/// A minimally parsed subject descriptor, borrowing from the input line.
#[derive(Debug, PartialEq, Eq)]
pub enum RawSubject<'a> {
    Player(&'a [u8]),
    Team(Team),
    System(&'a [u8]),
    Console,
    World,
}

/// The mathematical shape of a raw subject.
pub enum RawSubjectView {
    Player(Seq<u8>),
    Team(Team),
    System(Seq<u8>),
    Console,
    World,
}

impl<'a> View for RawSubject<'a> {
    type V = RawSubjectView;

    open spec fn view(&self) -> RawSubjectView {
        match self {
            RawSubject::Player(p) => RawSubjectView::Player(p@),
            RawSubject::Team(t) => RawSubjectView::Team(*t),
            RawSubject::System(s) => RawSubjectView::System(s@),
            RawSubject::Console => RawSubjectView::Console,
            RawSubject::World => RawSubjectView::World,
        }
    }
}

/// The fixed-width timestamp prefix of a line, unparsed.
#[derive(Debug, PartialEq, Eq, Clone, Copy)]
pub struct RawDate<'a>(pub &'a [u8]);

impl<'a> View for RawDate<'a> {
    type V = Seq<u8>;

    open spec fn view(&self) -> Seq<u8> {
        self.0@
    }
}

/// An event that has been split into its four fields but no further, so that a
/// handler stack can decide cheaply whether it cares.
#[derive(Debug, PartialEq, Eq)]
pub struct RawEvent<'a> {
    pub date: RawDate<'a>,
    pub subject: RawSubject<'a>,
    pub ty: RawEventType,
    pub params: &'a [u8],
}

/// The mathematical shape of a raw event.
pub struct RawEventView {
    pub date: Seq<u8>,
    pub subject: RawSubjectView,
    pub ty: RawEventType,
    pub params: Seq<u8>,
}

impl<'a> View for RawEvent<'a> {
    type V = RawEventView;

    open spec fn view(&self) -> RawEventView {
        RawEventView { date: self.date@, subject: self.subject@, ty: self.ty, params: self.params@ }
    }
}

/// Whether a quoted subject names the console: its text ends in `le>`.
pub open spec fn ends_le(p: Seq<u8>) -> bool {
    p.len() >= 3 && p[p.len() - 3] == 'l' as u8 && p[p.len() - 2] == 'e' as u8 && p[p.len() - 1]
        == '>' as u8
}

fn is_console_name(p: &[u8]) -> (r: bool)
    ensures
        r == ends_le(p@),
{
    p.len() >= 3 && p[p.len() - 3] == 'l' as u8 && p[p.len() - 2] == 'e' as u8 && p[p.len() - 1]
        == '>' as u8
}

/// What subject parsing yields on the text that follows the timestamp: the
/// remaining input and the subject; nothing when the input ends mid-structure.
pub open spec fn subject_parser_spec(s: Seq<u8>) -> Option<(Seq<u8>, RawSubjectView)> {
    if s.len() > 0 && s[0] == '"' as u8 {
        let inner = s.subrange(1, s.len() as int);
        let f = findseq_idx(inner, subject_end_needle());
        if f == inner.len() {
            Some((s, RawSubjectView::Console))
        } else {
            let player = inner.subrange(0, f + 1);
            let rest = inner.subrange(f + 2, inner.len() as int);
            if rest.len() < 1 {
                None
            } else {
                let rest2 = rest.subrange(1, rest.len() as int);
                if ends_le(player) {
                    Some((rest2, RawSubjectView::Console))
                } else {
                    Some((rest2, RawSubjectView::Player(player)))
                }
            }
        }
    } else if s.len() >= 2 && s[0] == 'T' as u8 && s[1] == 'e' as u8 {
        if s.len() < 7 {
            None
        } else if s[6] == 'r' as u8 {
            if s.len() >= 11 {
                Some((s.subrange(11, s.len() as int), RawSubjectView::Team(Team::Red)))
            } else {
                None
            }
        } else if s[6] == 'b' as u8 {
            if s.len() >= 12 {
                Some((s.subrange(12, s.len() as int), RawSubjectView::Team(Team::Blue)))
            } else {
                None
            }
        } else {
            let t = s.subrange(7, s.len() as int);
            let q = find_idx(t, '"' as u8);
            if q == t.len() {
                None
            } else {
                let rest = t.subrange(q + 1, t.len() as int);
                if rest.len() < 1 {
                    None
                } else {
                    Some((rest.subrange(1, rest.len() as int), RawSubjectView::Team(Team::Spectator)))
                }
            }
        }
    } else {
        let sp = find_idx(s, ' ' as u8);
        if sp == s.len() {
            Some((Seq::empty(), RawSubjectView::System(s)))
        } else {
            Some((s.subrange(sp + 1, s.len() as int), RawSubjectView::System(s.subrange(0, sp))))
        }
    }
}

/// Parses the subject descriptor that follows the timestamp, returning the
/// rest of the line and the subject.
pub fn subject_parser<'a>(input: &'a [u8]) -> (r: Result<(&'a [u8], RawSubject<'a>), Error>)
    ensures
        match subject_parser_spec(input@) {
            Some(exp) => r matches Ok(p) && p.0@ == exp.0 && p.1@ == exp.1,
            None => r matches Err(Error::Incomplete),
        },
{
    let full = input;
    let (input2, quoted) = skip_matches(input, '"' as u8);
    if quoted {
        proof {
            lemma_findseq_idx(input2@, subject_end_needle());
        }
        match split_subject_end(input2, 1) {
            Err(_) => Ok((full, RawSubject::Console)),
            Ok((player, rest)) => {
                let rest2 = skip(rest, 1)?;
                if is_console_name(player) {
                    Ok((rest2, RawSubject::Console))
                } else {
                    Ok((rest2, RawSubject::Player(player)))
                }
            },
        }
    } else if input.len() >= 2 && input[0] == 'T' as u8 && input[1] == 'e' as u8 {
        if input.len() < 7 {
            return Err(Error::Incomplete);
        }
        if input[6] == 'r' as u8 {
            if input.len() >= 11 {
                Ok((&input[11..input.len()], RawSubject::Team(Team::Red)))
            } else {
                Err(Error::Incomplete)
            }
        } else if input[6] == 'b' as u8 {
            if input.len() >= 12 {
                Ok((&input[12..input.len()], RawSubject::Team(Team::Blue)))
            } else {
                Err(Error::Incomplete)
            }
        } else {
            let tail = &input[7..input.len()];
            proof {
                lemma_find_idx(tail@, '"' as u8);
            }
            let (_, rest) = split_once(tail, '"' as u8, 1)?;
            let rest2 = skip(rest, 1)?;
            Ok((rest2, RawSubject::Team(Team::Spectator)))
        }
    } else {
        proof {
            lemma_find_idx(input@, ' ' as u8);
        }
        match split_once(input, ' ' as u8, 1) {
            Err(_) => Ok((&input[0..0], RawSubject::System(input))),
            Ok((system, rest)) => Ok((rest, RawSubject::System(system))),
        }
    }
}

/// Subject fields of named parameters are players unless they name the console.
pub open spec fn against_subject_spec(s: Seq<u8>) -> RawSubjectView {
    if ends_le(s) {
        RawSubjectView::Console
    } else {
        RawSubjectView::Player(s)
    }
}

/// Parses a subject-valued parameter: always a player, unquoted, except for
/// the console.
pub fn against_subject_parser<'a>(input: &'a [u8]) -> (r: Result<RawSubject<'a>, Error>)
    ensures
        r matches Ok(s) && s@ == against_subject_spec(input@),
{
    if is_console_name(input) {
        Ok(RawSubject::Console)
    } else {
        Ok(RawSubject::Player(input))
    }
}

/// The four sections of a player descriptor `name<uid><steam><team>`, found by
/// scanning for `<` right to left; nothing when fewer than three `<` occur.
pub open spec fn split4_spec(p: Seq<u8>) -> Option<(Seq<u8>, Seq<u8>, Seq<u8>, Seq<u8>)> {
    let p3 = rfind_idx(p, '<' as u8);
    if p3 < 0 {
        None
    } else {
        let p2 = rfind_idx(p.subrange(0, p3), '<' as u8);
        if p2 < 0 {
            None
        } else {
            let p1 = rfind_idx(p.subrange(0, p2), '<' as u8);
            if p1 < 0 {
                None
            } else {
                Some(
                    (
                        p.subrange(0, p1),
                        p.subrange(p1 + 1, p2),
                        p.subrange(p2 + 1, p3),
                        p.subrange(p3 + 1, p.len() as int),
                    ),
                )
            }
        }
    }
}

/// What splitting a player descriptor yields: name, user id (nothing standing
/// for the default `0`), steam id and team, the last three with their closing
/// `>` removed. A descriptor with an empty section keeps only its name.
pub open spec fn split_player_spec(p: Seq<u8>) -> Option<
    (Seq<u8>, Option<Seq<u8>>, Seq<u8>, Seq<u8>),
> {
    match split4_spec(p) {
        None => None,
        Some(parts) => {
            let (name, uid, steam, team) = parts;
            if uid.len() == 0 || steam.len() == 0 || team.len() == 0 {
                Some((name, None, Seq::empty(), Seq::empty()))
            } else {
                Some(
                    (
                        name,
                        Some(uid.subrange(0, uid.len() - 1)),
                        steam.subrange(0, steam.len() - 1),
                        team.subrange(0, team.len() - 1),
                    ),
                )
            }
        },
    }
}

/// Splits a player descriptor into name, user id, steam id and team.
pub fn split_player_subject<'a>(input: &'a [u8]) -> (r: Result<
    (&'a [u8], Option<&'a [u8]>, &'a [u8], &'a [u8]),
    Error,
>)
    ensures
        match split_player_spec(input@) {
            Some(exp) => r matches Ok(p) && p.0@ == exp.0 && (match (p.1, exp.1) {
                (Some(a), Some(b)) => a@ == b,
                (None, None) => true,
                _ => false,
            }) && p.2@ == exp.2 && p.3@ == exp.3,
            None => r matches Err(Error::Incomplete),
        },
{
    proof {
        lemma_rfind_idx(input@, '<' as u8);
    }
    let p3 = match crate::find::rfind_byte(input, '<' as u8) {
        Some(i) => i,
        None => {
            return Err(Error::Incomplete);
        },
    };
    let head2 = &input[0..p3];
    proof {
        lemma_rfind_idx(head2@, '<' as u8);
    }
    let p2 = match crate::find::rfind_byte(head2, '<' as u8) {
        Some(i) => i,
        None => {
            return Err(Error::Incomplete);
        },
    };
    let head1 = &input[0..p2];
    proof {
        lemma_rfind_idx(head1@, '<' as u8);
    }
    let p1 = match crate::find::rfind_byte(head1, '<' as u8) {
        Some(i) => i,
        None => {
            return Err(Error::Incomplete);
        },
    };
    let n = input.len();
    assert(p3 < n);
    let name = &input[0..p1];
    let uid = &input[p1 + 1..p2];
    let steam = &input[p2 + 1..p3];
    let team = &input[p3 + 1..n];
    if uid.len() == 0 || steam.len() == 0 || team.len() == 0 {
        Ok((name, None, &input[0..0], &input[0..0]))
    } else {
        Ok(
            (
                name,
                Some(&uid[0..uid.len() - 1]),
                &steam[0..steam.len() - 1],
                &team[0..team.len() - 1],
            ),
        )
    }
}

/// What parsing one log line yields: the timestamp slice, the subject, the
/// event type and the parameter slice; `Skip` for short lines, `Incomplete`
/// when the subject ends mid-structure.
pub open spec fn raw_event_spec(line: Seq<u8>) -> Result<RawEventView, Error> {
    if line.len() < 24 {
        Err(Error::Skip)
    } else {
        match subject_parser_spec(line.subrange(23, line.len() as int)) {
            None => Err(Error::Incomplete),
            Some(sub) => {
                let (rest, subject) = sub;
                let ty = event_type_spec(rest);
                let after = rest.subrange(token_of(ty).len() as int, rest.len() as int);
                let params = if after.len() > 0 && after[0] == ' ' as u8 {
                    after.subrange(1, after.len() as int)
                } else {
                    after
                };
                Ok(
                    RawEventView {
                        date: line.subrange(0, 21),
                        subject,
                        ty,
                        params,
                    },
                )
            },
        }
    }
}

pub(crate) fn event_parser<'a>(input: &'a [u8]) -> (r: Result<RawEvent<'a>, Error>)
    ensures
        match raw_event_spec(input@) {
            Ok(exp) => r matches Ok(ev) && ev@.date == exp.date && ev@.subject == exp.subject
                && ev@.ty == exp.ty && ev@.params == exp.params,
            Err(e) => r matches Err(got) && got == e,
        },
{
    if input.len() < 24 {
        return Err(Error::Skip);
    }
    let date = RawDate(&input[0..21]);
    let (rest, subject) = match subject_parser(&input[23..input.len()]) {
        Ok(p) => p,
        Err(_) => {
            return Err(Error::Incomplete);
        },
    };
    let (consumed, ty) = match_event_type(rest);
    let after = &rest[consumed..rest.len()];
    let params = skip_matches(after, ' ' as u8).0;
    Ok(RawEvent { date, subject, ty, params })
}

impl<'a> RawEvent<'a> {
    /// Parses one log line into its four raw fields.
    pub fn parse(line: &'a [u8]) -> (r: Result<RawEvent<'a>, Error>)
        ensures
            match raw_event_spec(line@) {
                Ok(exp) => r matches Ok(ev) && ev@.date == exp.date && ev@.subject == exp.subject
                    && ev@.ty == exp.ty && ev@.params == exp.params,
                Err(e) => r matches Err(got) && got == e,
            },
    {
        event_parser(line)
    }
}


/// A line put back together from the fields of its raw event: the timestamp,
/// the `: ` separator, the quoted player descriptor, the keyword text, an
/// optional separating space, and the parameter bytes.
pub open spec fn reconstruct_player_line(
    date: Seq<u8>,
    p: Seq<u8>,
    ty: RawEventType,
    sp: bool,
    params: Seq<u8>,
) -> Seq<u8> {
    date + seq![':' as u8, ' ' as u8, '"' as u8] + p + seq!['"' as u8, ' ' as u8] + token_of(ty)
        + (if sp {
        seq![' ' as u8]
    } else {
        Seq::empty()
    }) + params
}

/// Recomposition of a line from its pieces, with the keyword text abstract.
proof fn lemma_recompose(
    line: Seq<u8>,
    p: Seq<u8>,
    tok: Seq<u8>,
    sp: bool,
    params: Seq<u8>,
    date: Seq<u8>,
)
    requires
        line.len() >= 26 + p.len(),
        date == line.subrange(0, 21),
        line[21] == ':' as u8,
        line[22] == ' ' as u8,
        line[23] == '"' as u8,
        p == line.subrange(24, 24 + p.len() as int),
        line[24 + p.len() as int] == '"' as u8,
        line[25 + p.len() as int] == ' ' as u8,
        ({
            let rest = line.subrange(26 + p.len() as int, line.len() as int);
            rest == if sp {
                tok + seq![' ' as u8] + params
            } else {
                tok + params
            }
        }),
    ensures
        line == date + seq![':' as u8, ' ' as u8, '"' as u8] + p + seq!['"' as u8, ' ' as u8]
            + tok + (if sp {
            seq![' ' as u8]
        } else {
            Seq::<u8>::empty()
        }) + params,
{
    let rest = line.subrange(26 + p.len() as int, line.len() as int);
    let sep: Seq<u8> = if sp {
        seq![' ' as u8]
    } else {
        Seq::<u8>::empty()
    };
    let front = date + seq![':' as u8, ' ' as u8, '"' as u8] + p + seq!['"' as u8, ' ' as u8];
    let tailw: Seq<u8> = if sp {
        tok + seq![' ' as u8] + params
    } else {
        tok + params
    };
    assert(front.len() == 26 + p.len());
    assert(rest == tailw);
    assert(line =~= front + tailw) by {
        assert forall|i: int| 0 <= i < line.len() implies line[i] == (front + tailw)[i] by {
            if i < 21 {
                assert(line[i] == date[i]);
                assert((front + tailw)[i] == date[i]);
            } else if i < 24 {
            } else if i < 24 + p.len() {
                assert((front + tailw)[i] == p[i - 24]);
                assert(p[i - 24] == line[i]);
            } else if i < 26 + p.len() {
            } else {
                assert((front + tailw)[i] == tailw[i - 26 - p.len()]);
                assert(line[i] == rest[i - 26 - p.len()]);
            }
        }
    }
    let whole = date + seq![':' as u8, ' ' as u8, '"' as u8] + p + seq!['"' as u8, ' ' as u8]
        + tok + sep + params;
    assert(whole =~= front + tailw);
    assert(line == whole);
}

/// Raw parsing loses nothing: for a line with a player subject and the
/// canonical separators, re-joining the four raw fields yields the line
/// itself (with or without the space that may precede the parameters).
/// Team-subject lines have no such statement: the parser skips their text by
/// position and keeps only the team, so the line cannot be rebuilt from the
/// raw event.
#[verifier::rlimit(100)]
pub proof fn lemma_raw_event_reconstruct(line: Seq<u8>)
    requires
        raw_event_spec(line) matches Ok(ev),
        raw_event_spec(line)->Ok_0.subject is Player,
        line[21] == ':' as u8,
        line[22] == ' ' as u8,
        line[25 + raw_event_spec(line)->Ok_0.subject->Player_0.len() as int] == ' ' as u8,
    ensures
        ({
            let ev = raw_event_spec(line)->Ok_0;
            let p = ev.subject->Player_0;
            line == reconstruct_player_line(ev.date, p, ev.ty, true, ev.params) || line
                == reconstruct_player_line(ev.date, p, ev.ty, false, ev.params)
        }),
{
    let ev = raw_event_spec(line)->Ok_0;
    assert(line.len() >= 24);
    let tail = line.subrange(23, line.len() as int);
    assert(subject_parser_spec(tail) is Some);
    assert(ev.subject == (subject_parser_spec(tail)->0).1);
    assert(tail.len() > 0 && tail[0] == '"' as u8) by {
        if !(tail.len() > 0 && tail[0] == '"' as u8) {
            if tail.len() >= 2 && tail[0] == 'T' as u8 && tail[1] == 'e' as u8 {
                assert(!((subject_parser_spec(tail)->0).1 is Player));
            } else {
                assert(!((subject_parser_spec(tail)->0).1 is Player));
            }
        }
    }
    let inner = tail.subrange(1, tail.len() as int);
    let f = crate::find::findseq_idx(inner, crate::parsing::subject_end_needle());
    crate::find::lemma_findseq_idx(inner, crate::parsing::subject_end_needle());
    assert(f < inner.len());
    let p = inner.subrange(0, f + 1);
    assert(ev.subject == RawSubjectView::Player(p));
    assert(p.len() == f + 1);
    let resta = inner.subrange(f + 2, inner.len() as int);
    let rest = resta.subrange(1, resta.len() as int);
    assert(rest =~= line.subrange(27 + f, line.len() as int));
    crate::keywords::lemma_token_prefix(rest);
    let ty = event_type_spec(rest);
    let tok = token_of(ty);
    let after = rest.subrange(tok.len() as int, rest.len() as int);
    assert(inner.subrange(f, f + 2) == crate::parsing::subject_end_needle());
    assert(line[24 + f] == '>' as u8);
    assert(line[25 + f] == '"' as u8);
    assert(line[26 + f] == ' ' as u8) by {
        assert(line[25 + p.len() as int] == ' ' as u8);
    }
    assert(p =~= line.subrange(24, 25 + f));
    assert(ev.date == line.subrange(0, 21));
    assert(line[23] == '"' as u8);
    assert(line.len() >= 26 + p.len());
    assert(24 + p.len() as int == 25 + f);
    assert(p == line.subrange(24, 24 + p.len() as int)) by {
        assert(p =~= line.subrange(24, 25 + f));
    }
    assert(tok =~= rest.subrange(0, tok.len() as int));
    if after.len() > 0 && after[0] == ' ' as u8 {
        let params = after.subrange(1, after.len() as int);
        assert(ev.params == params);
        assert(rest =~= tok + seq![' ' as u8] + params);
        assert(line.subrange(26 + p.len() as int, line.len() as int) == rest) by {
            assert(line.subrange(26 + p.len() as int, line.len() as int) =~= rest);
        }
        lemma_recompose(line, p, tok, true, params, ev.date);
        assert(line == reconstruct_player_line(ev.date, p, ev.ty, true, ev.params));
    } else {
        assert(ev.params == after);
        assert(rest =~= tok + after);
        assert(line.subrange(26 + p.len() as int, line.len() as int) == rest) by {
            assert(line.subrange(26 + p.len() as int, line.len() as int) =~= rest);
        }
        lemma_recompose(line, p, tok, false, after, ev.date);
        assert(line == reconstruct_player_line(ev.date, p, ev.ty, false, ev.params));
    }
}


/// A line put back together from a system-subject raw event: the timestamp,
/// the `: ` separator, the actor name, a space, the keyword text, an optional
/// separating space, and the parameter bytes.
pub open spec fn reconstruct_system_line(
    date: Seq<u8>,
    name: Seq<u8>,
    ty: RawEventType,
    sp: bool,
    params: Seq<u8>,
) -> Seq<u8> {
    date + seq![':' as u8, ' ' as u8] + name + seq![' ' as u8] + token_of(ty) + (if sp {
        seq![' ' as u8]
    } else {
        Seq::empty()
    }) + params
}

/// Recomposition of a system-subject line from its pieces, keyword abstract.
proof fn lemma_recompose_system(
    line: Seq<u8>,
    name: Seq<u8>,
    tok: Seq<u8>,
    sp: bool,
    params: Seq<u8>,
    date: Seq<u8>,
)
    requires
        line.len() >= 24 + name.len(),
        date == line.subrange(0, 21),
        line[21] == ':' as u8,
        line[22] == ' ' as u8,
        name == line.subrange(23, 23 + name.len() as int),
        line[23 + name.len() as int] == ' ' as u8,
        ({
            let rest = line.subrange(24 + name.len() as int, line.len() as int);
            rest == if sp {
                tok + seq![' ' as u8] + params
            } else {
                tok + params
            }
        }),
    ensures
        line == date + seq![':' as u8, ' ' as u8] + name + seq![' ' as u8] + tok + (if sp {
            seq![' ' as u8]
        } else {
            Seq::<u8>::empty()
        }) + params,
{
    let rest = line.subrange(24 + name.len() as int, line.len() as int);
    let sep: Seq<u8> = if sp {
        seq![' ' as u8]
    } else {
        Seq::<u8>::empty()
    };
    let front = date + seq![':' as u8, ' ' as u8] + name + seq![' ' as u8];
    let tailw: Seq<u8> = if sp {
        tok + seq![' ' as u8] + params
    } else {
        tok + params
    };
    assert(front.len() == 24 + name.len());
    assert(rest == tailw);
    assert(line =~= front + tailw) by {
        assert forall|i: int| 0 <= i < line.len() implies line[i] == (front + tailw)[i] by {
            if i < 21 {
                assert(line[i] == date[i]);
                assert((front + tailw)[i] == date[i]);
            } else if i < 23 {
            } else if i < 23 + name.len() {
                assert((front + tailw)[i] == name[i - 23]);
                assert(name[i - 23] == line[i]);
            } else if i < 24 + name.len() {
            } else {
                assert((front + tailw)[i] == tailw[i - 24 - name.len()]);
                assert(line[i] == rest[i - 24 - name.len()]);
            }
        }
    }
    let whole = date + seq![':' as u8, ' ' as u8] + name + seq![' ' as u8] + tok + sep + params;
    assert(whole =~= front + tailw);
    assert(line == whole);
}

/// Raw parsing loses nothing for system subjects either: with the canonical
/// `: ` separator, the timestamp, the actor name, the keyword and the
/// parameters put back together yield the line itself. A name that runs to
/// the end of the line (no following space) is the whole remainder.
#[verifier::rlimit(100)]
pub proof fn lemma_raw_event_reconstruct_system(line: Seq<u8>)
    requires
        raw_event_spec(line) matches Ok(ev),
        raw_event_spec(line)->Ok_0.subject is System,
        line[21] == ':' as u8,
        line[22] == ' ' as u8,
    ensures
        ({
            let ev = raw_event_spec(line)->Ok_0;
            let name = ev.subject->System_0;
            line == reconstruct_system_line(ev.date, name, ev.ty, true, ev.params) || line
                == reconstruct_system_line(ev.date, name, ev.ty, false, ev.params) || line
                == ev.date + seq![':' as u8, ' ' as u8] + name
        }),
{
    let ev = raw_event_spec(line)->Ok_0;
    assert(line.len() >= 24);
    let tail = line.subrange(23, line.len() as int);
    assert(subject_parser_spec(tail) is Some);
    assert(ev.subject == (subject_parser_spec(tail)->0).1);
    assert(!(tail.len() > 0 && tail[0] == '"' as u8)) by {
        if tail.len() > 0 && tail[0] == '"' as u8 {
            assert(!((subject_parser_spec(tail)->0).1 is System));
        }
    }
    assert(!(tail.len() >= 2 && tail[0] == 'T' as u8 && tail[1] == 'e' as u8)) by {
        if tail.len() >= 2 && tail[0] == 'T' as u8 && tail[1] == 'e' as u8 {
            assert(!((subject_parser_spec(tail)->0).1 is System));
        }
    }
    lemma_find_idx(tail, ' ' as u8);
    let sp = find_idx(tail, ' ' as u8);
    assert(ev.date == line.subrange(0, 21));
    if sp == tail.len() {
        let name = tail;
        assert(ev.subject == RawSubjectView::System(name));
        let rest = Seq::<u8>::empty();
        crate::keywords::lemma_token_prefix(rest);
        let tok = token_of(event_type_spec(rest));
        assert(tok.len() == 0);
        assert(tok =~= Seq::<u8>::empty());
        assert(ev.params =~= Seq::<u8>::empty());
        assert(line =~= ev.date + seq![':' as u8, ' ' as u8] + name);
    } else {
        let name = tail.subrange(0, sp);
        assert(ev.subject == RawSubjectView::System(name));
        let rest = tail.subrange(sp + 1, tail.len() as int);
        assert(rest =~= line.subrange(24 + sp, line.len() as int));
        crate::keywords::lemma_token_prefix(rest);
        let ty = event_type_spec(rest);
        let tok = token_of(ty);
        let after = rest.subrange(tok.len() as int, rest.len() as int);
        assert(name.len() == sp);
        assert(name == line.subrange(23, 23 + name.len() as int)) by {
            assert(name =~= line.subrange(23, 23 + sp));
        }
        assert(line[23 + name.len() as int] == ' ' as u8) by {
            assert(tail[sp] == ' ' as u8);
        }
        assert(line.len() >= 24 + name.len());
        assert(tok =~= rest.subrange(0, tok.len() as int));
        if after.len() > 0 && after[0] == ' ' as u8 {
            let params = after.subrange(1, after.len() as int);
            assert(ev.params == params);
            assert(rest =~= tok + seq![' ' as u8] + params);
            assert(line.subrange(24 + name.len() as int, line.len() as int) == rest) by {
                assert(line.subrange(24 + name.len() as int, line.len() as int) =~= rest);
            }
            lemma_recompose_system(line, name, tok, true, params, ev.date);
            assert(line == reconstruct_system_line(ev.date, name, ev.ty, true, ev.params));
        } else {
            assert(ev.params == after);
            assert(rest =~= tok + after);
            assert(line.subrange(24 + name.len() as int, line.len() as int) == rest) by {
                assert(line.subrange(24 + name.len() as int, line.len() as int) =~= rest);
            }
            lemma_recompose_system(line, name, tok, false, after, ev.date);
            assert(line == reconstruct_system_line(ev.date, name, ev.ty, false, ev.params));
        }
    }
}

} // verus!

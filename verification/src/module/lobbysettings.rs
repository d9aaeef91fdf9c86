use vstd::prelude::*;

use crate::common::{SubjectData, SubjectId};
use crate::date::{dt_bounded, timestamp_spec, DateTime};
use crate::event::{EventMeta, GameEvent, GameEventV};
use crate::find::{find_idx, find_needle, findseq_idx, lemma_find_idx, lemma_findseq_idx};
use crate::num::{lemma_digits_val_upper, parse_u32, parse_u32_spec, parse_u64, parse_u64_spec,
    tenpow};
use crate::parsing::{bytes_eq, starts_with};
use crate::raw_event::RawEventType;

verus! {

pub open spec fn lk_advanced() -> Seq<u8> {
    seq!['A' as u8, 'd' as u8, 'v' as u8, 'a' as u8, 'n' as u8, 'c' as u8, 'e' as u8, 'd' as u8, ' ' as u8, 'L' as u8, 'o' as u8, 'b' as u8, 'b' as u8, 'y' as u8]
}

pub(crate) fn lk_advanced_bytes() -> (r: Vec<u8>)
    ensures
        r@ == lk_advanced(),
{
    let mut k: Vec<u8> = Vec::new();
    k.push('A' as u8);
    k.push('d' as u8);
    k.push('v' as u8);
    k.push('a' as u8);
    k.push('n' as u8);
    k.push('c' as u8);
    k.push('e' as u8);
    k.push('d' as u8);
    k.push(' ' as u8);
    k.push('L' as u8);
    k.push('o' as u8);
    k.push('b' as u8);
    k.push('b' as u8);
    k.push('y' as u8);
    proof { assert(k@ =~= lk_advanced()); }
    k
}

pub open spec fn lk_apr() -> Seq<u8> {
    seq!['A' as u8, 'p' as u8, 'r' as u8]
}

pub(crate) fn lk_apr_bytes() -> (r: Vec<u8>)
    ensures
        r@ == lk_apr(),
{
    let mut k: Vec<u8> = Vec::new();
    k.push('A' as u8);
    k.push('p' as u8);
    k.push('r' as u8);
    proof { assert(k@ =~= lk_apr()); }
    k
}

pub open spec fn lk_aug() -> Seq<u8> {
    seq!['A' as u8, 'u' as u8, 'g' as u8]
}

pub(crate) fn lk_aug_bytes() -> (r: Vec<u8>)
    ensures
        r@ == lk_aug(),
{
    let mut k: Vec<u8> = Vec::new();
    k.push('A' as u8);
    k.push('u' as u8);
    k.push('g' as u8);
    proof { assert(k@ =~= lk_aug()); }
    k
}

pub open spec fn lk_balancing() -> Seq<u8> {
    seq!['B' as u8, 'a' as u8, 'l' as u8, 'a' as u8, 'n' as u8, 'c' as u8, 'i' as u8, 'n' as u8, 'g' as u8]
}

pub(crate) fn lk_balancing_bytes() -> (r: Vec<u8>)
    ensures
        r@ == lk_balancing(),
{
    let mut k: Vec<u8> = Vec::new();
    k.push('B' as u8);
    k.push('a' as u8);
    k.push('l' as u8);
    k.push('a' as u8);
    k.push('n' as u8);
    k.push('c' as u8);
    k.push('i' as u8);
    k.push('n' as u8);
    k.push('g' as u8);
    proof { assert(k@ =~= lk_balancing()); }
    k
}

pub open spec fn lk_bfalse() -> Seq<u8> {
    seq!['f' as u8, 'a' as u8, 'l' as u8, 's' as u8, 'e' as u8]
}

pub(crate) fn lk_bfalse_bytes() -> (r: Vec<u8>)
    ensures
        r@ == lk_bfalse(),
{
    let mut k: Vec<u8> = Vec::new();
    k.push('f' as u8);
    k.push('a' as u8);
    k.push('l' as u8);
    k.push('s' as u8);
    k.push('e' as u8);
    proof { assert(k@ =~= lk_bfalse()); }
    k
}

pub open spec fn lk_btrue() -> Seq<u8> {
    seq!['t' as u8, 'r' as u8, 'u' as u8, 'e' as u8]
}

pub(crate) fn lk_btrue_bytes() -> (r: Vec<u8>)
    ensures
        r@ == lk_btrue(),
{
    let mut k: Vec<u8> = Vec::new();
    k.push('t' as u8);
    k.push('r' as u8);
    k.push('u' as u8);
    k.push('e' as u8);
    proof { assert(k@ =~= lk_btrue()); }
    k
}

pub open spec fn lk_cest() -> Seq<u8> {
    seq!['C' as u8, 'E' as u8, 'S' as u8, 'T' as u8]
}

pub(crate) fn lk_cest_bytes() -> (r: Vec<u8>)
    ensures
        r@ == lk_cest(),
{
    let mut k: Vec<u8> = Vec::new();
    k.push('C' as u8);
    k.push('E' as u8);
    k.push('S' as u8);
    k.push('T' as u8);
    proof { assert(k@ =~= lk_cest()); }
    k
}

pub open spec fn lk_cet() -> Seq<u8> {
    seq!['C' as u8, 'E' as u8, 'T' as u8]
}

pub(crate) fn lk_cet_bytes() -> (r: Vec<u8>)
    ensures
        r@ == lk_cet(),
{
    let mut k: Vec<u8> = Vec::new();
    k.push('C' as u8);
    k.push('E' as u8);
    k.push('T' as u8);
    proof { assert(k@ =~= lk_cet()); }
    k
}

pub open spec fn lk_colonsep() -> Seq<u8> {
    seq![':' as u8, ' ' as u8]
}

pub(crate) fn lk_colonsep_bytes() -> (r: Vec<u8>)
    ensures
        r@ == lk_colonsep(),
{
    let mut k: Vec<u8> = Vec::new();
    k.push(':' as u8);
    k.push(' ' as u8);
    proof { assert(k@ =~= lk_colonsep()); }
    k
}

pub open spec fn lk_dec() -> Seq<u8> {
    seq!['D' as u8, 'e' as u8, 'c' as u8]
}

pub(crate) fn lk_dec_bytes() -> (r: Vec<u8>)
    ensures
        r@ == lk_dec(),
{
    let mut k: Vec<u8> = Vec::new();
    k.push('D' as u8);
    k.push('e' as u8);
    k.push('c' as u8);
    proof { assert(k@ =~= lk_dec()); }
    k
}

pub open spec fn lk_europe() -> Seq<u8> {
    seq!['E' as u8, 'u' as u8, 'r' as u8, 'o' as u8, 'p' as u8, 'e' as u8]
}

pub(crate) fn lk_europe_bytes() -> (r: Vec<u8>)
    ensures
        r@ == lk_europe(),
{
    let mut k: Vec<u8> = Vec::new();
    k.push('E' as u8);
    k.push('u' as u8);
    k.push('r' as u8);
    k.push('o' as u8);
    k.push('p' as u8);
    k.push('e' as u8);
    proof { assert(k@ =~= lk_europe()); }
    k
}

pub open spec fn lk_feb() -> Seq<u8> {
    seq!['F' as u8, 'e' as u8, 'b' as u8]
}

pub(crate) fn lk_feb_bytes() -> (r: Vec<u8>)
    ensures
        r@ == lk_feb(),
{
    let mut k: Vec<u8> = Vec::new();
    k.push('F' as u8);
    k.push('e' as u8);
    k.push('b' as u8);
    proof { assert(k@ =~= lk_feb()); }
    k
}

pub open spec fn lk_gametype() -> Seq<u8> {
    seq!['G' as u8, 'a' as u8, 'm' as u8, 'e' as u8, 'T' as u8, 'y' as u8, 'p' as u8, 'e' as u8]
}

pub(crate) fn lk_gametype_bytes() -> (r: Vec<u8>)
    ensures
        r@ == lk_gametype(),
{
    let mut k: Vec<u8> = Vec::new();
    k.push('G' as u8);
    k.push('a' as u8);
    k.push('m' as u8);
    k.push('e' as u8);
    k.push('T' as u8);
    k.push('y' as u8);
    k.push('p' as u8);
    k.push('e' as u8);
    proof { assert(k@ =~= lk_gametype()); }
    k
}

pub open spec fn lk_highlander() -> Seq<u8> {
    seq!['h' as u8, 'i' as u8, 'g' as u8, 'h' as u8, 'l' as u8, 'a' as u8, 'n' as u8, 'd' as u8, 'e' as u8, 'r' as u8]
}

pub(crate) fn lk_highlander_bytes() -> (r: Vec<u8>)
    ensures
        r@ == lk_highlander(),
{
    let mut k: Vec<u8> = Vec::new();
    k.push('h' as u8);
    k.push('i' as u8);
    k.push('g' as u8);
    k.push('h' as u8);
    k.push('l' as u8);
    k.push('a' as u8);
    k.push('n' as u8);
    k.push('d' as u8);
    k.push('e' as u8);
    k.push('r' as u8);
    proof { assert(k@ =~= lk_highlander()); }
    k
}

pub open spec fn lk_jan() -> Seq<u8> {
    seq!['J' as u8, 'a' as u8, 'n' as u8]
}

pub(crate) fn lk_jan_bytes() -> (r: Vec<u8>)
    ensures
        r@ == lk_jan(),
{
    let mut k: Vec<u8> = Vec::new();
    k.push('J' as u8);
    k.push('a' as u8);
    k.push('n' as u8);
    proof { assert(k@ =~= lk_jan()); }
    k
}

pub open spec fn lk_jul() -> Seq<u8> {
    seq!['J' as u8, 'u' as u8, 'l' as u8]
}

pub(crate) fn lk_jul_bytes() -> (r: Vec<u8>)
    ensures
        r@ == lk_jul(),
{
    let mut k: Vec<u8> = Vec::new();
    k.push('J' as u8);
    k.push('u' as u8);
    k.push('l' as u8);
    proof { assert(k@ =~= lk_jul()); }
    k
}

pub open spec fn lk_jun() -> Seq<u8> {
    seq!['J' as u8, 'u' as u8, 'n' as u8]
}

pub(crate) fn lk_jun_bytes() -> (r: Vec<u8>)
    ensures
        r@ == lk_jun(),
{
    let mut k: Vec<u8> = Vec::new();
    k.push('J' as u8);
    k.push('u' as u8);
    k.push('n' as u8);
    proof { assert(k@ =~= lk_jun()); }
    k
}

pub open spec fn lk_launchdate() -> Seq<u8> {
    seq!['L' as u8, 'a' as u8, 'u' as u8, 'n' as u8, 'c' as u8, 'h' as u8, ' ' as u8, 'd' as u8, 'a' as u8, 't' as u8, 'e' as u8]
}

pub(crate) fn lk_launchdate_bytes() -> (r: Vec<u8>)
    ensures
        r@ == lk_launchdate(),
{
    let mut k: Vec<u8> = Vec::new();
    k.push('L' as u8);
    k.push('a' as u8);
    k.push('u' as u8);
    k.push('n' as u8);
    k.push('c' as u8);
    k.push('h' as u8);
    k.push(' ' as u8);
    k.push('d' as u8);
    k.push('a' as u8);
    k.push('t' as u8);
    k.push('e' as u8);
    proof { assert(k@ =~= lk_launchdate()); }
    k
}

pub open spec fn lk_leader() -> Seq<u8> {
    seq!['L' as u8, 'e' as u8, 'a' as u8, 'd' as u8, 'e' as u8, 'r' as u8]
}

pub(crate) fn lk_leader_bytes() -> (r: Vec<u8>)
    ensures
        r@ == lk_leader(),
{
    let mut k: Vec<u8> = Vec::new();
    k.push('L' as u8);
    k.push('e' as u8);
    k.push('a' as u8);
    k.push('d' as u8);
    k.push('e' as u8);
    k.push('r' as u8);
    proof { assert(k@ =~= lk_leader()); }
    k
}

pub open spec fn lk_lobbyprefix() -> Seq<u8> {
    seq!['T' as u8, 'F' as u8, '2' as u8, 'C' as u8, 'e' as u8, 'n' as u8, 't' as u8, 'e' as u8, 'r' as u8, ' ' as u8, 'L' as u8, 'o' as u8, 'b' as u8, 'b' as u8, 'y' as u8, ' ' as u8, '#' as u8]
}

pub(crate) fn lk_lobbyprefix_bytes() -> (r: Vec<u8>)
    ensures
        r@ == lk_lobbyprefix(),
{
    let mut k: Vec<u8> = Vec::new();
    k.push('T' as u8);
    k.push('F' as u8);
    k.push('2' as u8);
    k.push('C' as u8);
    k.push('e' as u8);
    k.push('n' as u8);
    k.push('t' as u8);
    k.push('e' as u8);
    k.push('r' as u8);
    k.push(' ' as u8);
    k.push('L' as u8);
    k.push('o' as u8);
    k.push('b' as u8);
    k.push('b' as u8);
    k.push('y' as u8);
    k.push(' ' as u8);
    k.push('#' as u8);
    proof { assert(k@ =~= lk_lobbyprefix()); }
    k
}

pub open spec fn lk_location() -> Seq<u8> {
    seq!['L' as u8, 'o' as u8, 'c' as u8, 'a' as u8, 't' as u8, 'i' as u8, 'o' as u8, 'n' as u8]
}

pub(crate) fn lk_location_bytes() -> (r: Vec<u8>)
    ensures
        r@ == lk_location(),
{
    let mut k: Vec<u8> = Vec::new();
    k.push('L' as u8);
    k.push('o' as u8);
    k.push('c' as u8);
    k.push('a' as u8);
    k.push('t' as u8);
    k.push('i' as u8);
    k.push('o' as u8);
    k.push('n' as u8);
    proof { assert(k@ =~= lk_location()); }
    k
}

pub open spec fn lk_map() -> Seq<u8> {
    seq!['M' as u8, 'a' as u8, 'p' as u8]
}

pub(crate) fn lk_map_bytes() -> (r: Vec<u8>)
    ensures
        r@ == lk_map(),
{
    let mut k: Vec<u8> = Vec::new();
    k.push('M' as u8);
    k.push('a' as u8);
    k.push('p' as u8);
    proof { assert(k@ =~= lk_map()); }
    k
}

pub open spec fn lk_mar() -> Seq<u8> {
    seq!['M' as u8, 'a' as u8, 'r' as u8]
}

pub(crate) fn lk_mar_bytes() -> (r: Vec<u8>)
    ensures
        r@ == lk_mar(),
{
    let mut k: Vec<u8> = Vec::new();
    k.push('M' as u8);
    k.push('a' as u8);
    k.push('r' as u8);
    proof { assert(k@ =~= lk_mar()); }
    k
}

pub open spec fn lk_may() -> Seq<u8> {
    seq!['M' as u8, 'a' as u8, 'y' as u8]
}

pub(crate) fn lk_may_bytes() -> (r: Vec<u8>)
    ensures
        r@ == lk_may(),
{
    let mut k: Vec<u8> = Vec::new();
    k.push('M' as u8);
    k.push('a' as u8);
    k.push('y' as u8);
    proof { assert(k@ =~= lk_may()); }
    k
}

pub open spec fn lk_mumble() -> Seq<u8> {
    seq!['M' as u8, 'u' as u8, 'm' as u8, 'b' as u8, 'l' as u8, 'e' as u8, ' ' as u8, 'r' as u8, 'e' as u8, 'q' as u8, 'u' as u8, 'i' as u8, 'r' as u8, 'e' as u8, 'd' as u8]
}

pub(crate) fn lk_mumble_bytes() -> (r: Vec<u8>)
    ensures
        r@ == lk_mumble(),
{
    let mut k: Vec<u8> = Vec::new();
    k.push('M' as u8);
    k.push('u' as u8);
    k.push('m' as u8);
    k.push('b' as u8);
    k.push('l' as u8);
    k.push('e' as u8);
    k.push(' ' as u8);
    k.push('r' as u8);
    k.push('e' as u8);
    k.push('q' as u8);
    k.push('u' as u8);
    k.push('i' as u8);
    k.push('r' as u8);
    k.push('e' as u8);
    k.push('d' as u8);
    proof { assert(k@ =~= lk_mumble()); }
    k
}

pub open spec fn lk_northamerica() -> Seq<u8> {
    seq!['N' as u8, 'o' as u8, 'r' as u8, 't' as u8, 'h' as u8, ' ' as u8, 'A' as u8, 'm' as u8, 'e' as u8, 'r' as u8, 'i' as u8, 'c' as u8, 'a' as u8]
}

pub(crate) fn lk_northamerica_bytes() -> (r: Vec<u8>)
    ensures
        r@ == lk_northamerica(),
{
    let mut k: Vec<u8> = Vec::new();
    k.push('N' as u8);
    k.push('o' as u8);
    k.push('r' as u8);
    k.push('t' as u8);
    k.push('h' as u8);
    k.push(' ' as u8);
    k.push('A' as u8);
    k.push('m' as u8);
    k.push('e' as u8);
    k.push('r' as u8);
    k.push('i' as u8);
    k.push('c' as u8);
    k.push('a' as u8);
    proof { assert(k@ =~= lk_northamerica()); }
    k
}

pub open spec fn lk_nov() -> Seq<u8> {
    seq!['N' as u8, 'o' as u8, 'v' as u8]
}

pub(crate) fn lk_nov_bytes() -> (r: Vec<u8>)
    ensures
        r@ == lk_nov(),
{
    let mut k: Vec<u8> = Vec::new();
    k.push('N' as u8);
    k.push('o' as u8);
    k.push('v' as u8);
    proof { assert(k@ =~= lk_nov()); }
    k
}

pub open spec fn lk_oct() -> Seq<u8> {
    seq!['O' as u8, 'c' as u8, 't' as u8]
}

pub(crate) fn lk_oct_bytes() -> (r: Vec<u8>)
    ensures
        r@ == lk_oct(),
{
    let mut k: Vec<u8> = Vec::new();
    k.push('O' as u8);
    k.push('c' as u8);
    k.push('t' as u8);
    proof { assert(k@ =~= lk_oct()); }
    k
}

pub open spec fn lk_offclassing() -> Seq<u8> {
    seq!['A' as u8, 'l' as u8, 'l' as u8, 'o' as u8, 'w' as u8, ' ' as u8, 'o' as u8, 'f' as u8, 'f' as u8, 'c' as u8, 'l' as u8, 'a' as u8, 's' as u8, 's' as u8, 'i' as u8, 'n' as u8, 'g' as u8]
}

pub(crate) fn lk_offclassing_bytes() -> (r: Vec<u8>)
    ensures
        r@ == lk_offclassing(),
{
    let mut k: Vec<u8> = Vec::new();
    k.push('A' as u8);
    k.push('l' as u8);
    k.push('l' as u8);
    k.push('o' as u8);
    k.push('w' as u8);
    k.push(' ' as u8);
    k.push('o' as u8);
    k.push('f' as u8);
    k.push('f' as u8);
    k.push('c' as u8);
    k.push('l' as u8);
    k.push('a' as u8);
    k.push('s' as u8);
    k.push('s' as u8);
    k.push('i' as u8);
    k.push('n' as u8);
    k.push('g' as u8);
    proof { assert(k@ =~= lk_offclassing()); }
    k
}

pub open spec fn lk_pipesep() -> Seq<u8> {
    seq![' ' as u8, '|' as u8]
}

pub(crate) fn lk_pipesep_bytes() -> (r: Vec<u8>)
    ensures
        r@ == lk_pipesep(),
{
    let mut k: Vec<u8> = Vec::new();
    k.push(' ' as u8);
    k.push('|' as u8);
    proof { assert(k@ =~= lk_pipesep()); }
    k
}

pub open spec fn lk_regionlock() -> Seq<u8> {
    seq!['R' as u8, 'e' as u8, 'g' as u8, 'i' as u8, 'o' as u8, 'n' as u8, ' ' as u8, 'l' as u8, 'o' as u8, 'c' as u8, 'k' as u8]
}

pub(crate) fn lk_regionlock_bytes() -> (r: Vec<u8>)
    ensures
        r@ == lk_regionlock(),
{
    let mut k: Vec<u8> = Vec::new();
    k.push('R' as u8);
    k.push('e' as u8);
    k.push('g' as u8);
    k.push('i' as u8);
    k.push('o' as u8);
    k.push('n' as u8);
    k.push(' ' as u8);
    k.push('l' as u8);
    k.push('o' as u8);
    k.push('c' as u8);
    k.push('k' as u8);
    proof { assert(k@ =~= lk_regionlock()); }
    k
}

pub open spec fn lk_restriction() -> Seq<u8> {
    seq!['R' as u8, 'e' as u8, 's' as u8, 't' as u8, 'r' as u8, 'i' as u8, 'c' as u8, 't' as u8, 'i' as u8, 'o' as u8, 'n' as u8]
}

pub(crate) fn lk_restriction_bytes() -> (r: Vec<u8>)
    ensures
        r@ == lk_restriction(),
{
    let mut k: Vec<u8> = Vec::new();
    k.push('R' as u8);
    k.push('e' as u8);
    k.push('s' as u8);
    k.push('t' as u8);
    k.push('r' as u8);
    k.push('i' as u8);
    k.push('c' as u8);
    k.push('t' as u8);
    k.push('i' as u8);
    k.push('o' as u8);
    k.push('n' as u8);
    proof { assert(k@ =~= lk_restriction()); }
    k
}

pub open spec fn lk_sep() -> Seq<u8> {
    seq!['S' as u8, 'e' as u8, 'p' as u8]
}

pub(crate) fn lk_sep_bytes() -> (r: Vec<u8>)
    ensures
        r@ == lk_sep(),
{
    let mut k: Vec<u8> = Vec::new();
    k.push('S' as u8);
    k.push('e' as u8);
    k.push('p' as u8);
    proof { assert(k@ =~= lk_sep()); }
    k
}

pub open spec fn lk_server() -> Seq<u8> {
    seq!['S' as u8, 'e' as u8, 'r' as u8, 'v' as u8, 'e' as u8, 'r' as u8]
}

pub(crate) fn lk_server_bytes() -> (r: Vec<u8>)
    ensures
        r@ == lk_server(),
{
    let mut k: Vec<u8> = Vec::new();
    k.push('S' as u8);
    k.push('e' as u8);
    k.push('r' as u8);
    k.push('v' as u8);
    k.push('e' as u8);
    k.push('r' as u8);
    proof { assert(k@ =~= lk_server()); }
    k
}

pub open spec fn lk_sixes() -> Seq<u8> {
    seq!['6' as u8, 'v' as u8, '6' as u8]
}

pub(crate) fn lk_sixes_bytes() -> (r: Vec<u8>)
    ensures
        r@ == lk_sixes(),
{
    let mut k: Vec<u8> = Vec::new();
    k.push('6' as u8);
    k.push('v' as u8);
    k.push('6' as u8);
    proof { assert(k@ =~= lk_sixes()); }
    k
}

/// The kind of lobby that was played.
#[derive(Debug, Clone, Copy, PartialEq, Eq, Structural)]
pub enum GameType {
    Sixes,
    Highlander,
}

/// Where the lobby was hosted.
#[derive(Debug, Clone, Copy, PartialEq, Eq, Structural)]
pub enum Location {
    Europe,
    NorthAmerica,
}

/// The lobby leader: a name and a steam64 id.
#[derive(Debug, Clone, PartialEq, Eq)]
pub struct LobbyLeader {
    pub name: Vec<u8>,
    pub steam_id: u64,
}

/// The mathematical shape of a lobby leader.
pub struct LobbyLeaderV {
    pub name: Seq<u8>,
    pub steam_id: u64,
}

impl View for LobbyLeader {
    type V = LobbyLeaderV;

    open spec fn view(&self) -> LobbyLeaderV {
        LobbyLeaderV { name: self.name@, steam_id: self.steam_id }
    }
}

/// The lobby metadata announced by the console as chat lines. The launch date
/// is in seconds on the same fixed reference as `DateTime::timestamp`, in
/// universal time.
#[derive(Debug, Clone, PartialEq, Eq)]
pub struct Settings {
    pub id: u32,
    pub leader: LobbyLeader,
    pub map: Vec<u8>,
    pub game_type: GameType,
    pub location: Location,
    pub advanced: bool,
    pub region_lock: bool,
    pub allow_offclassing: bool,
    pub balancing: bool,
    pub restriction: Vec<u8>,
    pub mumble_required: bool,
    pub date: u64,
    pub server: Vec<u8>,
}

/// The mathematical shape of lobby settings.
pub struct SettingsV {
    pub id: u32,
    pub leader: LobbyLeaderV,
    pub map: Seq<u8>,
    pub game_type: GameType,
    pub location: Location,
    pub advanced: bool,
    pub region_lock: bool,
    pub allow_offclassing: bool,
    pub balancing: bool,
    pub restriction: Seq<u8>,
    pub mumble_required: bool,
    pub date: u64,
    pub server: Seq<u8>,
}

impl View for Settings {
    type V = SettingsV;

    open spec fn view(&self) -> SettingsV {
        SettingsV {
            id: self.id,
            leader: self.leader@,
            map: self.map@,
            game_type: self.game_type,
            location: self.location,
            advanced: self.advanced,
            region_lock: self.region_lock,
            allow_offclassing: self.allow_offclassing,
            balancing: self.balancing,
            restriction: self.restriction@,
            mumble_required: self.mumble_required,
            date: self.date,
            server: self.server@,
        }
    }
}

/// What goes wrong while lobby metadata is read.
#[derive(Debug, Clone, PartialEq, Eq)]
pub enum LobbySettingsError {
    InvalidLobbyId(Vec<u8>),
    UnknownGameType(Vec<u8>),
    UnknownLocation(Vec<u8>),
    UnknownTimezone(Vec<u8>),
    MalformedLeader(Vec<u8>),
    InvalidBool,
    InvalidInt,
    InvalidDate,
}

/// The mathematical shape of a lobby-settings error.
pub enum LobbySettingsErrorV {
    InvalidLobbyId(Seq<u8>),
    UnknownGameType(Seq<u8>),
    UnknownLocation(Seq<u8>),
    UnknownTimezone(Seq<u8>),
    MalformedLeader(Seq<u8>),
    InvalidBool,
    InvalidInt,
    InvalidDate,
}

impl View for LobbySettingsError {
    type V = LobbySettingsErrorV;

    open spec fn view(&self) -> LobbySettingsErrorV {
        match self {
            LobbySettingsError::InvalidLobbyId(s) => LobbySettingsErrorV::InvalidLobbyId(s@),
            LobbySettingsError::UnknownGameType(s) => LobbySettingsErrorV::UnknownGameType(s@),
            LobbySettingsError::UnknownLocation(s) => LobbySettingsErrorV::UnknownLocation(s@),
            LobbySettingsError::UnknownTimezone(s) => LobbySettingsErrorV::UnknownTimezone(s@),
            LobbySettingsError::MalformedLeader(s) => LobbySettingsErrorV::MalformedLeader(s@),
            LobbySettingsError::InvalidBool => LobbySettingsErrorV::InvalidBool,
            LobbySettingsError::InvalidInt => LobbySettingsErrorV::InvalidInt,
            LobbySettingsError::InvalidDate => LobbySettingsErrorV::InvalidDate,
        }
    }
}

/// The three states the lobby reader moves through: nothing seen yet, a lobby
/// announcement being filled in, or a failed read.
#[derive(Debug, PartialEq, Eq)]
pub enum LobbySettingsHandler {
    NotAvailable,
    Active(Settings),
    Failed(LobbySettingsError),
}

/// The mathematical shape of the reader state.
pub enum LobbySettingsHandlerV {
    NotAvailable,
    Active(SettingsV),
    Failed(LobbySettingsErrorV),
}

impl View for LobbySettingsHandler {
    type V = LobbySettingsHandlerV;

    open spec fn view(&self) -> LobbySettingsHandlerV {
        match self {
            LobbySettingsHandler::NotAvailable => LobbySettingsHandlerV::NotAvailable,
            LobbySettingsHandler::Active(s) => LobbySettingsHandlerV::Active(s@),
            LobbySettingsHandler::Failed(e) => LobbySettingsHandlerV::Failed(e@),
        }
    }
}

/// The settings a fresh lobby announcement starts from.
pub open spec fn settings_with_id_spec(id: u32) -> SettingsV {
    SettingsV {
        id,
        leader: LobbyLeaderV { name: Seq::empty(), steam_id: 0 },
        map: Seq::empty(),
        game_type: GameType::Sixes,
        location: Location::Europe,
        advanced: false,
        region_lock: false,
        allow_offclassing: false,
        balancing: false,
        restriction: Seq::empty(),
        mumble_required: false,
        date: timestamp_spec(
            DateTime { year: 1, month: 1, day: 1, hour: 0, minute: 0, second: 0 },
        ) as u64,
        server: Seq::empty(),
    }
}

impl Settings {
    /// A fresh lobby announcement, carrying only its id.
    pub fn with_id(id: u32) -> (r: Self)
        ensures
            r@ == settings_with_id_spec(id),
    {
        let epoch = DateTime { year: 1, month: 1, day: 1, hour: 0, minute: 0, second: 0 };
        Settings {
            id,
            leader: LobbyLeader { name: Vec::new(), steam_id: 0 },
            map: Vec::new(),
            game_type: GameType::Sixes,
            location: Location::Europe,
            advanced: false,
            region_lock: false,
            allow_offclassing: false,
            balancing: false,
            restriction: Vec::new(),
            mumble_required: false,
            date: epoch.timestamp(),
            server: Vec::new(),
        }
    }
}

/// What a boolean setting text denotes.
pub open spec fn bool_from_spec(s: Seq<u8>) -> Option<bool> {
    if s == lk_btrue() {
        Some(true)
    } else if s == lk_bfalse() {
        Some(false)
    } else {
        None
    }
}

fn bool_from_bytes(s: &[u8]) -> (r: Option<bool>)
    ensures
        r == bool_from_spec(s@),
{
    let t = lk_btrue_bytes();
    let f = lk_bfalse_bytes();
    if bytes_eq(s, t.as_slice()) {
        Some(true)
    } else if bytes_eq(s, f.as_slice()) {
        Some(false)
    } else {
        None
    }
}

/// The month a three-letter name denotes.
pub open spec fn month_from_spec(s: Seq<u8>) -> Option<u32> {
    if s == lk_jan() {
        Some(1)
    } else if s == lk_feb() {
        Some(2)
    } else if s == lk_mar() {
        Some(3)
    } else if s == lk_apr() {
        Some(4)
    } else if s == lk_may() {
        Some(5)
    } else if s == lk_jun() {
        Some(6)
    } else if s == lk_jul() {
        Some(7)
    } else if s == lk_aug() {
        Some(8)
    } else if s == lk_sep() {
        Some(9)
    } else if s == lk_oct() {
        Some(10)
    } else if s == lk_nov() {
        Some(11)
    } else if s == lk_dec() {
        Some(12)
    } else {
        None
    }
}

fn month_from_bytes(s: &[u8]) -> (r: Option<u32>)
    ensures
        r == month_from_spec(s@),
        r matches Some(m) ==> 1 <= m <= 12,
{
    let names = [
        lk_jan_bytes(), lk_feb_bytes(), lk_mar_bytes(), lk_apr_bytes(), lk_may_bytes(),
        lk_jun_bytes(), lk_jul_bytes(), lk_aug_bytes(), lk_sep_bytes(), lk_oct_bytes(),
        lk_nov_bytes(), lk_dec_bytes(),
    ];
    if bytes_eq(s, names[0].as_slice()) {
        return Some(1);
    }
    if bytes_eq(s, names[1].as_slice()) {
        return Some(2);
    }
    if bytes_eq(s, names[2].as_slice()) {
        return Some(3);
    }
    if bytes_eq(s, names[3].as_slice()) {
        return Some(4);
    }
    if bytes_eq(s, names[4].as_slice()) {
        return Some(5);
    }
    if bytes_eq(s, names[5].as_slice()) {
        return Some(6);
    }
    if bytes_eq(s, names[6].as_slice()) {
        return Some(7);
    }
    if bytes_eq(s, names[7].as_slice()) {
        return Some(8);
    }
    if bytes_eq(s, names[8].as_slice()) {
        return Some(9);
    }
    if bytes_eq(s, names[9].as_slice()) {
        return Some(10);
    }
    if bytes_eq(s, names[10].as_slice()) {
        return Some(11);
    }
    if bytes_eq(s, names[11].as_slice()) {
        return Some(12);
    }
    None
}


/// The last start index of the two-byte pair `b0 b1` in `s`; `-1` if none.
pub open spec fn rfind2_idx(s: Seq<u8>, b0: u8, b1: u8) -> int
    decreases s.len(),
{
    if s.len() < 2 {
        -1
    } else if s[s.len() - 2] == b0 && s[s.len() - 1] == b1 {
        s.len() - 2
    } else {
        rfind2_idx(s.subrange(0, s.len() - 1), b0, b1)
    }
}

proof fn lemma_rfind2_idx(s: Seq<u8>, b0: u8, b1: u8)
    ensures
        -1 <= rfind2_idx(s, b0, b1) <= s.len() - 2 || rfind2_idx(s, b0, b1) == -1,
        rfind2_idx(s, b0, b1) >= 0 ==> rfind2_idx(s, b0, b1) + 2 <= s.len() && s[rfind2_idx(
            s,
            b0,
            b1,
        )] == b0 && s[rfind2_idx(s, b0, b1) + 1] == b1,
        forall|j: int|
            rfind2_idx(s, b0, b1) < j && j + 2 <= s.len() ==> !(#[trigger] s[j] == b0 && s[j + 1]
                == b1),
    decreases s.len(),
{
    if s.len() < 2 {
    } else if s[s.len() - 2] == b0 && s[s.len() - 1] == b1 {
    } else {
        let t = s.subrange(0, s.len() - 1);
        lemma_rfind2_idx(t, b0, b1);
        assert forall|j: int|
            rfind2_idx(s, b0, b1) < j && j + 2 <= s.len() implies !(#[trigger] s[j] == b0 && s[j
            + 1] == b1) by {
            if j + 2 <= s.len() - 1 {
                assert(t[j] == s[j]);
                assert(t[j + 1] == s[j + 1]);
            }
        }
    }
}

/// The last position of the two-byte pair in `s`, scanning from the right.
fn rfind2(s: &[u8], b0: u8, b1: u8) -> (r: Option<usize>)
    ensures
        match r {
            Some(i) => i == rfind2_idx(s@, b0, b1),
            None => rfind2_idx(s@, b0, b1) == -1,
        },
{
    proof {
        lemma_rfind2_idx(s@, b0, b1);
    }
    if s.len() < 2 {
        return None;
    }
    let mut i: usize = s.len() - 2;
    loop
        invariant
            0 <= i <= s@.len() - 2,
            forall|j: int|
                i < j && j + 2 <= s@.len() ==> !(#[trigger] s@[j] == b0 && s@[j + 1] == b1),
        decreases i,
    {
        if s[i] == b0 && s[i + 1] == b1 {
            proof {
                lemma_rfind2_idx(s@, b0, b1);
                let f = rfind2_idx(s@, b0, b1);
                if f < i {
                    assert(!(s@[i as int] == b0 && s@[i + 1] == b1));
                } else if (i as int) < f {
                    assert(s@[f] == b0 && s@[f + 1] == b1);
                }
            }
            return Some(i);
        }
        if i == 0 {
            proof {
                lemma_rfind2_idx(s@, b0, b1);
                let f = rfind2_idx(s@, b0, b1);
                if f > 0 {
                    assert(s@[f] == b0 && s@[f + 1] == b1);
                } else if f == 0 {
                    assert(s@[f] == b0 && s@[f + 1] == b1);
                }
            }
            return None;
        }
        i -= 1;
    }
}

/// A string with its trailing `)` bytes removed.
pub open spec fn trim_parens(s: Seq<u8>) -> Seq<u8>
    decreases s.len(),
{
    if s.len() > 0 && s[s.len() - 1] == ')' as u8 {
        trim_parens(s.subrange(0, s.len() - 1))
    } else {
        s
    }
}

fn trim_parens_bytes<'a>(s: &'a [u8]) -> (r: &'a [u8])
    ensures
        r@ == trim_parens(s@),
{
    let mut hi = s.len();
    proof {
        assert(s@.subrange(0, s@.len() as int) =~= s@);
    }
    while hi > 0 && s[hi - 1] == ')' as u8
        invariant
            0 <= hi <= s@.len(),
            trim_parens(s@) == trim_parens(s@.subrange(0, hi as int)),
        decreases hi,
    {
        proof {
            assert(s@.subrange(0, hi as int).subrange(0, hi - 1) =~= s@.subrange(0, hi - 1));
        }
        hi -= 1;
    }
    &s[0..hi]
}

/// What the leader line denotes: the name before the last ` (`, and the
/// steam64 number inside the parentheses.
pub open spec fn leader_from_spec(v: Seq<u8>) -> Result<LobbyLeaderV, LobbySettingsErrorV> {
    let r = rfind2_idx(v, ' ' as u8, '(' as u8);
    if r < 0 {
        Err(LobbySettingsErrorV::MalformedLeader(v))
    } else {
        let idtxt = trim_parens(v.subrange(r + 2, v.len() as int));
        match parse_u64_spec(idtxt) {
            Some(steam_id) => Ok(LobbyLeaderV { name: v.subrange(0, r), steam_id }),
            None => Err(LobbySettingsErrorV::MalformedLeader(v)),
        }
    }
}

fn leader_from_bytes(v: &[u8]) -> (r: Result<LobbyLeader, LobbySettingsError>)
    ensures
        match r {
            Ok(l) => leader_from_spec(v@) matches Ok(exp) && l@ == exp,
            Err(e) => leader_from_spec(v@) matches Err(expe) && e@ == expe,
        },
{
    match rfind2(v, ' ' as u8, '(' as u8) {
        None => Err(LobbySettingsError::MalformedLeader(vstd::slice::slice_to_vec(v))),
        Some(p) => {
            let n = v.len();
            proof {
                lemma_rfind2_idx(v@, ' ' as u8, '(' as u8);
            }
            assert(p + 2 <= n);
            let idtxt = trim_parens_bytes(&v[p + 2..n]);
            match parse_u64(idtxt) {
                Some(steam_id) => Ok(
                    LobbyLeader { name: vstd::slice::slice_to_vec(&v[0..p]), steam_id },
                ),
                None => Err(LobbySettingsError::MalformedLeader(vstd::slice::slice_to_vec(v))),
            }
        },
    }
}

/// The universal-time offset a date line announces: two hours in central
/// European summer time, one in winter; nothing for any other zone.
pub open spec fn tz_offset_spec(v: Seq<u8>) -> Option<u64> {
    if findseq_idx(v, lk_cest()) < v.len() {
        Some(7200)
    } else if findseq_idx(v, lk_cet()) < v.len() {
        Some(3600)
    } else {
        None
    }
}

fn tz_offset(v: &[u8]) -> (r: Option<u64>)
    ensures
        r == tz_offset_spec(v@),
{
    let cest = lk_cest_bytes();
    let cet = lk_cet_bytes();
    proof {
        lemma_findseq_idx(v@, lk_cest());
        lemma_findseq_idx(v@, lk_cet());
    }
    if find_needle(v, cest.as_slice()) < v.len() {
        Some(7200)
    } else if find_needle(v, cet.as_slice()) < v.len() {
        Some(3600)
    } else {
        None
    }
}

/// What a `weekday month day hh:mm:ss zone year` date line denotes, when its
/// six space-separated fields are well formed and in calendar range.
pub open spec fn datetime6_spec(v: Seq<u8>) -> Option<DateTime> {
    let k0 = find_idx(v, ' ' as u8);
    if k0 == v.len() {
        None
    } else {
        let v1 = v.subrange(k0 + 1, v.len() as int);
        let k1 = find_idx(v1, ' ' as u8);
        if k1 == v1.len() {
            None
        } else {
            let mon = month_from_spec(v1.subrange(0, k1));
            let v2 = v1.subrange(k1 + 1, v1.len() as int);
            let k2 = find_idx(v2, ' ' as u8);
            if k2 == v2.len() || mon is None {
                None
            } else {
                let day = parse_u32_spec(v2.subrange(0, k2));
                let v3 = v2.subrange(k2 + 1, v2.len() as int);
                let k3 = find_idx(v3, ' ' as u8);
                if k3 == v3.len() || day is None {
                    None
                } else {
                    let hms = v3.subrange(0, k3);
                    let v4 = v3.subrange(k3 + 1, v3.len() as int);
                    let k4 = find_idx(v4, ' ' as u8);
                    if k4 == v4.len() {
                        None
                    } else {
                        let year = parse_u32_spec(v4.subrange(k4 + 1, v4.len() as int));
                        if year is None || hms.len() != 8 || hms[2] != ':' as u8 || hms[5]
                            != ':' as u8 {
                            None
                        } else {
                            let hour = parse_u32_spec(hms.subrange(0, 2));
                            let minute = parse_u32_spec(hms.subrange(3, 5));
                            let second = parse_u32_spec(hms.subrange(6, 8));
                            if hour is None || minute is None || second is None {
                                None
                            } else {
                                let dt = DateTime {
                                    year: year->0,
                                    month: mon->0,
                                    day: day->0,
                                    hour: hour->0,
                                    minute: minute->0,
                                    second: second->0,
                                };
                                if dt.year <= 9999 && 1 <= dt.day <= 31 && dt.hour < 24
                                    && dt.minute < 60 && dt.second < 60 {
                                    Some(dt)
                                } else {
                                    None
                                }
                            }
                        }
                    }
                }
            }
        }
    }
}

fn datetime6(v: &[u8]) -> (r: Option<DateTime>)
    ensures
        r == datetime6_spec(v@),
        r matches Some(dt) ==> dt_bounded(dt),
{
    proof {
        lemma_find_idx(v@, ' ' as u8);
    }
    let (_, v1) = match crate::parsing::split_once(v, ' ' as u8, 1) {
        Ok(p) => p,
        Err(_) => {
            return None;
        },
    };
    proof {
        lemma_find_idx(v1@, ' ' as u8);
    }
    let (montxt, v2) = match crate::parsing::split_once(v1, ' ' as u8, 1) {
        Ok(p) => p,
        Err(_) => {
            return None;
        },
    };
    let mon = month_from_bytes(montxt);
    proof {
        lemma_find_idx(v2@, ' ' as u8);
    }
    let (daytxt, v3) = match crate::parsing::split_once(v2, ' ' as u8, 1) {
        Ok(p) => p,
        Err(_) => {
            return None;
        },
    };
    let mon = match mon {
        Some(m) => m,
        None => {
            return None;
        },
    };
    let day = parse_u32(daytxt);
    proof {
        lemma_find_idx(v3@, ' ' as u8);
    }
    let (hms, v4) = match crate::parsing::split_once(v3, ' ' as u8, 1) {
        Ok(p) => p,
        Err(_) => {
            return None;
        },
    };
    let day = match day {
        Some(d) => d,
        None => {
            return None;
        },
    };
    proof {
        lemma_find_idx(v4@, ' ' as u8);
    }
    let (_, yeartxt) = match crate::parsing::split_once(v4, ' ' as u8, 1) {
        Ok(p) => p,
        Err(_) => {
            return None;
        },
    };
    let year = match parse_u32(yeartxt) {
        Some(y) => y,
        None => {
            return None;
        },
    };
    if !(hms.len() == 8 && hms[2] == ':' as u8 && hms[5] == ':' as u8) {
        return None;
    }
    let hour = match parse_u32(&hms[0..2]) {
        Some(h) => h,
        None => {
            return None;
        },
    };
    let minute = match parse_u32(&hms[3..5]) {
        Some(m) => m,
        None => {
            return None;
        },
    };
    let second = match parse_u32(&hms[6..8]) {
        Some(sv) => sv,
        None => {
            return None;
        },
    };
    let dt = DateTime { year, month: mon, day, hour, minute, second };
    if dt.year <= 9999 && 1 <= dt.day && dt.day <= 31 && dt.hour < 24 && dt.minute < 60
        && dt.second < 60 {
        Some(dt)
    } else {
        None
    }
}


/// One reading step over one chat line. Before a lobby announcement arrives,
/// only a `TF2Center Lobby #<id> |` line moves the reader forward; afterwards
/// each `key: value` line fills its field, an unreadable value fails the
/// reader for good, and unknown keys are ignored.
pub open spec fn lobby_try_spec(st: LobbySettingsHandlerV, msg: Seq<u8>) -> LobbySettingsHandlerV {
    match st {
        LobbySettingsHandlerV::NotAvailable => {
            if lk_lobbyprefix().is_prefix_of(msg) {
                let rest = msg.subrange(lk_lobbyprefix().len() as int, msg.len() as int);
                let f = findseq_idx(rest, lk_pipesep());
                if f < rest.len() {
                    match parse_u32_spec(rest.subrange(0, f)) {
                        Some(id) => LobbySettingsHandlerV::Active(settings_with_id_spec(id)),
                        None => LobbySettingsHandlerV::Failed(LobbySettingsErrorV::InvalidInt),
                    }
                } else {
                    st
                }
            } else {
                st
            }
        },
        LobbySettingsHandlerV::Active(settings) => {
            let f = findseq_idx(msg, lk_colonsep());
            if f == msg.len() {
                st
            } else {
                let key = msg.subrange(0, f);
                let value = msg.subrange(f + 2, msg.len() as int);
                lobby_apply_spec(settings, key, value)
            }
        },
        LobbySettingsHandlerV::Failed(_) => st,
    }
}

/// The effect of one `key: value` line on the settings being filled in.
pub open spec fn lobby_apply_spec(
    settings: SettingsV,
    key: Seq<u8>,
    value: Seq<u8>,
) -> LobbySettingsHandlerV {
    if key == lk_leader() {
        match leader_from_spec(value) {
            Ok(l) => LobbySettingsHandlerV::Active(SettingsV { leader: l, ..settings }),
            Err(e) => LobbySettingsHandlerV::Failed(e),
        }
    } else if key == lk_map() {
        LobbySettingsHandlerV::Active(SettingsV { map: value, ..settings })
    } else if key == lk_gametype() {
        if value == lk_sixes() {
            LobbySettingsHandlerV::Active(SettingsV { game_type: GameType::Sixes, ..settings })
        } else if value == lk_highlander() {
            LobbySettingsHandlerV::Active(
                SettingsV { game_type: GameType::Highlander, ..settings },
            )
        } else {
            LobbySettingsHandlerV::Failed(LobbySettingsErrorV::UnknownGameType(value))
        }
    } else if key == lk_location() {
        if value == lk_europe() {
            LobbySettingsHandlerV::Active(SettingsV { location: Location::Europe, ..settings })
        } else if value == lk_northamerica() {
            LobbySettingsHandlerV::Active(
                SettingsV { location: Location::NorthAmerica, ..settings },
            )
        } else {
            LobbySettingsHandlerV::Failed(LobbySettingsErrorV::UnknownLocation(value))
        }
    } else if key == lk_advanced() {
        match bool_from_spec(value) {
            Some(b) => LobbySettingsHandlerV::Active(SettingsV { advanced: b, ..settings }),
            None => LobbySettingsHandlerV::Failed(LobbySettingsErrorV::InvalidBool),
        }
    } else if key == lk_regionlock() {
        match bool_from_spec(value) {
            Some(b) => LobbySettingsHandlerV::Active(SettingsV { region_lock: b, ..settings }),
            None => LobbySettingsHandlerV::Failed(LobbySettingsErrorV::InvalidBool),
        }
    } else if key == lk_offclassing() {
        match bool_from_spec(value) {
            Some(b) => LobbySettingsHandlerV::Active(
                SettingsV { allow_offclassing: b, ..settings },
            ),
            None => LobbySettingsHandlerV::Failed(LobbySettingsErrorV::InvalidBool),
        }
    } else if key == lk_balancing() {
        match bool_from_spec(value) {
            Some(b) => LobbySettingsHandlerV::Active(SettingsV { balancing: b, ..settings }),
            None => LobbySettingsHandlerV::Failed(LobbySettingsErrorV::InvalidBool),
        }
    } else if key == lk_restriction() {
        LobbySettingsHandlerV::Active(SettingsV { restriction: value, ..settings })
    } else if key == lk_mumble() {
        match bool_from_spec(value) {
            Some(b) => LobbySettingsHandlerV::Active(
                SettingsV { mumble_required: b, ..settings },
            ),
            None => LobbySettingsHandlerV::Failed(LobbySettingsErrorV::InvalidBool),
        }
    } else if key == lk_launchdate() {
        match tz_offset_spec(value) {
            None => LobbySettingsHandlerV::Failed(LobbySettingsErrorV::UnknownTimezone(value)),
            Some(offset) => match datetime6_spec(value) {
                None => LobbySettingsHandlerV::Failed(LobbySettingsErrorV::InvalidDate),
                Some(dt) => LobbySettingsHandlerV::Active(
                    SettingsV { date: (timestamp_spec(dt) - offset) as u64, ..settings },
                ),
            },
        }
    } else if key == lk_server() {
        LobbySettingsHandlerV::Active(SettingsV { server: value, ..settings })
    } else {
        LobbySettingsHandlerV::Active(settings)
    }
}

/// The event tags the lobby reader consumes.
pub open spec fn lobby_does_handle_spec(ty: RawEventType) -> bool {
    ty == RawEventType::Say
}

/// What the reader yields on completion: nothing before any announcement, the
/// settings once filled, or the error that stopped the reading.
pub open spec fn lobby_finish_spec(st: LobbySettingsHandlerV) -> Option<
    Result<SettingsV, LobbySettingsErrorV>,
> {
    match st {
        LobbySettingsHandlerV::NotAvailable => None,
        LobbySettingsHandlerV::Active(settings) => Some(Ok(settings)),
        LobbySettingsHandlerV::Failed(e) => Some(Err(e)),
    }
}

impl LobbySettingsHandler {
    pub fn new() -> (r: Self)
        ensures
            r@ == LobbySettingsHandlerV::NotAvailable,
    {
        LobbySettingsHandler::NotAvailable
    }

    pub fn does_handle(ty: RawEventType) -> (r: bool)
        ensures
            r == lobby_does_handle_spec(ty),
    {
        match ty {
            RawEventType::Say => true,
            _ => false,
        }
    }

    /// Reads one chat line into the lobby state machine.
    pub fn try_handle(&mut self, msg: &[u8])
        ensures
            final(self)@ == lobby_try_spec(old(self)@, msg@),
    {
        match self {
            LobbySettingsHandler::NotAvailable => {
                let prefix = lk_lobbyprefix_bytes();
                if starts_with(msg, prefix.as_slice()) {
                    let rest = &msg[prefix.len()..msg.len()];
                    let pipe = lk_pipesep_bytes();
                    proof {
                        lemma_findseq_idx(rest@, lk_pipesep());
                    }
                    let f = find_needle(rest, pipe.as_slice());
                    if f < rest.len() {
                        match parse_u32(&rest[0..f]) {
                            Some(id) => {
                                *self = LobbySettingsHandler::Active(Settings::with_id(id));
                            },
                            None => {
                                *self = LobbySettingsHandler::Failed(
                                    LobbySettingsError::InvalidInt,
                                );
                            },
                        }
                    }
                }
            },
            LobbySettingsHandler::Active(settings) => {
                let sep = lk_colonsep_bytes();
                proof {
                    lemma_findseq_idx(msg@, lk_colonsep());
                }
                let f = find_needle(msg, sep.as_slice());
                if f < msg.len() {
                    let key = &msg[0..f];
                    let value = &msg[f + 2..msg.len()];
                    let next = lobby_apply(settings, key, value);
                    *self = next;
                }
            },
            LobbySettingsHandler::Failed(_) => {},
        }
    }

    /// Consumes a say event spoken by the console.
    pub fn handle_event(&mut self, meta: &EventMeta, subject: SubjectId, event: &GameEvent)
        ensures
            final(self)@ == (match (subject, event@) {
                (SubjectId::Console, GameEventV::Say(m)) => lobby_try_spec(old(self)@, m.text),
                _ => old(self)@,
            }),
    {
        match (subject, event) {
            (SubjectId::Console, GameEvent::Say(m)) => {
                self.try_handle(m.text);
            },
            _ => {},
        }
    }

    /// Closes the reading and yields what was learned.
    pub fn finish(self) -> (r: Option<Result<Settings, LobbySettingsError>>)
        ensures
            ({
                let exp = lobby_finish_spec(self@);
                match r {
                    None => exp is None,
                    Some(Ok(settings)) => (exp matches Some(inner) && inner matches Ok(sv)
                        && settings@ == sv),
                    Some(Err(e)) => (exp matches Some(inner) && inner matches Err(ev) && e@
                        == ev),
                }
            }),
    {
        match self {
            LobbySettingsHandler::NotAvailable => None,
            LobbySettingsHandler::Active(settings) => Some(Ok(settings)),
            LobbySettingsHandler::Failed(e) => Some(Err(e)),
        }
    }
}

/// Applies one `key: value` line to the settings being filled in.
#[verifier::rlimit(100)]
fn lobby_apply(settings: &Settings, key: &[u8], value: &[u8]) -> (r: LobbySettingsHandler)
    ensures
        r@ == lobby_apply_spec(settings@, key@, value@),
{
    if bytes_eq(key, lk_leader_bytes().as_slice()) {
        match leader_from_bytes(value) {
            Ok(l) => LobbySettingsHandler::Active(
                Settings { leader: l, ..clone_settings(settings) },
            ),
            Err(e) => LobbySettingsHandler::Failed(e),
        }
    } else if bytes_eq(key, lk_map_bytes().as_slice()) {
        LobbySettingsHandler::Active(
            Settings { map: vstd::slice::slice_to_vec(value), ..clone_settings(settings) },
        )
    } else if bytes_eq(key, lk_gametype_bytes().as_slice()) {
        if bytes_eq(value, lk_sixes_bytes().as_slice()) {
            LobbySettingsHandler::Active(
                Settings { game_type: GameType::Sixes, ..clone_settings(settings) },
            )
        } else if bytes_eq(value, lk_highlander_bytes().as_slice()) {
            LobbySettingsHandler::Active(
                Settings { game_type: GameType::Highlander, ..clone_settings(settings) },
            )
        } else {
            LobbySettingsHandler::Failed(
                LobbySettingsError::UnknownGameType(vstd::slice::slice_to_vec(value)),
            )
        }
    } else if bytes_eq(key, lk_location_bytes().as_slice()) {
        if bytes_eq(value, lk_europe_bytes().as_slice()) {
            LobbySettingsHandler::Active(
                Settings { location: Location::Europe, ..clone_settings(settings) },
            )
        } else if bytes_eq(value, lk_northamerica_bytes().as_slice()) {
            LobbySettingsHandler::Active(
                Settings { location: Location::NorthAmerica, ..clone_settings(settings) },
            )
        } else {
            LobbySettingsHandler::Failed(
                LobbySettingsError::UnknownLocation(vstd::slice::slice_to_vec(value)),
            )
        }
    } else if bytes_eq(key, lk_advanced_bytes().as_slice()) {
        match bool_from_bytes(value) {
            Some(b) => LobbySettingsHandler::Active(
                Settings { advanced: b, ..clone_settings(settings) },
            ),
            None => LobbySettingsHandler::Failed(LobbySettingsError::InvalidBool),
        }
    } else if bytes_eq(key, lk_regionlock_bytes().as_slice()) {
        match bool_from_bytes(value) {
            Some(b) => LobbySettingsHandler::Active(
                Settings { region_lock: b, ..clone_settings(settings) },
            ),
            None => LobbySettingsHandler::Failed(LobbySettingsError::InvalidBool),
        }
    } else if bytes_eq(key, lk_offclassing_bytes().as_slice()) {
        match bool_from_bytes(value) {
            Some(b) => LobbySettingsHandler::Active(
                Settings { allow_offclassing: b, ..clone_settings(settings) },
            ),
            None => LobbySettingsHandler::Failed(LobbySettingsError::InvalidBool),
        }
    } else if bytes_eq(key, lk_balancing_bytes().as_slice()) {
        match bool_from_bytes(value) {
            Some(b) => LobbySettingsHandler::Active(
                Settings { balancing: b, ..clone_settings(settings) },
            ),
            None => LobbySettingsHandler::Failed(LobbySettingsError::InvalidBool),
        }
    } else if bytes_eq(key, lk_restriction_bytes().as_slice()) {
        LobbySettingsHandler::Active(
            Settings {
                restriction: vstd::slice::slice_to_vec(value),
                ..clone_settings(settings)
            },
        )
    } else if bytes_eq(key, lk_mumble_bytes().as_slice()) {
        match bool_from_bytes(value) {
            Some(b) => LobbySettingsHandler::Active(
                Settings { mumble_required: b, ..clone_settings(settings) },
            ),
            None => LobbySettingsHandler::Failed(LobbySettingsError::InvalidBool),
        }
    } else if bytes_eq(key, lk_launchdate_bytes().as_slice()) {
        match tz_offset(value) {
            None => LobbySettingsHandler::Failed(
                LobbySettingsError::UnknownTimezone(vstd::slice::slice_to_vec(value)),
            ),
            Some(offset) => match datetime6(value) {
                None => LobbySettingsHandler::Failed(LobbySettingsError::InvalidDate),
                Some(dt) => {
                    let ts = dt.timestamp();
                    LobbySettingsHandler::Active(
                        Settings { date: ts - offset, ..clone_settings(settings) },
                    )
                },
            },
        }
    } else if bytes_eq(key, lk_server_bytes().as_slice()) {
        LobbySettingsHandler::Active(
            Settings { server: vstd::slice::slice_to_vec(value), ..clone_settings(settings) },
        )
    } else {
        LobbySettingsHandler::Active(clone_settings(settings))
    }
}

/// A field-for-field copy of the settings.
fn clone_settings(s: &Settings) -> (r: Settings)
    ensures
        r@ == s@,
{
    Settings {
        id: s.id,
        leader: LobbyLeader {
            name: vstd::slice::slice_to_vec(s.leader.name.as_slice()),
            steam_id: s.leader.steam_id,
        },
        map: vstd::slice::slice_to_vec(s.map.as_slice()),
        game_type: s.game_type,
        location: s.location,
        advanced: s.advanced,
        region_lock: s.region_lock,
        allow_offclassing: s.allow_offclassing,
        balancing: s.balancing,
        restriction: vstd::slice::slice_to_vec(s.restriction.as_slice()),
        mumble_required: s.mumble_required,
        date: s.date,
        server: vstd::slice::slice_to_vec(s.server.as_slice()),
    }
}


/// Runs the lobby reader as a handler stack of its own: all its state is
/// whole-match state and the per-subject cells are unit.
pub struct LobbyHandler {
    pub settings: LobbySettingsHandler,
}

impl LobbyHandler {
    pub fn new() -> (r: Self)
        ensures
            r.settings@ == LobbySettingsHandlerV::NotAvailable,
    {
        LobbyHandler { settings: LobbySettingsHandler::new() }
    }
}

impl crate::module::EventHandler for LobbyHandler {
    type GlobalOutput = Option<Result<Settings, LobbySettingsError>>;

    type PerSubjectData = ();

    type PerSubjectOutput = ();

    fn does_handle(ty: RawEventType) -> bool {
        LobbySettingsHandler::does_handle(ty)
    }

    fn fresh(&self) -> () {
        ()
    }

    fn handle(
        &mut self,
        meta: &EventMeta,
        subject: SubjectId,
        subject_data: &mut (),
        event: &GameEvent,
    ) {
        self.settings.handle_event(meta, subject, event);
    }

    fn finish_global(self, subjects: &crate::subjectmap::SubjectMap<()>) -> Option<
        Result<Settings, LobbySettingsError>,
    > {
        self.settings.finish()
    }

    fn finish_per_subject(&mut self, subject: &SubjectData, data: ()) -> () {
        ()
    }
}

} // verus!

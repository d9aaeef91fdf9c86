use vstd::prelude::*;

use crate::parsing::bytes_eq;

verus! {

pub open spec fn key_against() -> Seq<u8> {
    seq!['a' as u8, 'g' as u8, 'a' as u8, 'i' as u8, 'n' as u8, 's' as u8, 't' as u8]
}

pub fn is_key_against(s: &[u8]) -> (r: bool)
    ensures
        r <==> s@ == key_against(),
{
    let mut k: Vec<u8> = Vec::new();
    k.push('a' as u8);
    k.push('g' as u8);
    k.push('a' as u8);
    k.push('i' as u8);
    k.push('n' as u8);
    k.push('s' as u8);
    k.push('t' as u8);
    proof { assert(k@ =~= key_against()); }
    bytes_eq(s, k.as_slice())
}

pub open spec fn key_as() -> Seq<u8> {
    seq!['a' as u8, 's' as u8]
}

pub fn is_key_as(s: &[u8]) -> (r: bool)
    ensures
        r <==> s@ == key_as(),
{
    let mut k: Vec<u8> = Vec::new();
    k.push('a' as u8);
    k.push('s' as u8);
    proof { assert(k@ =~= key_as()); }
    bytes_eq(s, k.as_slice())
}

pub open spec fn key_attacker_position() -> Seq<u8> {
    seq!['a' as u8, 't' as u8, 't' as u8, 'a' as u8, 'c' as u8, 'k' as u8, 'e' as u8, 'r' as u8, '_' as u8, 'p' as u8, 'o' as u8, 's' as u8, 'i' as u8, 't' as u8, 'i' as u8, 'o' as u8, 'n' as u8]
}

pub fn is_key_attacker_position(s: &[u8]) -> (r: bool)
    ensures
        r <==> s@ == key_attacker_position(),
{
    let mut k: Vec<u8> = Vec::new();
    k.push('a' as u8);
    k.push('t' as u8);
    k.push('t' as u8);
    k.push('a' as u8);
    k.push('c' as u8);
    k.push('k' as u8);
    k.push('e' as u8);
    k.push('r' as u8);
    k.push('_' as u8);
    k.push('p' as u8);
    k.push('o' as u8);
    k.push('s' as u8);
    k.push('i' as u8);
    k.push('t' as u8);
    k.push('i' as u8);
    k.push('o' as u8);
    k.push('n' as u8);
    proof { assert(k@ =~= key_attacker_position()); }
    bytes_eq(s, k.as_slice())
}

pub open spec fn key_charge_percentage() -> Seq<u8> {
    seq!['c' as u8, 'h' as u8, 'a' as u8, 'r' as u8, 'g' as u8, 'e' as u8, '_' as u8, 'p' as u8, 'e' as u8, 'r' as u8, 'c' as u8, 'e' as u8, 'n' as u8, 't' as u8, 'a' as u8, 'g' as u8, 'e' as u8]
}

pub fn is_key_charge_percentage(s: &[u8]) -> (r: bool)
    ensures
        r <==> s@ == key_charge_percentage(),
{
    let mut k: Vec<u8> = Vec::new();
    k.push('c' as u8);
    k.push('h' as u8);
    k.push('a' as u8);
    k.push('r' as u8);
    k.push('g' as u8);
    k.push('e' as u8);
    k.push('_' as u8);
    k.push('p' as u8);
    k.push('e' as u8);
    k.push('r' as u8);
    k.push('c' as u8);
    k.push('e' as u8);
    k.push('n' as u8);
    k.push('t' as u8);
    k.push('a' as u8);
    k.push('g' as u8);
    k.push('e' as u8);
    proof { assert(k@ =~= key_charge_percentage()); }
    bytes_eq(s, k.as_slice())
}

pub open spec fn key_cp() -> Seq<u8> {
    seq!['c' as u8, 'p' as u8]
}

pub fn is_key_cp(s: &[u8]) -> (r: bool)
    ensures
        r <==> s@ == key_cp(),
{
    let mut k: Vec<u8> = Vec::new();
    k.push('c' as u8);
    k.push('p' as u8);
    proof { assert(k@ =~= key_cp()); }
    bytes_eq(s, k.as_slice())
}

pub open spec fn key_cpname() -> Seq<u8> {
    seq!['c' as u8, 'p' as u8, 'n' as u8, 'a' as u8, 'm' as u8, 'e' as u8]
}

pub fn is_key_cpname(s: &[u8]) -> (r: bool)
    ensures
        r <==> s@ == key_cpname(),
{
    let mut k: Vec<u8> = Vec::new();
    k.push('c' as u8);
    k.push('p' as u8);
    k.push('n' as u8);
    k.push('a' as u8);
    k.push('m' as u8);
    k.push('e' as u8);
    proof { assert(k@ =~= key_cpname()); }
    bytes_eq(s, k.as_slice())
}

pub open spec fn key_damage() -> Seq<u8> {
    seq!['d' as u8, 'a' as u8, 'm' as u8, 'a' as u8, 'g' as u8, 'e' as u8]
}

pub fn is_key_damage(s: &[u8]) -> (r: bool)
    ensures
        r <==> s@ == key_damage(),
{
    let mut k: Vec<u8> = Vec::new();
    k.push('d' as u8);
    k.push('a' as u8);
    k.push('m' as u8);
    k.push('a' as u8);
    k.push('g' as u8);
    k.push('e' as u8);
    proof { assert(k@ =~= key_damage()); }
    bytes_eq(s, k.as_slice())
}

pub open spec fn key_duration() -> Seq<u8> {
    seq!['d' as u8, 'u' as u8, 'r' as u8, 'a' as u8, 't' as u8, 'i' as u8, 'o' as u8, 'n' as u8]
}

pub fn is_key_duration(s: &[u8]) -> (r: bool)
    ensures
        r <==> s@ == key_duration(),
{
    let mut k: Vec<u8> = Vec::new();
    k.push('d' as u8);
    k.push('u' as u8);
    k.push('r' as u8);
    k.push('a' as u8);
    k.push('t' as u8);
    k.push('i' as u8);
    k.push('o' as u8);
    k.push('n' as u8);
    proof { assert(k@ =~= key_duration()); }
    bytes_eq(s, k.as_slice())
}

pub open spec fn key_file() -> Seq<u8> {
    seq!['f' as u8, 'i' as u8, 'l' as u8, 'e' as u8]
}

pub fn is_key_file(s: &[u8]) -> (r: bool)
    ensures
        r <==> s@ == key_file(),
{
    let mut k: Vec<u8> = Vec::new();
    k.push('f' as u8);
    k.push('i' as u8);
    k.push('l' as u8);
    k.push('e' as u8);
    proof { assert(k@ =~= key_file()); }
    bytes_eq(s, k.as_slice())
}

pub open spec fn key_game() -> Seq<u8> {
    seq!['g' as u8, 'a' as u8, 'm' as u8, 'e' as u8]
}

pub fn is_key_game(s: &[u8]) -> (r: bool)
    ensures
        r <==> s@ == key_game(),
{
    let mut k: Vec<u8> = Vec::new();
    k.push('g' as u8);
    k.push('a' as u8);
    k.push('m' as u8);
    k.push('e' as u8);
    proof { assert(k@ =~= key_game()); }
    bytes_eq(s, k.as_slice())
}

pub open spec fn key_healing() -> Seq<u8> {
    seq!['h' as u8, 'e' as u8, 'a' as u8, 'l' as u8, 'i' as u8, 'n' as u8, 'g' as u8]
}

pub fn is_key_healing(s: &[u8]) -> (r: bool)
    ensures
        r <==> s@ == key_healing(),
{
    let mut k: Vec<u8> = Vec::new();
    k.push('h' as u8);
    k.push('e' as u8);
    k.push('a' as u8);
    k.push('l' as u8);
    k.push('i' as u8);
    k.push('n' as u8);
    k.push('g' as u8);
    proof { assert(k@ =~= key_healing()); }
    bytes_eq(s, k.as_slice())
}

pub open spec fn key_medigun() -> Seq<u8> {
    seq!['m' as u8, 'e' as u8, 'd' as u8, 'i' as u8, 'g' as u8, 'u' as u8, 'n' as u8]
}

pub fn is_key_medigun(s: &[u8]) -> (r: bool)
    ensures
        r <==> s@ == key_medigun(),
{
    let mut k: Vec<u8> = Vec::new();
    k.push('m' as u8);
    k.push('e' as u8);
    k.push('d' as u8);
    k.push('i' as u8);
    k.push('g' as u8);
    k.push('u' as u8);
    k.push('n' as u8);
    proof { assert(k@ =~= key_medigun()); }
    bytes_eq(s, k.as_slice())
}

pub open spec fn key_object() -> Seq<u8> {
    seq!['o' as u8, 'b' as u8, 'j' as u8, 'e' as u8, 'c' as u8, 't' as u8]
}

pub fn is_key_object(s: &[u8]) -> (r: bool)
    ensures
        r <==> s@ == key_object(),
{
    let mut k: Vec<u8> = Vec::new();
    k.push('o' as u8);
    k.push('b' as u8);
    k.push('j' as u8);
    k.push('e' as u8);
    k.push('c' as u8);
    k.push('t' as u8);
    proof { assert(k@ =~= key_object()); }
    bytes_eq(s, k.as_slice())
}

pub open spec fn key_objectowner() -> Seq<u8> {
    seq!['o' as u8, 'b' as u8, 'j' as u8, 'e' as u8, 'c' as u8, 't' as u8, 'o' as u8, 'w' as u8, 'n' as u8, 'e' as u8, 'r' as u8]
}

pub fn is_key_objectowner(s: &[u8]) -> (r: bool)
    ensures
        r <==> s@ == key_objectowner(),
{
    let mut k: Vec<u8> = Vec::new();
    k.push('o' as u8);
    k.push('b' as u8);
    k.push('j' as u8);
    k.push('e' as u8);
    k.push('c' as u8);
    k.push('t' as u8);
    k.push('o' as u8);
    k.push('w' as u8);
    k.push('n' as u8);
    k.push('e' as u8);
    k.push('r' as u8);
    proof { assert(k@ =~= key_objectowner()); }
    bytes_eq(s, k.as_slice())
}

pub open spec fn key_position() -> Seq<u8> {
    seq!['p' as u8, 'o' as u8, 's' as u8, 'i' as u8, 't' as u8, 'i' as u8, 'o' as u8, 'n' as u8]
}

pub fn is_key_position(s: &[u8]) -> (r: bool)
    ensures
        r <==> s@ == key_position(),
{
    let mut k: Vec<u8> = Vec::new();
    k.push('p' as u8);
    k.push('o' as u8);
    k.push('s' as u8);
    k.push('i' as u8);
    k.push('t' as u8);
    k.push('i' as u8);
    k.push('o' as u8);
    k.push('n' as u8);
    proof { assert(k@ =~= key_position()); }
    bytes_eq(s, k.as_slice())
}

pub open spec fn key_realdamage() -> Seq<u8> {
    seq!['r' as u8, 'e' as u8, 'a' as u8, 'l' as u8, 'd' as u8, 'a' as u8, 'm' as u8, 'a' as u8, 'g' as u8, 'e' as u8]
}

pub fn is_key_realdamage(s: &[u8]) -> (r: bool)
    ensures
        r <==> s@ == key_realdamage(),
{
    let mut k: Vec<u8> = Vec::new();
    k.push('r' as u8);
    k.push('e' as u8);
    k.push('a' as u8);
    k.push('l' as u8);
    k.push('d' as u8);
    k.push('a' as u8);
    k.push('m' as u8);
    k.push('a' as u8);
    k.push('g' as u8);
    k.push('e' as u8);
    proof { assert(k@ =~= key_realdamage()); }
    bytes_eq(s, k.as_slice())
}

pub open spec fn key_reason() -> Seq<u8> {
    seq!['r' as u8, 'e' as u8, 'a' as u8, 's' as u8, 'o' as u8, 'n' as u8]
}

pub fn is_key_reason(s: &[u8]) -> (r: bool)
    ensures
        r <==> s@ == key_reason(),
{
    let mut k: Vec<u8> = Vec::new();
    k.push('r' as u8);
    k.push('e' as u8);
    k.push('a' as u8);
    k.push('s' as u8);
    k.push('o' as u8);
    k.push('n' as u8);
    proof { assert(k@ =~= key_reason()); }
    bytes_eq(s, k.as_slice())
}

pub open spec fn key_seconds() -> Seq<u8> {
    seq!['s' as u8, 'e' as u8, 'c' as u8, 'o' as u8, 'n' as u8, 'd' as u8, 's' as u8]
}

pub fn is_key_seconds(s: &[u8]) -> (r: bool)
    ensures
        r <==> s@ == key_seconds(),
{
    let mut k: Vec<u8> = Vec::new();
    k.push('s' as u8);
    k.push('e' as u8);
    k.push('c' as u8);
    k.push('o' as u8);
    k.push('n' as u8);
    k.push('d' as u8);
    k.push('s' as u8);
    proof { assert(k@ =~= key_seconds()); }
    bytes_eq(s, k.as_slice())
}

pub open spec fn key_time() -> Seq<u8> {
    seq!['t' as u8, 'i' as u8, 'm' as u8, 'e' as u8]
}

pub fn is_key_time(s: &[u8]) -> (r: bool)
    ensures
        r <==> s@ == key_time(),
{
    let mut k: Vec<u8> = Vec::new();
    k.push('t' as u8);
    k.push('i' as u8);
    k.push('m' as u8);
    k.push('e' as u8);
    proof { assert(k@ =~= key_time()); }
    bytes_eq(s, k.as_slice())
}

pub open spec fn key_to() -> Seq<u8> {
    seq!['t' as u8, 'o' as u8]
}

pub fn is_key_to(s: &[u8]) -> (r: bool)
    ensures
        r <==> s@ == key_to(),
{
    let mut k: Vec<u8> = Vec::new();
    k.push('t' as u8);
    k.push('o' as u8);
    proof { assert(k@ =~= key_to()); }
    bytes_eq(s, k.as_slice())
}

pub open spec fn key_ubercharge() -> Seq<u8> {
    seq!['u' as u8, 'b' as u8, 'e' as u8, 'r' as u8, 'c' as u8, 'h' as u8, 'a' as u8, 'r' as u8, 'g' as u8, 'e' as u8]
}

pub fn is_key_ubercharge(s: &[u8]) -> (r: bool)
    ensures
        r <==> s@ == key_ubercharge(),
{
    let mut k: Vec<u8> = Vec::new();
    k.push('u' as u8);
    k.push('b' as u8);
    k.push('e' as u8);
    k.push('r' as u8);
    k.push('c' as u8);
    k.push('h' as u8);
    k.push('a' as u8);
    k.push('r' as u8);
    k.push('g' as u8);
    k.push('e' as u8);
    proof { assert(k@ =~= key_ubercharge()); }
    bytes_eq(s, k.as_slice())
}

pub open spec fn key_version() -> Seq<u8> {
    seq!['v' as u8, 'e' as u8, 'r' as u8, 's' as u8, 'i' as u8, 'o' as u8, 'n' as u8]
}

pub fn is_key_version(s: &[u8]) -> (r: bool)
    ensures
        r <==> s@ == key_version(),
{
    let mut k: Vec<u8> = Vec::new();
    k.push('v' as u8);
    k.push('e' as u8);
    k.push('r' as u8);
    k.push('s' as u8);
    k.push('i' as u8);
    k.push('o' as u8);
    k.push('n' as u8);
    proof { assert(k@ =~= key_version()); }
    bytes_eq(s, k.as_slice())
}

pub open spec fn key_victim_position() -> Seq<u8> {
    seq!['v' as u8, 'i' as u8, 'c' as u8, 't' as u8, 'i' as u8, 'm' as u8, '_' as u8, 'p' as u8, 'o' as u8, 's' as u8, 'i' as u8, 't' as u8, 'i' as u8, 'o' as u8, 'n' as u8]
}

pub fn is_key_victim_position(s: &[u8]) -> (r: bool)
    ensures
        r <==> s@ == key_victim_position(),
{
    let mut k: Vec<u8> = Vec::new();
    k.push('v' as u8);
    k.push('i' as u8);
    k.push('c' as u8);
    k.push('t' as u8);
    k.push('i' as u8);
    k.push('m' as u8);
    k.push('_' as u8);
    k.push('p' as u8);
    k.push('o' as u8);
    k.push('s' as u8);
    k.push('i' as u8);
    k.push('t' as u8);
    k.push('i' as u8);
    k.push('o' as u8);
    k.push('n' as u8);
    proof { assert(k@ =~= key_victim_position()); }
    bytes_eq(s, k.as_slice())
}

pub open spec fn key_weapon() -> Seq<u8> {
    seq!['w' as u8, 'e' as u8, 'a' as u8, 'p' as u8, 'o' as u8, 'n' as u8]
}

pub fn is_key_weapon(s: &[u8]) -> (r: bool)
    ensures
        r <==> s@ == key_weapon(),
{
    let mut k: Vec<u8> = Vec::new();
    k.push('w' as u8);
    k.push('e' as u8);
    k.push('a' as u8);
    k.push('p' as u8);
    k.push('o' as u8);
    k.push('n' as u8);
    proof { assert(k@ =~= key_weapon()); }
    bytes_eq(s, k.as_slice())
}

pub open spec fn key_winner() -> Seq<u8> {
    seq!['w' as u8, 'i' as u8, 'n' as u8, 'n' as u8, 'e' as u8, 'r' as u8]
}

pub fn is_key_winner(s: &[u8]) -> (r: bool)
    ensures
        r <==> s@ == key_winner(),
{
    let mut k: Vec<u8> = Vec::new();
    k.push('w' as u8);
    k.push('i' as u8);
    k.push('n' as u8);
    k.push('n' as u8);
    k.push('e' as u8);
    k.push('r' as u8);
    proof { assert(k@ =~= key_winner()); }
    bytes_eq(s, k.as_slice())
}

pub open spec fn key_numcappers() -> Seq<u8> {
    seq!['n' as u8, 'u' as u8, 'm' as u8, 'c' as u8, 'a' as u8, 'p' as u8, 'p' as u8, 'e' as u8, 'r' as u8, 's' as u8]
}

pub fn is_key_numcappers(s: &[u8]) -> (r: bool)
    ensures
        r <==> s@ == key_numcappers(),
{
    let mut k: Vec<u8> = Vec::new();
    k.push('n' as u8);
    k.push('u' as u8);
    k.push('m' as u8);
    k.push('c' as u8);
    k.push('a' as u8);
    k.push('p' as u8);
    k.push('p' as u8);
    k.push('e' as u8);
    k.push('r' as u8);
    k.push('s' as u8);
    proof { assert(k@ =~= key_numcappers()); }
    bytes_eq(s, k.as_slice())
}

} // verus!

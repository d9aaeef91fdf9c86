use vstd::prelude::*;

verus! {

/// The steam64 value of an individual account in the public universe with the
/// desktop instance: the account id in the low 32 bits, under fixed high bits.
pub open spec fn steam64_of_account(account: u32) -> u64 {
    (account as u64) | 0x0110_0001_0000_0000u64
}

/// The account id held in the low 32 bits of a steam64 value.
pub open spec fn account_of(id: u64) -> u32 {
    (id % 0x1_0000_0000) as u32
}

/// What decoding a steam3-formatted textual id yields.
pub uninterp spec fn steam3_decode(s: Seq<u8>) -> Option<u64>;

/// What decoding a steam2-formatted textual id yields.
pub uninterp spec fn steam2_decode(s: Seq<u8>) -> Option<u64>;

/// The canonical steam3 rendering of a steam64 value.
pub uninterp spec fn steam3_of(id: u64) -> Seq<char>;

/// Relies on steamid_ng::SteamID::from_steam3 (with u64::from): decodes a
/// steam3-formatted id such as `[U:1:22202]`; the result is a function of the
/// bytes alone. Bytes that are not UTF-8 decode to nothing.
#[verifier::external_body]
pub(crate) fn steam3_parse(s: &[u8]) -> (r: Option<u64>)
    ensures
        r == steam3_decode(s@),
{
    match core::str::from_utf8(s) {
        Ok(text) => steamid_ng::SteamID::from_steam3(text).ok().map(u64::from),
        Err(_) => None,
    }
}

/// Relies on steamid_ng::SteamID::from_steam2 (with u64::from): decodes a
/// steam2-formatted id such as `STEAM_1:0:11101`; the result is a function of
/// the bytes alone. Bytes that are not UTF-8 decode to nothing.
#[verifier::external_body]
pub(crate) fn steam2_parse(s: &[u8]) -> (r: Option<u64>)
    ensures
        r == steam2_decode(s@),
{
    match core::str::from_utf8(s) {
        Ok(text) => steamid_ng::SteamID::from_steam2(text).ok().map(u64::from),
        Err(_) => None,
    }
}

/// Relies on steamid_ng::SteamID::new (with u64::from): packs an account id
/// with the individual account type, desktop instance and public universe, as
/// the low-32-bits-or-fixed-high-bits value that `steam64_of_account` states.
#[verifier::external_body]
pub(crate) fn individual_steam64(account: u32) -> (r: u64)
    ensures
        r == steam64_of_account(account),
{
    u64::from(
        steamid_ng::SteamID::new(
            account,
            steamid_ng::Instance::new(steamid_ng::InstanceType::Desktop, steamid_ng::InstanceFlags::None),
            steamid_ng::AccountType::Individual,
            steamid_ng::Universe::Public,
        ),
    )
}

/// Relies on steamid_ng::SteamID::steam3 (with SteamID::try_from): the
/// canonical steam3 text of a steam64 value; a function of the value alone.
/// Values whose account-type or universe bits are invalid render as empty.
#[verifier::external_body]
pub(crate) fn steam3_render(id: u64) -> (r: String)
    ensures
        r@ == steam3_of(id),
{
    match steamid_ng::SteamID::try_from(id) {
        Ok(sid) => sid.steam3(),
        Err(_) => String::new(),
    }
}

/// Decodes a textual steam id, steam3 form first, then steam2.
pub open spec fn steam_decode_spec(s: Seq<u8>) -> Option<u64> {
    if steam3_decode(s) is Some {
        steam3_decode(s)
    } else {
        steam2_decode(s)
    }
}

/// Decodes a textual steam id in either documented format.
pub fn steam_parse(s: &[u8]) -> (r: Option<u64>)
    ensures
        r == steam_decode_spec(s@),
{
    match steam3_parse(s) {
        Some(v) => Some(v),
        None => steam2_parse(s),
    }
}

/// The low 32 bits of a steam64 value: its account id.
pub fn account_id(id: u64) -> (r: u32)
    ensures
        r == account_of(id),
{
    (id % 0x1_0000_0000) as u32
}

/// Packing an account id keeps distinct accounts distinct.
pub proof fn lemma_steam64_injective(a: u32, b: u32)
    ensures
        steam64_of_account(a) == steam64_of_account(b) ==> a == b,
        account_of(steam64_of_account(a)) == a,
        steam64_of_account(a) >= 0x0110_0001_0000_0000u64,
{
    assert(((a as u64) | 0x0110_0001_0000_0000u64) % 0x1_0000_0000 == a) by (bit_vector);
    assert(((b as u64) | 0x0110_0001_0000_0000u64) % 0x1_0000_0000 == b) by (bit_vector);
    assert(((a as u64) | 0x0110_0001_0000_0000u64) >= 0x0110_0001_0000_0000u64) by (bit_vector);
}

} // verus!

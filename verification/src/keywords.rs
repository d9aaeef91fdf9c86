use vstd::prelude::*;

use crate::parsing::starts_with;

verus! {

/// The recognised event keywords, plus an `Unknown` sentinel.
#[derive(Debug, Clone, Copy, PartialEq, Eq, Structural, Hash)]
pub enum RawEventType {
    Joined,
    RoleChange,
    ShotFired,
    ShotHit,
    Damage,
    Healed,
    FirstHeal,
    Killed,
    KillAssist,
    Suicide,
    Domination,
    Revenge,
    Spawned,
    SayTeam,
    Say,
    EmptyUber,
    BuiltObject,
    CarryObject,
    DropObject,
    RocketJump,
    KilledObject,
    ObjectDetonated,
    Extinguished,
    PickedUp,
    MedicDeath,
    MedicDeathEx,
    ChargeEnded,
    ChargeReady,
    ChargeDeployed,
    AdvantageLost,
    RoundStart,
    RoundSetupBegin,
    RoundSetupEnd,
    MiniRoundSelected,
    MiniRoundStart,
    RoundWin,
    MiniRoundWin,
    RoundLength,
    MiniRoundLength,
    RoundOverTime,
    PointCaptured,
    CaptureBlocked,
    GameOver,
    CurrentScore,
    FinalScore,
    WinLimit,
    Paused,
    UnPaused,
    Request,
    Response,
    Connected,
    Disconnect,
    SteamIdValidated,
    Entered,
    LogFileStarted,
    LogFileClosed,
    NotUploaded,
    TournamentModeStarted,
    FlagEvent,
    CVars,
    Unknown,
}

/// The keyword text that announces each event type; empty for `Unknown`.
pub open spec fn token_of(t: RawEventType) -> Seq<u8> {
    match t {
        RawEventType::Joined => seq!['j' as u8, 'o' as u8, 'i' as u8, 'n' as u8, 'e' as u8, 'd' as u8, ' ' as u8],
        RawEventType::RoleChange => seq!['c' as u8, 'h' as u8, 'a' as u8, 'n' as u8, 'g' as u8, 'e' as u8, 'd' as u8, ' ' as u8, 'r' as u8, 'o' as u8, 'l' as u8, 'e' as u8, ' ' as u8],
        RawEventType::ShotFired => seq!['t' as u8, 'r' as u8, 'i' as u8, 'g' as u8, 'g' as u8, 'e' as u8, 'r' as u8, 'e' as u8, 'd' as u8, ' ' as u8, '"' as u8, 's' as u8, 'h' as u8, 'o' as u8, 't' as u8, '_' as u8, 'f' as u8, 'i' as u8, 'r' as u8, 'e' as u8, 'd' as u8, '"' as u8],
        RawEventType::ShotHit => seq!['t' as u8, 'r' as u8, 'i' as u8, 'g' as u8, 'g' as u8, 'e' as u8, 'r' as u8, 'e' as u8, 'd' as u8, ' ' as u8, '"' as u8, 's' as u8, 'h' as u8, 'o' as u8, 't' as u8, '_' as u8, 'h' as u8, 'i' as u8, 't' as u8, '"' as u8],
        RawEventType::Damage => seq!['t' as u8, 'r' as u8, 'i' as u8, 'g' as u8, 'g' as u8, 'e' as u8, 'r' as u8, 'e' as u8, 'd' as u8, ' ' as u8, '"' as u8, 'd' as u8, 'a' as u8, 'm' as u8, 'a' as u8, 'g' as u8, 'e' as u8, '"' as u8],
        RawEventType::Healed => seq!['t' as u8, 'r' as u8, 'i' as u8, 'g' as u8, 'g' as u8, 'e' as u8, 'r' as u8, 'e' as u8, 'd' as u8, ' ' as u8, '"' as u8, 'h' as u8, 'e' as u8, 'a' as u8, 'l' as u8, 'e' as u8, 'd' as u8, '"' as u8],
        RawEventType::FirstHeal => seq!['t' as u8, 'r' as u8, 'i' as u8, 'g' as u8, 'g' as u8, 'e' as u8, 'r' as u8, 'e' as u8, 'd' as u8, ' ' as u8, '"' as u8, 'f' as u8, 'i' as u8, 'r' as u8, 's' as u8, 't' as u8, '_' as u8, 'h' as u8, 'e' as u8, 'a' as u8, 'l' as u8, '_' as u8, 'a' as u8, 'f' as u8, 't' as u8, 'e' as u8, 'r' as u8, '_' as u8, 's' as u8, 'p' as u8, 'a' as u8, 'w' as u8, 'n' as u8, '"' as u8],
        RawEventType::Killed => seq!['k' as u8, 'i' as u8, 'l' as u8, 'l' as u8, 'e' as u8, 'd' as u8, ' ' as u8],
        RawEventType::KillAssist => seq!['t' as u8, 'r' as u8, 'i' as u8, 'g' as u8, 'g' as u8, 'e' as u8, 'r' as u8, 'e' as u8, 'd' as u8, ' ' as u8, '"' as u8, 'k' as u8, 'i' as u8, 'l' as u8, 'l' as u8, ' ' as u8, 'a' as u8, 's' as u8, 's' as u8, 'i' as u8, 's' as u8, 't' as u8, '"' as u8],
        RawEventType::Suicide => seq!['c' as u8, 'o' as u8, 'm' as u8, 'm' as u8, 'i' as u8, 't' as u8, 't' as u8, 'e' as u8, 'd' as u8, ' ' as u8, 's' as u8, 'u' as u8, 'i' as u8, 'c' as u8, 'i' as u8, 'd' as u8, 'e' as u8, ' ' as u8],
        RawEventType::Domination => seq!['t' as u8, 'r' as u8, 'i' as u8, 'g' as u8, 'g' as u8, 'e' as u8, 'r' as u8, 'e' as u8, 'd' as u8, ' ' as u8, '"' as u8, 'd' as u8, 'o' as u8, 'm' as u8, 'i' as u8, 'n' as u8, 'a' as u8, 't' as u8, 'i' as u8, 'o' as u8, 'n' as u8, '"' as u8],
        RawEventType::Revenge => seq!['t' as u8, 'r' as u8, 'i' as u8, 'g' as u8, 'g' as u8, 'e' as u8, 'r' as u8, 'e' as u8, 'd' as u8, ' ' as u8, '"' as u8, 'r' as u8, 'e' as u8, 'v' as u8, 'e' as u8, 'n' as u8, 'g' as u8, 'e' as u8, '"' as u8],
        RawEventType::Spawned => seq!['s' as u8, 'p' as u8, 'a' as u8, 'w' as u8, 'n' as u8, 'e' as u8, 'd' as u8, ' ' as u8],
        RawEventType::SayTeam => seq!['s' as u8, 'a' as u8, 'y' as u8, '_' as u8, 't' as u8, 'e' as u8, 'a' as u8, 'm' as u8, ' ' as u8],
        RawEventType::Say => seq!['s' as u8, 'a' as u8, 'y' as u8, ' ' as u8],
        RawEventType::EmptyUber => seq!['t' as u8, 'r' as u8, 'i' as u8, 'g' as u8, 'g' as u8, 'e' as u8, 'r' as u8, 'e' as u8, 'd' as u8, ' ' as u8, '"' as u8, 'e' as u8, 'm' as u8, 'p' as u8, 't' as u8, 'y' as u8, '_' as u8, 'u' as u8, 'b' as u8, 'e' as u8, 'r' as u8, '"' as u8],
        RawEventType::BuiltObject => seq!['t' as u8, 'r' as u8, 'i' as u8, 'g' as u8, 'g' as u8, 'e' as u8, 'r' as u8, 'e' as u8, 'd' as u8, ' ' as u8, '"' as u8, 'p' as u8, 'l' as u8, 'a' as u8, 'y' as u8, 'e' as u8, 'r' as u8, '_' as u8, 'b' as u8, 'u' as u8, 'i' as u8, 'l' as u8, 't' as u8, 'o' as u8, 'b' as u8, 'j' as u8, 'e' as u8, 'c' as u8, 't' as u8, '"' as u8],
        RawEventType::CarryObject => seq!['t' as u8, 'r' as u8, 'i' as u8, 'g' as u8, 'g' as u8, 'e' as u8, 'r' as u8, 'e' as u8, 'd' as u8, ' ' as u8, '"' as u8, 'p' as u8, 'l' as u8, 'a' as u8, 'y' as u8, 'e' as u8, 'r' as u8, '_' as u8, 'd' as u8, 'r' as u8, 'o' as u8, 'p' as u8, 'o' as u8, 'b' as u8, 'j' as u8, 'e' as u8, 'c' as u8, 't' as u8, '"' as u8],
        RawEventType::DropObject => seq!['t' as u8, 'r' as u8, 'i' as u8, 'g' as u8, 'g' as u8, 'e' as u8, 'r' as u8, 'e' as u8, 'd' as u8, ' ' as u8, '"' as u8, 'p' as u8, 'l' as u8, 'a' as u8, 'y' as u8, 'e' as u8, 'r' as u8, '_' as u8, 'c' as u8, 'a' as u8, 'r' as u8, 'r' as u8, 'y' as u8, 'o' as u8, 'b' as u8, 'j' as u8, 'e' as u8, 'c' as u8, 't' as u8, '"' as u8],
        RawEventType::RocketJump => seq!['t' as u8, 'r' as u8, 'i' as u8, 'g' as u8, 'g' as u8, 'e' as u8, 'r' as u8, 'e' as u8, 'd' as u8, ' ' as u8, '"' as u8, 'r' as u8, 'o' as u8, 'c' as u8, 'k' as u8, 'e' as u8, 't' as u8, '_' as u8, 'j' as u8, 'u' as u8, 'm' as u8, 'p' as u8, '"' as u8],
        RawEventType::KilledObject => seq!['t' as u8, 'r' as u8, 'i' as u8, 'g' as u8, 'g' as u8, 'e' as u8, 'r' as u8, 'e' as u8, 'd' as u8, ' ' as u8, '"' as u8, 'k' as u8, 'i' as u8, 'l' as u8, 'l' as u8, 'e' as u8, 'd' as u8, 'o' as u8, 'b' as u8, 'j' as u8, 'e' as u8, 'c' as u8, 't' as u8, '"' as u8],
        RawEventType::ObjectDetonated => seq!['t' as u8, 'r' as u8, 'i' as u8, 'g' as u8, 'g' as u8, 'e' as u8, 'r' as u8, 'e' as u8, 'd' as u8, ' ' as u8, '"' as u8, 'o' as u8, 'b' as u8, 'j' as u8, 'e' as u8, 'c' as u8, 't' as u8, '_' as u8, 'd' as u8, 'e' as u8, 't' as u8, 'o' as u8, 'n' as u8, 'a' as u8, 't' as u8, 'e' as u8, 'd' as u8, '"' as u8],
        RawEventType::Extinguished => seq!['t' as u8, 'r' as u8, 'i' as u8, 'g' as u8, 'g' as u8, 'e' as u8, 'r' as u8, 'e' as u8, 'd' as u8, ' ' as u8, '"' as u8, 'p' as u8, 'l' as u8, 'a' as u8, 'y' as u8, 'e' as u8, 'r' as u8, '_' as u8, 'e' as u8, 'x' as u8, 't' as u8, 'i' as u8, 'n' as u8, 'g' as u8, 'u' as u8, 'i' as u8, 's' as u8, 'h' as u8, 'e' as u8, 'd' as u8, '"' as u8],
        RawEventType::PickedUp => seq!['p' as u8, 'i' as u8, 'c' as u8, 'k' as u8, 'e' as u8, 'd' as u8, ' ' as u8, 'u' as u8, 'p' as u8, ' ' as u8],
        RawEventType::MedicDeath => seq!['t' as u8, 'r' as u8, 'i' as u8, 'g' as u8, 'g' as u8, 'e' as u8, 'r' as u8, 'e' as u8, 'd' as u8, ' ' as u8, '"' as u8, 'm' as u8, 'e' as u8, 'd' as u8, 'i' as u8, 'c' as u8, '_' as u8, 'd' as u8, 'e' as u8, 'a' as u8, 't' as u8, 'h' as u8, '"' as u8],
        RawEventType::MedicDeathEx => seq!['t' as u8, 'r' as u8, 'i' as u8, 'g' as u8, 'g' as u8, 'e' as u8, 'r' as u8, 'e' as u8, 'd' as u8, ' ' as u8, '"' as u8, 'm' as u8, 'e' as u8, 'd' as u8, 'i' as u8, 'c' as u8, '_' as u8, 'd' as u8, 'e' as u8, 'a' as u8, 't' as u8, 'h' as u8, '_' as u8, 'e' as u8, 'x' as u8, '"' as u8],
        RawEventType::ChargeEnded => seq!['t' as u8, 'r' as u8, 'i' as u8, 'g' as u8, 'g' as u8, 'e' as u8, 'r' as u8, 'e' as u8, 'd' as u8, ' ' as u8, '"' as u8, 'c' as u8, 'h' as u8, 'a' as u8, 'r' as u8, 'g' as u8, 'e' as u8, 'e' as u8, 'n' as u8, 'd' as u8, 'e' as u8, 'd' as u8, '"' as u8],
        RawEventType::ChargeReady => seq!['t' as u8, 'r' as u8, 'i' as u8, 'g' as u8, 'g' as u8, 'e' as u8, 'r' as u8, 'e' as u8, 'd' as u8, ' ' as u8, '"' as u8, 'c' as u8, 'h' as u8, 'a' as u8, 'r' as u8, 'g' as u8, 'e' as u8, 'r' as u8, 'e' as u8, 'a' as u8, 'd' as u8, 'y' as u8, '"' as u8],
        RawEventType::ChargeDeployed => seq!['t' as u8, 'r' as u8, 'i' as u8, 'g' as u8, 'g' as u8, 'e' as u8, 'r' as u8, 'e' as u8, 'd' as u8, ' ' as u8, '"' as u8, 'c' as u8, 'h' as u8, 'a' as u8, 'r' as u8, 'g' as u8, 'e' as u8, 'd' as u8, 'e' as u8, 'p' as u8, 'l' as u8, 'o' as u8, 'y' as u8, 'e' as u8, 'd' as u8, '"' as u8],
        RawEventType::AdvantageLost => seq!['t' as u8, 'r' as u8, 'i' as u8, 'g' as u8, 'g' as u8, 'e' as u8, 'r' as u8, 'e' as u8, 'd' as u8, ' ' as u8, '"' as u8, 'l' as u8, 'o' as u8, 's' as u8, 't' as u8, '_' as u8, 'u' as u8, 'b' as u8, 'e' as u8, 'r' as u8, '_' as u8, 'a' as u8, 'd' as u8, 'v' as u8, 'a' as u8, 'n' as u8, 't' as u8, 'a' as u8, 'g' as u8, 'e' as u8, '"' as u8],
        RawEventType::RoundStart => seq!['t' as u8, 'r' as u8, 'i' as u8, 'g' as u8, 'g' as u8, 'e' as u8, 'r' as u8, 'e' as u8, 'd' as u8, ' ' as u8, '"' as u8, 'R' as u8, 'o' as u8, 'u' as u8, 'n' as u8, 'd' as u8, '_' as u8, 'S' as u8, 't' as u8, 'a' as u8, 'r' as u8, 't' as u8, '"' as u8],
        RawEventType::RoundSetupBegin => seq!['t' as u8, 'r' as u8, 'i' as u8, 'g' as u8, 'g' as u8, 'e' as u8, 'r' as u8, 'e' as u8, 'd' as u8, ' ' as u8, '"' as u8, 'R' as u8, 'o' as u8, 'u' as u8, 'n' as u8, 'd' as u8, '_' as u8, 'S' as u8, 'e' as u8, 't' as u8, 'u' as u8, 'p' as u8, '_' as u8, 'B' as u8, 'e' as u8, 'g' as u8, 'i' as u8, 'n' as u8, '"' as u8],
        RawEventType::RoundSetupEnd => seq!['t' as u8, 'r' as u8, 'i' as u8, 'g' as u8, 'g' as u8, 'e' as u8, 'r' as u8, 'e' as u8, 'd' as u8, ' ' as u8, '"' as u8, 'R' as u8, 'o' as u8, 'u' as u8, 'n' as u8, 'd' as u8, '_' as u8, 'S' as u8, 'e' as u8, 't' as u8, 'u' as u8, 'p' as u8, '_' as u8, 'E' as u8, 'n' as u8, 'd' as u8, '"' as u8],
        RawEventType::MiniRoundSelected => seq!['t' as u8, 'r' as u8, 'i' as u8, 'g' as u8, 'g' as u8, 'e' as u8, 'r' as u8, 'e' as u8, 'd' as u8, ' ' as u8, '"' as u8, 'M' as u8, 'i' as u8, 'n' as u8, 'i' as u8, '_' as u8, 'R' as u8, 'o' as u8, 'u' as u8, 'n' as u8, 'd' as u8, '_' as u8, 'S' as u8, 'e' as u8, 'l' as u8, 'e' as u8, 'c' as u8, 't' as u8, 'e' as u8, 'd' as u8, '"' as u8],
        RawEventType::MiniRoundStart => seq!['t' as u8, 'r' as u8, 'i' as u8, 'g' as u8, 'g' as u8, 'e' as u8, 'r' as u8, 'e' as u8, 'd' as u8, ' ' as u8, '"' as u8, 'M' as u8, 'i' as u8, 'n' as u8, 'i' as u8, '_' as u8, 'R' as u8, 'o' as u8, 'u' as u8, 'n' as u8, 'd' as u8, '_' as u8, 'S' as u8, 't' as u8, 'a' as u8, 'r' as u8, 't' as u8, '"' as u8],
        RawEventType::RoundWin => seq!['t' as u8, 'r' as u8, 'i' as u8, 'g' as u8, 'g' as u8, 'e' as u8, 'r' as u8, 'e' as u8, 'd' as u8, ' ' as u8, '"' as u8, 'R' as u8, 'o' as u8, 'u' as u8, 'n' as u8, 'd' as u8, '_' as u8, 'W' as u8, 'i' as u8, 'n' as u8, '"' as u8],
        RawEventType::MiniRoundWin => seq!['t' as u8, 'r' as u8, 'i' as u8, 'g' as u8, 'g' as u8, 'e' as u8, 'r' as u8, 'e' as u8, 'd' as u8, ' ' as u8, '"' as u8, 'M' as u8, 'i' as u8, 'n' as u8, 'i' as u8, '_' as u8, 'R' as u8, 'o' as u8, 'u' as u8, 'n' as u8, 'd' as u8, '_' as u8, 'W' as u8, 'i' as u8, 'n' as u8, '"' as u8],
        RawEventType::RoundLength => seq!['t' as u8, 'r' as u8, 'i' as u8, 'g' as u8, 'g' as u8, 'e' as u8, 'r' as u8, 'e' as u8, 'd' as u8, ' ' as u8, '"' as u8, 'R' as u8, 'o' as u8, 'u' as u8, 'n' as u8, 'd' as u8, '_' as u8, 'L' as u8, 'e' as u8, 'n' as u8, 'g' as u8, 't' as u8, 'h' as u8, '"' as u8],
        RawEventType::MiniRoundLength => seq!['t' as u8, 'r' as u8, 'i' as u8, 'g' as u8, 'g' as u8, 'e' as u8, 'r' as u8, 'e' as u8, 'd' as u8, ' ' as u8, '"' as u8, 'M' as u8, 'i' as u8, 'n' as u8, 'i' as u8, '_' as u8, 'R' as u8, 'o' as u8, 'u' as u8, 'n' as u8, 'd' as u8, '_' as u8, 'L' as u8, 'e' as u8, 'n' as u8, 'g' as u8, 't' as u8, 'h' as u8, '"' as u8],
        RawEventType::RoundOverTime => seq!['t' as u8, 'r' as u8, 'i' as u8, 'g' as u8, 'g' as u8, 'e' as u8, 'r' as u8, 'e' as u8, 'd' as u8, ' ' as u8, '"' as u8, 'R' as u8, 'o' as u8, 'u' as u8, 'n' as u8, 'd' as u8, '_' as u8, 'O' as u8, 'v' as u8, 'e' as u8, 'r' as u8, 't' as u8, 'i' as u8, 'm' as u8, 'e' as u8, '"' as u8],
        RawEventType::PointCaptured => seq!['t' as u8, 'r' as u8, 'i' as u8, 'g' as u8, 'g' as u8, 'e' as u8, 'r' as u8, 'e' as u8, 'd' as u8, ' ' as u8, '"' as u8, 'p' as u8, 'o' as u8, 'i' as u8, 'n' as u8, 't' as u8, 'c' as u8, 'a' as u8, 'p' as u8, 't' as u8, 'u' as u8, 'r' as u8, 'e' as u8, 'd' as u8, '"' as u8],
        RawEventType::CaptureBlocked => seq!['t' as u8, 'r' as u8, 'i' as u8, 'g' as u8, 'g' as u8, 'e' as u8, 'r' as u8, 'e' as u8, 'd' as u8, ' ' as u8, '"' as u8, 'c' as u8, 'a' as u8, 'p' as u8, 't' as u8, 'u' as u8, 'r' as u8, 'e' as u8, 'b' as u8, 'l' as u8, 'o' as u8, 'c' as u8, 'k' as u8, 'e' as u8, 'd' as u8, '"' as u8],
        RawEventType::GameOver => seq!['t' as u8, 'r' as u8, 'i' as u8, 'g' as u8, 'g' as u8, 'e' as u8, 'r' as u8, 'e' as u8, 'd' as u8, ' ' as u8, '"' as u8, 'G' as u8, 'a' as u8, 'm' as u8, 'e' as u8, '_' as u8, 'O' as u8, 'v' as u8, 'e' as u8, 'r' as u8, '"' as u8],
        RawEventType::CurrentScore => seq!['c' as u8, 'u' as u8, 'r' as u8, 'r' as u8, 'e' as u8, 'n' as u8, 't' as u8, ' ' as u8],
        RawEventType::FinalScore => seq!['f' as u8, 'i' as u8, 'n' as u8, 'a' as u8, 'l' as u8, ' ' as u8],
        RawEventType::WinLimit => seq!['t' as u8, 'r' as u8, 'i' as u8, 'g' as u8, 'g' as u8, 'e' as u8, 'r' as u8, 'e' as u8, 'd' as u8, ' ' as u8, '"' as u8, 'I' as u8, 'n' as u8, 't' as u8, 'e' as u8, 'r' as u8, 'm' as u8, 'i' as u8, 's' as u8, 's' as u8, 'i' as u8, 'o' as u8, 'n' as u8, '_' as u8, 'W' as u8, 'i' as u8, 'n' as u8, '_' as u8, 'L' as u8, 'i' as u8, 'm' as u8, 'i' as u8, 't' as u8, '"' as u8],
        RawEventType::Paused => seq!['t' as u8, 'r' as u8, 'i' as u8, 'g' as u8, 'g' as u8, 'e' as u8, 'r' as u8, 'e' as u8, 'd' as u8, ' ' as u8, '"' as u8, 'G' as u8, 'a' as u8, 'm' as u8, 'e' as u8, '_' as u8, 'P' as u8, 'a' as u8, 'u' as u8, 's' as u8, 'e' as u8, 'd' as u8, '"' as u8],
        RawEventType::UnPaused => seq!['t' as u8, 'r' as u8, 'i' as u8, 'g' as u8, 'g' as u8, 'e' as u8, 'r' as u8, 'e' as u8, 'd' as u8, ' ' as u8, '"' as u8, 'G' as u8, 'a' as u8, 'm' as u8, 'e' as u8, '_' as u8, 'U' as u8, 'n' as u8, 'p' as u8, 'a' as u8, 'u' as u8, 's' as u8, 'e' as u8, 'd' as u8, '"' as u8],
        RawEventType::Request => seq!['R' as u8, 'e' as u8, 'q' as u8, 'u' as u8, 'e' as u8, 's' as u8, 't' as u8, ':' as u8, ' ' as u8, ' ' as u8],
        RawEventType::Response => seq!['R' as u8, 'e' as u8, 's' as u8, 'p' as u8, 'o' as u8, 'n' as u8, 's' as u8, 'e' as u8, ':' as u8, ' ' as u8, ' ' as u8],
        RawEventType::Connected => seq!['c' as u8, 'o' as u8, 'n' as u8, 'n' as u8, 'e' as u8, 'c' as u8, 't' as u8, 'e' as u8, 'd' as u8, ',' as u8, ' ' as u8],
        RawEventType::Disconnect => seq!['d' as u8, 'i' as u8, 's' as u8, 'c' as u8, 'o' as u8, 'n' as u8, 'n' as u8, 'e' as u8, 'c' as u8, 't' as u8, 'e' as u8, 'd' as u8, ' ' as u8],
        RawEventType::SteamIdValidated => seq!['S' as u8, 'T' as u8, 'E' as u8, 'A' as u8, 'M' as u8, ' ' as u8, 'U' as u8, 'S' as u8, 'E' as u8, 'R' as u8, 'I' as u8, 'D' as u8, ' ' as u8, 'v' as u8, 'a' as u8, 'l' as u8, 'i' as u8, 'd' as u8, 'a' as u8, 't' as u8, 'e' as u8, 'd' as u8, ' ' as u8],
        RawEventType::Entered => seq!['e' as u8, 'n' as u8, 't' as u8, 'e' as u8, 'r' as u8, 'e' as u8, 'd' as u8, ' ' as u8, 't' as u8, 'h' as u8, 'e' as u8, ' ' as u8, 'g' as u8, 'a' as u8, 'm' as u8, 'e' as u8, ' ' as u8],
        RawEventType::LogFileStarted => seq!['f' as u8, 'i' as u8, 'l' as u8, 'e' as u8, ' ' as u8, 's' as u8, 't' as u8, 'a' as u8, 'r' as u8, 't' as u8, 'e' as u8, 'd' as u8, ' ' as u8],
        RawEventType::LogFileClosed => seq!['f' as u8, 'i' as u8, 'l' as u8, 'e' as u8, ' ' as u8, 'c' as u8, 'l' as u8, 'o' as u8, 's' as u8, 'e' as u8, 'd' as u8, ' ' as u8],
        RawEventType::NotUploaded => seq!['T' as u8, 'h' as u8, 'e' as u8, ' ' as u8, 'l' as u8, 'o' as u8, 'g' as u8, ' ' as u8, 'm' as u8, 'i' as u8, 'g' as u8, 'h' as u8, 't' as u8, ' ' as u8, 'h' as u8, 'a' as u8, 'v' as u8, 'e' as u8, ' ' as u8, 'n' as u8, 'o' as u8, 't' as u8, ' ' as u8, 'b' as u8, 'e' as u8, 'e' as u8, 'n' as u8, ' ' as u8, 'u' as u8, 'p' as u8, 'l' as u8, 'o' as u8, 'a' as u8, 'd' as u8, 'e' as u8, 'd' as u8, '.' as u8, ' ' as u8],
        RawEventType::TournamentModeStarted => seq!['m' as u8, 'o' as u8, 'd' as u8, 'e' as u8, ' ' as u8, 's' as u8, 't' as u8, 'a' as u8, 'r' as u8, 't' as u8, 'e' as u8, 'd' as u8, ' ' as u8],
        RawEventType::FlagEvent => seq!['t' as u8, 'r' as u8, 'i' as u8, 'g' as u8, 'g' as u8, 'e' as u8, 'r' as u8, 'e' as u8, 'd' as u8, ' ' as u8, '"' as u8, 'f' as u8, 'l' as u8, 'a' as u8, 'g' as u8, 'e' as u8, 'v' as u8, 'e' as u8, 'n' as u8, 't' as u8, '"' as u8],
        RawEventType::CVars => seq!['c' as u8, 'v' as u8, 'a' as u8, 'r' as u8, 's' as u8, ' ' as u8],
        RawEventType::Unknown => Seq::empty(),
    }
}

/// The fixed order in which keywords are tried.
pub open spec fn keyword_order() -> Seq<RawEventType> {
    seq![RawEventType::Joined, RawEventType::RoleChange, RawEventType::ShotFired, RawEventType::ShotHit, RawEventType::Damage, RawEventType::Healed, RawEventType::FirstHeal, RawEventType::Killed, RawEventType::KillAssist, RawEventType::Suicide, RawEventType::Domination, RawEventType::Revenge, RawEventType::Spawned, RawEventType::SayTeam, RawEventType::Say, RawEventType::EmptyUber, RawEventType::BuiltObject, RawEventType::CarryObject, RawEventType::DropObject, RawEventType::RocketJump, RawEventType::KilledObject, RawEventType::ObjectDetonated, RawEventType::Extinguished, RawEventType::PickedUp, RawEventType::MedicDeath, RawEventType::MedicDeathEx, RawEventType::ChargeEnded, RawEventType::ChargeReady, RawEventType::ChargeDeployed, RawEventType::AdvantageLost, RawEventType::RoundStart, RawEventType::RoundSetupBegin, RawEventType::RoundSetupEnd, RawEventType::MiniRoundSelected, RawEventType::MiniRoundStart, RawEventType::RoundWin, RawEventType::MiniRoundWin, RawEventType::RoundLength, RawEventType::MiniRoundLength, RawEventType::RoundOverTime, RawEventType::PointCaptured, RawEventType::CaptureBlocked, RawEventType::GameOver, RawEventType::CurrentScore, RawEventType::FinalScore, RawEventType::WinLimit, RawEventType::Paused, RawEventType::UnPaused, RawEventType::Request, RawEventType::Response, RawEventType::Connected, RawEventType::Disconnect, RawEventType::SteamIdValidated, RawEventType::Entered, RawEventType::LogFileStarted, RawEventType::LogFileClosed, RawEventType::NotUploaded, RawEventType::TournamentModeStarted, RawEventType::FlagEvent, RawEventType::CVars]
}

/// The keyword table, in the order of `keyword_order`.
#[verifier::rlimit(100)]
pub fn keyword_table() -> (r: Vec<RawEventType>)
    ensures
        r@ == keyword_order(),
{
    let mut v: Vec<RawEventType> = Vec::new();
    v.push(RawEventType::Joined);
    v.push(RawEventType::RoleChange);
    v.push(RawEventType::ShotFired);
    v.push(RawEventType::ShotHit);
    v.push(RawEventType::Damage);
    v.push(RawEventType::Healed);
    v.push(RawEventType::FirstHeal);
    v.push(RawEventType::Killed);
    v.push(RawEventType::KillAssist);
    v.push(RawEventType::Suicide);
    v.push(RawEventType::Domination);
    v.push(RawEventType::Revenge);
    v.push(RawEventType::Spawned);
    v.push(RawEventType::SayTeam);
    v.push(RawEventType::Say);
    v.push(RawEventType::EmptyUber);
    v.push(RawEventType::BuiltObject);
    v.push(RawEventType::CarryObject);
    v.push(RawEventType::DropObject);
    v.push(RawEventType::RocketJump);
    v.push(RawEventType::KilledObject);
    v.push(RawEventType::ObjectDetonated);
    v.push(RawEventType::Extinguished);
    v.push(RawEventType::PickedUp);
    v.push(RawEventType::MedicDeath);
    v.push(RawEventType::MedicDeathEx);
    v.push(RawEventType::ChargeEnded);
    v.push(RawEventType::ChargeReady);
    v.push(RawEventType::ChargeDeployed);
    v.push(RawEventType::AdvantageLost);
    v.push(RawEventType::RoundStart);
    v.push(RawEventType::RoundSetupBegin);
    v.push(RawEventType::RoundSetupEnd);
    v.push(RawEventType::MiniRoundSelected);
    v.push(RawEventType::MiniRoundStart);
    v.push(RawEventType::RoundWin);
    v.push(RawEventType::MiniRoundWin);
    v.push(RawEventType::RoundLength);
    v.push(RawEventType::MiniRoundLength);
    v.push(RawEventType::RoundOverTime);
    v.push(RawEventType::PointCaptured);
    v.push(RawEventType::CaptureBlocked);
    v.push(RawEventType::GameOver);
    v.push(RawEventType::CurrentScore);
    v.push(RawEventType::FinalScore);
    v.push(RawEventType::WinLimit);
    v.push(RawEventType::Paused);
    v.push(RawEventType::UnPaused);
    v.push(RawEventType::Request);
    v.push(RawEventType::Response);
    v.push(RawEventType::Connected);
    v.push(RawEventType::Disconnect);
    v.push(RawEventType::SteamIdValidated);
    v.push(RawEventType::Entered);
    v.push(RawEventType::LogFileStarted);
    v.push(RawEventType::LogFileClosed);
    v.push(RawEventType::NotUploaded);
    v.push(RawEventType::TournamentModeStarted);
    v.push(RawEventType::FlagEvent);
    v.push(RawEventType::CVars);
    proof { assert(v@ =~= keyword_order()); }
    v
}

/// The keyword bytes for a given event type.
#[verifier::rlimit(100)]
pub fn token_bytes(t: RawEventType) -> (r: Vec<u8>)
    ensures
        r@ == token_of(t),
{
    let mut v: Vec<u8> = Vec::new();
    match t {
        RawEventType::Joined => {
            v.push('j' as u8);
            v.push('o' as u8);
            v.push('i' as u8);
            v.push('n' as u8);
            v.push('e' as u8);
            v.push('d' as u8);
            v.push(' ' as u8);
        },
        RawEventType::RoleChange => {
            v.push('c' as u8);
            v.push('h' as u8);
            v.push('a' as u8);
            v.push('n' as u8);
            v.push('g' as u8);
            v.push('e' as u8);
            v.push('d' as u8);
            v.push(' ' as u8);
            v.push('r' as u8);
            v.push('o' as u8);
            v.push('l' as u8);
            v.push('e' as u8);
            v.push(' ' as u8);
        },
        RawEventType::ShotFired => {
            v.push('t' as u8);
            v.push('r' as u8);
            v.push('i' as u8);
            v.push('g' as u8);
            v.push('g' as u8);
            v.push('e' as u8);
            v.push('r' as u8);
            v.push('e' as u8);
            v.push('d' as u8);
            v.push(' ' as u8);
            v.push('"' as u8);
            v.push('s' as u8);
            v.push('h' as u8);
            v.push('o' as u8);
            v.push('t' as u8);
            v.push('_' as u8);
            v.push('f' as u8);
            v.push('i' as u8);
            v.push('r' as u8);
            v.push('e' as u8);
            v.push('d' as u8);
            v.push('"' as u8);
        },
        RawEventType::ShotHit => {
            v.push('t' as u8);
            v.push('r' as u8);
            v.push('i' as u8);
            v.push('g' as u8);
            v.push('g' as u8);
            v.push('e' as u8);
            v.push('r' as u8);
            v.push('e' as u8);
            v.push('d' as u8);
            v.push(' ' as u8);
            v.push('"' as u8);
            v.push('s' as u8);
            v.push('h' as u8);
            v.push('o' as u8);
            v.push('t' as u8);
            v.push('_' as u8);
            v.push('h' as u8);
            v.push('i' as u8);
            v.push('t' as u8);
            v.push('"' as u8);
        },
        RawEventType::Damage => {
            v.push('t' as u8);
            v.push('r' as u8);
            v.push('i' as u8);
            v.push('g' as u8);
            v.push('g' as u8);
            v.push('e' as u8);
            v.push('r' as u8);
            v.push('e' as u8);
            v.push('d' as u8);
            v.push(' ' as u8);
            v.push('"' as u8);
            v.push('d' as u8);
            v.push('a' as u8);
            v.push('m' as u8);
            v.push('a' as u8);
            v.push('g' as u8);
            v.push('e' as u8);
            v.push('"' as u8);
        },
        RawEventType::Healed => {
            v.push('t' as u8);
            v.push('r' as u8);
            v.push('i' as u8);
            v.push('g' as u8);
            v.push('g' as u8);
            v.push('e' as u8);
            v.push('r' as u8);
            v.push('e' as u8);
            v.push('d' as u8);
            v.push(' ' as u8);
            v.push('"' as u8);
            v.push('h' as u8);
            v.push('e' as u8);
            v.push('a' as u8);
            v.push('l' as u8);
            v.push('e' as u8);
            v.push('d' as u8);
            v.push('"' as u8);
        },
        RawEventType::FirstHeal => {
            v.push('t' as u8);
            v.push('r' as u8);
            v.push('i' as u8);
            v.push('g' as u8);
            v.push('g' as u8);
            v.push('e' as u8);
            v.push('r' as u8);
            v.push('e' as u8);
            v.push('d' as u8);
            v.push(' ' as u8);
            v.push('"' as u8);
            v.push('f' as u8);
            v.push('i' as u8);
            v.push('r' as u8);
            v.push('s' as u8);
            v.push('t' as u8);
            v.push('_' as u8);
            v.push('h' as u8);
            v.push('e' as u8);
            v.push('a' as u8);
            v.push('l' as u8);
            v.push('_' as u8);
            v.push('a' as u8);
            v.push('f' as u8);
            v.push('t' as u8);
            v.push('e' as u8);
            v.push('r' as u8);
            v.push('_' as u8);
            v.push('s' as u8);
            v.push('p' as u8);
            v.push('a' as u8);
            v.push('w' as u8);
            v.push('n' as u8);
            v.push('"' as u8);
        },
        RawEventType::Killed => {
            v.push('k' as u8);
            v.push('i' as u8);
            v.push('l' as u8);
            v.push('l' as u8);
            v.push('e' as u8);
            v.push('d' as u8);
            v.push(' ' as u8);
        },
        RawEventType::KillAssist => {
            v.push('t' as u8);
            v.push('r' as u8);
            v.push('i' as u8);
            v.push('g' as u8);
            v.push('g' as u8);
            v.push('e' as u8);
            v.push('r' as u8);
            v.push('e' as u8);
            v.push('d' as u8);
            v.push(' ' as u8);
            v.push('"' as u8);
            v.push('k' as u8);
            v.push('i' as u8);
            v.push('l' as u8);
            v.push('l' as u8);
            v.push(' ' as u8);
            v.push('a' as u8);
            v.push('s' as u8);
            v.push('s' as u8);
            v.push('i' as u8);
            v.push('s' as u8);
            v.push('t' as u8);
            v.push('"' as u8);
        },
        RawEventType::Suicide => {
            v.push('c' as u8);
            v.push('o' as u8);
            v.push('m' as u8);
            v.push('m' as u8);
            v.push('i' as u8);
            v.push('t' as u8);
            v.push('t' as u8);
            v.push('e' as u8);
            v.push('d' as u8);
            v.push(' ' as u8);
            v.push('s' as u8);
            v.push('u' as u8);
            v.push('i' as u8);
            v.push('c' as u8);
            v.push('i' as u8);
            v.push('d' as u8);
            v.push('e' as u8);
            v.push(' ' as u8);
        },
        RawEventType::Domination => {
            v.push('t' as u8);
            v.push('r' as u8);
            v.push('i' as u8);
            v.push('g' as u8);
            v.push('g' as u8);
            v.push('e' as u8);
            v.push('r' as u8);
            v.push('e' as u8);
            v.push('d' as u8);
            v.push(' ' as u8);
            v.push('"' as u8);
            v.push('d' as u8);
            v.push('o' as u8);
            v.push('m' as u8);
            v.push('i' as u8);
            v.push('n' as u8);
            v.push('a' as u8);
            v.push('t' as u8);
            v.push('i' as u8);
            v.push('o' as u8);
            v.push('n' as u8);
            v.push('"' as u8);
        },
        RawEventType::Revenge => {
            v.push('t' as u8);
            v.push('r' as u8);
            v.push('i' as u8);
            v.push('g' as u8);
            v.push('g' as u8);
            v.push('e' as u8);
            v.push('r' as u8);
            v.push('e' as u8);
            v.push('d' as u8);
            v.push(' ' as u8);
            v.push('"' as u8);
            v.push('r' as u8);
            v.push('e' as u8);
            v.push('v' as u8);
            v.push('e' as u8);
            v.push('n' as u8);
            v.push('g' as u8);
            v.push('e' as u8);
            v.push('"' as u8);
        },
        RawEventType::Spawned => {
            v.push('s' as u8);
            v.push('p' as u8);
            v.push('a' as u8);
            v.push('w' as u8);
            v.push('n' as u8);
            v.push('e' as u8);
            v.push('d' as u8);
            v.push(' ' as u8);
        },
        RawEventType::SayTeam => {
            v.push('s' as u8);
            v.push('a' as u8);
            v.push('y' as u8);
            v.push('_' as u8);
            v.push('t' as u8);
            v.push('e' as u8);
            v.push('a' as u8);
            v.push('m' as u8);
            v.push(' ' as u8);
        },
        RawEventType::Say => {
            v.push('s' as u8);
            v.push('a' as u8);
            v.push('y' as u8);
            v.push(' ' as u8);
        },
        RawEventType::EmptyUber => {
            v.push('t' as u8);
            v.push('r' as u8);
            v.push('i' as u8);
            v.push('g' as u8);
            v.push('g' as u8);
            v.push('e' as u8);
            v.push('r' as u8);
            v.push('e' as u8);
            v.push('d' as u8);
            v.push(' ' as u8);
            v.push('"' as u8);
            v.push('e' as u8);
            v.push('m' as u8);
            v.push('p' as u8);
            v.push('t' as u8);
            v.push('y' as u8);
            v.push('_' as u8);
            v.push('u' as u8);
            v.push('b' as u8);
            v.push('e' as u8);
            v.push('r' as u8);
            v.push('"' as u8);
        },
        RawEventType::BuiltObject => {
            v.push('t' as u8);
            v.push('r' as u8);
            v.push('i' as u8);
            v.push('g' as u8);
            v.push('g' as u8);
            v.push('e' as u8);
            v.push('r' as u8);
            v.push('e' as u8);
            v.push('d' as u8);
            v.push(' ' as u8);
            v.push('"' as u8);
            v.push('p' as u8);
            v.push('l' as u8);
            v.push('a' as u8);
            v.push('y' as u8);
            v.push('e' as u8);
            v.push('r' as u8);
            v.push('_' as u8);
            v.push('b' as u8);
            v.push('u' as u8);
            v.push('i' as u8);
            v.push('l' as u8);
            v.push('t' as u8);
            v.push('o' as u8);
            v.push('b' as u8);
            v.push('j' as u8);
            v.push('e' as u8);
            v.push('c' as u8);
            v.push('t' as u8);
            v.push('"' as u8);
        },
        RawEventType::CarryObject => {
            v.push('t' as u8);
            v.push('r' as u8);
            v.push('i' as u8);
            v.push('g' as u8);
            v.push('g' as u8);
            v.push('e' as u8);
            v.push('r' as u8);
            v.push('e' as u8);
            v.push('d' as u8);
            v.push(' ' as u8);
            v.push('"' as u8);
            v.push('p' as u8);
            v.push('l' as u8);
            v.push('a' as u8);
            v.push('y' as u8);
            v.push('e' as u8);
            v.push('r' as u8);
            v.push('_' as u8);
            v.push('d' as u8);
            v.push('r' as u8);
            v.push('o' as u8);
            v.push('p' as u8);
            v.push('o' as u8);
            v.push('b' as u8);
            v.push('j' as u8);
            v.push('e' as u8);
            v.push('c' as u8);
            v.push('t' as u8);
            v.push('"' as u8);
        },
        RawEventType::DropObject => {
            v.push('t' as u8);
            v.push('r' as u8);
            v.push('i' as u8);
            v.push('g' as u8);
            v.push('g' as u8);
            v.push('e' as u8);
            v.push('r' as u8);
            v.push('e' as u8);
            v.push('d' as u8);
            v.push(' ' as u8);
            v.push('"' as u8);
            v.push('p' as u8);
            v.push('l' as u8);
            v.push('a' as u8);
            v.push('y' as u8);
            v.push('e' as u8);
            v.push('r' as u8);
            v.push('_' as u8);
            v.push('c' as u8);
            v.push('a' as u8);
            v.push('r' as u8);
            v.push('r' as u8);
            v.push('y' as u8);
            v.push('o' as u8);
            v.push('b' as u8);
            v.push('j' as u8);
            v.push('e' as u8);
            v.push('c' as u8);
            v.push('t' as u8);
            v.push('"' as u8);
        },
        RawEventType::RocketJump => {
            v.push('t' as u8);
            v.push('r' as u8);
            v.push('i' as u8);
            v.push('g' as u8);
            v.push('g' as u8);
            v.push('e' as u8);
            v.push('r' as u8);
            v.push('e' as u8);
            v.push('d' as u8);
            v.push(' ' as u8);
            v.push('"' as u8);
            v.push('r' as u8);
            v.push('o' as u8);
            v.push('c' as u8);
            v.push('k' as u8);
            v.push('e' as u8);
            v.push('t' as u8);
            v.push('_' as u8);
            v.push('j' as u8);
            v.push('u' as u8);
            v.push('m' as u8);
            v.push('p' as u8);
            v.push('"' as u8);
        },
        RawEventType::KilledObject => {
            v.push('t' as u8);
            v.push('r' as u8);
            v.push('i' as u8);
            v.push('g' as u8);
            v.push('g' as u8);
            v.push('e' as u8);
            v.push('r' as u8);
            v.push('e' as u8);
            v.push('d' as u8);
            v.push(' ' as u8);
            v.push('"' as u8);
            v.push('k' as u8);
            v.push('i' as u8);
            v.push('l' as u8);
            v.push('l' as u8);
            v.push('e' as u8);
            v.push('d' as u8);
            v.push('o' as u8);
            v.push('b' as u8);
            v.push('j' as u8);
            v.push('e' as u8);
            v.push('c' as u8);
            v.push('t' as u8);
            v.push('"' as u8);
        },
        RawEventType::ObjectDetonated => {
            v.push('t' as u8);
            v.push('r' as u8);
            v.push('i' as u8);
            v.push('g' as u8);
            v.push('g' as u8);
            v.push('e' as u8);
            v.push('r' as u8);
            v.push('e' as u8);
            v.push('d' as u8);
            v.push(' ' as u8);
            v.push('"' as u8);
            v.push('o' as u8);
            v.push('b' as u8);
            v.push('j' as u8);
            v.push('e' as u8);
            v.push('c' as u8);
            v.push('t' as u8);
            v.push('_' as u8);
            v.push('d' as u8);
            v.push('e' as u8);
            v.push('t' as u8);
            v.push('o' as u8);
            v.push('n' as u8);
            v.push('a' as u8);
            v.push('t' as u8);
            v.push('e' as u8);
            v.push('d' as u8);
            v.push('"' as u8);
        },
        RawEventType::Extinguished => {
            v.push('t' as u8);
            v.push('r' as u8);
            v.push('i' as u8);
            v.push('g' as u8);
            v.push('g' as u8);
            v.push('e' as u8);
            v.push('r' as u8);
            v.push('e' as u8);
            v.push('d' as u8);
            v.push(' ' as u8);
            v.push('"' as u8);
            v.push('p' as u8);
            v.push('l' as u8);
            v.push('a' as u8);
            v.push('y' as u8);
            v.push('e' as u8);
            v.push('r' as u8);
            v.push('_' as u8);
            v.push('e' as u8);
            v.push('x' as u8);
            v.push('t' as u8);
            v.push('i' as u8);
            v.push('n' as u8);
            v.push('g' as u8);
            v.push('u' as u8);
            v.push('i' as u8);
            v.push('s' as u8);
            v.push('h' as u8);
            v.push('e' as u8);
            v.push('d' as u8);
            v.push('"' as u8);
        },
        RawEventType::PickedUp => {
            v.push('p' as u8);
            v.push('i' as u8);
            v.push('c' as u8);
            v.push('k' as u8);
            v.push('e' as u8);
            v.push('d' as u8);
            v.push(' ' as u8);
            v.push('u' as u8);
            v.push('p' as u8);
            v.push(' ' as u8);
        },
        RawEventType::MedicDeath => {
            v.push('t' as u8);
            v.push('r' as u8);
            v.push('i' as u8);
            v.push('g' as u8);
            v.push('g' as u8);
            v.push('e' as u8);
            v.push('r' as u8);
            v.push('e' as u8);
            v.push('d' as u8);
            v.push(' ' as u8);
            v.push('"' as u8);
            v.push('m' as u8);
            v.push('e' as u8);
            v.push('d' as u8);
            v.push('i' as u8);
            v.push('c' as u8);
            v.push('_' as u8);
            v.push('d' as u8);
            v.push('e' as u8);
            v.push('a' as u8);
            v.push('t' as u8);
            v.push('h' as u8);
            v.push('"' as u8);
        },
        RawEventType::MedicDeathEx => {
            v.push('t' as u8);
            v.push('r' as u8);
            v.push('i' as u8);
            v.push('g' as u8);
            v.push('g' as u8);
            v.push('e' as u8);
            v.push('r' as u8);
            v.push('e' as u8);
            v.push('d' as u8);
            v.push(' ' as u8);
            v.push('"' as u8);
            v.push('m' as u8);
            v.push('e' as u8);
            v.push('d' as u8);
            v.push('i' as u8);
            v.push('c' as u8);
            v.push('_' as u8);
            v.push('d' as u8);
            v.push('e' as u8);
            v.push('a' as u8);
            v.push('t' as u8);
            v.push('h' as u8);
            v.push('_' as u8);
            v.push('e' as u8);
            v.push('x' as u8);
            v.push('"' as u8);
        },
        RawEventType::ChargeEnded => {
            v.push('t' as u8);
            v.push('r' as u8);
            v.push('i' as u8);
            v.push('g' as u8);
            v.push('g' as u8);
            v.push('e' as u8);
            v.push('r' as u8);
            v.push('e' as u8);
            v.push('d' as u8);
            v.push(' ' as u8);
            v.push('"' as u8);
            v.push('c' as u8);
            v.push('h' as u8);
            v.push('a' as u8);
            v.push('r' as u8);
            v.push('g' as u8);
            v.push('e' as u8);
            v.push('e' as u8);
            v.push('n' as u8);
            v.push('d' as u8);
            v.push('e' as u8);
            v.push('d' as u8);
            v.push('"' as u8);
        },
        RawEventType::ChargeReady => {
            v.push('t' as u8);
            v.push('r' as u8);
            v.push('i' as u8);
            v.push('g' as u8);
            v.push('g' as u8);
            v.push('e' as u8);
            v.push('r' as u8);
            v.push('e' as u8);
            v.push('d' as u8);
            v.push(' ' as u8);
            v.push('"' as u8);
            v.push('c' as u8);
            v.push('h' as u8);
            v.push('a' as u8);
            v.push('r' as u8);
            v.push('g' as u8);
            v.push('e' as u8);
            v.push('r' as u8);
            v.push('e' as u8);
            v.push('a' as u8);
            v.push('d' as u8);
            v.push('y' as u8);
            v.push('"' as u8);
        },
        RawEventType::ChargeDeployed => {
            v.push('t' as u8);
            v.push('r' as u8);
            v.push('i' as u8);
            v.push('g' as u8);
            v.push('g' as u8);
            v.push('e' as u8);
            v.push('r' as u8);
            v.push('e' as u8);
            v.push('d' as u8);
            v.push(' ' as u8);
            v.push('"' as u8);
            v.push('c' as u8);
            v.push('h' as u8);
            v.push('a' as u8);
            v.push('r' as u8);
            v.push('g' as u8);
            v.push('e' as u8);
            v.push('d' as u8);
            v.push('e' as u8);
            v.push('p' as u8);
            v.push('l' as u8);
            v.push('o' as u8);
            v.push('y' as u8);
            v.push('e' as u8);
            v.push('d' as u8);
            v.push('"' as u8);
        },
        RawEventType::AdvantageLost => {
            v.push('t' as u8);
            v.push('r' as u8);
            v.push('i' as u8);
            v.push('g' as u8);
            v.push('g' as u8);
            v.push('e' as u8);
            v.push('r' as u8);
            v.push('e' as u8);
            v.push('d' as u8);
            v.push(' ' as u8);
            v.push('"' as u8);
            v.push('l' as u8);
            v.push('o' as u8);
            v.push('s' as u8);
            v.push('t' as u8);
            v.push('_' as u8);
            v.push('u' as u8);
            v.push('b' as u8);
            v.push('e' as u8);
            v.push('r' as u8);
            v.push('_' as u8);
            v.push('a' as u8);
            v.push('d' as u8);
            v.push('v' as u8);
            v.push('a' as u8);
            v.push('n' as u8);
            v.push('t' as u8);
            v.push('a' as u8);
            v.push('g' as u8);
            v.push('e' as u8);
            v.push('"' as u8);
        },
        RawEventType::RoundStart => {
            v.push('t' as u8);
            v.push('r' as u8);
            v.push('i' as u8);
            v.push('g' as u8);
            v.push('g' as u8);
            v.push('e' as u8);
            v.push('r' as u8);
            v.push('e' as u8);
            v.push('d' as u8);
            v.push(' ' as u8);
            v.push('"' as u8);
            v.push('R' as u8);
            v.push('o' as u8);
            v.push('u' as u8);
            v.push('n' as u8);
            v.push('d' as u8);
            v.push('_' as u8);
            v.push('S' as u8);
            v.push('t' as u8);
            v.push('a' as u8);
            v.push('r' as u8);
            v.push('t' as u8);
            v.push('"' as u8);
        },
        RawEventType::RoundSetupBegin => {
            v.push('t' as u8);
            v.push('r' as u8);
            v.push('i' as u8);
            v.push('g' as u8);
            v.push('g' as u8);
            v.push('e' as u8);
            v.push('r' as u8);
            v.push('e' as u8);
            v.push('d' as u8);
            v.push(' ' as u8);
            v.push('"' as u8);
            v.push('R' as u8);
            v.push('o' as u8);
            v.push('u' as u8);
            v.push('n' as u8);
            v.push('d' as u8);
            v.push('_' as u8);
            v.push('S' as u8);
            v.push('e' as u8);
            v.push('t' as u8);
            v.push('u' as u8);
            v.push('p' as u8);
            v.push('_' as u8);
            v.push('B' as u8);
            v.push('e' as u8);
            v.push('g' as u8);
            v.push('i' as u8);
            v.push('n' as u8);
            v.push('"' as u8);
        },
        RawEventType::RoundSetupEnd => {
            v.push('t' as u8);
            v.push('r' as u8);
            v.push('i' as u8);
            v.push('g' as u8);
            v.push('g' as u8);
            v.push('e' as u8);
            v.push('r' as u8);
            v.push('e' as u8);
            v.push('d' as u8);
            v.push(' ' as u8);
            v.push('"' as u8);
            v.push('R' as u8);
            v.push('o' as u8);
            v.push('u' as u8);
            v.push('n' as u8);
            v.push('d' as u8);
            v.push('_' as u8);
            v.push('S' as u8);
            v.push('e' as u8);
            v.push('t' as u8);
            v.push('u' as u8);
            v.push('p' as u8);
            v.push('_' as u8);
            v.push('E' as u8);
            v.push('n' as u8);
            v.push('d' as u8);
            v.push('"' as u8);
        },
        RawEventType::MiniRoundSelected => {
            v.push('t' as u8);
            v.push('r' as u8);
            v.push('i' as u8);
            v.push('g' as u8);
            v.push('g' as u8);
            v.push('e' as u8);
            v.push('r' as u8);
            v.push('e' as u8);
            v.push('d' as u8);
            v.push(' ' as u8);
            v.push('"' as u8);
            v.push('M' as u8);
            v.push('i' as u8);
            v.push('n' as u8);
            v.push('i' as u8);
            v.push('_' as u8);
            v.push('R' as u8);
            v.push('o' as u8);
            v.push('u' as u8);
            v.push('n' as u8);
            v.push('d' as u8);
            v.push('_' as u8);
            v.push('S' as u8);
            v.push('e' as u8);
            v.push('l' as u8);
            v.push('e' as u8);
            v.push('c' as u8);
            v.push('t' as u8);
            v.push('e' as u8);
            v.push('d' as u8);
            v.push('"' as u8);
        },
        RawEventType::MiniRoundStart => {
            v.push('t' as u8);
            v.push('r' as u8);
            v.push('i' as u8);
            v.push('g' as u8);
            v.push('g' as u8);
            v.push('e' as u8);
            v.push('r' as u8);
            v.push('e' as u8);
            v.push('d' as u8);
            v.push(' ' as u8);
            v.push('"' as u8);
            v.push('M' as u8);
            v.push('i' as u8);
            v.push('n' as u8);
            v.push('i' as u8);
            v.push('_' as u8);
            v.push('R' as u8);
            v.push('o' as u8);
            v.push('u' as u8);
            v.push('n' as u8);
            v.push('d' as u8);
            v.push('_' as u8);
            v.push('S' as u8);
            v.push('t' as u8);
            v.push('a' as u8);
            v.push('r' as u8);
            v.push('t' as u8);
            v.push('"' as u8);
        },
        RawEventType::RoundWin => {
            v.push('t' as u8);
            v.push('r' as u8);
            v.push('i' as u8);
            v.push('g' as u8);
            v.push('g' as u8);
            v.push('e' as u8);
            v.push('r' as u8);
            v.push('e' as u8);
            v.push('d' as u8);
            v.push(' ' as u8);
            v.push('"' as u8);
            v.push('R' as u8);
            v.push('o' as u8);
            v.push('u' as u8);
            v.push('n' as u8);
            v.push('d' as u8);
            v.push('_' as u8);
            v.push('W' as u8);
            v.push('i' as u8);
            v.push('n' as u8);
            v.push('"' as u8);
        },
        RawEventType::MiniRoundWin => {
            v.push('t' as u8);
            v.push('r' as u8);
            v.push('i' as u8);
            v.push('g' as u8);
            v.push('g' as u8);
            v.push('e' as u8);
            v.push('r' as u8);
            v.push('e' as u8);
            v.push('d' as u8);
            v.push(' ' as u8);
            v.push('"' as u8);
            v.push('M' as u8);
            v.push('i' as u8);
            v.push('n' as u8);
            v.push('i' as u8);
            v.push('_' as u8);
            v.push('R' as u8);
            v.push('o' as u8);
            v.push('u' as u8);
            v.push('n' as u8);
            v.push('d' as u8);
            v.push('_' as u8);
            v.push('W' as u8);
            v.push('i' as u8);
            v.push('n' as u8);
            v.push('"' as u8);
        },
        RawEventType::RoundLength => {
            v.push('t' as u8);
            v.push('r' as u8);
            v.push('i' as u8);
            v.push('g' as u8);
            v.push('g' as u8);
            v.push('e' as u8);
            v.push('r' as u8);
            v.push('e' as u8);
            v.push('d' as u8);
            v.push(' ' as u8);
            v.push('"' as u8);
            v.push('R' as u8);
            v.push('o' as u8);
            v.push('u' as u8);
            v.push('n' as u8);
            v.push('d' as u8);
            v.push('_' as u8);
            v.push('L' as u8);
            v.push('e' as u8);
            v.push('n' as u8);
            v.push('g' as u8);
            v.push('t' as u8);
            v.push('h' as u8);
            v.push('"' as u8);
        },
        RawEventType::MiniRoundLength => {
            v.push('t' as u8);
            v.push('r' as u8);
            v.push('i' as u8);
            v.push('g' as u8);
            v.push('g' as u8);
            v.push('e' as u8);
            v.push('r' as u8);
            v.push('e' as u8);
            v.push('d' as u8);
            v.push(' ' as u8);
            v.push('"' as u8);
            v.push('M' as u8);
            v.push('i' as u8);
            v.push('n' as u8);
            v.push('i' as u8);
            v.push('_' as u8);
            v.push('R' as u8);
            v.push('o' as u8);
            v.push('u' as u8);
            v.push('n' as u8);
            v.push('d' as u8);
            v.push('_' as u8);
            v.push('L' as u8);
            v.push('e' as u8);
            v.push('n' as u8);
            v.push('g' as u8);
            v.push('t' as u8);
            v.push('h' as u8);
            v.push('"' as u8);
        },
        RawEventType::RoundOverTime => {
            v.push('t' as u8);
            v.push('r' as u8);
            v.push('i' as u8);
            v.push('g' as u8);
            v.push('g' as u8);
            v.push('e' as u8);
            v.push('r' as u8);
            v.push('e' as u8);
            v.push('d' as u8);
            v.push(' ' as u8);
            v.push('"' as u8);
            v.push('R' as u8);
            v.push('o' as u8);
            v.push('u' as u8);
            v.push('n' as u8);
            v.push('d' as u8);
            v.push('_' as u8);
            v.push('O' as u8);
            v.push('v' as u8);
            v.push('e' as u8);
            v.push('r' as u8);
            v.push('t' as u8);
            v.push('i' as u8);
            v.push('m' as u8);
            v.push('e' as u8);
            v.push('"' as u8);
        },
        RawEventType::PointCaptured => {
            v.push('t' as u8);
            v.push('r' as u8);
            v.push('i' as u8);
            v.push('g' as u8);
            v.push('g' as u8);
            v.push('e' as u8);
            v.push('r' as u8);
            v.push('e' as u8);
            v.push('d' as u8);
            v.push(' ' as u8);
            v.push('"' as u8);
            v.push('p' as u8);
            v.push('o' as u8);
            v.push('i' as u8);
            v.push('n' as u8);
            v.push('t' as u8);
            v.push('c' as u8);
            v.push('a' as u8);
            v.push('p' as u8);
            v.push('t' as u8);
            v.push('u' as u8);
            v.push('r' as u8);
            v.push('e' as u8);
            v.push('d' as u8);
            v.push('"' as u8);
        },
        RawEventType::CaptureBlocked => {
            v.push('t' as u8);
            v.push('r' as u8);
            v.push('i' as u8);
            v.push('g' as u8);
            v.push('g' as u8);
            v.push('e' as u8);
            v.push('r' as u8);
            v.push('e' as u8);
            v.push('d' as u8);
            v.push(' ' as u8);
            v.push('"' as u8);
            v.push('c' as u8);
            v.push('a' as u8);
            v.push('p' as u8);
            v.push('t' as u8);
            v.push('u' as u8);
            v.push('r' as u8);
            v.push('e' as u8);
            v.push('b' as u8);
            v.push('l' as u8);
            v.push('o' as u8);
            v.push('c' as u8);
            v.push('k' as u8);
            v.push('e' as u8);
            v.push('d' as u8);
            v.push('"' as u8);
        },
        RawEventType::GameOver => {
            v.push('t' as u8);
            v.push('r' as u8);
            v.push('i' as u8);
            v.push('g' as u8);
            v.push('g' as u8);
            v.push('e' as u8);
            v.push('r' as u8);
            v.push('e' as u8);
            v.push('d' as u8);
            v.push(' ' as u8);
            v.push('"' as u8);
            v.push('G' as u8);
            v.push('a' as u8);
            v.push('m' as u8);
            v.push('e' as u8);
            v.push('_' as u8);
            v.push('O' as u8);
            v.push('v' as u8);
            v.push('e' as u8);
            v.push('r' as u8);
            v.push('"' as u8);
        },
        RawEventType::CurrentScore => {
            v.push('c' as u8);
            v.push('u' as u8);
            v.push('r' as u8);
            v.push('r' as u8);
            v.push('e' as u8);
            v.push('n' as u8);
            v.push('t' as u8);
            v.push(' ' as u8);
        },
        RawEventType::FinalScore => {
            v.push('f' as u8);
            v.push('i' as u8);
            v.push('n' as u8);
            v.push('a' as u8);
            v.push('l' as u8);
            v.push(' ' as u8);
        },
        RawEventType::WinLimit => {
            v.push('t' as u8);
            v.push('r' as u8);
            v.push('i' as u8);
            v.push('g' as u8);
            v.push('g' as u8);
            v.push('e' as u8);
            v.push('r' as u8);
            v.push('e' as u8);
            v.push('d' as u8);
            v.push(' ' as u8);
            v.push('"' as u8);
            v.push('I' as u8);
            v.push('n' as u8);
            v.push('t' as u8);
            v.push('e' as u8);
            v.push('r' as u8);
            v.push('m' as u8);
            v.push('i' as u8);
            v.push('s' as u8);
            v.push('s' as u8);
            v.push('i' as u8);
            v.push('o' as u8);
            v.push('n' as u8);
            v.push('_' as u8);
            v.push('W' as u8);
            v.push('i' as u8);
            v.push('n' as u8);
            v.push('_' as u8);
            v.push('L' as u8);
            v.push('i' as u8);
            v.push('m' as u8);
            v.push('i' as u8);
            v.push('t' as u8);
            v.push('"' as u8);
        },
        RawEventType::Paused => {
            v.push('t' as u8);
            v.push('r' as u8);
            v.push('i' as u8);
            v.push('g' as u8);
            v.push('g' as u8);
            v.push('e' as u8);
            v.push('r' as u8);
            v.push('e' as u8);
            v.push('d' as u8);
            v.push(' ' as u8);
            v.push('"' as u8);
            v.push('G' as u8);
            v.push('a' as u8);
            v.push('m' as u8);
            v.push('e' as u8);
            v.push('_' as u8);
            v.push('P' as u8);
            v.push('a' as u8);
            v.push('u' as u8);
            v.push('s' as u8);
            v.push('e' as u8);
            v.push('d' as u8);
            v.push('"' as u8);
        },
        RawEventType::UnPaused => {
            v.push('t' as u8);
            v.push('r' as u8);
            v.push('i' as u8);
            v.push('g' as u8);
            v.push('g' as u8);
            v.push('e' as u8);
            v.push('r' as u8);
            v.push('e' as u8);
            v.push('d' as u8);
            v.push(' ' as u8);
            v.push('"' as u8);
            v.push('G' as u8);
            v.push('a' as u8);
            v.push('m' as u8);
            v.push('e' as u8);
            v.push('_' as u8);
            v.push('U' as u8);
            v.push('n' as u8);
            v.push('p' as u8);
            v.push('a' as u8);
            v.push('u' as u8);
            v.push('s' as u8);
            v.push('e' as u8);
            v.push('d' as u8);
            v.push('"' as u8);
        },
        RawEventType::Request => {
            v.push('R' as u8);
            v.push('e' as u8);
            v.push('q' as u8);
            v.push('u' as u8);
            v.push('e' as u8);
            v.push('s' as u8);
            v.push('t' as u8);
            v.push(':' as u8);
            v.push(' ' as u8);
            v.push(' ' as u8);
        },
        RawEventType::Response => {
            v.push('R' as u8);
            v.push('e' as u8);
            v.push('s' as u8);
            v.push('p' as u8);
            v.push('o' as u8);
            v.push('n' as u8);
            v.push('s' as u8);
            v.push('e' as u8);
            v.push(':' as u8);
            v.push(' ' as u8);
            v.push(' ' as u8);
        },
        RawEventType::Connected => {
            v.push('c' as u8);
            v.push('o' as u8);
            v.push('n' as u8);
            v.push('n' as u8);
            v.push('e' as u8);
            v.push('c' as u8);
            v.push('t' as u8);
            v.push('e' as u8);
            v.push('d' as u8);
            v.push(',' as u8);
            v.push(' ' as u8);
        },
        RawEventType::Disconnect => {
            v.push('d' as u8);
            v.push('i' as u8);
            v.push('s' as u8);
            v.push('c' as u8);
            v.push('o' as u8);
            v.push('n' as u8);
            v.push('n' as u8);
            v.push('e' as u8);
            v.push('c' as u8);
            v.push('t' as u8);
            v.push('e' as u8);
            v.push('d' as u8);
            v.push(' ' as u8);
        },
        RawEventType::SteamIdValidated => {
            v.push('S' as u8);
            v.push('T' as u8);
            v.push('E' as u8);
            v.push('A' as u8);
            v.push('M' as u8);
            v.push(' ' as u8);
            v.push('U' as u8);
            v.push('S' as u8);
            v.push('E' as u8);
            v.push('R' as u8);
            v.push('I' as u8);
            v.push('D' as u8);
            v.push(' ' as u8);
            v.push('v' as u8);
            v.push('a' as u8);
            v.push('l' as u8);
            v.push('i' as u8);
            v.push('d' as u8);
            v.push('a' as u8);
            v.push('t' as u8);
            v.push('e' as u8);
            v.push('d' as u8);
            v.push(' ' as u8);
        },
        RawEventType::Entered => {
            v.push('e' as u8);
            v.push('n' as u8);
            v.push('t' as u8);
            v.push('e' as u8);
            v.push('r' as u8);
            v.push('e' as u8);
            v.push('d' as u8);
            v.push(' ' as u8);
            v.push('t' as u8);
            v.push('h' as u8);
            v.push('e' as u8);
            v.push(' ' as u8);
            v.push('g' as u8);
            v.push('a' as u8);
            v.push('m' as u8);
            v.push('e' as u8);
            v.push(' ' as u8);
        },
        RawEventType::LogFileStarted => {
            v.push('f' as u8);
            v.push('i' as u8);
            v.push('l' as u8);
            v.push('e' as u8);
            v.push(' ' as u8);
            v.push('s' as u8);
            v.push('t' as u8);
            v.push('a' as u8);
            v.push('r' as u8);
            v.push('t' as u8);
            v.push('e' as u8);
            v.push('d' as u8);
            v.push(' ' as u8);
        },
        RawEventType::LogFileClosed => {
            v.push('f' as u8);
            v.push('i' as u8);
            v.push('l' as u8);
            v.push('e' as u8);
            v.push(' ' as u8);
            v.push('c' as u8);
            v.push('l' as u8);
            v.push('o' as u8);
            v.push('s' as u8);
            v.push('e' as u8);
            v.push('d' as u8);
            v.push(' ' as u8);
        },
        RawEventType::NotUploaded => {
            v.push('T' as u8);
            v.push('h' as u8);
            v.push('e' as u8);
            v.push(' ' as u8);
            v.push('l' as u8);
            v.push('o' as u8);
            v.push('g' as u8);
            v.push(' ' as u8);
            v.push('m' as u8);
            v.push('i' as u8);
            v.push('g' as u8);
            v.push('h' as u8);
            v.push('t' as u8);
            v.push(' ' as u8);
            v.push('h' as u8);
            v.push('a' as u8);
            v.push('v' as u8);
            v.push('e' as u8);
            v.push(' ' as u8);
            v.push('n' as u8);
            v.push('o' as u8);
            v.push('t' as u8);
            v.push(' ' as u8);
            v.push('b' as u8);
            v.push('e' as u8);
            v.push('e' as u8);
            v.push('n' as u8);
            v.push(' ' as u8);
            v.push('u' as u8);
            v.push('p' as u8);
            v.push('l' as u8);
            v.push('o' as u8);
            v.push('a' as u8);
            v.push('d' as u8);
            v.push('e' as u8);
            v.push('d' as u8);
            v.push('.' as u8);
            v.push(' ' as u8);
        },
        RawEventType::TournamentModeStarted => {
            v.push('m' as u8);
            v.push('o' as u8);
            v.push('d' as u8);
            v.push('e' as u8);
            v.push(' ' as u8);
            v.push('s' as u8);
            v.push('t' as u8);
            v.push('a' as u8);
            v.push('r' as u8);
            v.push('t' as u8);
            v.push('e' as u8);
            v.push('d' as u8);
            v.push(' ' as u8);
        },
        RawEventType::FlagEvent => {
            v.push('t' as u8);
            v.push('r' as u8);
            v.push('i' as u8);
            v.push('g' as u8);
            v.push('g' as u8);
            v.push('e' as u8);
            v.push('r' as u8);
            v.push('e' as u8);
            v.push('d' as u8);
            v.push(' ' as u8);
            v.push('"' as u8);
            v.push('f' as u8);
            v.push('l' as u8);
            v.push('a' as u8);
            v.push('g' as u8);
            v.push('e' as u8);
            v.push('v' as u8);
            v.push('e' as u8);
            v.push('n' as u8);
            v.push('t' as u8);
            v.push('"' as u8);
        },
        RawEventType::CVars => {
            v.push('c' as u8);
            v.push('v' as u8);
            v.push('a' as u8);
            v.push('r' as u8);
            v.push('s' as u8);
            v.push(' ' as u8);
        },
        RawEventType::Unknown => {},
    }
    proof { assert(v@ =~= token_of(t)); }
    v
}


/// The event type chosen by trying the keywords of `keyword_order` from
/// position `i` on; `Unknown` when none matches.
pub open spec fn match_from(s: Seq<u8>, i: int) -> RawEventType
    decreases keyword_order().len() - i when 0 <= i <= keyword_order().len()
{
    if i < 0 || i >= keyword_order().len() {
        RawEventType::Unknown
    } else if token_of(keyword_order()[i]).is_prefix_of(s) {
        keyword_order()[i]
    } else {
        match_from(s, i + 1)
    }
}

/// The event type announced by the head of `s`: the keyword-table entry whose
/// text starts `s`, or `Unknown`.
pub open spec fn event_type_spec(s: Seq<u8>) -> RawEventType {
    match_from(s, 0)
}

/// Matches the head of `input` against the keyword table; returns the number
/// of bytes the matched keyword occupies (0 for `Unknown`) and the type.
pub fn match_event_type(input: &[u8]) -> (r: (usize, RawEventType))
    ensures
        r.1 == event_type_spec(input@),
        r.0 == token_of(r.1).len(),
        token_of(r.1).is_prefix_of(input@),
        r.0 <= input@.len(),
{
    let table = keyword_table();
    let mut i: usize = 0;
    while i < table.len()
        invariant
            0 <= i <= table@.len(),
            table@ == keyword_order(),
            event_type_spec(input@) == match_from(input@, i as int),
        decreases table@.len() - i,
    {
        let ty = table[i];
        let tok = token_bytes(ty);
        if starts_with(input, tok.as_slice()) {
            proof {
                assert(match_from(input@, i as int) == ty);
            }
            return (tok.len(), ty);
        }
        i += 1;
    }
    proof {
        assert(match_from(input@, keyword_order().len() as int) == RawEventType::Unknown);
        assert(token_of(RawEventType::Unknown).is_prefix_of(input@));
    }
    (0, RawEventType::Unknown)
}


/// The keyword chosen for an input starts that input.
pub proof fn lemma_match_from_prefix(s: Seq<u8>, i: int)
    requires
        0 <= i <= keyword_order().len(),
    ensures
        token_of(match_from(s, i)).is_prefix_of(s),
    decreases keyword_order().len() - i,
{
    if i >= keyword_order().len() {
        assert(token_of(RawEventType::Unknown) =~= Seq::<u8>::empty());
        assert(Seq::<u8>::empty().is_prefix_of(s));
    } else if token_of(keyword_order()[i]).is_prefix_of(s) {
    } else {
        lemma_match_from_prefix(s, i + 1);
    }
}

/// The keyword text of the chosen event type starts the input.
pub proof fn lemma_token_prefix(s: Seq<u8>)
    ensures
        token_of(event_type_spec(s)).is_prefix_of(s),
{
    lemma_match_from_prefix(s, 0);
}

} // verus!

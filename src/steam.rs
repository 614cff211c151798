use vstd::prelude::*;

verus! {

/// Offset between a 64-bit Steam ID and the 32-bit account id it carries.
pub const STEAM_ID_64_IDENT: u64 = 76561197960265728;

/// The account id did not fit in 32 bits.
#[derive(Debug, Clone, Copy, PartialEq, Eq, Structural)]
pub struct SteamIdOverflow;

/// The 32-bit account id that `steam_id` stands for, as an integer: ids at or
/// above the 64-bit offset have it subtracted, smaller ids are taken as they are.
pub open spec fn steamid3_of(steam_id: u64) -> int {
    if steam_id < STEAM_ID_64_IDENT {
        steam_id as int
    } else {
        steam_id - STEAM_ID_64_IDENT
    }
}

/// Normalizes a Steam ID to its 32-bit account form; fails when that form
/// does not fit in a `u32`.
pub fn steamid64_to_steamid3(steam_id: u64) -> (r: Result<u32, SteamIdOverflow>)
    ensures
        steamid3_of(steam_id) <= u32::MAX ==> r == Ok::<u32, SteamIdOverflow>(
            steamid3_of(steam_id) as u32,
        ),
        steamid3_of(steam_id) > u32::MAX ==> r is Err,
{
    let account: u64 = if steam_id < STEAM_ID_64_IDENT {
        steam_id
    } else {
        steam_id - STEAM_ID_64_IDENT
    };
    if account <= u32::MAX as u64 {
        Ok(account as u32)
    } else {
        Err(SteamIdOverflow)
    }
}

/// An optional Steam ID in normalized form; one that does not fit is absent.
pub open spec fn normalized_steam_id(steam_id: Option<u64>) -> Option<u32> {
    match steam_id {
        Some(s) => if steamid3_of(s) <= u32::MAX {
            Some(steamid3_of(s) as u32)
        } else {
            None
        },
        None => None,
    }
}

/// Steam ID normalization as an optional field: an id that does not fit is
/// reported as absent.
pub fn normalize_steam_id(steam_id: Option<u64>) -> (r: Option<u32>)
    ensures
        r == normalized_steam_id(steam_id),
{
    match steam_id {
        Some(s) => match steamid64_to_steamid3(s) {
            Ok(v) => Some(v),
            Err(_) => None,
        },
        None => None,
    }
}

} // verus!

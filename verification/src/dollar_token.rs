//! The sale asset's own access-control module: supply bookkeeping under a
//! single authority, per-wallet blacklist and whitelist entries, a trading
//! switch, and the gating decision for a controlled transfer. The engine
//! consumes the asset only through the external Ledger; this module governs
//! the asset itself and shares nothing with the campaign records.

use vstd::prelude::*;

use crate::bytes32::bytes32_eq;
use crate::errors::TokenError;
use crate::state::Address;

verus! {

/// The registry record of the managed asset.
#[derive(Debug, Clone)]
pub struct TokenInfo {
    pub authority: Address,
    pub mint: Address,
    pub name: String,
    pub symbol: String,
    pub uri: String,
    pub decimals: u8,
    pub total_supply: u64,
    pub is_initialized: bool,
    pub whitelist_enabled: bool,
    pub trading_enabled: bool,
    pub blacklist_enabled: bool,
}

/// A per-wallet blacklist record.
#[derive(Debug, Clone)]
pub struct BlacklistEntry {
    pub wallet: Address,
    pub is_blacklisted: bool,
    pub added_at: i64,
    pub reason: String,
}

/// A per-wallet whitelist record with a purchase allocation.
#[derive(Debug, Clone, Copy)]
pub struct WhitelistEntry {
    pub wallet: Address,
    pub is_whitelisted: bool,
    pub allocation: u64,
    pub purchased: u64,
    pub added_at: i64,
}

/// Supply was minted.
#[derive(Debug, Clone, Copy)]
pub struct TokensMinted {
    pub mint: Address,
    pub to: Address,
    pub amount: u64,
    pub new_supply: u64,
}

/// Supply was burned.
#[derive(Debug, Clone, Copy)]
pub struct TokensBurned {
    pub mint: Address,
    pub from: Address,
    pub amount: u64,
    pub new_supply: u64,
}

/// Pooled liquidity was moved to the treasury.
#[derive(Debug, Clone, Copy)]
pub struct LiquidityDrained {
    pub from: Address,
    pub to: Address,
    pub amount: u64,
    pub authority: Address,
}

/// A wallet was blacklisted.
#[derive(Debug, Clone, Copy)]
pub struct WalletBlacklisted {
    pub wallet: Address,
    pub authority: Address,
    pub timestamp: i64,
}

/// A wallet's blacklist entry was cleared.
#[derive(Debug, Clone, Copy)]
pub struct WalletUnblacklisted {
    pub wallet: Address,
    pub authority: Address,
    pub timestamp: i64,
}

/// The blacklist system was switched on or off.
#[derive(Debug, Clone, Copy)]
pub struct BlacklistSystemToggled {
    pub enabled: bool,
    pub authority: Address,
    pub timestamp: i64,
}

/// A wallet was whitelisted with an allocation.
#[derive(Debug, Clone, Copy)]
pub struct WalletWhitelisted {
    pub wallet: Address,
    pub allocation: u64,
    pub authority: Address,
    pub timestamp: i64,
}

/// A wallet's whitelist entry was cleared.
#[derive(Debug, Clone, Copy)]
pub struct WalletRemovedFromWhitelist {
    pub wallet: Address,
    pub authority: Address,
    pub timestamp: i64,
}

/// Whitelist-only mode was switched on or off.
#[derive(Debug, Clone, Copy)]
pub struct WhitelistModeToggled {
    pub enabled: bool,
    pub authority: Address,
    pub timestamp: i64,
}

/// Trading was switched on or off.
#[derive(Debug, Clone, Copy)]
pub struct TradingToggled {
    pub enabled: bool,
    pub authority: Address,
    pub timestamp: i64,
}

/// A gated transfer went through.
#[derive(Debug, Clone, Copy)]
pub struct ControlledTransferExecuted {
    pub from: Address,
    pub to: Address,
    pub amount: u64,
    pub authority: Address,
}

/// The managing authority changed hands.
#[derive(Debug, Clone, Copy)]
pub struct AuthorityTransferred {
    pub old_authority: Address,
    pub new_authority: Address,
    pub mint: Address,
}

/// Creates the registry record of a fresh asset: supply zero, trading and
/// the blacklist system on, whitelist-only mode off.
pub fn initialize_token(
    authority: &Address,
    mint: &Address,
    name: String,
    symbol: String,
    uri: String,
    decimals: u8,
) -> (r: TokenInfo)
    ensures
        r == (TokenInfo {
            authority: *authority,
            mint: *mint,
            name,
            symbol,
            uri,
            decimals,
            total_supply: 0,
            is_initialized: true,
            whitelist_enabled: false,
            trading_enabled: true,
            blacklist_enabled: true,
        }),
{
    TokenInfo {
        authority: *authority,
        mint: *mint,
        name,
        symbol,
        uri,
        decimals,
        total_supply: 0,
        is_initialized: true,
        whitelist_enabled: false,
        trading_enabled: true,
        blacklist_enabled: true,
    }
}

/// Records newly minted supply. Only the authority may mint; the supply
/// counter must not wrap.
pub fn mint_tokens(info: &mut TokenInfo, caller: &Address, destination: &Address, amount: u64) -> (r:
    Result<TokensMinted, TokenError>)
    requires
        caller@ == old(info).authority@ ==> old(info).total_supply + amount <= u64::MAX,
    ensures
        r is Ok <==> caller@ == old(info).authority@,
        r is Err ==> r == Err::<TokensMinted, TokenError>(TokenError::UnauthorizedAccess)
            && *final(info) == *old(info),
        r matches Ok(ev) ==> *final(info) == (TokenInfo {
            total_supply: (old(info).total_supply + amount) as u64,
            ..*old(info)
        }) && ev == (TokensMinted {
            mint: old(info).mint,
            to: *destination,
            amount,
            new_supply: final(info).total_supply,
        }),
{
    if !bytes32_eq(caller, &info.authority) {
        return Err(TokenError::UnauthorizedAccess);
    }
    info.total_supply = info.total_supply + amount;
    Ok(TokensMinted { mint: info.mint, to: *destination, amount, new_supply: info.total_supply })
}

/// Records burned supply. Only the authority may burn; no more than the
/// recorded supply can be burned.
pub fn burn_tokens(info: &mut TokenInfo, caller: &Address, from: &Address, amount: u64) -> (r:
    Result<TokensBurned, TokenError>)
    requires
        caller@ == old(info).authority@ ==> amount <= old(info).total_supply,
    ensures
        r is Ok <==> caller@ == old(info).authority@,
        r is Err ==> r == Err::<TokensBurned, TokenError>(TokenError::UnauthorizedAccess)
            && *final(info) == *old(info),
        r matches Ok(ev) ==> *final(info) == (TokenInfo {
            total_supply: (old(info).total_supply - amount) as u64,
            ..*old(info)
        }) && ev == (TokensBurned {
            mint: old(info).mint,
            from: *from,
            amount,
            new_supply: final(info).total_supply,
        }),
{
    if !bytes32_eq(caller, &info.authority) {
        return Err(TokenError::UnauthorizedAccess);
    }
    info.total_supply = info.total_supply - amount;
    Ok(TokensBurned { mint: info.mint, from: *from, amount, new_supply: info.total_supply })
}

/// Authorizes moving pooled liquidity to the treasury. Authority-only; the
/// registry record itself does not change.
pub fn drain_liquidity(
    info: &TokenInfo,
    caller: &Address,
    pool: &Address,
    treasury: &Address,
    amount: u64,
) -> (r: Result<LiquidityDrained, TokenError>)
    ensures
        r is Ok <==> caller@ == info.authority@,
        r is Err ==> r == Err::<LiquidityDrained, TokenError>(TokenError::UnauthorizedAccess),
        r matches Ok(ev) ==> ev == (LiquidityDrained {
            from: *pool,
            to: *treasury,
            amount,
            authority: *caller,
        }),
{
    if !bytes32_eq(caller, &info.authority) {
        return Err(TokenError::UnauthorizedAccess);
    }
    Ok(LiquidityDrained { from: *pool, to: *treasury, amount, authority: *caller })
}

/// Marks a wallet blacklisted with a fixed note and the current time.
/// Authority-only.
pub fn add_to_blacklist(
    info: &TokenInfo,
    caller: &Address,
    entry: &mut BlacklistEntry,
    wallet: &Address,
    now: i64,
) -> (r: Result<WalletBlacklisted, TokenError>)
    ensures
        r is Ok <==> caller@ == info.authority@,
        r is Err ==> r == Err::<WalletBlacklisted, TokenError>(TokenError::UnauthorizedAccess)
            && *final(entry) == *old(entry),
        r matches Ok(ev) ==> ({
            &&& final(entry).wallet == *wallet
            &&& final(entry).is_blacklisted
            &&& final(entry).added_at == now
            &&& final(entry).reason@ == "Admin blocked"@
            &&& ev == (WalletBlacklisted { wallet: *wallet, authority: *caller, timestamp: now })
        }),
{
    if !bytes32_eq(caller, &info.authority) {
        return Err(TokenError::UnauthorizedAccess);
    }
    entry.wallet = *wallet;
    entry.is_blacklisted = true;
    entry.added_at = now;
    entry.reason = "Admin blocked".to_string();
    Ok(WalletBlacklisted { wallet: *wallet, authority: *caller, timestamp: now })
}

/// Clears a wallet's blacklist mark. Authority-only; the rest of the entry
/// is kept for the record.
pub fn remove_from_blacklist(
    info: &TokenInfo,
    caller: &Address,
    entry: &mut BlacklistEntry,
    now: i64,
) -> (r: Result<WalletUnblacklisted, TokenError>)
    ensures
        r is Ok <==> caller@ == info.authority@,
        r is Err ==> r == Err::<WalletUnblacklisted, TokenError>(TokenError::UnauthorizedAccess)
            && *final(entry) == *old(entry),
        r matches Ok(ev) ==> *final(entry) == (BlacklistEntry {
            is_blacklisted: false,
            ..*old(entry)
        }) && ev == (WalletUnblacklisted {
            wallet: old(entry).wallet,
            authority: *caller,
            timestamp: now,
        }),
{
    if !bytes32_eq(caller, &info.authority) {
        return Err(TokenError::UnauthorizedAccess);
    }
    entry.is_blacklisted = false;
    Ok(WalletUnblacklisted { wallet: entry.wallet, authority: *caller, timestamp: now })
}

/// Switches the blacklist system on or off. Authority-only.
pub fn toggle_blacklist_system(info: &mut TokenInfo, caller: &Address, enabled: bool, now: i64) -> (
    r: Result<BlacklistSystemToggled, TokenError>)
    ensures
        r is Ok <==> caller@ == old(info).authority@,
        r is Err ==> r == Err::<BlacklistSystemToggled, TokenError>(TokenError::UnauthorizedAccess)
            && *final(info) == *old(info),
        r matches Ok(ev) ==> *final(info) == (TokenInfo {
            blacklist_enabled: enabled,
            ..*old(info)
        }) && ev == (BlacklistSystemToggled { enabled, authority: *caller, timestamp: now }),
{
    if !bytes32_eq(caller, &info.authority) {
        return Err(TokenError::UnauthorizedAccess);
    }
    info.blacklist_enabled = enabled;
    Ok(BlacklistSystemToggled { enabled, authority: *caller, timestamp: now })
}

/// Whitelists a wallet with a purchase allocation. Authority-only.
pub fn add_to_whitelist(
    info: &TokenInfo,
    caller: &Address,
    entry: &mut WhitelistEntry,
    wallet: &Address,
    allocation: u64,
    now: i64,
) -> (r: Result<WalletWhitelisted, TokenError>)
    ensures
        r is Ok <==> caller@ == info.authority@,
        r is Err ==> r == Err::<WalletWhitelisted, TokenError>(TokenError::UnauthorizedAccess)
            && *final(entry) == *old(entry),
        r matches Ok(ev) ==> *final(entry) == (WhitelistEntry {
            wallet: *wallet,
            is_whitelisted: true,
            allocation,
            purchased: 0,
            added_at: now,
        }) && ev == (WalletWhitelisted {
            wallet: *wallet,
            allocation,
            authority: *caller,
            timestamp: now,
        }),
{
    if !bytes32_eq(caller, &info.authority) {
        return Err(TokenError::UnauthorizedAccess);
    }
    entry.wallet = *wallet;
    entry.is_whitelisted = true;
    entry.allocation = allocation;
    entry.purchased = 0;
    entry.added_at = now;
    Ok(WalletWhitelisted { wallet: *wallet, allocation, authority: *caller, timestamp: now })
}

/// Clears a wallet's whitelist mark. Authority-only.
pub fn remove_from_whitelist(
    info: &TokenInfo,
    caller: &Address,
    entry: &mut WhitelistEntry,
    now: i64,
) -> (r: Result<WalletRemovedFromWhitelist, TokenError>)
    ensures
        r is Ok <==> caller@ == info.authority@,
        r is Err ==> r == Err::<WalletRemovedFromWhitelist, TokenError>(
            TokenError::UnauthorizedAccess,
        ) && *final(entry) == *old(entry),
        r matches Ok(ev) ==> *final(entry) == (WhitelistEntry {
            is_whitelisted: false,
            ..*old(entry)
        }) && ev == (WalletRemovedFromWhitelist {
            wallet: old(entry).wallet,
            authority: *caller,
            timestamp: now,
        }),
{
    if !bytes32_eq(caller, &info.authority) {
        return Err(TokenError::UnauthorizedAccess);
    }
    entry.is_whitelisted = false;
    Ok(WalletRemovedFromWhitelist { wallet: entry.wallet, authority: *caller, timestamp: now })
}

/// Switches whitelist-only mode on or off. Authority-only.
pub fn toggle_whitelist_mode(info: &mut TokenInfo, caller: &Address, enabled: bool, now: i64) -> (r:
    Result<WhitelistModeToggled, TokenError>)
    ensures
        r is Ok <==> caller@ == old(info).authority@,
        r is Err ==> r == Err::<WhitelistModeToggled, TokenError>(TokenError::UnauthorizedAccess)
            && *final(info) == *old(info),
        r matches Ok(ev) ==> *final(info) == (TokenInfo {
            whitelist_enabled: enabled,
            ..*old(info)
        }) && ev == (WhitelistModeToggled { enabled, authority: *caller, timestamp: now }),
{
    if !bytes32_eq(caller, &info.authority) {
        return Err(TokenError::UnauthorizedAccess);
    }
    info.whitelist_enabled = enabled;
    Ok(WhitelistModeToggled { enabled, authority: *caller, timestamp: now })
}

/// Switches trading on or off. Authority-only.
pub fn toggle_trading(info: &mut TokenInfo, caller: &Address, enabled: bool, now: i64) -> (r: Result<
    TradingToggled,
    TokenError,
>)
    ensures
        r is Ok <==> caller@ == old(info).authority@,
        r is Err ==> r == Err::<TradingToggled, TokenError>(TokenError::UnauthorizedAccess)
            && *final(info) == *old(info),
        r matches Ok(ev) ==> *final(info) == (TokenInfo { trading_enabled: enabled, ..*old(info) })
            && ev == (TradingToggled { enabled, authority: *caller, timestamp: now }),
{
    if !bytes32_eq(caller, &info.authority) {
        return Err(TokenError::UnauthorizedAccess);
    }
    info.trading_enabled = enabled;
    Ok(TradingToggled { enabled, authority: *caller, timestamp: now })
}

/// The first gate a controlled transfer fails, or `None`: trading must be
/// on; under the blacklist system a present blacklist entry must be clear on
/// both sides; in whitelist-only mode both sides must hold a whitelist mark.
pub open spec fn spec_controlled_transfer_err(
    info: TokenInfo,
    sender_blacklist: Option<BlacklistEntry>,
    recipient_blacklist: Option<BlacklistEntry>,
    sender_whitelist: Option<WhitelistEntry>,
    recipient_whitelist: Option<WhitelistEntry>,
) -> Option<TokenError> {
    if !info.trading_enabled {
        Some(TokenError::TradingDisabled)
    } else if info.blacklist_enabled && (sender_blacklist matches Some(e) && e.is_blacklisted) {
        Some(TokenError::SenderBlacklisted)
    } else if info.blacklist_enabled && (recipient_blacklist matches Some(e) && e.is_blacklisted) {
        Some(TokenError::RecipientBlacklisted)
    } else if info.whitelist_enabled && !(sender_whitelist matches Some(e) && e.is_whitelisted) {
        Some(TokenError::SenderNotWhitelisted)
    } else if info.whitelist_enabled && !(recipient_whitelist matches Some(e)
        && e.is_whitelisted) {
        Some(TokenError::RecipientNotWhitelisted)
    } else {
        None
    }
}

/// Gates a transfer of the managed asset behind the trading switch, the
/// blacklist and whitelist-only mode, and describes the transfer owed.
pub fn controlled_transfer(
    info: &TokenInfo,
    sender_blacklist: &Option<BlacklistEntry>,
    recipient_blacklist: &Option<BlacklistEntry>,
    sender_whitelist: &Option<WhitelistEntry>,
    recipient_whitelist: &Option<WhitelistEntry>,
    from: &Address,
    to: &Address,
    authority: &Address,
    amount: u64,
) -> (r: Result<ControlledTransferExecuted, TokenError>)
    ensures
        r is Ok <==> spec_controlled_transfer_err(
            *info,
            *sender_blacklist,
            *recipient_blacklist,
            *sender_whitelist,
            *recipient_whitelist,
        ) is None,
        r matches Err(e) ==> Some(e) == spec_controlled_transfer_err(
            *info,
            *sender_blacklist,
            *recipient_blacklist,
            *sender_whitelist,
            *recipient_whitelist,
        ),
        r matches Ok(ev) ==> ev == (ControlledTransferExecuted {
            from: *from,
            to: *to,
            amount,
            authority: *authority,
        }),
{
    if !info.trading_enabled {
        return Err(TokenError::TradingDisabled);
    }
    if info.blacklist_enabled {
        if let Some(e) = sender_blacklist {
            if e.is_blacklisted {
                return Err(TokenError::SenderBlacklisted);
            }
        }
    }
    if info.blacklist_enabled {
        if let Some(e) = recipient_blacklist {
            if e.is_blacklisted {
                return Err(TokenError::RecipientBlacklisted);
            }
        }
    }
    if info.whitelist_enabled {
        match sender_whitelist {
            Some(e) => {
                if !e.is_whitelisted {
                    return Err(TokenError::SenderNotWhitelisted);
                }
            },
            None => {
                return Err(TokenError::SenderNotWhitelisted);
            },
        }
        match recipient_whitelist {
            Some(e) => {
                if !e.is_whitelisted {
                    return Err(TokenError::RecipientNotWhitelisted);
                }
            },
            None => {
                return Err(TokenError::RecipientNotWhitelisted);
            },
        }
    }
    Ok(ControlledTransferExecuted { from: *from, to: *to, amount, authority: *authority })
}

/// Hands the registry to a new authority. Authority-only.
pub fn transfer_authority(info: &mut TokenInfo, caller: &Address, new_authority: &Address) -> (r:
    Result<AuthorityTransferred, TokenError>)
    ensures
        r is Ok <==> caller@ == old(info).authority@,
        r is Err ==> r == Err::<AuthorityTransferred, TokenError>(TokenError::UnauthorizedAccess)
            && *final(info) == *old(info),
        r matches Ok(ev) ==> *final(info) == (TokenInfo {
            authority: *new_authority,
            ..*old(info)
        }) && ev == (AuthorityTransferred {
            old_authority: old(info).authority,
            new_authority: *new_authority,
            mint: old(info).mint,
        }),
{
    if !bytes32_eq(caller, &info.authority) {
        return Err(TokenError::UnauthorizedAccess);
    }
    let previous = info.authority;
    info.authority = *new_authority;
    Ok(AuthorityTransferred { old_authority: previous, new_authority: *new_authority, mint: info.mint })
}

} // verus!

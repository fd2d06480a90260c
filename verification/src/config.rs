//! Conversions between database rows and the configuration domain: scripts,
//! guild settings, premium slots, plugins and user metadata.  Timestamps are
//! UTC milliseconds; the integer codes for tiers and states are particular to
//! the backing store and kept out of the domain types.

use vstd::prelude::*;
use crate::runtime::{Command, IntervalTimer};
use crate::script_store::{Script, ScriptContributes};

verus! {

/// A paid tier a guild can hold.
#[derive(Clone, Copy, Debug, PartialEq, Eq, Structural)]
pub enum PremiumSlotTier {
    Lite,
    Premium,
}

/// The lifecycle state of a premium slot.
#[derive(Clone, Copy, Debug, PartialEq, Eq, Structural)]
pub enum PremiumSlotState {
    Active,
    Cancelling,
    Cancelled,
    PaymentFailed,
}

/// The store's integer code for a tier.
pub open spec fn spec_tier_int(tier: PremiumSlotTier) -> int {
    match tier {
        PremiumSlotTier::Lite => 1,
        PremiumSlotTier::Premium => 2,
    }
}

/// The store's integer code for a slot state.
pub open spec fn spec_state_int(state: PremiumSlotState) -> int {
    match state {
        PremiumSlotState::Active => 1,
        PremiumSlotState::Cancelling => 2,
        PremiumSlotState::Cancelled => 3,
        PremiumSlotState::PaymentFailed => 4,
    }
}

/// Encode a tier for the store.  The code is particular to this store layout,
/// so it stays a standalone function rather than a general conversion.
pub fn tier_to_int(tier: PremiumSlotTier) -> (r: i32)
    ensures
        r == spec_tier_int(tier),
{
    match tier {
        PremiumSlotTier::Lite => 1,
        PremiumSlotTier::Premium => 2,
    }
}

/// Encode a slot state for the store.
pub fn state_to_int(state: PremiumSlotState) -> (r: i32)
    ensures
        r == spec_state_int(state),
{
    match state {
        PremiumSlotState::Active => 1,
        PremiumSlotState::Cancelling => 2,
        PremiumSlotState::Cancelled => 3,
        PremiumSlotState::PaymentFailed => 4,
    }
}

/// Decode a stored tier code; codes outside the table are rejected upstream.
pub fn tier_from_int(v: i32) -> (r: PremiumSlotTier)
    requires
        v == 1 || v == 2,
    ensures
        spec_tier_int(r) == v,
{
    if v == 1 {
        PremiumSlotTier::Lite
    } else {
        PremiumSlotTier::Premium
    }
}

/// Decode a stored slot-state code.
pub fn state_from_int(v: i32) -> (r: PremiumSlotState)
    requires
        1 <= v <= 4,
    ensures
        spec_state_int(r) == v,
{
    if v == 1 {
        PremiumSlotState::Active
    } else if v == 2 {
        PremiumSlotState::Cancelling
    } else if v == 3 {
        PremiumSlotState::Cancelled
    } else {
        PremiumSlotState::PaymentFailed
    }
}

/// Errors of the configuration store.
pub enum ConfigStoreError {
    ScriptNotFound,
    PluginNotFound(u64),
    GuildScriptLimitReached(u64, u64),
    Other(String),
}

/// How many scripts one guild may hold.
pub const GUILD_SCRIPT_COUNT_LIMIT: i64 = 100;

/// Guard for script creation: past the per-guild limit no further script may
/// be created, and the error reports the count that was found and the limit.
pub fn check_guild_script_limit(count: i64) -> (r: Result<(), ConfigStoreError>)
    requires
        count >= 0,
    ensures
        r is Ok <==> count <= GUILD_SCRIPT_COUNT_LIMIT,
        r matches Err(e) ==> e matches ConfigStoreError::GuildScriptLimitReached(c, l) && c
            == count && l == GUILD_SCRIPT_COUNT_LIMIT,
{
    if count > GUILD_SCRIPT_COUNT_LIMIT {
        Err(ConfigStoreError::GuildScriptLimitReached(count as u64, GUILD_SCRIPT_COUNT_LIMIT as u64))
    } else {
        Ok(())
    }
}

/// A script row as the database hands it over.  The contribution columns are
/// decoded JSON; a column that failed to decode arrives as `None` and counts
/// as empty.
pub struct DbScript {
    pub id: i64,
    pub guild_id: i64,
    pub name: String,
    pub original_source: String,
    pub enabled: bool,
    pub contributes_commands: Option<Vec<Command>>,
    pub contributes_interval_timers: Option<Vec<IntervalTimer>>,
    pub plugin_id: Option<i64>,
    pub plugin_auto_update: Option<bool>,
}

/// Turn a script row into the domain script.  Row ids come from the store's
/// id sequence and are never negative.
pub fn script_from_db(v: DbScript) -> (r: Script)
    requires
        v.id >= 0,
        v.plugin_id matches Some(p) ==> p >= 0,
    ensures
        r@.id == v.id,
        r@.name == v.name@,
        r@.original_source == v.original_source@,
        r@.enabled == v.enabled,
        r@.plugin_id matches Some(p) ==> (v.plugin_id matches Some(q) && p == q),
        r@.plugin_id is None <==> v.plugin_id is None,
        r@.plugin_auto_update == v.plugin_auto_update,
        r@.commands == (match v.contributes_commands {
            Some(c) => c@.map_values(|x: Command| x@),
            None => Seq::<Seq<char>>::empty(),
        }),
        r@.interval_timers == (match v.contributes_interval_timers {
            Some(t) => t@.map_values(|x: IntervalTimer| x@),
            None => Seq::<Seq<char>>::empty(),
        }),
{
    let commands = match v.contributes_commands {
        Some(c) => c,
        None => Vec::new(),
    };
    let interval_timers = match v.contributes_interval_timers {
        Some(t) => t,
        None => Vec::new(),
    };
    let plugin_id = match v.plugin_id {
        Some(p) => Some(p as u64),
        None => None,
    };
    proof {
        if v.contributes_commands is None {
            assert(commands@.map_values(|x: Command| x@) =~= Seq::<Seq<char>>::empty());
        }
        if v.contributes_interval_timers is None {
            assert(interval_timers@.map_values(|x: IntervalTimer| x@)
                =~= Seq::<Seq<char>>::empty());
        }
    }
    Script {
        id: v.id as u64,
        name: v.name,
        original_source: v.original_source,
        enabled: v.enabled,
        plugin_id,
        plugin_auto_update: v.plugin_auto_update,
        contributes: ScriptContributes { commands, interval_timers },
    }
}

/// Per-guild settings.  A zero channel column means no error channel is set.
pub struct GuildMetaConfig {
    pub guild_id: u64,
    pub error_channel_id: Option<u64>,
}

/// A guild-settings row as the database hands it over.
pub struct DbGuildMetaConfig {
    pub guild_id: i64,
    pub error_channel_id: i64,
}

/// Turn a guild-settings row into the domain value: channel zero means none.
pub fn guild_meta_config_from_db(v: DbGuildMetaConfig) -> (r: GuildMetaConfig)
    requires
        v.guild_id >= 0,
        v.error_channel_id >= 0,
    ensures
        r.guild_id == v.guild_id,
        v.error_channel_id != 0 ==> (r.error_channel_id matches Some(c) && c == v.error_channel_id),
        v.error_channel_id == 0 ==> r.error_channel_id is None,
{
    GuildMetaConfig {
        guild_id: v.guild_id as u64,
        error_channel_id: if v.error_channel_id != 0 {
            Some(v.error_channel_id as u64)
        } else {
            None
        },
    }
}

/// A guild the bot has joined; `left_at_ms` is set once the bot leaves.
pub struct JoinedGuild {
    pub id: u64,
    pub name: String,
    pub icon: String,
    pub owner_id: u64,
    pub left_at_ms: Option<i64>,
}

/// A joined-guild row as the database hands it over.
pub struct DbJoinedGuild {
    pub id: i64,
    pub name: String,
    pub icon: String,
    pub owner_id: i64,
    pub left_at_ms: Option<i64>,
}

/// Turn a joined-guild row into the domain value.
pub fn joined_guild_from_db(v: DbJoinedGuild) -> (r: JoinedGuild)
    requires
        v.id >= 0,
        v.owner_id >= 0,
    ensures
        r.id == v.id,
        r.name == v.name,
        r.icon == v.icon,
        r.owner_id == v.owner_id,
        r.left_at_ms == v.left_at_ms,
{
    JoinedGuild {
        id: v.id as u64,
        name: v.name,
        icon: v.icon,
        owner_id: v.owner_id as u64,
        left_at_ms: v.left_at_ms,
    }
}

/// One purchased premium slot and where it is attached.
pub struct PremiumSlot {
    pub id: u64,
    pub title: String,
    pub user_id: Option<u64>,
    pub message: String,
    pub source: String,
    pub source_id: String,
    pub tier: PremiumSlotTier,
    pub state: PremiumSlotState,
    pub created_at_ms: i64,
    pub updated_at_ms: i64,
    pub expires_at_ms: i64,
    pub manage_url: String,
    pub attached_guild_id: Option<u64>,
}

/// A premium-slot row as the database hands it over.
pub struct DbPremiumSlot {
    pub id: i64,
    pub title: String,
    pub user_id: Option<i64>,
    pub message: String,
    pub source: String,
    pub source_id: String,
    pub tier: i32,
    pub state: i32,
    pub created_at_ms: i64,
    pub updated_at_ms: i64,
    pub expires_at_ms: i64,
    pub manage_url: String,
    pub attached_guild_id: Option<i64>,
}

/// Turn a premium-slot row into the domain value.  Rows carrying a tier or
/// state code outside the tables cannot be represented and are rejected by
/// the caller before conversion.
pub fn premium_slot_from_db(v: DbPremiumSlot) -> (r: PremiumSlot)
    requires
        v.id >= 0,
        v.tier == 1 || v.tier == 2,
        1 <= v.state <= 4,
        v.user_id matches Some(u) ==> u >= 0,
        v.attached_guild_id matches Some(g) ==> g >= 0,
    ensures
        r.id == v.id,
        r.title == v.title,
        r.user_id matches Some(u) ==> (v.user_id matches Some(w) && u == w),
        r.user_id is None <==> v.user_id is None,
        r.message == v.message,
        r.source == v.source,
        r.source_id == v.source_id,
        spec_tier_int(r.tier) == v.tier,
        spec_state_int(r.state) == v.state,
        r.created_at_ms == v.created_at_ms,
        r.updated_at_ms == v.updated_at_ms,
        r.expires_at_ms == v.expires_at_ms,
        r.manage_url == v.manage_url,
        r.attached_guild_id matches Some(g) ==> (v.attached_guild_id matches Some(h) && g == h),
        r.attached_guild_id is None <==> v.attached_guild_id is None,
{
    PremiumSlot {
        id: v.id as u64,
        title: v.title,
        user_id: match v.user_id {
            Some(u) => Some(u as u64),
            None => None,
        },
        message: v.message,
        source: v.source,
        source_id: v.source_id,
        tier: tier_from_int(v.tier),
        state: state_from_int(v.state),
        created_at_ms: v.created_at_ms,
        updated_at_ms: v.updated_at_ms,
        expires_at_ms: v.expires_at_ms,
        manage_url: v.manage_url,
        attached_guild_id: match v.attached_guild_id {
            Some(g) => Some(g as u64),
            None => None,
        },
    }
}

/// A script plugin's published and development sources.
pub struct ScriptPluginData {
    pub published_version: Option<String>,
    pub published_version_updated_at_ms: Option<i64>,
    pub dev_version: Option<String>,
    pub dev_version_updated_at_ms: Option<i64>,
}

/// What kind of plugin this is and its kind-specific data.
pub enum PluginData {
    ScriptPluginData(ScriptPluginData),
}

/// One published or in-development plugin.
pub struct Plugin {
    pub id: u64,
    pub created_at_ms: i64,
    pub author_id: u64,
    pub name: String,
    pub short_description: String,
    pub long_description: String,
    pub is_public: bool,
    pub is_official: bool,
    pub data: PluginData,
}

/// A plugin row as the database hands it over.
pub struct DbPlugin {
    pub id: i64,
    pub created_at_ms: i64,
    pub name: String,
    pub short_description: String,
    pub long_description: String,
    pub is_published: bool,
    pub is_official: bool,
    pub plugin_kind: i16,
    pub current_version_number: i32,
    pub script_published_source: Option<String>,
    pub script_published_version_updated_at_ms: Option<i64>,
    pub script_dev_source: Option<String>,
    pub script_dev_version_updated_at_ms: Option<i64>,
    pub author_id: i64,
    pub is_public: bool,
}

/// Turn a plugin row into the domain value.  Only the script plugin kind
/// (code zero) exists; other codes cannot be represented and are rejected by
/// the caller before conversion.
pub fn plugin_from_db(v: DbPlugin) -> (r: Plugin)
    requires
        v.id >= 0,
        v.author_id >= 0,
        v.plugin_kind == 0,
    ensures
        r.id == v.id,
        r.created_at_ms == v.created_at_ms,
        r.author_id == v.author_id,
        r.name == v.name,
        r.short_description == v.short_description,
        r.long_description == v.long_description,
        r.is_public == v.is_public,
        r.is_official == v.is_official,
        r.data matches PluginData::ScriptPluginData(d) && d.published_version
            == v.script_published_source && d.published_version_updated_at_ms
            == v.script_published_version_updated_at_ms && d.dev_version == v.script_dev_source
            && d.dev_version_updated_at_ms == v.script_dev_version_updated_at_ms,
{
    Plugin {
        id: v.id as u64,
        created_at_ms: v.created_at_ms,
        author_id: v.author_id as u64,
        name: v.name,
        short_description: v.short_description,
        long_description: v.long_description,
        is_public: v.is_public,
        is_official: v.is_official,
        data: PluginData::ScriptPluginData(ScriptPluginData {
            published_version: v.script_published_source,
            published_version_updated_at_ms: v.script_published_version_updated_at_ms,
            dev_version: v.script_dev_source,
            dev_version_updated_at_ms: v.script_dev_version_updated_at_ms,
        }),
    }
}

/// Site-wide flags of one user.
#[derive(Clone, Copy, Debug, PartialEq, Eq, Structural)]
pub struct UserMeta {
    pub is_admin: bool,
    pub is_moderator: bool,
    pub is_verified: bool,
}

/// A user-metadata row as the database hands it over.
pub struct DbUserMeta {
    pub discord_user_id: i64,
    pub is_moderator: bool,
    pub is_admin: bool,
    pub is_verified: bool,
}

/// Turn a user-metadata row into the domain value.
pub fn user_meta_from_db(v: DbUserMeta) -> (r: UserMeta)
    ensures
        r.is_admin == v.is_admin,
        r.is_moderator == v.is_moderator,
        r.is_verified == v.is_verified,
{
    UserMeta {
        is_admin: v.is_admin,
        is_moderator: v.is_moderator,
        is_verified: v.is_verified,
    }
}

} // verus!

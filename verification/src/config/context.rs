//! Settings of context handling: the decision ledger, the token budget and
//! the per-turn curation.

use crate::config::constants::{
    DEFAULT_MAX_TOKENS, DEFAULT_PRESERVE_RECENT_TURNS, DEFAULT_TRIM_TO_PERCENT,
};
use vstd::prelude::*;

verus! {

/// Settings of the decision ledger.
#[derive(Debug, Clone, Copy, PartialEq, Eq, Structural)]
pub struct LedgerConfig {
    pub enabled: bool,
    pub max_entries: usize,
    /// Put the ledger into the system prompt each turn.
    pub include_in_prompt: bool,
    /// Keep ledger entries when the context is compressed.
    pub preserve_in_compression: bool,
}

pub fn default_enabled() -> (r: bool)
    ensures
        r,
{
    true
}

pub fn default_max_entries() -> (r: usize)
    ensures
        r == 12,
{
    12
}

pub fn default_include_in_prompt() -> (r: bool)
    ensures
        r,
{
    true
}

pub fn default_preserve_in_compression() -> (r: bool)
    ensures
        r,
{
    true
}

impl Default for LedgerConfig {
    fn default() -> (r: Self)
        ensures
            r == (LedgerConfig {
                enabled: true,
                max_entries: 12,
                include_in_prompt: true,
                preserve_in_compression: true,
            }),
    {
        LedgerConfig {
            enabled: default_enabled(),
            max_entries: default_max_entries(),
            include_in_prompt: default_include_in_prompt(),
            preserve_in_compression: default_preserve_in_compression(),
        }
    }
}

/// Model of a [`TokenBudgetConfig`].
pub struct TokenBudgetConfigV {
    pub enabled: bool,
    pub model: Seq<char>,
    pub warning_threshold_percent: u8,
    pub compaction_threshold_percent: u8,
    pub detailed_tracking: bool,
}

/// Settings of token budget tracking. The two thresholds are shares of the
/// budget in percent.
#[derive(Debug)]
pub struct TokenBudgetConfig {
    pub enabled: bool,
    /// Model name that selects the tokenizer.
    pub model: String,
    pub warning_threshold_percent: u8,
    pub compaction_threshold_percent: u8,
    pub detailed_tracking: bool,
}

impl View for TokenBudgetConfig {
    type V = TokenBudgetConfigV;

    open spec fn view(&self) -> TokenBudgetConfigV {
        TokenBudgetConfigV {
            enabled: self.enabled,
            model: self.model@,
            warning_threshold_percent: self.warning_threshold_percent,
            compaction_threshold_percent: self.compaction_threshold_percent,
            detailed_tracking: self.detailed_tracking,
        }
    }
}

pub fn default_token_budget_enabled() -> (r: bool)
    ensures
        r,
{
    true
}

pub fn default_token_budget_model() -> (r: String)
    ensures
        r@ == "gpt-4o-mini"@,
{
    "gpt-4o-mini".to_owned()
}

pub fn default_detailed_tracking() -> (r: bool)
    ensures
        !r,
{
    false
}

impl Default for TokenBudgetConfig {
    fn default() -> (r: Self)
        ensures
            r@ == (TokenBudgetConfigV {
                enabled: true,
                model: "gpt-4o-mini"@,
                warning_threshold_percent: 75,
                compaction_threshold_percent: 85,
                detailed_tracking: false,
            }),
    {
        TokenBudgetConfig {
            enabled: default_token_budget_enabled(),
            model: default_token_budget_model(),
            warning_threshold_percent: 75,
            compaction_threshold_percent: 85,
            detailed_tracking: default_detailed_tracking(),
        }
    }
}

/// Settings of the per-turn context curation.
#[derive(Debug, Clone, Copy, PartialEq, Eq, Structural)]
pub struct ContextCurationConfig {
    /// Whether curation is on.
    pub enabled: bool,
    /// Most tokens a turn may take.
    pub max_tokens_per_turn: usize,
    /// Number of recent messages that are always kept.
    pub preserve_recent_messages: usize,
    /// Most tool descriptions to include.
    pub max_tool_descriptions: usize,
    /// Whether the decision ledger is included.
    pub include_ledger: bool,
    /// Most ledger entries to render.
    pub ledger_max_entries: usize,
    /// Whether recent errors are included.
    pub include_recent_errors: bool,
    /// Most recent errors to keep and include.
    pub max_recent_errors: usize,
}

pub fn default_curation_enabled() -> (r: bool)
    ensures
        r,
{
    true
}

pub fn default_max_tokens_per_turn() -> (r: usize)
    ensures
        r == 100_000,
{
    100_000
}

pub fn default_preserve_recent_messages() -> (r: usize)
    ensures
        r == 5,
{
    5
}

pub fn default_max_tool_descriptions() -> (r: usize)
    ensures
        r == 10,
{
    10
}

pub fn default_include_ledger() -> (r: bool)
    ensures
        r,
{
    true
}

pub fn default_ledger_max_entries() -> (r: usize)
    ensures
        r == 12,
{
    12
}

pub fn default_include_recent_errors() -> (r: bool)
    ensures
        r,
{
    true
}

pub fn default_max_recent_errors() -> (r: usize)
    ensures
        r == 3,
{
    3
}

impl Default for ContextCurationConfig {
    fn default() -> (r: Self)
        ensures
            r == (ContextCurationConfig {
                enabled: true,
                max_tokens_per_turn: 100_000,
                preserve_recent_messages: 5,
                max_tool_descriptions: 10,
                include_ledger: true,
                ledger_max_entries: 12,
                include_recent_errors: true,
                max_recent_errors: 3,
            }),
    {
        ContextCurationConfig {
            enabled: default_curation_enabled(),
            max_tokens_per_turn: default_max_tokens_per_turn(),
            preserve_recent_messages: default_preserve_recent_messages(),
            max_tool_descriptions: default_max_tool_descriptions(),
            include_ledger: default_include_ledger(),
            ledger_max_entries: default_ledger_max_entries(),
            include_recent_errors: default_include_recent_errors(),
            max_recent_errors: default_max_recent_errors(),
        }
    }
}

pub fn default_max_context_tokens() -> (r: usize)
    ensures
        r == DEFAULT_MAX_TOKENS,
{
    DEFAULT_MAX_TOKENS
}

pub fn default_trim_to_percent() -> (r: u8)
    ensures
        r == DEFAULT_TRIM_TO_PERCENT,
{
    DEFAULT_TRIM_TO_PERCENT
}

pub fn default_preserve_recent_turns() -> (r: usize)
    ensures
        r == DEFAULT_PRESERVE_RECENT_TURNS,
{
    DEFAULT_PRESERVE_RECENT_TURNS
}

/// All settings of context handling.
#[derive(Debug)]
pub struct ContextFeaturesConfig {
    pub ledger: LedgerConfig,
    pub token_budget: TokenBudgetConfig,
    pub curation: ContextCurationConfig,
    pub max_context_tokens: usize,
    pub trim_to_percent: u8,
    pub preserve_recent_turns: usize,
}

impl Default for ContextFeaturesConfig {
    fn default() -> (r: Self)
        ensures
            r.ledger == (LedgerConfig {
                enabled: true,
                max_entries: 12,
                include_in_prompt: true,
                preserve_in_compression: true,
            }),
            r.token_budget@ == (TokenBudgetConfigV {
                enabled: true,
                model: "gpt-4o-mini"@,
                warning_threshold_percent: 75,
                compaction_threshold_percent: 85,
                detailed_tracking: false,
            }),
            r.curation == (ContextCurationConfig {
                enabled: true,
                max_tokens_per_turn: 100_000,
                preserve_recent_messages: 5,
                max_tool_descriptions: 10,
                include_ledger: true,
                ledger_max_entries: 12,
                include_recent_errors: true,
                max_recent_errors: 3,
            }),
            r.max_context_tokens == DEFAULT_MAX_TOKENS,
            r.trim_to_percent == DEFAULT_TRIM_TO_PERCENT,
            r.preserve_recent_turns == DEFAULT_PRESERVE_RECENT_TURNS,
    {
        ContextFeaturesConfig {
            ledger: LedgerConfig::default(),
            token_budget: TokenBudgetConfig::default(),
            curation: ContextCurationConfig::default(),
            max_context_tokens: default_max_context_tokens(),
            trim_to_percent: default_trim_to_percent(),
            preserve_recent_turns: default_preserve_recent_turns(),
        }
    }
}

} // verus!

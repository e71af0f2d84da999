//! The settings that the tool works under.
use std::path::PathBuf;
use vstd::prelude::*;

verus! {

/// The default time limit for one run of the CLI, in seconds.
pub const DEFAULT_TIMEOUT_SECS: u64 = 600;

/// The default limit on reported output, in bytes.
pub const DEFAULT_MAX_OUTPUT_BYTES: usize = 2_097_152;

/// The operator's settings for the Grok Build CLI.
#[derive(Debug)]
pub struct GrokCliConfig {
    /// Whether the tool is offered at all.
    pub enabled: bool,
    /// Whether the CLI may act without asking for permission.
    pub auto_approve: bool,
    /// The model that is used where a call names none.
    pub default_model: Option<String>,
    /// Further arguments for every run.
    pub extra_args: Vec<String>,
    /// Names of further environment variables that the CLI gets to see.
    pub env_passthrough: Vec<String>,
    /// The time limit for one run, in seconds.
    pub timeout_secs: u64,
    /// The limit on reported output, in bytes.
    pub max_output_bytes: usize,
}

/// What a `GrokCliConfig` says.
pub struct ConfigView {
    pub enabled: bool,
    pub auto_approve: bool,
    pub default_model: Option<Seq<char>>,
    pub extra_args: Seq<Seq<char>>,
    pub env_passthrough: Seq<Seq<char>>,
    pub timeout_secs: u64,
    pub max_output_bytes: nat,
}

impl View for GrokCliConfig {
    type V = ConfigView;

    open spec fn view(&self) -> ConfigView {
        ConfigView {
            enabled: self.enabled,
            auto_approve: self.auto_approve,
            default_model: self.default_model.deep_view(),
            extra_args: self.extra_args.deep_view(),
            env_passthrough: self.env_passthrough.deep_view(),
            timeout_secs: self.timeout_secs,
            max_output_bytes: self.max_output_bytes as nat,
        }
    }
}

/// The settings of an operator who set nothing.
pub open spec fn default_config() -> ConfigView {
    ConfigView {
        enabled: false,
        auto_approve: true,
        default_model: None,
        extra_args: Seq::empty(),
        env_passthrough: Seq::empty(),
        timeout_secs: DEFAULT_TIMEOUT_SECS,
        max_output_bytes: DEFAULT_MAX_OUTPUT_BYTES as nat,
    }
}

impl Default for GrokCliConfig {
    fn default() -> (r: Self)
        ensures
            r@ == default_config(),
    {
        let r = GrokCliConfig {
            enabled: false,
            auto_approve: true,
            default_model: None,
            extra_args: Vec::new(),
            env_passthrough: Vec::new(),
            timeout_secs: DEFAULT_TIMEOUT_SECS,
            max_output_bytes: DEFAULT_MAX_OUTPUT_BYTES,
        };
        assert(r@.extra_args =~= Seq::<Seq<char>>::empty());
        assert(r@.env_passthrough =~= Seq::<Seq<char>>::empty());
        r
    }
}

/// What the tool needs to know of the policy that governs it.
#[derive(Debug)]
pub struct SecurityPolicy {
    /// The directory that work is confined to.
    pub workspace_dir: PathBuf,
}

/// The kinds of operation that a policy is asked about.
#[derive(Debug, Clone, Copy, PartialEq, Eq, Structural)]
pub enum ToolOperation {
    /// An operation that changes something.
    Act,
}

} // verus!

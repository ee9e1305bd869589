//! The configuration that an executor is made with.

use vstd::prelude::*;
use crate::error::ExecError;

verus! {

/// The most pages of 64 KiB that a memory can have: 4 GiB in all.
pub const MAX_MEMORY_PAGES: u32 = 65536;

/// The feature flags shared by every configuration.
#[derive(Clone, Copy, Debug, PartialEq, Eq, Structural)]
pub struct CommonConfigOptions {
    /// Whether the bulk memory operations are enabled.
    pub bulk_memory_operations: bool,
}

impl Default for CommonConfigOptions {
    /// The flags as they are when nothing is set: bulk memory operations
    /// are on.
    fn default() -> (options: CommonConfigOptions)
        ensures
            options.bulk_memory_operations,
    {
        CommonConfigOptions { bulk_memory_operations: true }
    }
}

/// Feature flags and resource limits, fixed once built.
#[derive(Clone, Copy, Debug, PartialEq, Eq)]
pub struct Config {
    options: CommonConfigOptions,
    max_memory_pages: u32,
    cost_limit: Option<u64>,
}

impl Config {
    /// The feature flags.
    pub closed spec fn options(self) -> CommonConfigOptions {
        self.options
    }

    /// The cap on the pages of a memory.
    pub closed spec fn memory_cap(self) -> u32 {
        self.max_memory_pages
    }

    /// The ceiling on the metered cost, where there is one.
    pub closed spec fn cost_cap(self) -> Option<u64> {
        self.cost_limit
    }

    /// A configuration is valid when its memory cap is one that a memory can
    /// have.
    pub open spec fn valid(self) -> bool {
        self.memory_cap() <= MAX_MEMORY_PAGES
    }

    /// The ceiling that metering runs against: the configured one, or the
    /// largest cost that can be counted.
    pub open spec fn limit(self) -> u64 {
        match self.cost_cap() {
            Some(limit) => limit,
            None => u64::MAX,
        }
    }

    /// The configuration that an executor has where none is given: the
    /// default flags, the widest memory cap and no cost ceiling.
    pub closed spec fn standard() -> Config {
        Config {
            options: CommonConfigOptions { bulk_memory_operations: true },
            max_memory_pages: MAX_MEMORY_PAGES,
            cost_limit: None,
        }
    }

    /// The standard configuration is valid and sets no ceiling.
    pub proof fn lemma_standard()
        ensures
            Config::standard().valid(),
            Config::standard().options().bulk_memory_operations,
            Config::standard().memory_cap() == MAX_MEMORY_PAGES,
            Config::standard().cost_cap() == None::<u64>,
            Config::standard().limit() == u64::MAX,
    {
    }

    /// Whether the bulk memory operations are enabled.
    pub fn bulk_memory_operations_enabled(&self) -> (on: bool)
        ensures
            on == self.options().bulk_memory_operations,
    {
        self.options.bulk_memory_operations
    }

    /// The cap on the pages of a memory.
    pub fn max_memory_pages(&self) -> (pages: u32)
        ensures
            pages == self.memory_cap(),
    {
        self.max_memory_pages
    }

    /// The ceiling on the metered cost, where there is one.
    pub fn cost_limit(&self) -> (limit: Option<u64>)
        ensures
            limit == self.cost_cap(),
    {
        self.cost_limit
    }

    /// The ceiling that metering runs against.
    pub fn effective_cost_limit(&self) -> (limit: u64)
        ensures
            limit == self.limit(),
    {
        match self.cost_limit {
            Some(limit) => limit,
            None => u64::MAX,
        }
    }

    /// Whether this configuration is valid.
    pub fn is_valid(&self) -> (ok: bool)
        ensures
            ok == self.valid(),
    {
        self.max_memory_pages <= MAX_MEMORY_PAGES
    }
}

impl Default for Config {
    /// The standard configuration.
    fn default() -> (config: Config)
        ensures
            config == Config::standard(),
    {
        Config {
            options: CommonConfigOptions { bulk_memory_operations: true },
            max_memory_pages: MAX_MEMORY_PAGES,
            cost_limit: None,
        }
    }
}

/// Collects the settings of a configuration.
#[derive(Clone, Copy, Debug)]
pub struct ConfigBuilder {
    config: Config,
}

impl ConfigBuilder {
    /// The configuration that `build` would give now.
    pub closed spec fn target(self) -> Config {
        self.config
    }

    /// Starts from the given flags, with the widest memory cap and no cost
    /// ceiling.
    pub fn new(options: CommonConfigOptions) -> (builder: ConfigBuilder)
        ensures
            builder.target().options() == options,
            builder.target().memory_cap() == MAX_MEMORY_PAGES,
            builder.target().cost_cap() == None::<u64>,
    {
        ConfigBuilder {
            config: Config { options, max_memory_pages: MAX_MEMORY_PAGES, cost_limit: None },
        }
    }

    /// Caps the pages of a memory.
    pub fn with_max_memory_pages(self, pages: u32) -> (builder: ConfigBuilder)
        ensures
            builder.target().options() == self.target().options(),
            builder.target().memory_cap() == pages,
            builder.target().cost_cap() == self.target().cost_cap(),
    {
        ConfigBuilder {
            config: Config {
                options: self.config.options,
                max_memory_pages: pages,
                cost_limit: self.config.cost_limit,
            },
        }
    }

    /// Sets the ceiling on the metered cost.
    pub fn with_cost_limit(self, limit: u64) -> (builder: ConfigBuilder)
        ensures
            builder.target().options() == self.target().options(),
            builder.target().memory_cap() == self.target().memory_cap(),
            builder.target().cost_cap() == Some(limit),
    {
        ConfigBuilder {
            config: Config {
                options: self.config.options,
                max_memory_pages: self.config.max_memory_pages,
                cost_limit: Some(limit),
            },
        }
    }

    /// The configuration collected so far. Whether an executor can be made
    /// from it is decided when one is made.
    pub fn build(self) -> (r: Result<Config, ExecError>)
        ensures
            r == Ok::<Config, ExecError>(self.target()),
    {
        Ok(self.config)
    }
}

} // verus!

//! Options for configuration loading.
//!
//! `UseConfigOptions` carries an optional schema name — the configuration
//! namespace whose files and variable prefix are consulted — and a flag that
//! switches environment-variable overrides off. A fluent builder is offered
//! beside plain constructors.

use vstd::prelude::*;

verus! {

/// Options that steer configuration loading.
#[derive(Debug, Clone, PartialEq)]
pub struct UseConfigOptions {
    /// Optional schema to use for the configuration.
    /// If `None`, the default schema will be used.
    pub schema: Option<String>,
    /// If true, environment variables will not be used to override the configuration.
    pub disable_env: bool,
}

impl UseConfigOptions {
    /// The schema field seen as an optional character sequence.
    pub open spec fn schema_view(&self) -> Option<Seq<char>> {
        match self.schema {
            Option::Some(s) => Option::Some(s@),
            Option::None => Option::None,
        }
    }

    /// Creates a new `UseConfigOptions` with default values: no schema,
    /// overrides enabled.
    pub fn new() -> (r: Self)
        ensures
            r.schema_view() is None,
            !r.disable_env,
    {
        UseConfigOptions { schema: None, disable_env: false }
    }

    /// Creates a builder for `UseConfigOptions`.
    pub fn builder() -> (r: UseConfigOptionsBuilder)
        ensures
            r.schema_view() is None,
            !r.disable_env_view(),
    {
        UseConfigOptionsBuilder::new()
    }

    /// Sets the schema to be used for the configuration.
    pub fn with_schema(self, schema: &str) -> (r: Self)
        ensures
            r.schema_view() == Some(schema@),
            r.disable_env == self.disable_env,
    {
        UseConfigOptions { schema: Some(schema.to_owned()), disable_env: self.disable_env }
    }

    /// Sets the schema to be used for the configuration from an optional string.
    pub fn with_schema_opt(self, schema: Option<String>) -> (r: Self)
        ensures
            r.schema_view() == schema.deep_view(),
            r.disable_env == self.disable_env,
    {
        UseConfigOptions { schema, disable_env: self.disable_env }
    }

    /// Disables environment variable overrides for the configuration.
    pub fn with_disable_env(self) -> (r: Self)
        ensures
            r.schema_view() == self.schema_view(),
            r.disable_env,
    {
        UseConfigOptions { schema: self.schema, disable_env: true }
    }

    /// Sets whether to disable environment variable overrides.
    pub fn with_env_disabled(self, disable: bool) -> (r: Self)
        ensures
            r.schema_view() == self.schema_view(),
            r.disable_env == disable,
    {
        UseConfigOptions { schema: self.schema, disable_env: disable }
    }
}

impl Default for UseConfigOptions {
    /// The default options: no schema, overrides enabled.
    fn default() -> (r: Self)
        ensures
            r.schema_view() is None,
            !r.disable_env,
    {
        Self::new()
    }
}

/// Builder for `UseConfigOptions`.
#[derive(Debug, Clone)]
pub struct UseConfigOptionsBuilder {
    schema: Option<String>,
    disable_env: bool,
}

impl UseConfigOptionsBuilder {
    /// The pending schema field seen as an optional character sequence.
    pub closed spec fn schema_view(&self) -> Option<Seq<char>> {
        match self.schema {
            Option::Some(s) => Option::Some(s@),
            Option::None => Option::None,
        }
    }

    /// The pending override-disabling flag.
    pub closed spec fn disable_env_view(&self) -> bool {
        self.disable_env
    }

    /// Creates a new builder with default values.
    pub fn new() -> (r: Self)
        ensures
            r.schema_view() is None,
            !r.disable_env_view(),
    {
        UseConfigOptionsBuilder { schema: None, disable_env: false }
    }

    /// Sets the schema to be used for the configuration.
    pub fn schema(self, schema: &str) -> (r: Self)
        ensures
            r.schema_view() == Some(schema@),
            r.disable_env_view() == self.disable_env_view(),
    {
        UseConfigOptionsBuilder { schema: Some(schema.to_owned()), disable_env: self.disable_env }
    }

    /// Sets the schema from an optional value.
    pub fn schema_opt(self, schema: Option<String>) -> (r: Self)
        ensures
            r.schema_view() == schema.deep_view(),
            r.disable_env_view() == self.disable_env_view(),
    {
        UseConfigOptionsBuilder { schema, disable_env: self.disable_env }
    }

    /// Disables environment variable overrides for the configuration.
    pub fn disable_env(self) -> (r: Self)
        ensures
            r.schema_view() == self.schema_view(),
            r.disable_env_view(),
    {
        UseConfigOptionsBuilder { schema: self.schema, disable_env: true }
    }

    /// Sets whether to disable environment variable overrides.
    pub fn env_disabled(self, disable: bool) -> (r: Self)
        ensures
            r.schema_view() == self.schema_view(),
            r.disable_env_view() == disable,
    {
        UseConfigOptionsBuilder { schema: self.schema, disable_env: disable }
    }

    /// Builds the `UseConfigOptions` instance.
    pub fn build(self) -> (r: UseConfigOptions)
        ensures
            r.schema_view() == self.schema_view(),
            r.disable_env == self.disable_env_view(),
    {
        UseConfigOptions { schema: self.schema, disable_env: self.disable_env }
    }
}

impl Default for UseConfigOptionsBuilder {
    /// A builder holding the default options.
    fn default() -> (r: Self)
        ensures
            r.schema_view() is None,
            !r.disable_env_view(),
    {
        Self::new()
    }
}

} // verus!

//! Layered configuration sources.
//!
//! A load consults up to three sources, later ones overriding earlier ones
//! on key collision: a required base file, an optional environment-specific
//! file (skipped entirely in production), and an environment-variable
//! namespace under the uppercased schema name (skippable by option). The
//! order and the paths are computed and proved here; reading and merging the
//! sources is the work of the `config` crate, reached through the trusted
//! wrappers at the bottom of this file.

use vstd::prelude::*;
use vstd::string::StringExecFns;

use crate::text::str_eq;
use crate::options::UseConfigOptions;

verus! {

/// One planned configuration source, in the order it will be consulted.
#[derive(Debug, Clone, PartialEq)]
pub enum ConfigSource {
    /// A file under the given base path (extension chosen by format
    /// detection); a missing file fails the load only when `required`.
    File { path: String, required: bool },
    /// The environment-variable namespace of keys that start with the given
    /// prefix, nested key segments split by the separator.
    EnvVars { prefix: String, separator: String },
}

/// The specification-level picture of one source.
pub enum SourceSpec {
    File { path: Seq<char>, required: bool },
    EnvVars { prefix: Seq<char>, separator: Seq<char> },
}

impl View for ConfigSource {
    type V = SourceSpec;

    open spec fn view(&self) -> SourceSpec {
        match *self {
            ConfigSource::File { path, required } => SourceSpec::File {
                path: path@,
                required,
            },
            ConfigSource::EnvVars { prefix, separator } => SourceSpec::EnvVars {
                prefix: prefix@,
                separator: separator@,
            },
        }
    }
}

/// The schema name an option set selects: the field's value, or `"default"`.
pub open spec fn schema_of(options: UseConfigOptions) -> Seq<char> {
    match options.schema_view() {
        Option::Some(s) => s,
        Option::None => "default"@,
    }
}

/// The path of the required base file for a schema.
pub open spec fn base_path_spec(schema: Seq<char>) -> Seq<char> {
    if schema == "default"@ {
        "config/default"@
    } else {
        "config/"@ + schema + "/default"@
    }
}

/// The path of the optional environment-specific file for a schema.
pub open spec fn env_path_spec(schema: Seq<char>, env: Seq<char>) -> Seq<char> {
    if schema == "default"@ {
        "config/"@ + env
    } else {
        "config/"@ + schema + "/"@ + env
    }
}

/// The full source plan for an option set under a resolved environment:
/// base file, then — outside production — the environment file, then —
/// unless disabled — the variable namespace.
pub open spec fn plan_spec(options: UseConfigOptions, env: Seq<char>) -> Seq<SourceSpec> {
    let schema = schema_of(options);
    let base = seq![SourceSpec::File { path: base_path_spec(schema), required: true }];
    let with_env_file = if env != "production"@ {
        base.push(SourceSpec::File { path: env_path_spec(schema, env), required: false })
    } else {
        base
    };
    if !options.disable_env {
        with_env_file.push(
            SourceSpec::EnvVars { prefix: upper_of(schema), separator: "__"@ },
        )
    } else {
        with_env_file
    }
}

/// The base file path for a schema name.
fn base_path(schema: &str) -> (r: String)
    ensures
        r@ == base_path_spec(schema@),
{
    if str_eq(schema, "default") {
        "config/default".to_owned()
    } else {
        "config/".to_owned().concat(schema).concat("/default")
    }
}

/// The environment-specific file path for a schema name.
fn env_path(schema: &str, env: &str) -> (r: String)
    ensures
        r@ == env_path_spec(schema@, env@),
{
    if str_eq(schema, "default") {
        "config/".to_owned().concat(env)
    } else {
        "config/".to_owned().concat(schema).concat("/").concat(env)
    }
}

/// The ordered list of sources that a load with these options consults under
/// the given resolved environment.
pub fn plan_sources(options: &UseConfigOptions, env: &str) -> (v: Vec<ConfigSource>)
    ensures
        v@.map_values(|s: ConfigSource| s@) == plan_spec(*options, env@),
{
    let schema: String = match &options.schema {
        Option::Some(s) => s.clone(),
        Option::None => "default".to_owned(),
    };
    let mut v: Vec<ConfigSource> = Vec::new();
    v.push(ConfigSource::File { path: base_path(schema.as_str()), required: true });
    if !str_eq(env, "production") {
        v.push(ConfigSource::File { path: env_path(schema.as_str(), env), required: false });
    }
    if !options.disable_env {
        v.push(
            ConfigSource::EnvVars {
                prefix: to_upper(schema.as_str()),
                separator: "__".to_owned(),
            },
        );
    }
    proof {
        assert(v@.map_values(|s: ConfigSource| s@) =~= plan_spec(*options, env@));
    }
    v
}

/// Extends a configuration builder with the sources the options call for.
pub trait ConfigBuilderExt: Sized {
    /// What the builder's registered sources look like, in registration
    /// order.
    spec fn sources_view(&self) -> Seq<SourceSpec>;

    /// Adds the planned sources, in plan order, after whatever the builder
    /// already holds.
    fn add_config_sources(self, options: UseConfigOptions, env: &str) -> (r: Self)
        ensures
            r.sources_view() == self.sources_view() + plan_spec(options, env@),
    ;
}

impl ConfigBuilderExt for SourcedBuilder {
    open spec fn sources_view(&self) -> Seq<SourceSpec> {
        builder_sources(*self)
    }

    fn add_config_sources(self, options: UseConfigOptions, env: &str) -> (r: Self) {
        let ghost orig = builder_sources(self);
        let schema: String = match options.schema {
            Option::Some(s) => s,
            Option::None => "default".to_owned(),
        };
        let base = base_path(schema.as_str());
        let mut cb = add_file_source(self, base.as_str(), true);
        if !str_eq(env, "production") {
            let ep = env_path(schema.as_str(), env);
            cb = add_file_source(cb, ep.as_str(), false);
        }
        if !options.disable_env {
            let prefix = to_upper(schema.as_str());
            cb = add_env_source(cb, prefix.as_str(), "__");
        }
        proof {
            assert(builder_sources(cb) =~= orig + plan_spec(options, env@));
        }
        cb
    }
}

/// Lays the planned sources onto a fresh builder and merges them: the
/// required base file, then — outside production — the optional environment
/// file, then — unless disabled — the variable namespace, later sources
/// overriding earlier ones on key collision. The merge reads files and
/// process variables, so whether it returns a configuration or an error is
/// the config crate's outcome; which sources it consults, and in which
/// order, is fixed by `plan_spec`.
pub fn load_merged(options: UseConfigOptions, env: &str) -> Result<
    config::Config,
    config::ConfigError,
> {
    SourcedBuilder::new().add_config_sources(options, env).build()
}

/// The base file stands first in every plan and is required; every plan
/// holds at least that one source.
pub proof fn lemma_base_source_first(options: UseConfigOptions, env: Seq<char>)
    ensures
        plan_spec(options, env).len() >= 1,
        plan_spec(options, env)[0] == (SourceSpec::File {
            path: base_path_spec(schema_of(options)),
            required: true,
        }),
{
}

/// Outside production the environment file stands second, directly after the
/// base file, and is optional: a later source overrides an earlier one, so
/// its keys win over the base file's.
pub proof fn lemma_env_file_second(options: UseConfigOptions, env: Seq<char>)
    requires
        env != "production"@,
    ensures
        plan_spec(options, env).len() >= 2,
        plan_spec(options, env)[1] == (SourceSpec::File {
            path: env_path_spec(schema_of(options), env),
            required: false,
        }),
{
}

/// In production no file beyond the base file is consulted: every file
/// source of the plan is the required base file.
pub proof fn lemma_production_skips_env_file(options: UseConfigOptions, env: Seq<char>)
    requires
        env == "production"@,
    ensures
        forall|i: int|
            0 <= i < plan_spec(options, env).len() && plan_spec(options, env)[i] is File
                ==> plan_spec(options, env)[i] == (SourceSpec::File {
                path: base_path_spec(schema_of(options)),
                required: true,
            }),
{
}

/// The variable namespace, when enabled, stands last — its keys win over
/// every file — and carries the uppercased schema name as prefix with the
/// double-underscore separator. When disabled, no variable source appears
/// at all.
pub proof fn lemma_env_override_last(options: UseConfigOptions, env: Seq<char>)
    ensures
        !options.disable_env ==> plan_spec(options, env).last() == (SourceSpec::EnvVars {
            prefix: upper_of(schema_of(options)),
            separator: "__"@,
        }),
        options.disable_env ==> forall|i: int|
            0 <= i < plan_spec(options, env).len() ==> !(plan_spec(options, env)[i] is EnvVars),
{
}

/// What `str::to_uppercase` returns for a given string: the result depends
/// on the characters alone.
pub uninterp spec fn upper_of(s: Seq<char>) -> Seq<char>;

/// Relies on str::to_uppercase: the uppercase mapping of the characters,
/// used as the variable-namespace prefix for a schema.
#[verifier::external_body]
fn to_upper(s: &str) -> (r: String)
    ensures
        r@ == upper_of(s@),
        s@.len() == 0 ==> r@.len() == 0,
{
    s.to_uppercase()
}

/// The merged configuration the config crate hands back from a build.
#[verifier::external_type_specification]
#[verifier::external_body]
pub struct ExConfig(config::Config);

/// The config crate's error for a failed build: a required source missing,
/// a source that would not parse, or a tree that would not deserialize.
#[verifier::external_type_specification]
#[verifier::external_body]
pub struct ExConfigError(config::ConfigError);

/// A configuration builder with its registered sources. It carries the
/// config crate's synchronous builder in an opaque field; what sources the
/// builder holds is tracked through `builder_sources`.
#[verifier::external_body]
pub struct SourcedBuilder {
    inner: config::builder::ConfigBuilder<config::builder::DefaultState>,
}

/// What sources a builder holds, in the order they were registered and will
/// be merged, later ones overriding earlier ones.
pub uninterp spec fn builder_sources(cb: SourcedBuilder) -> Seq<SourceSpec>;

impl SourcedBuilder {
    /// Relies on config::Config::builder: a fresh builder holds no sources.
    #[verifier::external_body]
    pub fn new() -> (r: Self)
        ensures
            builder_sources(r) == Seq::<SourceSpec>::empty(),
    {
        SourcedBuilder { inner: config::Config::builder() }
    }

    /// Relies on config::ConfigBuilder::build: reads the registered sources
    /// in order and merges them, later sources overriding earlier ones on
    /// key collision. The outcome depends on the files and process
    /// variables read, so nothing is promised of it.
    #[verifier::external_body]
    pub fn build(self) -> Result<config::Config, config::ConfigError> {
        self.inner.build()
    }
}

/// Relies on config::ConfigBuilder::add_source, config::File::with_name and
/// config::File::required: registers one file source, under the given base
/// path and with the given required flag, at the end of the builder's
/// source list. No I/O happens until the builder is built.
#[verifier::external_body]
fn add_file_source(cb: SourcedBuilder, path: &str, required: bool) -> (r: SourcedBuilder)
    ensures
        builder_sources(r) == builder_sources(cb).push(
            SourceSpec::File { path: path@, required },
        ),
{
    SourcedBuilder {
        inner: cb.inner.add_source(config::File::with_name(path).required(required)),
    }
}

/// Relies on config::ConfigBuilder::add_source and config::Environment's
/// `prefix` and `separator` setters: registers one environment-variable
/// source, scoped to keys that begin with the prefix and splitting nested
/// key segments at the separator, at the end of the builder's source list.
#[verifier::external_body]
fn add_env_source(cb: SourcedBuilder, prefix: &str, separator: &str) -> (r: SourcedBuilder)
    ensures
        builder_sources(r) == builder_sources(cb).push(
            SourceSpec::EnvVars { prefix: prefix@, separator: separator@ },
        ),
{
    SourcedBuilder {
        inner: cb.inner.add_source(
            config::Environment::default().separator(separator).prefix(prefix),
        ),
    }
}

} // verus!

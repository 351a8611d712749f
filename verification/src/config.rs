//! Static configuration for the dashboard core.
//!
//! Paths are carried as plain strings and durations as whole milliseconds:
//! the configuration loader (an external collaborator) canonicalizes paths,
//! checks that they exist, and converts human-readable durations before
//! handing values in, so the core never touches the file system itself.

use vstd::prelude::*;

verus! {

/// Global server settings.
pub struct ServerConfig {
    pub port: u16,
    pub static_dir: String,
}

/// Where the monitor directories live.
pub struct MonitorConfig {
    pub dir: String,
}

/// One CSS rule emitted for the dashboard page.
pub struct CssRule {
    pub selectors: String,
    pub declarations: String,
}

/// Presentation metadata (opaque string key/value pairs) for each status
/// state, plus the "blank" set shown before a monitor's first check
/// completes. The core only selects and copies these; it never reads them.
pub struct CssMetadataConfig {
    pub blank: Vec<(String, String)>,
    pub red: Vec<(String, String)>,
    pub yellow: Vec<(String, String)>,
    pub green: Vec<(String, String)>,
}

/// Styling handed through to the presentation layer.
pub struct CssConfig {
    pub metadata: CssMetadataConfig,
    pub rules: Vec<CssRule>,
}

/// The global configuration, immutable for the life of the process.
pub struct Config {
    pub version: u32,
    pub server: ServerConfig,
    pub monitor: MonitorConfig,
    pub css: CssConfig,
    pub base_path: String,
}

/// Timing and command for one monitor's periodic check.
pub struct MonitorDirTestConfig {
    pub interval_ms: u64,
    pub timeout_ms: u64,
    pub command: String,
}

impl MonitorDirTestConfig {
    /// Both durations must be positive.
    pub open spec fn wf(self) -> bool {
        0 < self.interval_ms && 0 < self.timeout_ms
    }
}

/// One monitor's static definition.
pub struct MonitorDirConfig {
    pub test: MonitorDirTestConfig,
    pub base_path: String,
    pub id: String,
}

impl MonitorDirConfig {
    pub open spec fn wf(self) -> bool {
        self.test.wf()
    }
}

impl ServerConfig {
    /// A full copy, equal to the original.
    pub fn duplicate(&self) -> (r: ServerConfig)
        ensures
            r == *self,
    {
        ServerConfig { port: self.port, static_dir: self.static_dir.clone() }
    }
}

impl MonitorConfig {
    /// A full copy, equal to the original.
    pub fn duplicate(&self) -> (r: MonitorConfig)
        ensures
            r == *self,
    {
        MonitorConfig { dir: self.dir.clone() }
    }
}

impl CssMetadataConfig {
    /// Two metadata configurations carry the same four tables.
    pub open spec fn equiv(self, other: CssMetadataConfig) -> bool {
        &&& self.blank@ == other.blank@
        &&& self.red@ == other.red@
        &&& self.yellow@ == other.yellow@
        &&& self.green@ == other.green@
    }

    /// A full copy: every table of the copy equals the original's.
    pub fn duplicate(&self) -> (r: CssMetadataConfig)
        ensures
            self.equiv(r),
    {
        CssMetadataConfig {
            blank: copy_string_pairs(&self.blank),
            red: copy_string_pairs(&self.red),
            yellow: copy_string_pairs(&self.yellow),
            green: copy_string_pairs(&self.green),
        }
    }
}

impl CssConfig {
    /// Same metadata tables and the same rule list.
    pub open spec fn equiv(self, other: CssConfig) -> bool {
        &&& self.metadata.equiv(other.metadata)
        &&& self.rules@ == other.rules@
    }

    /// A full copy, observably equal to the original.
    pub fn duplicate(&self) -> (r: CssConfig)
        ensures
            self.equiv(r),
    {
        CssConfig { metadata: self.metadata.duplicate(), rules: copy_css_rules(&self.rules) }
    }
}

impl Config {
    /// Two configurations agree in every field.
    pub open spec fn equiv(self, other: Config) -> bool {
        &&& self.version == other.version
        &&& self.server == other.server
        &&& self.monitor == other.monitor
        &&& self.css.equiv(other.css)
        &&& self.base_path@ == other.base_path@
    }

    /// A full copy, observably equal to the original.
    pub fn duplicate(&self) -> (r: Config)
        ensures
            self.equiv(r),
    {
        Config {
            version: self.version,
            server: self.server.duplicate(),
            monitor: self.monitor.duplicate(),
            css: self.css.duplicate(),
            base_path: self.base_path.clone(),
        }
    }
}

impl MonitorDirTestConfig {
    /// A full copy, equal to the original.
    pub fn duplicate(&self) -> (r: MonitorDirTestConfig)
        ensures
            r == *self,
    {
        MonitorDirTestConfig {
            interval_ms: self.interval_ms,
            timeout_ms: self.timeout_ms,
            command: self.command.clone(),
        }
    }
}

impl MonitorDirConfig {
    /// A full copy, equal to the original.
    pub fn duplicate(&self) -> (r: MonitorDirConfig)
        ensures
            r == *self,
    {
        MonitorDirConfig {
            test: self.test.duplicate(),
            base_path: self.base_path.clone(),
            id: self.id.clone(),
        }
    }
}

pub fn default_server_port() -> (r: u16)
    ensures
        r == 80,
{
    80
}

pub fn default_server_static() -> (r: String)
    ensures
        r@ == "static"@,
{
    "static".to_owned()
}

/// An explicitly configured identifier wins; an empty one falls back to the
/// monitor directory's name.
pub fn resolve_monitor_id(explicit: String, dir_name: &str) -> (r: String)
    ensures
        r@ == (if explicit@.len() == 0 { dir_name@ } else { explicit@ }),
{
    if explicit.as_str().is_empty() {
        dir_name.to_owned()
    } else {
        explicit
    }
}

/// An explicitly configured base path wins; an empty one falls back to the
/// directory that holds the configuration file.
pub fn resolve_base_path(explicit: String, config_dir: &str) -> (r: String)
    ensures
        r@ == (if explicit@.len() == 0 { config_dir@ } else { explicit@ }),
{
    if explicit.as_str().is_empty() {
        config_dir.to_owned()
    } else {
        explicit
    }
}

/// Copies a CSS rule list entry by entry.
pub fn copy_css_rules(v: &Vec<CssRule>) -> (r: Vec<CssRule>)
    ensures
        r@ == v@,
{
    let mut r: Vec<CssRule> = Vec::new();
    let mut i: usize = 0;
    while i < v.len()
        invariant
            i <= v.len(),
            r@ == v@.subrange(0, i as int),
        decreases v.len() - i,
    {
        let rule = &v[i];
        r.push(CssRule {
            selectors: rule.selectors.clone(),
            declarations: rule.declarations.clone(),
        });
        proof {
            assert(r@ =~= v@.subrange(0, i as int + 1));
        }
        i = i + 1;
    }
    proof {
        assert(r@ =~= v@);
    }
    r
}

/// Copies a metadata table (opaque key/value pairs) entry by entry.
pub fn copy_string_pairs(v: &Vec<(String, String)>) -> (r: Vec<(String, String)>)
    ensures
        r@ == v@,
{
    let mut r: Vec<(String, String)> = Vec::new();
    let mut i: usize = 0;
    while i < v.len()
        invariant
            i <= v.len(),
            r@ == v@.subrange(0, i as int),
        decreases v.len() - i,
    {
        let (k, val) = &v[i];
        r.push((k.clone(), val.clone()));
        proof {
            assert(r@ =~= v@.subrange(0, i as int + 1));
        }
        i = i + 1;
    }
    proof {
        assert(r@ =~= v@);
    }
    r
}

} // verus!

//! Per-location settings and their resolution from a configuration file.
use vstd::prelude::*;
use vstd::string::*;
use crate::algorithm::RateLimitAlgorithm;
use crate::options::{
    default_command_timeout, default_connect_timeout, default_database, default_options_view,
    default_pool_size, default_retry_count, default_retry_delay, default_url_view,
    opt_text_view, OptionsView, RedisConnectionOptions,
};

verus! {

/// The full policy of one location.
#[derive(Clone, Debug)]
pub struct RateLimitSettings {
    /// Where the store is.
    pub redis_url: String,
    /// Identity source: `remote_addr`, `http_<header>`, or a literal bucket name.
    pub key: String,
    /// Requests per second.
    pub rate: u32,
    /// Extra capacity above the rate.
    pub burst: u32,
    /// Algorithm name, in its textual form.
    pub algorithm: String,
    /// Window length in seconds.
    pub window_size: u32,
    /// Whether limiting is on.
    pub enabled: bool,
    /// How to reach the store.
    pub redis_options: RedisConnectionOptions,
}

/// Mathematical view of [`RateLimitSettings`].
pub struct SettingsView {
    pub redis_url: Seq<char>,
    pub key: Seq<char>,
    pub rate: u32,
    pub burst: u32,
    pub algorithm: Seq<char>,
    pub window_size: u32,
    pub enabled: bool,
    pub redis_options: OptionsView,
}

impl View for RateLimitSettings {
    type V = SettingsView;

    open spec fn view(&self) -> SettingsView {
        SettingsView {
            redis_url: self.redis_url@,
            key: self.key@,
            rate: self.rate,
            burst: self.burst,
            algorithm: self.algorithm@,
            window_size: self.window_size,
            enabled: self.enabled,
            redis_options: self.redis_options@,
        }
    }
}

/// The documented defaults of a location's settings.
pub open spec fn default_settings_view() -> SettingsView {
    SettingsView {
        redis_url: default_url_view(),
        key: "remote_addr"@,
        rate: 10,
        burst: 5,
        algorithm: "sliding_window"@,
        window_size: 60,
        enabled: false,
        redis_options: default_options_view(),
    }
}

/// Overlays the connection options of `src` that differ from their defaults
/// (a password when present) onto `dest`.
pub open spec fn merge_options(dest: OptionsView, src: OptionsView) -> OptionsView {
    let d = default_options_view();
    OptionsView {
        connect_timeout: if src.connect_timeout != d.connect_timeout {
            src.connect_timeout
        } else {
            dest.connect_timeout
        },
        command_timeout: if src.command_timeout != d.command_timeout {
            src.command_timeout
        } else {
            dest.command_timeout
        },
        retry_count: if src.retry_count != d.retry_count {
            src.retry_count
        } else {
            dest.retry_count
        },
        retry_delay: if src.retry_delay != d.retry_delay {
            src.retry_delay
        } else {
            dest.retry_delay
        },
        password: if src.password is Some {
            src.password
        } else {
            dest.password
        },
        database: if src.database != d.database {
            src.database
        } else {
            dest.database
        },
        pool_size: if src.pool_size != d.pool_size {
            src.pool_size
        } else {
            dest.pool_size
        },
        cluster_mode: if src.cluster_mode != d.cluster_mode {
            src.cluster_mode
        } else {
            dest.cluster_mode
        },
        tls_enabled: if src.tls_enabled != d.tls_enabled {
            src.tls_enabled
        } else {
            dest.tls_enabled
        },
        keepalive: if src.keepalive != d.keepalive {
            src.keepalive
        } else {
            dest.keepalive
        },
    }
}

/// A location's override laid over the file's default: each scalar field that
/// differs from its documented default wins, `enabled` wins when it differs
/// from the file's default, and the connection options merge field by field.
pub open spec fn merge_settings(base: SettingsView, over: SettingsView) -> SettingsView {
    let d = default_settings_view();
    SettingsView {
        redis_url: if over.redis_url != d.redis_url {
            over.redis_url
        } else {
            base.redis_url
        },
        key: if over.key != d.key {
            over.key
        } else {
            base.key
        },
        rate: if over.rate != d.rate {
            over.rate
        } else {
            base.rate
        },
        burst: if over.burst != d.burst {
            over.burst
        } else {
            base.burst
        },
        algorithm: if over.algorithm != d.algorithm {
            over.algorithm
        } else {
            base.algorithm
        },
        window_size: if over.window_size != d.window_size {
            over.window_size
        } else {
            base.window_size
        },
        enabled: if over.enabled != base.enabled {
            over.enabled
        } else {
            base.enabled
        },
        redis_options: merge_options(base.redis_options, over.redis_options),
    }
}

/// Copies the text of an optional string.
fn copy_opt_text(o: &Option<String>) -> (r: Option<String>)
    ensures
        opt_text_view(r) == opt_text_view(*o),
{
    match o {
        Some(s) => Some(s.clone()),
        None => None,
    }
}

impl RedisConnectionOptions {
    /// A copy with the same view.
    pub fn duplicate(&self) -> (r: RedisConnectionOptions)
        ensures
            r@ == self@,
    {
        RedisConnectionOptions {
            connect_timeout: self.connect_timeout,
            command_timeout: self.command_timeout,
            retry_count: self.retry_count,
            retry_delay: self.retry_delay,
            password: copy_opt_text(&self.password),
            database: self.database,
            pool_size: self.pool_size,
            cluster_mode: self.cluster_mode,
            tls_enabled: self.tls_enabled,
            keepalive: self.keepalive,
        }
    }
}

impl RateLimitSettings {
    /// A copy with the same view.
    pub fn duplicate(&self) -> (r: RateLimitSettings)
        ensures
            r@ == self@,
    {
        RateLimitSettings {
            redis_url: self.redis_url.clone(),
            key: self.key.clone(),
            rate: self.rate,
            burst: self.burst,
            algorithm: self.algorithm.clone(),
            window_size: self.window_size,
            enabled: self.enabled,
            redis_options: self.redis_options.duplicate(),
        }
    }
}

/// Overlays the options of `src` that differ from their defaults onto `dest`;
/// a password is taken whenever `src` has one.
pub fn merge_redis_options(dest: &mut RedisConnectionOptions, src: &RedisConnectionOptions)
    ensures
        final(dest)@ == merge_options(old(dest)@, src@),
{
    if src.connect_timeout != default_connect_timeout() {
        dest.connect_timeout = src.connect_timeout;
    }
    if src.command_timeout != default_command_timeout() {
        dest.command_timeout = src.command_timeout;
    }
    if src.retry_count != default_retry_count() {
        dest.retry_count = src.retry_count;
    }
    if src.retry_delay != default_retry_delay() {
        dest.retry_delay = src.retry_delay;
    }
    if src.password.is_some() {
        dest.password = copy_opt_text(&src.password);
    }
    if src.database != default_database() {
        dest.database = src.database;
    }
    if src.pool_size != default_pool_size() {
        dest.pool_size = src.pool_size;
    }
    if src.cluster_mode != false {
        dest.cluster_mode = src.cluster_mode;
    }
    if src.tls_enabled != false {
        dest.tls_enabled = src.tls_enabled;
    }
    if src.keepalive != 0 {
        dest.keepalive = src.keepalive;
    }
}

pub fn default_redis_url() -> (r: String)
    ensures
        r@ == default_settings_view().redis_url,
{
    String::from_str("redis://127.0.0.1:6379")
}

pub fn default_key() -> (r: String)
    ensures
        r@ == default_settings_view().key,
{
    String::from_str("remote_addr")
}

pub fn default_rate() -> (r: u32)
    ensures
        r == default_settings_view().rate,
{
    10
}

pub fn default_burst() -> (r: u32)
    ensures
        r == default_settings_view().burst,
{
    5
}

pub fn default_algorithm() -> (r: String)
    ensures
        r@ == default_settings_view().algorithm,
{
    String::from_str("sliding_window")
}

pub fn default_window_size() -> (r: u32)
    ensures
        r == default_settings_view().window_size,
{
    60
}

pub fn default_enabled() -> (r: bool)
    ensures
        r == default_settings_view().enabled,
{
    false
}

impl Default for RateLimitSettings {
    fn default() -> (r: RateLimitSettings)
        ensures
            r@ == default_settings_view(),
    {
        RateLimitSettings {
            redis_url: default_redis_url(),
            key: default_key(),
            rate: default_rate(),
            burst: default_burst(),
            algorithm: default_algorithm(),
            window_size: default_window_size(),
            enabled: default_enabled(),
            redis_options: RedisConnectionOptions::default(),
        }
    }
}

/// Default settings plus per-location overrides, keyed by location path.
/// Its invariant (`wf`) is that no path occurs twice; `set_location` keeps it.
/// Resolution reads the first entry of a path, which under the invariant is its only one.
#[derive(Clone, Debug)]
pub struct ConfigFile {
    pub default: RateLimitSettings,
    pub locations: Vec<(String, RateLimitSettings)>,
}

/// Mathematical view of [`ConfigFile`].
pub struct ConfigView {
    pub default: SettingsView,
    pub locations: Seq<(Seq<char>, SettingsView)>,
}

impl View for ConfigFile {
    type V = ConfigView;

    open spec fn view(&self) -> ConfigView {
        ConfigView {
            default: self.default@,
            locations: self.locations@.map_values(
                |e: (String, RateLimitSettings)| (e.0@, e.1@),
            ),
        }
    }
}

/// The override of the first entry for `path`, if any.
pub open spec fn lookup(locs: Seq<(Seq<char>, SettingsView)>, path: Seq<char>) -> Option<
    SettingsView,
>
    decreases locs.len(),
{
    if locs.len() == 0 {
        None
    } else if locs[0].0 == path {
        Some(locs[0].1)
    } else {
        lookup(locs.drop_first(), path)
    }
}

/// The effective settings of a location.
pub open spec fn resolve(c: ConfigView, path: Seq<char>) -> SettingsView {
    match lookup(c.locations, path) {
        Some(over) => merge_settings(c.default, over),
        None => c.default,
    }
}

proof fn lemma_lookup_skip(locs: Seq<(Seq<char>, SettingsView)>, path: Seq<char>, i: int)
    requires
        0 <= i < locs.len(),
        locs[i].0 != path,
    ensures
        lookup(locs.subrange(i, locs.len() as int), path) == lookup(
            locs.subrange(i + 1, locs.len() as int),
            path,
        ),
{
    assert(locs.subrange(i, locs.len() as int).drop_first() =~= locs.subrange(
        i + 1,
        locs.len() as int,
    ));
}

proof fn lemma_lookup_hit(locs: Seq<(Seq<char>, SettingsView)>, path: Seq<char>, i: int)
    requires
        0 <= i < locs.len(),
        locs[i].0 == path,
    ensures
        lookup(locs.subrange(i, locs.len() as int), path) == Some(locs[i].1),
{
    assert(locs.subrange(i, locs.len() as int)[0] == locs[i]);
}

impl Default for ConfigFile {
    fn default() -> (r: ConfigFile)
        ensures
            r@.default == default_settings_view(),
            r@.locations.len() == 0,
            r.wf(),
    {
        ConfigFile { default: RateLimitSettings::default(), locations: Vec::new() }
    }
}

/// No location path occurs twice.
pub open spec fn unique_paths(locs: Seq<(Seq<char>, SettingsView)>) -> bool {
    forall|i: int, j: int| 0 <= i < j < locs.len() ==> locs[i].0 != locs[j].0
}

/// With unique paths, a path's override is the one entry that holds it, and
/// a path that no entry holds has none.
pub proof fn lemma_lookup_unique(locs: Seq<(Seq<char>, SettingsView)>, path: Seq<char>)
    requires
        unique_paths(locs),
    ensures
        lookup(locs, path) is None <==> forall|i: int| 0 <= i < locs.len() ==> locs[i].0 != path,
        forall|i: int|
            0 <= i < locs.len() && locs[i].0 == path ==> lookup(locs, path) == Some(locs[i].1),
    decreases locs.len(),
{
    if locs.len() > 0 {
        let rest = locs.drop_first();
        assert(unique_paths(rest)) by {
            assert forall|i: int, j: int| 0 <= i < j < rest.len() implies rest[i].0 != rest[j].0 by {
                assert(rest[i] == locs[i + 1] && rest[j] == locs[j + 1]);
            }
        }
        lemma_lookup_unique(rest, path);
        assert forall|i: int| 0 < i < locs.len() implies locs[i] == rest[i - 1] by {}
        if locs[0].0 != path {
            if lookup(locs, path) is None {
                assert forall|i: int| 0 <= i < locs.len() implies locs[i].0 != path by {
                    if i > 0 {
                        assert(locs[i] == rest[i - 1]);
                    }
                }
            }
        }
    }
}

impl ConfigFile {
    /// The invariant: no location path occurs twice.
    pub open spec fn wf(&self) -> bool {
        unique_paths(self@.locations)
    }

    /// Sets the override of `path`, replacing the one it had.
    pub fn set_location(&mut self, path: String, settings: RateLimitSettings)
        requires
            old(self).wf(),
        ensures
            final(self).wf(),
            final(self)@.default == old(self)@.default,
            lookup(final(self)@.locations, path@) == Some(settings@),
            forall|p: Seq<char>|
                p != path@ ==> lookup(final(self)@.locations, p) == lookup(
                    old(self)@.locations,
                    p,
                ),
    {
        let ghost old_locs = self@.locations;
        let ghost pv = path@;
        let ghost sv = settings@;
        let found = self.find_location(path.as_str());
        proof {
            lemma_lookup_unique(old_locs, pv);
        }
        match found {
            Some(i) => {
                self.locations.set(i, (path, settings));
            },
            None => {
                self.locations.push((path, settings));
            },
        }
        let ghost new_locs = self@.locations;
        proof {
            assert forall|a: int, b: int| 0 <= a < b < new_locs.len() implies new_locs[a].0
                != new_locs[b].0 by {
                if a < old_locs.len() && b < old_locs.len() {
                    if found is Some {
                        let k = found->Some_0 as int;
                        if a != k && b != k {
                            assert(new_locs[a] == old_locs[a] && new_locs[b] == old_locs[b]);
                        } else if a == k {
                            assert(new_locs[b] == old_locs[b]);
                            assert(old_locs[k].0 == pv);
                        } else {
                            assert(new_locs[a] == old_locs[a]);
                            assert(old_locs[k].0 == pv);
                        }
                    } else {
                        assert(new_locs[a] == old_locs[a] && new_locs[b] == old_locs[b]);
                    }
                } else {
                    assert(new_locs[b] == (pv, sv));
                    assert(new_locs[a] == old_locs[a]);
                }
            }
            lemma_lookup_unique(new_locs, pv);
            let k = if found is Some { found->Some_0 as int } else { old_locs.len() as int };
            assert(new_locs[k] == (pv, sv));
            assert forall|p: Seq<char>| p != pv implies lookup(new_locs, p) == lookup(old_locs, p) by {
                lemma_lookup_unique(new_locs, p);
                lemma_lookup_unique(old_locs, p);
                assert forall|i: int| 0 <= i < new_locs.len() && i != k implies new_locs[i]
                    == old_locs[i] by {}
                if lookup(old_locs, p) is None {
                    assert forall|i: int| 0 <= i < new_locs.len() implies new_locs[i].0 != p by {
                        if i != k {
                            assert(new_locs[i] == old_locs[i]);
                        }
                    }
                } else {
                    let i = choose|i: int| 0 <= i < old_locs.len() && old_locs[i].0 == p;
                    assert(i != k);
                    assert(new_locs[i] == old_locs[i]);
                }
            }
        }
    }

    /// Index of the first entry for `location`, if any.
    fn find_location(&self, location: &str) -> (r: Option<usize>)
        ensures
            match r {
                Some(i) => i < self@.locations.len() && self@.locations[i as int].0 == location@
                    && lookup(self@.locations, location@) == Some(self@.locations[i as int].1),
                None => lookup(self@.locations, location@) is None,
            },
    {
        let ghost locs = self@.locations;
        let n = self.locations.len();
        let mut i: usize = 0;
        assert(locs.subrange(0, locs.len() as int) =~= locs);
        while i < n
            invariant
                n == locs.len(),
                locs == self@.locations,
                i <= n,
                lookup(locs, location@) == lookup(locs.subrange(i as int, n as int), location@),
            decreases n - i,
        {
            let entry = &self.locations[i];
            assert(locs[i as int] == (entry.0@, entry.1@));
            if entry.0 == location.to_owned() {
                proof {
                    lemma_lookup_hit(locs, location@, i as int);
                }
                return Some(i);
            }
            proof {
                lemma_lookup_skip(locs, location@, i as int);
            }
            i = i + 1;
        }
        assert(locs.subrange(n as int, n as int).len() == 0);
        None
    }

    /// Effective settings of a location: the default, with the location's
    /// override merged onto it when the file has one.
    pub fn get_settings(&self, location: &str) -> (r: RateLimitSettings)
        ensures
            r@ == resolve(self@, location@),
    {
        match self.find_location(location) {
            Some(i) => {
                let over = &self.locations[i].1;
                let mut merged = self.default.duplicate();
                if over.redis_url != default_redis_url() {
                    merged.redis_url = over.redis_url.clone();
                }
                if over.key != default_key() {
                    merged.key = over.key.clone();
                }
                if over.rate != default_rate() {
                    merged.rate = over.rate;
                }
                if over.burst != default_burst() {
                    merged.burst = over.burst;
                }
                if over.algorithm != default_algorithm() {
                    merged.algorithm = over.algorithm.clone();
                }
                if over.window_size != default_window_size() {
                    merged.window_size = over.window_size;
                }
                if over.enabled != self.default.enabled {
                    merged.enabled = over.enabled;
                }
                merge_redis_options(&mut merged.redis_options, &over.redis_options);
                merged
            },
            None => self.default.duplicate(),
        }
    }

    /// Reads an algorithm name from a settings value.
    pub fn parse_algorithm(algorithm_str: &str) -> (r: Result<RateLimitAlgorithm, String>)
        ensures
            match r {
                Ok(a) => RateLimitAlgorithm::from_name(crate::algorithm::lower_of(algorithm_str@))
                    == Some(a),
                Err(e) => RateLimitAlgorithm::from_name(
                    crate::algorithm::lower_of(algorithm_str@),
                ) is None && e@ == "Unknown rate limit algorithm: "@ + algorithm_str@,
            },
    {
        RateLimitAlgorithm::from_str(algorithm_str)
    }
}

/// Resolving a location whose override equals the file's default yields the default.
pub proof fn lemma_merge_idempotent(c: ConfigView, path: Seq<char>)
    requires
        lookup(c.locations, path) == Some(c.default),
    ensures
        resolve(c, path) == c.default,
{
    assert(merge_options(c.default.redis_options, c.default.redis_options)
        == c.default.redis_options);
}

/// Resolution depends on the default and on the location's own override alone.
pub proof fn lemma_resolution_pointwise(c1: ConfigView, c2: ConfigView, path: Seq<char>)
    requires
        c1.default == c2.default,
        lookup(c1.locations, path) == lookup(c2.locations, path),
    ensures
        resolve(c1, path) == resolve(c2, path),
{
}

} // verus!

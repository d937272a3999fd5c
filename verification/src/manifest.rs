//! The manifest that points at the configuration, and the settings the daemon itself
//! reads from it: which files make up the configuration, in which order, and which
//! process settings win.
use vstd::prelude::*;
use crate::logger::LogLevel;
use crate::paths::{join_path, path_join};
use crate::config_tree::{find, ConfigTable, ConfigValue};
use crate::text::text_eq;

verus! {

/// Flags that change how the daemon behaves.
///
/// - `pipewire_conversion`: let PipeWire convert the pixel format
/// - `save_token`: keep the capture-session token, so that the screen need not be
///   chosen again at the next start
#[derive(Clone, Copy, Debug, PartialEq, Eq, Structural)]
pub struct Flags {
    pub pipewire_conversion: bool,
    pub save_token: bool,
}

impl Default for Flags {
    /// Both flags off.
    fn default() -> (f: Self)
        ensures
            !f.pipewire_conversion,
            !f.save_token,
    {
        Flags { pipewire_conversion: false, save_token: false }
    }
}

/// Files of the configuration named by the manifest.
///
/// - `config`: the main configuration
/// - `overlays`: the overlays, in the order in which they are laid over it
pub struct Paths {
    pub config: String,
    pub overlays: Vec<String>,
}

/// Settings of the process itself.
#[derive(Clone, Copy, Debug, PartialEq, Eq, Structural)]
pub struct DaemonSettings {
    pub log_level: LogLevel,
}

/// The manifest: where the configuration is, and how the process behaves.
pub struct Manifest {
    pub paths: Option<Paths>,
    pub daemon_settings: Option<DaemonSettings>,
}

/// The files to read, as the manifest in `manifest_dir` names them: the main configuration
/// first, then each overlay in order; a relative path is taken from the manifest's directory.
pub open spec fn config_sources_spec(paths: Paths, manifest_dir: Seq<char>) -> Seq<Seq<char>> {
    seq![path_join(manifest_dir, paths.config@)]
        + paths.overlays@.map_values(|p: String| path_join(manifest_dir, p@))
}

/// The files that make up the configuration, in the order in which they are merged:
/// the main configuration, then the overlays. `None` when the manifest has no `[paths]`.
pub fn config_sources(manifest: &Manifest, manifest_dir: &str) -> (r: Option<Vec<String>>)
    ensures
        manifest.paths is None <==> r is None,
        manifest.paths matches Some(p) ==> r matches Some(files)
            && files@.map_values(|s: String| s@) == config_sources_spec(p, manifest_dir@),
{
    match &manifest.paths {
        None => None,
        Some(paths) => {
            let mut files: Vec<String> = Vec::new();
            files.push(join_path(manifest_dir, paths.config.as_str()));
            let n = paths.overlays.len();
            let mut i: usize = 0;
            while i < n
                invariant
                    n == paths.overlays@.len(),
                    i <= n,
                    files@.len() == i + 1,
                    files@.map_values(|s: String| s@) =~= config_sources_spec(*paths, manifest_dir@).take(i + 1),
                decreases n - i,
            {
                let f = join_path(manifest_dir, paths.overlays[i].as_str());
                files.push(f);
                proof {
                    let spec = config_sources_spec(*paths, manifest_dir@);
                    assert(spec[i + 1] == path_join(manifest_dir@, paths.overlays@[i as int]@));
                    assert(files@.map_values(|s: String| s@) =~= spec.take(i + 2));
                }
                i = i + 1;
            }
            proof {
                let spec = config_sources_spec(*paths, manifest_dir@);
                assert(spec.take(n + 1) =~= spec);
            }
            Some(files)
        },
    }
}

/// The process settings that apply: those of the configuration when it has them,
/// otherwise those of the manifest.
pub fn effective_daemon_settings(
    from_manifest: Option<DaemonSettings>,
    from_config: Option<DaemonSettings>,
) -> (r: Option<DaemonSettings>)
    ensures
        r == (match from_config {
            Some(c) => Some(c),
            None => from_manifest,
        }),
{
    match from_config {
        Some(c) => Some(c),
        None => from_manifest,
    }
}

/// The flags the configuration sets, or both off when it has no `[flags]` section.
pub fn get_flags(configured: Option<Flags>) -> (f: Flags)
    ensures
        f == (match configured {
            Some(c) => c,
            None => Flags { pipewire_conversion: false, save_token: false },
        }),
{
    match configured {
        Some(c) => c,
        None => Flags::default(),
    }
}

/// The configuration holds a table named `name` at its top level.
pub open spec fn section_present(t: ConfigTable, name: Seq<char>) -> bool {
    find(t.entries@, name) matches Some(ConfigValue::Table(_))
}

/// The configuration holds every section the daemon cannot start without: `[settings]`,
/// `[screen_reading_config]`, `[led_position_config]`, `[screen_config]` and
/// `[frame_connection_config]`.
pub open spec fn required_sections_present(t: ConfigTable) -> bool {
    &&& section_present(t, "settings"@)
    &&& section_present(t, "screen_reading_config"@)
    &&& section_present(t, "led_position_config"@)
    &&& section_present(t, "screen_config"@)
    &&& section_present(t, "frame_connection_config"@)
}

/// Whether the configuration holds a table named `name` at its top level (the first entry
/// of that name, where names are distinct).
fn has_section(t: &ConfigTable, name: &str) -> (r: bool)
    requires
        crate::config_tree::distinct_keys(t.entries@),
    ensures
        r == section_present(*t, name@),
{
    let n = t.entries.len();
    let mut i: usize = 0;
    while i < n
        invariant
            n == t.entries@.len(),
            i <= n,
            crate::config_tree::distinct_keys(t.entries@),
            forall|j: int| 0 <= j < i ==> (#[trigger] t.entries@[j]).0@ != name@,
        decreases n - i,
    {
        if text_eq(t.entries[i].0.as_str(), name) {
            proof {
                crate::config_tree::lemma_find_at(t.entries@, i as int);
            }
            return match &t.entries[i].1 {
                ConfigValue::Table(_) => true,
                ConfigValue::Leaf(_) => false,
            };
        }
        i = i + 1;
    }
    false
}

/// Whether the configuration holds every section the daemon cannot start without.
pub fn has_required_sections(t: &ConfigTable) -> (r: bool)
    requires
        crate::config_tree::wf_table(*t),
    ensures
        r == required_sections_present(*t),
{
    proof {
        assert(crate::config_tree::get_value(ConfigValue::Table(*t), Seq::empty()) == Some(
            ConfigValue::Table(*t),
        ));
    }
    has_section(t, "settings") && has_section(t, "screen_reading_config") && has_section(
        t,
        "led_position_config",
    ) && has_section(t, "screen_config") && has_section(t, "frame_connection_config")
}

/// The daemon starts only with all five sections: the configuration has its required
/// sections exactly when each of `settings`, `screen_reading_config`,
/// `led_position_config`, `screen_config` and `frame_connection_config` names a table at
/// its top level; lacking any one of them, or holding a plain value under its name,
/// refuses it.
pub proof fn lemma_required_sections_exact(t: ConfigTable)
    ensures
        required_sections_present(t) <==> {
            &&& find(t.entries@, "settings"@) matches Some(ConfigValue::Table(_))
            &&& find(t.entries@, "screen_reading_config"@) matches Some(ConfigValue::Table(_))
            &&& find(t.entries@, "led_position_config"@) matches Some(ConfigValue::Table(_))
            &&& find(t.entries@, "screen_config"@) matches Some(ConfigValue::Table(_))
            &&& find(t.entries@, "frame_connection_config"@) matches Some(ConfigValue::Table(_))
        },
{
}

} // verus!

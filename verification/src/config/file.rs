//! Version-aware configuration loading and conflict-safe persistence.
//!
//! A loaded config file remembers the exact text it was loaded from. Saving
//! first re-reads the file and refuses to overwrite it when it changed since
//! (an editor or another process wrote it). A file written by an older
//! schema is copied aside once, on the first save that succeeds, so a
//! key-rewriting migration stays recoverable.

use vstd::prelude::*;

use crate::binding::application_target::{is_part_of, is_slash_path, last_segment};
use crate::config::document::{render_config, rendered};
use crate::text::{decimal, lemma_decimal_round_trip, push_decimal_u64, push_str, str_eq};

verus! {

/// The config schema this build writes.
pub const SCHEMA_VERSION: u32 = 7;

/// How many rotating whole-file backups are kept.
pub const CONFIG_BACKUP_GENERATIONS: u64 = 5;

/// Failure loading or persisting the config file. Paths are shown as text;
/// underlying I/O and parser failures are carried as their messages.
#[derive(Debug, Clone)]
pub enum ConfigError {
    /// The platform config directory could not be resolved.
    Path(String),
    /// Reading the config file from disk failed.
    Read { path: String, source: String },
    /// The file is not valid TOML for its declared schema.
    Parse { path: String, source: String },
    /// A field from an older schema was used with a version where it is invalid.
    ObsoleteField { path: String, field: String, version: u32 },
    /// The file changed after it was loaded, so overwriting it would lose edits.
    Conflict { path: String },
    /// Writing the updated config back to disk failed.
    Write { path: String, source: String },
    /// The in-memory config could not be serialized to TOML.
    Serialize(String),
    /// A generated or previously parsed TOML document could not be edited.
    Edit { path: String, source: String },
    /// The file declares a schema outside the supported version range.
    UnsupportedSchemaVersion { path: String, found: u32 },
}

/// The message a config error is shown with.
pub open spec fn config_error_message(e: ConfigError) -> Seq<char> {
    match e {
        ConfigError::Path(m) => "could not resolve config path: "@ + m@,
        ConfigError::Read { path, source } => "could not read config at "@ + path@ + ": "@ + source@,
        ConfigError::Parse { path, source } => "could not parse config at "@ + path@ + ": "@ + source@,
        ConfigError::ObsoleteField { path, field, version } =>
            "config at "@ + path@ + " uses obsolete field "@ + field@ + " with schema_version "@ + decimal(version as nat),
        ConfigError::Conflict { path } => "config at "@ + path@ + " changed on disk; restart OpenLogi to reload it"@,
        ConfigError::Write { path, source } => "could not write config at "@ + path@ + ": "@ + source@,
        ConfigError::Serialize(m) => "could not serialize config: "@ + m@,
        ConfigError::Edit { path, source } => "could not preserve config formatting at "@ + path@ + ": "@ + source@,
        ConfigError::UnsupportedSchemaVersion { path, found } =>
            "config at "@ + path@ + " has unsupported schema_version "@ + decimal(found as nat),
    }
}

impl ConfigError {
    /// The human-readable message of this error.
    pub fn to_string(&self) -> (s: String)
        ensures
            s@ == config_error_message(*self),
    {
        let mut s = String::new();
        match self {
            ConfigError::Path(m) => {
                push_str(&mut s, "could not resolve config path: ");
                push_str(&mut s, m.as_str());
            },
            ConfigError::Read { path, source } => {
                push_str(&mut s, "could not read config at ");
                push_str(&mut s, path.as_str());
                push_str(&mut s, ": ");
                push_str(&mut s, source.as_str());
            },
            ConfigError::Parse { path, source } => {
                push_str(&mut s, "could not parse config at ");
                push_str(&mut s, path.as_str());
                push_str(&mut s, ": ");
                push_str(&mut s, source.as_str());
            },
            ConfigError::ObsoleteField { path, field, version } => {
                push_str(&mut s, "config at ");
                push_str(&mut s, path.as_str());
                push_str(&mut s, " uses obsolete field ");
                push_str(&mut s, field.as_str());
                push_str(&mut s, " with schema_version ");
                push_decimal_u64(&mut s, *version as u64);
            },
            ConfigError::Conflict { path } => {
                push_str(&mut s, "config at ");
                push_str(&mut s, path.as_str());
                push_str(&mut s, " changed on disk; restart OpenLogi to reload it");
            },
            ConfigError::Write { path, source } => {
                push_str(&mut s, "could not write config at ");
                push_str(&mut s, path.as_str());
                push_str(&mut s, ": ");
                push_str(&mut s, source.as_str());
            },
            ConfigError::Serialize(m) => {
                push_str(&mut s, "could not serialize config: ");
                push_str(&mut s, m.as_str());
            },
            ConfigError::Edit { path, source } => {
                push_str(&mut s, "could not preserve config formatting at ");
                push_str(&mut s, path.as_str());
                push_str(&mut s, ": ");
                push_str(&mut s, source.as_str());
            },
            ConfigError::UnsupportedSchemaVersion { path, found } => {
                push_str(&mut s, "config at ");
                push_str(&mut s, path.as_str());
                push_str(&mut s, " has unsupported schema_version ");
                push_decimal_u64(&mut s, *found as u64);
            },
        }
        s
    }
}

/// Whether a declared schema version is one this build reads.
pub open spec fn supported_version(version: u32) -> bool {
    1 <= version <= SCHEMA_VERSION
}

/// Reject a file declaring a schema outside `1..=SCHEMA_VERSION`.
pub fn check_schema_version(path: &str, version: u32) -> (r: Result<(), ConfigError>)
    ensures
        r is Ok <==> supported_version(version),
        r matches Err(e) ==> e matches ConfigError::UnsupportedSchemaVersion { path: p, found } && p@ == path@ && found == version,
{
    if version == 0 || version > SCHEMA_VERSION {
        return Err(ConfigError::UnsupportedSchemaVersion { path: path.to_string(), found: version });
    }
    Ok(())
}

/// Which migrations a file of a given schema needs.
#[derive(Debug, Clone, Copy, PartialEq, Eq, Structural)]
pub struct Migrations {
    /// Gesture bindings owned by a locked button move (schemas up to 3).
    pub owner_locked_gestures: bool,
    /// Per-device keys become transport-scoped (schemas up to 4).
    pub transport_scoped_keys: bool,
    /// Explicit copies of the old thumb-wheel defaults flip to the native
    /// direction (schemas up to 6).
    pub thumbwheel_native_direction: bool,
}

/// The migrations a file declaring `version` needs; every migrated load ends
/// at the current schema.
pub fn migrations_for(version: u32) -> (m: Migrations)
    ensures
        m.owner_locked_gestures == (version <= 3),
        m.transport_scoped_keys == (version <= 4),
        m.thumbwheel_native_direction == (version <= 6),
{
    Migrations {
        owner_locked_gestures: version <= 3,
        transport_scoped_keys: version <= 4,
        thumbwheel_native_direction: version <= 6,
    }
}

/// Migrations nest: a file old enough for a later migration needs every
/// earlier one too, and a current file needs none.
pub proof fn lemma_migrations_nest(version: u32)
    ensures
        version <= 3 ==> (version <= 4 && version <= 6),
        version <= 4 ==> version <= 6,
        version == SCHEMA_VERSION ==> !(version <= 3) && !(version <= 4) && !(version <= 6),
{
}

/// One device table of a config file, as the obsolete-field check reads it:
/// its key, and its field names when it is a table at all.
#[derive(Debug, Clone)]
pub struct DeviceTable {
    /// The device's key under `devices`.
    pub key: String,
    /// The table's field names, or `None` when the entry is not a table.
    pub fields: Option<Vec<String>>,
}

/// The fields that became obsolete, each with the last schema that allowed
/// it, in the order they are checked.
pub open spec fn obsolete_fields() -> Seq<(Seq<char>, u32)> {
    seq![("button_bindings"@, 1u32), ("gesture_bindings"@, 1u32), ("gesture_owner"@, 3u32)]
}

/// Whether `fields` names `field`.
pub open spec fn has_field(fields: Seq<String>, field: Seq<char>) -> bool {
    exists|i: int| 0 <= i < fields.len() && fields[i]@ == field
}

/// Whether a device entry uses obsolete field `k` under `version`.
pub open spec fn uses_obsolete(d: DeviceTable, k: int, version: u32) -> bool {
    &&& d.fields matches Some(fields)
    &&& version > obsolete_fields()[k].1
    &&& has_field(fields@, obsolete_fields()[k].0)
}

/// The first obsolete field a device entry uses, in check order.
pub open spec fn first_obsolete(d: DeviceTable, version: u32) -> Option<int> {
    if uses_obsolete(d, 0, version) {
        Some(0)
    } else if uses_obsolete(d, 1, version) {
        Some(1)
    } else if uses_obsolete(d, 2, version) {
        Some(2)
    } else {
        None
    }
}

/// A device table as plain text: its key and, when it is a table, its
/// field names in table order.
pub open spec fn table_view(d: DeviceTable) -> (Seq<char>, Option<Seq<Seq<char>>>) {
    (d.key@, match d.fields {
        Some(f) => Some(f@.map_values(|s: String| s@)),
        None => None,
    })
}

/// The plain-text views of device tables.
pub open spec fn tables_view(ds: Seq<DeviceTable>) -> Seq<(Seq<char>, Option<Seq<Seq<char>>>)> {
    ds.map_values(|d: DeviceTable| table_view(d))
}

/// The first obsolete field a device table (as text) uses, in check order.
pub open spec fn first_obsolete_field(t: (Seq<char>, Option<Seq<Seq<char>>>), version: u32) -> Option<int> {
    let uses = |k: int| t.1 matches Some(fields) && version > obsolete_fields()[k].1
        && fields.contains(obsolete_fields()[k].0);
    if uses(0) { Some(0) } else if uses(1) { Some(1) } else if uses(2) { Some(2) } else { None }
}

/// A device table and its text view report the same first obsolete field.
proof fn lemma_first_obsolete_view(d: DeviceTable, version: u32)
    ensures
        first_obsolete(d, version) == first_obsolete_field(table_view(d), version),
{
    if let Some(f) = d.fields {
        let v = f@.map_values(|s: String| s@);
        assert forall|field: Seq<char>| has_field(f@, field) <==> v.contains(field) by {
            if has_field(f@, field) {
                let i = choose|i: int| 0 <= i < f@.len() && f@[i]@ == field;
                assert(v[i] == field);
            }
            if v.contains(field) {
                let i = choose|i: int| 0 <= i < v.len() && v[i] == field;
                assert(f@[i]@ == field);
            }
        }
    }
}

/// The entries of a top-level table of a TOML document, as `toml`'s parser
/// reads them: for each entry of the table named `key`, in table order, its
/// key and (when the entry is itself a table) its field names. The inner
/// `None` means the document has no table under `key`; the outer `None`
/// that the text is not TOML.
pub uninterp spec fn toml_table_entries_of(source: Seq<char>, key: Seq<char>) -> Option<Option<Seq<(Seq<char>, Option<Seq<Seq<char>>>)>>>;

/// Parse `source` with `toml::from_str` into a `toml::Value` and read the
/// entries of its top-level table `key`: each entry's key, and the field
/// names of each entry that is a table; `None` when `key` holds no table.
/// The parse is a function of the text, so its result is named, not
/// restated; a parse failure comes back as `toml`'s message.
#[verifier::external_body]
fn toml_table_entries(source: &str, key: &str) -> (r: Result<Option<Vec<DeviceTable>>, String>)
    ensures
        r is Ok <==> toml_table_entries_of(source@, key@) is Some,
        r matches Ok(t) ==> (match t {
            Some(v) => toml_table_entries_of(source@, key@) == Some(Some(tables_view(v@))),
            None => toml_table_entries_of(source@, key@) == Some(None::<Seq<(Seq<char>, Option<Seq<Seq<char>>>)>>),
        }),
{
    let value: toml::Value = toml::from_str(source).map_err(|e| e.to_string())?;
    Ok(value.get(key).and_then(toml::Value::as_table).map(|table| {
        table
            .iter()
            .map(|(name, entry)| DeviceTable {
                key: name.clone(),
                fields: entry.as_table().map(|t| t.keys().cloned().collect()),
            })
            .collect()
    }))
}

/// The device tables of a config text: the entries of its `devices` table,
/// none when it has no such table; `None` when the text is not TOML.
pub open spec fn device_tables_of(source: Seq<char>) -> Option<Seq<(Seq<char>, Option<Seq<Seq<char>>>)>> {
    match toml_table_entries_of(source, "devices"@) {
        Some(Some(t)) => Some(t),
        Some(None) => Some(Seq::empty()),
        None => None,
    }
}

/// The device tables of a config text.
fn toml_device_tables(source: &str) -> (r: Result<Vec<DeviceTable>, String>)
    ensures
        r is Ok <==> device_tables_of(source@) is Some,
        r matches Ok(t) ==> tables_view(t@) == device_tables_of(source@)->0,
{
    match toml_table_entries(source, "devices") {
        Ok(Some(t)) => Ok(t),
        Ok(None) => {
            let t: Vec<DeviceTable> = Vec::new();
            assert(tables_view(t@) =~= Seq::<(Seq<char>, Option<Seq<Seq<char>>>)>::empty());
            Ok(t)
        },
        Err(m) => Err(m),
    }
}

/// Whether `fields` names `field`.
fn contains_field(fields: &Vec<String>, field: &str) -> (b: bool)
    ensures
        b == has_field(fields@, field@),
{
    let mut i: usize = 0;
    while i < fields.len()
        invariant
            i <= fields.len(),
            forall|k: int| 0 <= k < i ==> fields@[k]@ != field@,
        decreases fields.len() - i,
    {
        if str_eq(fields[i].as_str(), field) {
            return true;
        }
        i += 1;
    }
    false
}

/// Reject a field from an older schema used under a version where it is
/// invalid: `button_bindings` and `gesture_bindings` after schema 1,
/// `gesture_owner` after schema 3. The first device (in table order) using
/// one, and its first such field, is reported as `devices.<key>.<field>`.
pub fn reject_obsolete_fields(path: &str, devices: &[DeviceTable], version: u32) -> (r: Result<(), ConfigError>)
    ensures
        r is Ok <==> forall|i: int| 0 <= i < devices@.len() ==> first_obsolete(#[trigger] devices@[i], version) is None,
        r matches Err(e) ==> exists|i: int| #![trigger devices@[i]] {
            &&& 0 <= i < devices@.len()
            &&& forall|j: int| 0 <= j < i ==> first_obsolete(#[trigger] devices@[j], version) is None
            &&& first_obsolete(devices@[i], version) matches Some(k)
            &&& e matches ConfigError::ObsoleteField { path: p, field, version: v }
            &&& p@ == path@ && v == version
            &&& field@ == "devices."@ + devices@[i].key@ + "."@ + obsolete_fields()[k].0
        },
{
    let names: [&str; 3] = ["button_bindings", "gesture_bindings", "gesture_owner"];
    let last_versions: [u32; 3] = [1, 1, 3];
    proof {
        reveal_strlit("button_bindings");
        reveal_strlit("gesture_bindings");
        reveal_strlit("gesture_owner");
    }
    let mut i: usize = 0;
    while i < devices.len()
        invariant
            i <= devices@.len(),
            names@ == seq!["button_bindings", "gesture_bindings", "gesture_owner"],
            last_versions@ == seq![1u32, 1u32, 3u32],
            forall|j: int| 0 <= j < i ==> first_obsolete(#[trigger] devices@[j], version) is None,
        decreases devices.len() - i,
    {
        let device = &devices[i];
        if let Some(fields) = &device.fields {
            let mut k: usize = 0;
            while k < 3
                invariant
                    k <= 3,
                    i < devices@.len(),
                    device == devices@[i as int],
                    device.fields == Some(*fields),
                    names@ == seq!["button_bindings", "gesture_bindings", "gesture_owner"],
                    last_versions@ == seq![1u32, 1u32, 3u32],
                    forall|m: int| 0 <= m < k ==> !uses_obsolete(*device, m, version),
                    forall|j: int| 0 <= j < i ==> first_obsolete(#[trigger] devices@[j], version) is None,
                decreases 3 - k,
            {
                proof {
                    assert(names@[k as int]@ == obsolete_fields()[k as int].0);
                    assert(last_versions@[k as int] == obsolete_fields()[k as int].1);
                }
                if version > last_versions[k] && contains_field(fields, names[k]) {
                    let mut field = String::new();
                    push_str(&mut field, "devices.");
                    push_str(&mut field, device.key.as_str());
                    push_str(&mut field, ".");
                    push_str(&mut field, names[k]);
                    proof {
                        assert(first_obsolete(*device, version) == Some(k as int));
                        assert(field@ =~= "devices."@ + device.key@ + "."@ + obsolete_fields()[k as int].0);
                        assert(devices@[i as int] == *device);
                    }
                    return Err(ConfigError::ObsoleteField { path: path.to_string(), field, version });
                }
                k += 1;
            }
        }
        i += 1;
    }
    Ok(())
}

/// Check a config file's text as loaded from `path`, with the
/// `schema_version` its header declares: the version must be supported,
/// the text must be TOML, and no device may use a field the declared schema
/// no longer allows (checked in `devices` table order). On success the
/// writable handle remembers the text, and whether a migration copy is
/// owed.
pub fn check_loaded(path: &str, source: &str, version: u32) -> (r: Result<ConfigFile, ConfigError>)
    ensures
        !supported_version(version) ==> (r matches Err(ConfigError::UnsupportedSchemaVersion { path: p, found })
            && p@ == path@ && found == version),
        supported_version(version) && device_tables_of(source@) is None
            ==> (r matches Err(ConfigError::Parse { path: p, .. }) && p@ == path@),
        supported_version(version) && device_tables_of(source@) is Some ==> ({
            let t = device_tables_of(source@)->0;
            &&& r is Ok <==> forall|i: int| 0 <= i < t.len() ==> first_obsolete_field(#[trigger] t[i], version) is None
            &&& r matches Err(e) ==> exists|i: int| #![trigger t[i]] {
                &&& 0 <= i < t.len()
                &&& forall|j: int| 0 <= j < i ==> first_obsolete_field(#[trigger] t[j], version) is None
                &&& first_obsolete_field(t[i], version) matches Some(k)
                &&& e matches ConfigError::ObsoleteField { path: p, field, version: v }
                &&& p@ == path@ && v == version
                &&& field@ == "devices."@ + t[i].0 + "."@ + obsolete_fields()[k].0
            }
        }),
        r matches Ok(f) ==> f@.path == path@ && f@.source == Some(source@)
            && f@.migrated_from == (if version < SCHEMA_VERSION { Some((version, source@)) } else { None::<(u32, Seq<char>)> }),
{
    match check_schema_version(path, version) {
        Ok(()) => {},
        Err(e) => return Err(e),
    }
    let tables = match toml_device_tables(source) {
        Ok(t) => t,
        Err(m) => return Err(ConfigError::Parse { path: path.to_string(), source: m }),
    };
    proof {
        assert forall|i: int| 0 <= i < tables@.len() implies
            first_obsolete(#[trigger] tables@[i], version) == first_obsolete_field(tables_view(tables@)[i], version) by {
            lemma_first_obsolete_view(tables@[i], version);
        }
    }
    let checked = reject_obsolete_fields(path, tables.as_slice(), version);
    match checked {
        Ok(()) => {},
        Err(e) => {
            proof {
                let t = tables_view(tables@);
                let i = choose|i: int| #![trigger tables@[i]] {
                    &&& 0 <= i < tables@.len()
                    &&& forall|j: int| 0 <= j < i ==> first_obsolete(#[trigger] tables@[j], version) is None
                    &&& first_obsolete(tables@[i], version) matches Some(k)
                    &&& e matches ConfigError::ObsoleteField { path: p, field, version: v }
                    &&& p@ == path@ && v == version
                    &&& field@ == "devices."@ + tables@[i].key@ + "."@ + obsolete_fields()[k].0
                };
                assert(t[i].0 == tables@[i].key@);
                assert forall|j: int| 0 <= j < i implies first_obsolete_field(#[trigger] t[j], version) is None by {
                    assert(first_obsolete(tables@[j], version) is None);
                }
            }
            return Err(e);
        },
    }
    let mut text = String::new();
    push_str(&mut text, source);
    proof {
        assert(text@ =~= source@);
        let t = tables_view(tables@);
        assert forall|i: int| 0 <= i < t.len() implies first_obsolete_field(#[trigger] t[i], version) is None by {
            assert(first_obsolete(tables@[i], version) is None);
        }
    }
    Ok(ConfigFile::loaded(path.to_string(), Some(text), version))
}

/// The message of the I/O error for a config path with no file name.
pub open spec fn no_file_name_message() -> Seq<char> {
    "config path has no file name"@
}

/// Whether `s` holds no path separator of any platform (`/`, `\\`) and no
/// drive-prefix colon.
pub open spec fn lacks_separators(s: Seq<char>) -> bool {
    forall|i: int| 0 <= i < s.len() ==> #[trigger] s[i] != '/' && s[i] != '\\' && s[i] != ':'
}

/// Whether `s` is a single plain path component on every platform: not
/// empty, without separators or a drive prefix, and neither `.` nor `..`.
pub open spec fn is_plain_name(s: Seq<char>) -> bool {
    s.len() > 0 && lacks_separators(s) && s != "."@ && s != ".."@
}

/// Whether `suffix` ends `s`.
pub open spec fn ends_with(s: Seq<char>, suffix: Seq<char>) -> bool {
    suffix.len() <= s.len() && s.subrange(s.len() - suffix.len(), s.len() as int) == suffix
}

/// Whether `s` is a `/`-separated path with a plain last component (see
/// [`is_slash_path`]) and, besides, no empty segment (no `//`) and no `.`
/// segment: the shape on which a parent directory is the text before the
/// last segment, on every platform.
pub open spec fn is_clean_path(s: Seq<char>) -> bool {
    &&& is_slash_path(s)
    &&& forall|i: int| 0 <= i < s.len() - 1 ==> !(#[trigger] s[i] == '/' && s[i + 1] == '/')
    &&& forall|i: int| 0 <= i < s.len() ==> !(#[trigger] s[i] == '.' && (i == 0 || s[i - 1] == '/')
            && (i + 1 == s.len() || s[i + 1] == '/'))
}

/// The text of `s` before its last segment (with the separator after it).
pub open spec fn parent_text(s: Seq<char>) -> Seq<char> {
    s.subrange(0, s.len() - last_segment(s).len())
}

/// Whether `p` is the path `name` beside the last component of `path`: the
/// name alone for a one-segment path; the name under the root for a path
/// directly under `/`; else the parent directory, one separator (`/`, or
/// `\\` where that is the platform's main separator) and the name.
pub open spec fn is_sibling(path: Seq<char>, name: Seq<char>, p: Seq<char>) -> bool {
    let dir = parent_text(path);
    if dir.len() == 0 {
        p == name
    } else if dir == seq!['/'] {
        p == dir + name
    } else {
        exists|c: char| (c == '/' || c == '\\') && p == dir.drop_last().push(c) + name
    }
}

/// The last segment of `s` is its tail and holds no `/`.
proof fn lemma_last_segment(s: Seq<char>)
    ensures
        last_segment(s).len() <= s.len(),
        last_segment(s) == s.subrange(s.len() - last_segment(s).len(), s.len() as int),
        forall|k: int| 0 <= k < last_segment(s).len() ==> #[trigger] last_segment(s)[k] != '/',
    decreases s.len(),
{
    if s.len() > 0 && s.last() != '/' {
        lemma_last_segment(s.drop_last());
        let l = last_segment(s.drop_last());
        assert(last_segment(s) == l.push(s.last()));
        assert(s.subrange(s.len() - l.len() - 1, s.len() as int) =~= s.drop_last().subrange(s.len() - 1 - l.len(), s.len() - 1).push(s.last()));
    } else if s.len() > 0 {
        assert(s.subrange(s.len() as int, s.len() as int) =~= Seq::<char>::empty());
    }
}

/// The last segment of a `/`-separated path is a plain name.
proof fn lemma_last_segment_plain(s: Seq<char>)
    requires
        is_slash_path(s),
    ensures
        is_plain_name(last_segment(s)),
{
    lemma_last_segment(s);
    let l = last_segment(s);
    let start = s.len() - l.len();
    assert forall|k: int| 0 <= k < l.len() implies #[trigger] l[k] != '/' && l[k] != '\\' && l[k] != ':' by {
        assert(l[k] == s[start + k]);
    }
}

/// The final component of a path, by `std::path::Path::file_name`, as
/// (lossily decoded) text.
///
/// As its documentation says: the final component, when there is one, is a
/// part of the path; a path that is one plain component is its own final
/// component; a path separated by `/` alone whose last segment is a plain
/// name (see [`is_slash_path`]) has that segment as its final component; the
/// empty path and `..` have none. Other paths follow platform rules that are
/// not restated.
#[verifier::external_body]
fn path_file_name(path: &str) -> (last: Option<String>)
    ensures
        last matches Some(n) ==> is_part_of(n@, path@),
        is_plain_name(path@) ==> opt_text(last) == Some(path@),
        is_slash_path(path@) ==> opt_text(last) == Some(last_segment(path@)),
        (path@.len() == 0 || path@ == ".."@) ==> last is None,
{
    std::path::Path::new(path).file_name().map(|n| n.to_string_lossy().into_owned())
}

/// `path` with its final component replaced by `name`, by
/// `std::path::Path::with_file_name`, as (lossily decoded) text.
///
/// As its documentation says (`set_file_name`: pop the final component,
/// then push `name`): a plain `name` is appended as the last component, so
/// the result ends with it; when `path` is itself one plain component, its
/// parent is empty and the result is `name` alone. On a clean `/`-separated
/// path (see [`is_clean_path`]) the parent is the text before the last
/// segment, without its trailing separator (the root keeps its `/`), and
/// pushing `name` adds the platform's main separator (`/`, or `\\` on
/// Windows) unless the parent ends in one. Other paths follow platform
/// rules that are not restated.
#[verifier::external_body]
fn path_with_file_name(path: &str, name: &str) -> (p: String)
    ensures
        is_plain_name(name@) ==> ends_with(p@, name@),
        (is_plain_name(path@) && is_plain_name(name@)) ==> p@ == name@,
        (is_clean_path(path@) && is_plain_name(name@)) ==> is_sibling(path@, name@, p@),
{
    std::path::Path::new(path).with_file_name(name).to_string_lossy().into_owned()
}

/// The file beside `path` that the config's final component, with `suffix`
/// appended, names; an error when the path has no final component. A path
/// that is one plain file name gives that name with `suffix` appended.
fn sibling_path(path: &str, suffix: &str) -> (r: Result<String, String>)
    ensures
        r matches Err(m) ==> m@ == no_file_name_message(),
        (path@.len() == 0 || path@ == ".."@) ==> r is Err,
        (is_plain_name(path@) && lacks_separators(suffix@)) ==> (r matches Ok(p) && p@ == path@ + suffix@),
        is_slash_path(path@) ==> r is Ok,
        (is_clean_path(path@) && lacks_separators(suffix@))
            ==> (r matches Ok(p) && is_sibling(path@, last_segment(path@) + suffix@, p@)),
{
    match path_file_name(path) {
        None => {
            let mut m = String::new();
            push_str(&mut m, "config path has no file name");
            Err(m)
        },
        Some(name) => {
            let mut backup = name;
            push_str(&mut backup, suffix);
            proof {
                if is_plain_name(path@) && lacks_separators(suffix@) {
                    lemma_plain_with_suffix(path@, suffix@);
                }
                if is_clean_path(path@) && lacks_separators(suffix@) {
                    lemma_last_segment_plain(path@);
                    lemma_plain_with_suffix(last_segment(path@), suffix@);
                }
            }
            Ok(path_with_file_name(path, backup.as_str()))
        },
    }
}

/// A plain name with a separator-free suffix appended is still a plain name.
proof fn lemma_plain_with_suffix(name: Seq<char>, suffix: Seq<char>)
    requires
        is_plain_name(name),
        lacks_separators(suffix),
    ensures
        is_plain_name(name + suffix),
{
    reveal_strlit(".");
    reveal_strlit("..");
    let whole = name + suffix;
    assert forall|i: int| 0 <= i < whole.len() implies #[trigger] whole[i] != '/' && whole[i] != '\\' && whole[i] != ':' by {
        if i < name.len() {
            assert(whole[i] == name[i]);
        } else {
            assert(whole[i] == suffix[i - name.len()]);
        }
    }
    assert("."@.len() == 1);
    assert(".."@.len() == 2);
    if suffix.len() == 0 {
        assert(whole =~= name);
    } else if whole.len() <= 2 {
        assert(name.len() == 1);
        assert(whole.len() == 2);
        assert(name[0] == whole[0]);
        if whole == ".."@ {
            assert(whole[0] == '.');
            assert(name =~= "."@);
        }
    }
}

/// A backup suffix — fixed text around a decimal number — holds no
/// separator.
proof fn lemma_suffix_lacks_separators(before: Seq<char>, n: nat, after: Seq<char>)
    requires
        lacks_separators(before),
        lacks_separators(after),
    ensures
        lacks_separators(before + decimal(n) + after),
{
    lemma_decimal_round_trip(n);
    let d = decimal(n);
    let whole = before + d + after;
    assert forall|i: int| 0 <= i < whole.len() implies #[trigger] whole[i] != '/' && whole[i] != '\\' && whole[i] != ':' by {
        if i < before.len() {
            assert(whole[i] == before[i]);
        } else if i < before.len() + d.len() {
            assert(whole[i] == d[i - before.len()]);
            assert(crate::text::is_digit_char(d[i - before.len()]));
        } else {
            assert(whole[i] == after[i - before.len() - d.len()]);
        }
    }
}

/// The suffix of a pre-migration copy.
pub fn migration_backup_suffix(version: u32) -> (s: String)
    ensures
        s@ == ".v"@ + decimal(version as nat) + ".bak"@,
{
    let mut s = String::new();
    push_str(&mut s, ".v");
    push_decimal_u64(&mut s, version as u64);
    push_str(&mut s, ".bak");
    s
}

/// The suffix of backup generation `generation`.
pub fn generation_backup_suffix(generation: u64) -> (s: String)
    ensures
        s@ == ".backup."@ + decimal(generation as nat),
{
    let mut s = String::new();
    push_str(&mut s, ".backup.");
    push_decimal_u64(&mut s, generation);
    s
}

/// Path of the pre-migration copy: the config's own name with
/// `.v<version>.bak` appended beside it (appended, not substituted, so the
/// copy still names the file it copies).
pub fn migration_backup_path(path: &str, version: u32) -> (r: Result<String, String>)
    ensures
        r matches Err(m) ==> m@ == no_file_name_message(),
        (path@.len() == 0 || path@ == ".."@) ==> r is Err,
        is_plain_name(path@) ==> (r matches Ok(p) && p@ == path@ + ".v"@ + decimal(version as nat) + ".bak"@),
        is_clean_path(path@) ==> (r matches Ok(p)
            && is_sibling(path@, last_segment(path@) + ".v"@ + decimal(version as nat) + ".bak"@, p@)),
{
    let suffix = migration_backup_suffix(version);
    proof {
        reveal_strlit(".v");
        reveal_strlit(".bak");
        lemma_suffix_lacks_separators(".v"@, version as nat, ".bak"@);
        assert(path@ + suffix@ =~= path@ + ".v"@ + decimal(version as nat) + ".bak"@);
        assert(last_segment(path@) + suffix@ =~= last_segment(path@) + ".v"@ + decimal(version as nat) + ".bak"@);
    }
    sibling_path(path, suffix.as_str())
}

/// Path of backup generation `generation`: the config's own name with
/// `.backup.<generation>` appended beside it.
pub fn config_backup_path(path: &str, generation: u64) -> (r: Result<String, String>)
    ensures
        r matches Err(m) ==> m@ == no_file_name_message(),
        (path@.len() == 0 || path@ == ".."@) ==> r is Err,
        is_plain_name(path@) ==> (r matches Ok(p) && p@ == path@ + ".backup."@ + decimal(generation as nat)),
        is_clean_path(path@) ==> (r matches Ok(p)
            && is_sibling(path@, last_segment(path@) + ".backup."@ + decimal(generation as nat), p@)),
{
    let suffix = generation_backup_suffix(generation);
    proof {
        reveal_strlit(".backup.");
        lemma_suffix_lacks_separators(".backup."@, generation as nat, Seq::<char>::empty());
        assert(".backup."@ + decimal(generation as nat) + Seq::<char>::empty() =~= ".backup."@ + decimal(generation as nat));
        assert(path@ + suffix@ =~= path@ + ".backup."@ + decimal(generation as nat));
        assert(last_segment(path@) + suffix@ =~= last_segment(path@) + ".backup."@ + decimal(generation as nat));
    }
    sibling_path(path, suffix.as_str())
}

/// The order in which rotating backups move: each older generation up one
/// (oldest first, so nothing is overwritten before it moved), then the live
/// file into generation 1. Each pair is (from, to); generation 0 stands for
/// the live file.
pub fn backup_rotation() -> (moves: Vec<(u64, u64)>)
    ensures
        moves@ == seq![(4u64, 5u64), (3u64, 4u64), (2u64, 3u64), (1u64, 2u64), (0u64, 1u64)],
{
    let mut moves: Vec<(u64, u64)> = Vec::new();
    let mut generation: u64 = CONFIG_BACKUP_GENERATIONS - 1;
    while generation >= 1
        invariant
            generation <= 4,
            moves@.len() == 4 - generation,
            forall|k: int| 0 <= k < moves@.len() ==> #[trigger] moves@[k] == ((4 - k) as u64, (5 - k) as u64),
        decreases generation,
    {
        moves.push((generation, generation + 1));
        generation -= 1;
    }
    moves.push((0, 1));
    assert(moves@ =~= seq![(4u64, 5u64), (3u64, 4u64), (2u64, 3u64), (1u64, 2u64), (0u64, 1u64)]);
    moves
}

/// The config paths already backed up by this process: each file is
/// rotated into its backups once per process, before its first save.
pub struct BackupLedger {
    paths: Vec<String>,
}

impl BackupLedger {
    /// The paths already backed up.
    pub closed spec fn backed_up(self) -> Set<Seq<char>> {
        Set::new(|p: Seq<char>| exists|i: int| 0 <= i < self.paths.len() && self.paths@[i]@ == p)
    }

    /// A ledger with nothing backed up.
    pub fn new() -> (l: Self)
        ensures
            l.backed_up() == Set::<Seq<char>>::empty(),
    {
        let l = BackupLedger { paths: Vec::new() };
        assert(l.backed_up() =~= Set::<Seq<char>>::empty());
        l
    }

    /// Whether `path` still needs its once-per-process backup.
    pub fn needs_backup(&self, path: &str) -> (b: bool)
        ensures
            b == !self.backed_up().contains(path@),
    {
        let mut i: usize = 0;
        while i < self.paths.len()
            invariant
                i <= self.paths.len(),
                forall|k: int| 0 <= k < i ==> self.paths@[k]@ != path@,
            decreases self.paths.len() - i,
        {
            if str_eq(self.paths[i].as_str(), path) {
                return false;
            }
            i += 1;
        }
        true
    }

    /// Record that `path` has been backed up.
    pub fn mark(&mut self, path: &str)
        ensures
            final(self).backed_up() == old(self).backed_up().insert(path@),
    {
        self.paths.push(path.to_string());
        assert(self.backed_up() =~= old(self).backed_up().insert(path@)) by {
            assert forall|p: Seq<char>| #[trigger] self.backed_up().contains(p) == old(self).backed_up().insert(path@).contains(p) by {
                if old(self).backed_up().contains(p) {
                    let i = choose|i: int| 0 <= i < old(self).paths.len() && old(self).paths@[i]@ == p;
                    assert(self.paths@[i]@ == p);
                }
                if p == path@ {
                    assert(self.paths@[old(self).paths.len() as int]@ == p);
                }
                if self.backed_up().contains(p) {
                    let i = choose|i: int| 0 <= i < self.paths.len() && self.paths@[i]@ == p;
                    if i < old(self).paths.len() {
                        assert(old(self).paths@[i]@ == p);
                    }
                }
            }
        }
    }
}

/// A loaded config file plus the exact text it was loaded from.
pub struct ConfigFile {
    path: String,
    source: Option<String>,
    migrated_from: Option<(u32, String)>,
}

/// A config file as mathematical values.
pub struct ConfigFileView {
    /// The file's path.
    pub path: Seq<char>,
    /// The text it was loaded from (or last saved), `None` when it did not
    /// exist.
    pub source: Option<Seq<char>>,
    /// The schema version and text of an older-schema file whose copy is
    /// still owed.
    pub migrated_from: Option<(u32, Seq<char>)>,
}

/// The view of optional text.
pub open spec fn opt_text(t: Option<String>) -> Option<Seq<char>> {
    match t {
        Some(s) => Some(s@),
        None => None,
    }
}

impl View for ConfigFile {
    type V = ConfigFileView;

    closed spec fn view(&self) -> ConfigFileView {
        ConfigFileView {
            path: self.path@,
            source: opt_text(self.source),
            migrated_from: match self.migrated_from {
                Some((v, t)) => Some((v, t@)),
                None => None,
            },
        }
    }
}

impl ConfigFile {
    /// The file at `path` as loaded: from `source` when it existed, whose
    /// declared schema was `loaded_version`; a copy is owed when that schema
    /// is older than the current one. A missing file (`None`) loads as a
    /// writable default with nothing owed.
    pub fn loaded(path: String, source: Option<String>, loaded_version: u32) -> (f: Self)
        ensures
            f@.path == path@,
            f@.source == opt_text(source),
            f@.migrated_from == (match source {
                Some(s) => if loaded_version < SCHEMA_VERSION { Some((loaded_version, s@)) } else { None },
                None => None::<(u32, Seq<char>)>,
            }),
    {
        let migrated_from = match &source {
            Some(s) => if loaded_version < SCHEMA_VERSION { Some((loaded_version, s.clone())) } else { None },
            None => None,
        };
        ConfigFile { path, source, migrated_from }
    }

    /// The file's path.
    pub fn path(&self) -> (p: &str)
        ensures
            p@ == self@.path,
    {
        self.path.as_str()
    }

    /// The text the file was loaded from or last saved.
    pub fn source(&self) -> (s: Option<&str>)
        ensures
            match s {
                Some(t) => self@.source == Some(t@),
                None => self@.source is None,
            },
    {
        match &self.source {
            Some(t) => Some(t.as_str()),
            None => None,
        }
    }
}

/// The next disk work a save asks for.
#[derive(Debug)]
pub enum SaveAction {
    /// Read the file as it is now (`None` when it does not exist).
    ReadCurrent,
    /// Atomically write the pre-migration copy `contents` to `path`.
    WriteMigrationBackup { path: String, contents: String },
    /// Create the config file's parent directory, if it has one.
    CreateParent,
    /// Rotate the file into its backups, once per process.
    BackupOnce,
    /// Atomically write `body` as the config file.
    WriteConfig { body: String },
    /// The save is over, with this result.
    Finish(Result<(), ConfigError>),
}

/// The outcome of the disk work last asked for; I/O failures carry their
/// messages.
#[derive(Debug)]
pub enum SaveEvent {
    /// The file's current text, or `None` when it does not exist.
    CurrentRead(Result<Option<String>, String>),
    /// The pre-migration copy was written, or not.
    MigrationBackupWritten(Result<(), String>),
    /// The parent directory exists, or could not be created.
    ParentCreated(Result<(), String>),
    /// The rotating backup was made (or was already), or not.
    BackedUp(Result<(), String>),
    /// The config file was written, or not.
    ConfigWritten(Result<(), String>),
}

/// Where a save stands.
#[derive(Debug)]
pub enum SaveStage {
    /// Re-reading the file to detect concurrent edits, before saving the
    /// serialized config `generated`.
    ReadingCurrent { generated: String },
    /// Writing the pre-migration copy to this path.
    WritingMigrationBackup { backup: String, generated: String },
    /// Creating the parent directory.
    CreatingParent { generated: String },
    /// Making the rotating backup before writing `body`.
    BackingUp { body: String },
    /// Writing `body`.
    Writing { body: String },
    /// Done.
    Finished,
}

/// Whether the save in `stage` waits for `event`.
pub open spec fn save_expects(stage: SaveStage, event: SaveEvent) -> bool {
    match stage {
        SaveStage::ReadingCurrent { .. } => event is CurrentRead,
        SaveStage::WritingMigrationBackup { .. } => event is MigrationBackupWritten,
        SaveStage::CreatingParent { .. } => event is ParentCreated,
        SaveStage::BackingUp { .. } => event is BackedUp,
        SaveStage::Writing { .. } => event is ConfigWritten,
        SaveStage::Finished => false,
    }
}

/// A write error on `path`.
pub open spec fn is_write_error(e: ConfigError, path: Seq<char>, message: Seq<char>) -> bool {
    e matches ConfigError::Write { path: p, source } && p@ == path && source@ == message
}

impl ConfigFile {
    /// Start saving the serialized config `generated`: the first action
    /// re-reads the file.
    pub fn begin_save(&self, generated: String) -> (r: (SaveStage, SaveAction))
        ensures
            r.0 matches SaveStage::ReadingCurrent { generated: g } && g@ == generated@,
            r.1 is ReadCurrent,
    {
        (SaveStage::ReadingCurrent { generated }, SaveAction::ReadCurrent)
    }

    /// One step of a save: it writes only when the file still holds the
    /// text it was loaded from (else `Conflict`); writes the owed
    /// pre-migration copy first; and only once the config itself is written
    /// does it settle that debt and remember the written text.
    pub fn save_step(&mut self, stage: SaveStage, event: SaveEvent) -> (r: (SaveStage, SaveAction))
        requires
            save_expects(stage, event),
        ensures
            final(self)@.path == old(self)@.path,
            !(stage is Writing && event matches SaveEvent::ConfigWritten(Ok(()))) ==> final(self)@ == old(self)@,
            match (stage, event) {
                (SaveStage::ReadingCurrent { .. }, SaveEvent::CurrentRead(Err(m))) =>
                    r.0 is Finished && (r.1 matches SaveAction::Finish(Err(ConfigError::Read { path, source }))
                        && path@ == old(self)@.path && source@ == m@),
                (SaveStage::ReadingCurrent { generated }, SaveEvent::CurrentRead(Ok(current))) =>
                    if opt_text(current) != old(self)@.source {
                        r.0 is Finished && (r.1 matches SaveAction::Finish(Err(ConfigError::Conflict { path })) && path@ == old(self)@.path)
                    } else if old(self)@.migrated_from is Some {
                        &&& {
                            ||| (r.0 matches SaveStage::WritingMigrationBackup { backup, generated: g } && g@ == generated@ && (r.1 matches SaveAction::WriteMigrationBackup { path, contents }
                                    && path@ == backup@ && contents@ == (old(self)@.migrated_from->0).1))
                            ||| r.0 is Finished && (r.1 matches SaveAction::Finish(Err(e)) && is_write_error(e, old(self)@.path, no_file_name_message()))
                        }
                        &&& (old(self)@.path.len() == 0 || old(self)@.path == ".."@) ==> r.0 is Finished
                        &&& is_plain_name(old(self)@.path) ==> (r.0 matches SaveStage::WritingMigrationBackup { backup, .. }
                                && backup@ == old(self)@.path + ".v"@ + decimal((old(self)@.migrated_from->0).0 as nat) + ".bak"@)
                        &&& is_clean_path(old(self)@.path) ==> (r.0 matches SaveStage::WritingMigrationBackup { backup, .. }
                                && is_sibling(old(self)@.path, last_segment(old(self)@.path) + ".v"@
                                    + decimal((old(self)@.migrated_from->0).0 as nat) + ".bak"@, backup@))
                    } else {
                        (r.0 matches SaveStage::CreatingParent { generated: g } && g@ == generated@) && r.1 is CreateParent
                    },
                (SaveStage::WritingMigrationBackup { backup, generated }, SaveEvent::MigrationBackupWritten(result)) => match result {
                    Ok(()) => (r.0 matches SaveStage::CreatingParent { generated: g } && g@ == generated@) && r.1 is CreateParent,
                    Err(m) => r.0 is Finished && (r.1 matches SaveAction::Finish(Err(e)) && is_write_error(e, backup@, m@)),
                },
                (SaveStage::CreatingParent { generated }, SaveEvent::ParentCreated(result)) => match result {
                    Ok(()) => {
                        ||| (r.0 matches SaveStage::BackingUp { body } && r.1 is BackupOnce
                            && rendered(generated@, old(self)@.source, old(self)@.path, Ok::<String, ConfigError>(body)))
                        ||| (r.0 is Finished && (r.1 matches SaveAction::Finish(Err(e))
                            && rendered(generated@, old(self)@.source, old(self)@.path, Err::<String, ConfigError>(e))))
                    },
                    Err(m) => r.0 is Finished && (r.1 matches SaveAction::Finish(Err(e)) && is_write_error(e, old(self)@.path, m@)),
                },
                (SaveStage::BackingUp { body }, SaveEvent::BackedUp(result)) => match result {
                    Ok(()) => (r.0 matches SaveStage::Writing { body: b } && b@ == body@)
                        && (r.1 matches SaveAction::WriteConfig { body: w } && w@ == body@),
                    Err(m) => r.0 is Finished && (r.1 matches SaveAction::Finish(Err(e)) && is_write_error(e, old(self)@.path, m@)),
                },
                (SaveStage::Writing { body }, SaveEvent::ConfigWritten(result)) => match result {
                    Ok(()) => r.0 is Finished && (r.1 matches SaveAction::Finish(Ok(())))
                        && final(self)@.source == Some(body@) && final(self)@.migrated_from is None,
                    Err(m) => r.0 is Finished && (r.1 matches SaveAction::Finish(Err(e)) && is_write_error(e, old(self)@.path, m@)),
                },
                _ => true,
            },
    {
        match (stage, event) {
            (SaveStage::ReadingCurrent { .. }, SaveEvent::CurrentRead(Err(m))) =>
                (SaveStage::Finished, SaveAction::Finish(Err(ConfigError::Read { path: self.path.clone(), source: m }))),
            (SaveStage::ReadingCurrent { generated }, SaveEvent::CurrentRead(Ok(current))) => {
                if !same_text(&current, &self.source) {
                    return (SaveStage::Finished, SaveAction::Finish(Err(ConfigError::Conflict { path: self.path.clone() })));
                }
                match &self.migrated_from {
                    Some((version, original)) => match migration_backup_path(self.path.as_str(), *version) {
                        Ok(backup) => {
                            let path = backup.clone();
                            (SaveStage::WritingMigrationBackup { backup, generated }, SaveAction::WriteMigrationBackup { path, contents: original.clone() })
                        },
                        Err(m) => (SaveStage::Finished, SaveAction::Finish(Err(ConfigError::Write { path: self.path.clone(), source: m }))),
                    },
                    None => (SaveStage::CreatingParent { generated }, SaveAction::CreateParent),
                }
            },
            (SaveStage::WritingMigrationBackup { backup, generated }, SaveEvent::MigrationBackupWritten(result)) => match result {
                Ok(()) => (SaveStage::CreatingParent { generated }, SaveAction::CreateParent),
                Err(m) => (SaveStage::Finished, SaveAction::Finish(Err(ConfigError::Write { path: backup, source: m }))),
            },
            (SaveStage::CreatingParent { generated }, SaveEvent::ParentCreated(result)) => match result {
                Ok(()) => {
                    let original = match &self.source {
                        Some(s) => Some(s.as_str()),
                        None => None,
                    };
                    match render_config(generated.as_str(), original, self.path.as_str()) {
                        Ok(body) => (SaveStage::BackingUp { body }, SaveAction::BackupOnce),
                        Err(e) => (SaveStage::Finished, SaveAction::Finish(Err(e))),
                    }
                },
                Err(m) => (SaveStage::Finished, SaveAction::Finish(Err(ConfigError::Write { path: self.path.clone(), source: m }))),
            },
            (SaveStage::BackingUp { body }, SaveEvent::BackedUp(result)) => match result {
                Ok(()) => {
                    let w = body.clone();
                    (SaveStage::Writing { body }, SaveAction::WriteConfig { body: w })
                },
                Err(m) => (SaveStage::Finished, SaveAction::Finish(Err(ConfigError::Write { path: self.path.clone(), source: m }))),
            },
            (SaveStage::Writing { body }, SaveEvent::ConfigWritten(result)) => match result {
                Ok(()) => {
                    self.migrated_from = None;
                    self.source = Some(body);
                    (SaveStage::Finished, SaveAction::Finish(Ok(())))
                },
                Err(m) => (SaveStage::Finished, SaveAction::Finish(Err(ConfigError::Write { path: self.path.clone(), source: m }))),
            },
            (stage, _) => (stage, SaveAction::ReadCurrent),
        }
    }
}

/// Whether two optional texts are equal.
fn same_text(a: &Option<String>, b: &Option<String>) -> (r: bool)
    ensures
        r == (opt_text(*a) == opt_text(*b)),
{
    match (a, b) {
        (Some(x), Some(y)) => str_eq(x.as_str(), y.as_str()),
        (None, None) => true,
        _ => false,
    }
}

} // verus!

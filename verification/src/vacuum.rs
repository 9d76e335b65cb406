//! Vacuum planning: turning the caller's options into the engine's
//! file-retention command.
//!
//! The caller supplies a dry-run flag, an optional retention period in
//! hours (zero means the engine's default policy), a flag controlling
//! minimum-retention enforcement, and an optional custom-metadata map to
//! attach to the resulting log entry.  Planning converts the hours into
//! the engine's duration unit exactly and the string map into the
//! engine's structured metadata representation, key for key.

use vstd::prelude::*;
use crate::strmap::StringMap;
use crate::strmap::lemma_map_of_take;
use crate::strmap::map_of;

verus! {

#[verifier::external_type_specification]
#[verifier::external_body]
pub struct ExTimeDelta(chrono::TimeDelta);

/// The whole number of seconds a duration value spans.
pub uninterp spec fn duration_secs(d: chrono::TimeDelta) -> int;

/// The largest hour count whose duration stays within the engine's
/// bounds of plus or minus `i64::MAX` milliseconds.
pub const MAX_RETENTION_HOURS: u64 = 2_562_047_788_015;

/// Relies on chrono::TimeDelta::try_hours and num_seconds: a duration of
/// `hours` hours spans exactly `hours * 3600` whole seconds, and the
/// construction succeeds for every hour count within bounds.
#[verifier::external_body]
fn duration_from_hours(hours: i64) -> (d: chrono::TimeDelta)
    requires
        0 <= hours <= MAX_RETENTION_HOURS,
    ensures
        duration_secs(d) == 3600 * hours,
{
    chrono::TimeDelta::try_hours(hours).unwrap()
}

#[verifier::external_type_specification]
#[verifier::external_body]
pub struct ExJsonValue(serde_json::Value);

#[verifier::external_type_specification]
#[verifier::external_body]
#[verifier::reject_recursive_types(K)]
#[verifier::reject_recursive_types(V)]
pub struct ExJsonMap<K, V>(serde_json::Map<K, V>);

/// The key-to-text mapping a structured metadata map holds, for maps
/// whose values are all text.
pub uninterp spec fn json_map_entries(m: serde_json::Map<String, serde_json::Value>) -> Map<
    Seq<char>,
    Seq<char>,
>;

/// The entry set of a metadata map with nothing in it.
pub open spec fn no_entries() -> Map<Seq<char>, Seq<char>> {
    Map::empty()
}

/// Relies on serde_json::Map::new: a fresh map has no entries.
#[verifier::external_body]
fn json_map_new() -> (m: serde_json::Map<String, serde_json::Value>)
    ensures
        json_map_entries(m) == no_entries(),
{
    serde_json::Map::new()
}

/// Relies on serde_json::Map::insert: inserting a text value stores it
/// under the key, replacing any earlier value for that key.
#[verifier::external_body]
fn json_map_insert_string(
    m: &mut serde_json::Map<String, serde_json::Value>,
    key: String,
    value: String,
)
    ensures
        json_map_entries(*final(m)) == json_map_entries(*old(m)).insert(key@, value@),
{
    m.insert(key, serde_json::Value::String(value));
}

/// The caller's vacuum options as they cross the boundary.
pub struct VacuumOptions {
    pub dry_run: bool,
    pub retention_hours: u64,
    pub enforce_retention_duration: bool,
    pub custom_metadata: Option<StringMap>,
}

/// The engine-ready vacuum command: every caller option converted into
/// the engine's own representation.  An absent retention means the
/// engine's default policy applies.
pub struct VacuumPlan {
    pub dry_run: bool,
    pub enforce_retention_duration: bool,
    pub retention: Option<chrono::TimeDelta>,
    pub metadata: Option<serde_json::Map<String, serde_json::Value>>,
}

/// Builds the engine command from the caller's options.
///
/// A retention of zero hours leaves the plan without a retention period,
/// so the engine applies its default policy; a positive retention of `N`
/// hours becomes a duration of exactly `N` hours.  A supplied metadata
/// map reaches the plan as the identical key-to-value set; an absent one
/// stays absent.
pub fn build_vacuum_plan(opts: VacuumOptions) -> (p: VacuumPlan)
    requires
        opts.retention_hours <= MAX_RETENTION_HOURS,
    ensures
        p.dry_run == opts.dry_run,
        p.enforce_retention_duration == opts.enforce_retention_duration,
        opts.retention_hours == 0 <==> p.retention is None,
        opts.retention_hours > 0 ==> duration_secs(p.retention->0) == 3600
            * opts.retention_hours,
        opts.custom_metadata is None <==> p.metadata is None,
        opts.custom_metadata matches Some(m) ==> json_map_entries(p.metadata->0) == m.as_map(),
{
    let retention: Option<chrono::TimeDelta> = if opts.retention_hours > 0 {
        Some(duration_from_hours(opts.retention_hours as i64))
    } else {
        None
    };

    let metadata: Option<serde_json::Map<String, serde_json::Value>> = match opts.custom_metadata {
        Some(m) => {
            let ghost pairs = m.pairs();
            let mut jm = json_map_new();
            let mut i: usize = 0;
            assert(pairs.take(0) =~= Seq::<(Seq<char>, Seq<char>)>::empty());
            while i < m.entries.len()
                invariant
                    i <= pairs.len(),
                    pairs == m.pairs(),
                    pairs.len() == m.entries@.len(),
                    json_map_entries(jm) == map_of(pairs.take(i as int)),
                decreases m.entries@.len() - i,
            {
                let key = m.entries[i].0.clone();
                let value = m.entries[i].1.clone();
                json_map_insert_string(&mut jm, key, value);
                proof {
                    lemma_map_of_take(pairs, i as int);
                }
                i += 1;
            }
            proof {
                assert(pairs.take(pairs.len() as int) =~= pairs);
            }
            Some(jm)
        },
        None => None,
    };

    VacuumPlan {
        dry_run: opts.dry_run,
        enforce_retention_duration: opts.enforce_retention_duration,
        retention,
        metadata,
    }
}

} // verus!

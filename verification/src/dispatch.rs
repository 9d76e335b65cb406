//! Operation dispatch: the decision half of every table operation.
//!
//! Each asynchronous operation is split into a submission step, which
//! validates input, claims the handle's single-writer guard and queues a
//! unit of work on the runtime, and a completion step, which takes the
//! engine's outcome, installs the post-state, and builds the payload the
//! completion callback delivers.  A completion is one-shot: the payload
//! carries either a success value or an error object, never both, and a
//! delivered completion admits no second delivery.

use vstd::prelude::*;
use vstd::string::StringExecFns;
use vstd::utf8::decode_utf8;
use vstd::utf8::encode_utf8;
use vstd::utf8::valid_utf8;
use crate::buffers::DynamicArray;
use crate::buffers::decode_text;
use crate::buffers::SerializedBuffer;
use crate::errors::BridgeError;
use crate::errors::EngineFault;
use crate::errors::ErrorCode;
use crate::errors::spec_translate_fault;
use crate::errors::translate_fault;
use crate::handle::TableHandle;
use crate::handle::TableState;
use crate::handle::begin_mutation;
use crate::handle::end_mutation;
use crate::strmap::StringMap;
use crate::strmap::map_new;
use crate::vacuum::MAX_RETENTION_HOURS;
use crate::vacuum::VacuumOptions;
use crate::vacuum::VacuumPlan;
use crate::vacuum::build_vacuum_plan;
use crate::vacuum::duration_secs;
use crate::vacuum::json_map_entries;

verus! {

/// One unit of work submitted to the scheduler.
#[derive(Clone, Copy, Debug, PartialEq, Eq, Structural)]
pub enum TaskKind {
    Open,
    UpdateIncremental,
    LoadVersion,
    Checkpoint,
    Vacuum,
}

/// The bridge's scheduler and allocator handle.  Submitted work is
/// recorded in order; the worker pool drains it with no ordering
/// guarantee beyond what the caller imposes by sequencing submissions.
pub struct Runtime {
    pub worker_threads: usize,
    pub queue: Vec<TaskKind>,
}

impl Runtime {
    /// Creates a runtime whose worker pool has the given size and whose
    /// queue holds no work.
    pub fn new(worker_threads: usize) -> (rt: Runtime)
        ensures
            rt.worker_threads == worker_threads,
            rt.queue@ =~= Seq::<TaskKind>::empty(),
    {
        Runtime { worker_threads, queue: Vec::new() }
    }

    /// Allocates a string map in this runtime's lifetime domain.
    pub fn allocate_map(&self, capacity: usize) -> (m: StringMap)
        ensures
            m.as_map() =~= Map::<Seq<char>, Seq<char>>::empty(),
            m.pairs() =~= Seq::<(Seq<char>, Seq<char>)>::empty(),
    {
        map_new(capacity)
    }

    /// Hands the worker pool the oldest queued unit of work, if any.
    pub fn take_task(&mut self) -> (t: Option<TaskKind>)
        ensures
            old(self).queue@.len() == 0 <==> t is None,
            t is None ==> *final(self) == *old(self),
            t matches Some(k) ==> k == old(self).queue@[0] && final(self).queue@
                == old(self).queue@.drop_first() && final(self).worker_threads == old(self).worker_threads,
    {
        if self.queue.len() == 0 {
            None
        } else {
            let k = self.queue.remove(0);
            proof {
                assert(final(self).queue@ =~= old(self).queue@.drop_first());
            }
            Some(k)
        }
    }
}

/// The one-shot state of an operation's completion callback.
pub struct Completion {
    pub delivered: bool,
}

/// Whether the callback may still be invoked.
pub open spec fn can_deliver(c: Completion) -> bool {
    !c.delivered
}

impl Completion {
    /// A fresh completion whose callback has not run.
    pub fn new() -> (c: Completion)
        ensures
            can_deliver(c),
    {
        Completion { delivered: false }
    }
}

/// What a completion callback receives: a success payload or an error
/// object.  The sum shape is the contract: one of the two, never both,
/// never neither.
pub enum Delivery<T> {
    Success(T),
    Failure(BridgeError),
}

/// A delivery is a success exactly when it is not a failure: no payload
/// carries both a value and an error, and none carries neither.
pub proof fn lemma_delivery_exclusive<T>(d: Delivery<T>)
    ensures
        (d matches Delivery::Success(_)) <==> !(d matches Delivery::Failure(_)),
{
}

/// A delivered completion admits no further delivery: every completion
/// step requires the right to deliver, and consumes it, so a callback
/// runs at most once however the operation ends — and cancelling a token
/// after its operation completed changes no completion state at all.
pub proof fn lemma_one_shot(c: Completion)
    ensures
        c.delivered ==> !can_deliver(c),
{
}

/// What the engine reports when an operation that (re)loads table state
/// finishes.
pub enum EngineOutcome {
    Done(TableState),
    Failed(EngineFault, String),
}

/// What the engine reports when a vacuum finishes: the post-vacuum
/// state and the names of the deleted files, or a fault.
pub enum VacuumOutcome {
    Done(TableState, Vec<String>),
    Failed(EngineFault, String),
}

/// What the engine reports when a checkpoint finishes.
pub enum CheckpointOutcome {
    Done,
    Failed(String),
}

/// The caller's options for opening a table.
pub struct TableOptions {
    pub version: i64,
    pub storage_options: Option<StringMap>,
    pub without_files: bool,
    pub log_buffer_size: usize,
}

/// The validated load request handed to the engine's table loader: the
/// decoded location and each option in the form the loader takes it.
pub struct LoadRequest {
    pub uri: String,
    pub version: Option<i64>,
    pub storage_options: Option<StringMap>,
    pub without_files: bool,
    pub log_buffer_size: Option<usize>,
}

/// Begins opening a table: validates that the location is text, shapes
/// the loader's options, and queues the load.
///
/// A location that is not valid UTF-8 is rejected at once with the
/// decoding-failure category and nothing is queued.  Otherwise the
/// request carries the decoded location; the target version and the
/// log-read buffer size only when positive; and the storage
/// configuration map unchanged.
pub fn table_new(rt: &mut Runtime, location: Vec<u8>, options: TableOptions) -> (r: Result<
    LoadRequest,
    BridgeError,
>)
    ensures
        r is Ok <==> valid_utf8(location@),
        r matches Err(e) ==> e.code == ErrorCode::Utf8 && *final(rt) == *old(rt),
        r matches Ok(req) ==> {
            &&& req.uri@ == decode_utf8(location@)
            &&& req.version == (if options.version > 0 {
                Some(options.version)
            } else {
                Option::<i64>::None
            })
            &&& req.storage_options == options.storage_options
            &&& req.without_files == options.without_files
            &&& req.log_buffer_size == (if options.log_buffer_size > 0 {
                Some(options.log_buffer_size)
            } else {
                Option::<usize>::None
            })
            &&& final(rt).queue@ == old(rt).queue@.push(TaskKind::Open)
            &&& final(rt).worker_threads == old(rt).worker_threads
        },
{
    let uri = match decode_text(&location) {
        Some(uri) => uri,
        None => {
            return Err(
                BridgeError::new(ErrorCode::Utf8, String::from_str("location is not valid UTF-8")),
            );
        },
    };
    let version = if options.version > 0 {
        Some(options.version)
    } else {
        None
    };
    let log_buffer_size = if options.log_buffer_size > 0 {
        Some(options.log_buffer_size)
    } else {
        None
    };
    rt.queue.push(TaskKind::Open);
    Ok(
        LoadRequest {
            uri,
            version,
            storage_options: options.storage_options,
            without_files: options.without_files,
            log_buffer_size,
        },
    )
}

/// Finishes an open: wraps the loaded table in a fresh, idle handle, or
/// translates the engine's fault.  Either way the callback is delivered
/// exactly once.
pub fn open_complete(outcome: EngineOutcome, c: &mut Completion) -> (d: Delivery<TableHandle>)
    requires
        can_deliver(*old(c)),
    ensures
        final(c).delivered,
        outcome matches EngineOutcome::Done(st) ==> d matches Delivery::Success(h) && h.is_ready()
            && h.state() == st && !h.mutating,
        outcome matches EngineOutcome::Failed(f, m) ==> d matches Delivery::Failure(e) && e.code
            == spec_translate_fault(f) && e.message == m,
{
    c.delivered = true;
    match outcome {
        EngineOutcome::Done(st) => Delivery::Success(TableHandle::new(st)),
        EngineOutcome::Failed(f, m) => Delivery::Failure(translate_fault(f, m)),
    }
}

/// Ends an open whose work observed its cancellation token set before
/// reaching the engine: the distinguished cancelled error is delivered
/// through the normal callback path, exactly once.
pub fn open_cancelled(e: BridgeError, c: &mut Completion) -> (d: Delivery<TableHandle>)
    requires
        can_deliver(*old(c)),
    ensures
        final(c).delivered,
        d matches Delivery::Failure(err) && err == e,
{
    c.delivered = true;
    Delivery::Failure(e)
}

/// Begins an incremental update: claims the handle's single-writer
/// guard and queues the work.  While another mutation is in flight, or
/// on a destroyed handle, the submission is refused and nothing is
/// queued.
pub fn table_update_incremental(rt: &mut Runtime, h: &mut TableHandle) -> (r: Result<
    (),
    BridgeError,
>)
    ensures
        r is Ok <==> old(h).mutation_allowed(),
        r is Ok ==> final(h).lifecycle == old(h).lifecycle && final(h).mutating && final(rt).queue@
            == old(rt).queue@.push(TaskKind::UpdateIncremental) && final(rt).worker_threads == old(rt).worker_threads,
        r is Err ==> *final(h) == *old(h) && *final(rt) == *old(rt),
        r matches Err(e) ==> e.code == ErrorCode::Protocol,
{
    match begin_mutation(h) {
        Ok(()) => {
            rt.queue.push(TaskKind::UpdateIncremental);
            Ok(())
        },
        Err(e) => Err(e),
    }
}

/// Begins loading a given log version, under the same single-writer
/// discipline as every other mutating operation.
pub fn table_load_version(rt: &mut Runtime, h: &mut TableHandle, version: i64) -> (r: Result<
    i64,
    BridgeError,
>)
    ensures
        r is Ok <==> old(h).mutation_allowed(),
        r matches Ok(v) ==> v == version && final(h).lifecycle == old(h).lifecycle && final(h).mutating && final(rt).queue@ == old(rt).queue@.push(TaskKind::LoadVersion) && final(rt).worker_threads == old(rt).worker_threads,
        r is Err ==> *final(h) == *old(h) && *final(rt) == *old(rt),
        r matches Err(e) ==> e.code == ErrorCode::Protocol,
{
    match begin_mutation(h) {
        Ok(()) => {
            rt.queue.push(TaskKind::LoadVersion);
            Ok(version)
        },
        Err(e) => Err(e),
    }
}

/// Finishes a state-mutating operation (incremental update or version
/// load): releases the guard, installs the engine's post-state whole on
/// success, keeps the old state on failure, and delivers the callback
/// exactly once.
pub fn mutation_complete(h: &mut TableHandle, outcome: EngineOutcome, c: &mut Completion) -> (d:
    Delivery<()>)
    requires
        old(h).is_ready(),
        old(h).mutating,
        can_deliver(*old(c)),
    ensures
        final(c).delivered,
        final(h).is_ready(),
        !final(h).mutating,
        outcome matches EngineOutcome::Done(st) ==> final(h).state() == st && d matches
            Delivery::Success(_),
        outcome matches EngineOutcome::Failed(f, m) ==> d matches Delivery::Failure(e)
            && final(h).state() == old(h).state() && e.code == spec_translate_fault(f)
            && e.message == m,
{
    c.delivered = true;
    match outcome {
        EngineOutcome::Done(st) => {
            end_mutation(h, Some(st));
            Delivery::Success(())
        },
        EngineOutcome::Failed(f, m) => {
            end_mutation(h, None);
            Delivery::Failure(translate_fault(f, m))
        },
    }
}

/// Ends a mutating operation that observed its cancellation token set
/// before reaching the engine: the guard is released, the state is
/// untouched, and the distinguished cancelled error is delivered through
/// the normal callback path.
pub fn mutation_cancelled(h: &mut TableHandle, e: BridgeError, c: &mut Completion) -> (d: Delivery<
    (),
>)
    requires
        old(h).is_ready(),
        old(h).mutating,
        can_deliver(*old(c)),
    ensures
        final(c).delivered,
        final(h).is_ready(),
        !final(h).mutating,
        final(h).state() == old(h).state(),
        d matches Delivery::Failure(err) && err == e,
{
    c.delivered = true;
    end_mutation(h, None);
    Delivery::Failure(e)
}

/// Begins a checkpoint.  A checkpoint reads the current log and writes
/// a consolidated summary; it does not change the handle's state, so it
/// needs no writer guard — only a usable handle.
pub fn table_checkpoint(rt: &mut Runtime, h: &TableHandle) -> (r: Result<(), BridgeError>)
    ensures
        r is Ok <==> h.is_ready(),
        r is Ok ==> final(rt).queue@ == old(rt).queue@.push(TaskKind::Checkpoint) && final(rt).worker_threads == old(rt).worker_threads,
        r is Err ==> *final(rt) == *old(rt),
        r matches Err(e) ==> e.code == ErrorCode::Protocol,
{
    if let crate::handle::Lifecycle::Ready(_) = &h.lifecycle {
        rt.queue.push(TaskKind::Checkpoint);
        Ok(())
    } else {
        Err(BridgeError::new(ErrorCode::Protocol, String::from_str("use after free")))
    }
}

/// Finishes a checkpoint.  Checkpoint corruption is a protocol-level
/// concern, so every engine failure here carries the protocol category.
pub fn checkpoint_complete(outcome: CheckpointOutcome, c: &mut Completion) -> (d: Delivery<()>)
    requires
        can_deliver(*old(c)),
    ensures
        final(c).delivered,
        outcome is Done ==> d matches Delivery::Success(_),
        outcome matches CheckpointOutcome::Failed(m) ==> d matches Delivery::Failure(e) && e.code
            == ErrorCode::Protocol && e.message == m,
{
    c.delivered = true;
    match outcome {
        CheckpointOutcome::Done => Delivery::Success(()),
        CheckpointOutcome::Failed(m) => Delivery::Failure(
            BridgeError::new(ErrorCode::Protocol, m),
        ),
    }
}

/// Begins a vacuum: checks the preconditions, converts the options into
/// the engine command, claims the writer guard and queues the work.
///
/// On a handle with no loaded snapshot state the submission fails at
/// once with the missing-metadata category and queues nothing.  On a
/// usable, idle handle with snapshot state it yields the engine command
/// built exactly as [`build_vacuum_plan`] states: default retention for
/// zero hours, exactly the requested hours otherwise, and the metadata
/// map carried over key for key.
pub fn table_vacuum(rt: &mut Runtime, h: &mut TableHandle, options: VacuumOptions) -> (r: Result<
    VacuumPlan,
    BridgeError,
>)
    requires
        options.retention_hours <= MAX_RETENTION_HOURS,
    ensures
        r is Ok <==> old(h).mutation_allowed() && old(h).state().has_snapshot,
        r is Err ==> *final(h) == *old(h) && *final(rt) == *old(rt),
        r matches Err(e) ==> e.code == (if !old(h).is_ready() {
            ErrorCode::Protocol
        } else if !old(h).state().has_snapshot {
            ErrorCode::MissingMetadata
        } else {
            ErrorCode::Protocol
        }),
        r matches Ok(p) ==> {
            &&& final(h).lifecycle == old(h).lifecycle
            &&& final(h).mutating
            &&& final(rt).queue@ == old(rt).queue@.push(TaskKind::Vacuum)
            &&& final(rt).worker_threads == old(rt).worker_threads
            &&& p.dry_run == options.dry_run
            &&& p.enforce_retention_duration == options.enforce_retention_duration
            &&& (options.retention_hours == 0 <==> p.retention is None)
            &&& (options.retention_hours > 0 ==> duration_secs(p.retention->0) == 3600
                * options.retention_hours)
            &&& (options.custom_metadata is None <==> p.metadata is None)
            &&& (options.custom_metadata matches Some(m) ==> json_map_entries(p.metadata->0)
                == m.as_map())
        },
{
    match &h.lifecycle {
        crate::handle::Lifecycle::Ready(state) => {
            if !state.has_snapshot {
                return Err(
                    BridgeError::new(
                        ErrorCode::MissingMetadata,
                        String::from_str("no snapshot state loaded"),
                    ),
                );
            }
        },
        crate::handle::Lifecycle::Destroyed => {
            return Err(
                BridgeError::new(ErrorCode::Protocol, String::from_str("use after free")),
            );
        },
    }
    match begin_mutation(h) {
        Ok(()) => {
            let plan = build_vacuum_plan(options);
            rt.queue.push(TaskKind::Vacuum);
            Ok(plan)
        },
        Err(e) => Err(e),
    }
}

/// Finishes a vacuum: installs the post-vacuum state, releases the
/// guard, and returns the deleted file names as an owned array, or the
/// engine's fault translated.
pub fn vacuum_complete(h: &mut TableHandle, outcome: VacuumOutcome, c: &mut Completion) -> (d:
    Delivery<DynamicArray>)
    requires
        old(h).is_ready(),
        old(h).mutating,
        can_deliver(*old(c)),
    ensures
        final(c).delivered,
        final(h).is_ready(),
        !final(h).mutating,
        outcome matches VacuumOutcome::Done(st, deleted) ==> d matches Delivery::Success(a)
            && final(h).state() == st && a.view().len() == deleted@.len() && (forall|i: int|
            0 <= i < deleted@.len() ==> a.view()[i] == encode_utf8(deleted@[i]@)),
        outcome matches VacuumOutcome::Failed(f, m) ==> d matches Delivery::Failure(e)
            && final(h).state() == old(h).state() && e.code == spec_translate_fault(f)
            && e.message == m,
{
    c.delivered = true;
    match outcome {
        VacuumOutcome::Done(st, deleted) => {
            end_mutation(h, Some(st));
            Delivery::Success(DynamicArray::from_vec_string(deleted))
        },
        VacuumOutcome::Failed(f, m) => {
            end_mutation(h, None);
            Delivery::Failure(translate_fault(f, m))
        },
    }
}

/// The synchronous schema fetch's precondition: the handle must be
/// usable and hold snapshot state to read a schema from.
pub fn table_schema(h: &TableHandle) -> (r: Result<(), BridgeError>)
    ensures
        r is Ok <==> h.is_ready() && h.state().has_snapshot,
        r matches Err(e) ==> e.code == (if h.is_ready() {
            ErrorCode::MissingMetadata
        } else {
            ErrorCode::Protocol
        }),
{
    match &h.lifecycle {
        crate::handle::Lifecycle::Ready(state) => {
            if state.has_snapshot {
                Ok(())
            } else {
                Err(
                    BridgeError::new(
                        ErrorCode::MissingMetadata,
                        String::from_str("no snapshot state loaded"),
                    ),
                )
            }
        },
        crate::handle::Lifecycle::Destroyed => Err(
            BridgeError::new(ErrorCode::Protocol, String::from_str("use after free")),
        ),
    }
}

/// Finishes a schema fetch: wraps the engine's encoded schema and read
/// offset, and delivers exactly once.  An offset past the end of the
/// encoding is malformed and reported under the protocol category.
pub fn schema_complete(encoded: Vec<u8>, offset: usize, c: &mut Completion) -> (d: Delivery<
    SerializedBuffer,
>)
    requires
        can_deliver(*old(c)),
    ensures
        final(c).delivered,
        (offset <= encoded@.len()) ==> (d matches Delivery::Success(b) && b.well_formed()
            && b.buffer.view() == encoded@ && b.offset == offset),
        (offset > encoded@.len()) ==> (d matches Delivery::Failure(e) && e.code
            == ErrorCode::Protocol),
{
    c.delivered = true;
    match SerializedBuffer::new(encoded, offset) {
        Some(b) => Delivery::Success(b),
        None => Delivery::Failure(
            BridgeError::new(ErrorCode::Protocol, String::from_str("malformed schema encoding")),
        ),
    }
}

/// Requests the table's change history.  The operation exists at the
/// boundary but has no behaviour yet: it delivers the not-implemented
/// category through the normal callback channel, queues nothing, and
/// never terminates the host.
pub fn history(rt: &Runtime, h: &TableHandle, limit: usize, c: &mut Completion) -> (d: Delivery<
    DynamicArray,
>)
    requires
        can_deliver(*old(c)),
    ensures
        final(c).delivered,
        d matches Delivery::Failure(e) && e.code == ErrorCode::NotImplemented,
{
    let _ = rt;
    let _ = h;
    let _ = limit;
    c.delivered = true;
    Delivery::Failure(
        BridgeError::new(ErrorCode::NotImplemented, String::from_str("history is not implemented")),
    )
}

/// Loads the table as of a point in time.  Not implemented yet: the
/// not-implemented category is delivered through the normal channel.
pub fn table_load_with_datetime(rt: &Runtime, h: &TableHandle, ts_milliseconds: i64, c: &mut
    Completion) -> (d: Delivery<()>)
    requires
        can_deliver(*old(c)),
    ensures
        final(c).delivered,
        d matches Delivery::Failure(e) && e.code == ErrorCode::NotImplemented,
{
    let _ = rt;
    let _ = h;
    let _ = ts_milliseconds;
    c.delivered = true;
    Delivery::Failure(
        BridgeError::new(
            ErrorCode::NotImplemented,
            String::from_str("load by timestamp is not implemented"),
        ),
    )
}

/// Merges another version into the table.  Not implemented yet.
pub fn table_merge(rt: &Runtime, h: &TableHandle, version: i64, c: &mut Completion) -> (d:
    Delivery<()>)
    requires
        can_deliver(*old(c)),
    ensures
        final(c).delivered,
        d matches Delivery::Failure(e) && e.code == ErrorCode::NotImplemented,
{
    let _ = rt;
    let _ = h;
    let _ = version;
    c.delivered = true;
    Delivery::Failure(
        BridgeError::new(ErrorCode::NotImplemented, String::from_str("merge is not implemented")),
    )
}

/// Upgrades the table's protocol version.  Not implemented yet.
pub fn table_protocol(rt: &Runtime, h: &TableHandle, version: i64, c: &mut Completion) -> (d:
    Delivery<()>)
    requires
        can_deliver(*old(c)),
    ensures
        final(c).delivered,
        d matches Delivery::Failure(e) && e.code == ErrorCode::NotImplemented,
{
    let _ = rt;
    let _ = h;
    let _ = version;
    c.delivered = true;
    Delivery::Failure(
        BridgeError::new(
            ErrorCode::NotImplemented,
            String::from_str("protocol upgrade is not implemented"),
        ),
    )
}

/// Restores the table to an earlier version.  Not implemented yet.
pub fn table_restore(rt: &Runtime, h: &TableHandle, version: i64, c: &mut Completion) -> (d:
    Delivery<()>)
    requires
        can_deliver(*old(c)),
    ensures
        final(c).delivered,
        d matches Delivery::Failure(e) && e.code == ErrorCode::NotImplemented,
{
    let _ = rt;
    let _ = h;
    let _ = version;
    c.delivered = true;
    Delivery::Failure(
        BridgeError::new(ErrorCode::NotImplemented, String::from_str("restore is not implemented")),
    )
}

/// Updates the table to a given version.  Not implemented yet.
pub fn table_update(rt: &Runtime, h: &TableHandle, version: i64, c: &mut Completion) -> (d:
    Delivery<()>)
    requires
        can_deliver(*old(c)),
    ensures
        final(c).delivered,
        d matches Delivery::Failure(e) && e.code == ErrorCode::NotImplemented,
{
    let _ = rt;
    let _ = h;
    let _ = version;
    c.delivered = true;
    Delivery::Failure(
        BridgeError::new(
            ErrorCode::NotImplemented,
            String::from_str("update to version is not implemented"),
        ),
    )
}

/// Fetches the table's descriptive metadata.  Not implemented yet.
pub fn table_metadata(h: &TableHandle, c: &mut Completion) -> (d: Delivery<()>)
    requires
        can_deliver(*old(c)),
    ensures
        final(c).delivered,
        d matches Delivery::Failure(e) && e.code == ErrorCode::NotImplemented,
{
    let _ = h;
    c.delivered = true;
    Delivery::Failure(
        BridgeError::new(
            ErrorCode::NotImplemented,
            String::from_str("metadata fetch is not implemented"),
        ),
    )
}

} // verus!

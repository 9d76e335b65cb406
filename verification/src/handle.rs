//! The table handle: the bridge's exclusive owner of one versioned
//! table's in-memory state.
//!
//! A handle is created ready by a successful open, mutated in place by
//! version-changing operations, and destroyed explicitly.  Destruction
//! poisons the handle rather than freeing memory silently, so any later
//! use is detected and reported as a protocol violation instead of
//! reinterpreting freed memory.  Mutating operations are serialized by a
//! single-writer guard: while one is in flight, a second is refused.

use vstd::prelude::*;
use vstd::string::StringExecFns;
use vstd::utf8::encode_utf8;
use crate::buffers::DynamicArray;
use crate::buffers::ByteArray;
use crate::errors::BridgeError;
use crate::errors::ErrorCode;

verus! {

/// The in-memory materialization of one table: its log version, its
/// canonical storage location, whether snapshot state is loaded, and the
/// data-file paths of the snapshot when they were loaded.
pub struct TableState {
    pub version: i64,
    pub uri: String,
    pub has_snapshot: bool,
    pub files: Option<Vec<String>>,
}

/// Where a handle stands in its life: usable, or explicitly destroyed.
pub enum Lifecycle {
    Ready(TableState),
    Destroyed,
}

/// An owned handle to one table.  `mutating` is the single-writer guard:
/// it is set while a state-changing operation is in flight.
pub struct TableHandle {
    pub lifecycle: Lifecycle,
    pub mutating: bool,
}

/// The canonical URI of a data file: the table root, a separator, and
/// the file's path within the table.
pub open spec fn spec_joined_uri(base: Seq<char>, path: Seq<char>) -> Seq<char> {
    base + seq!['/'] + path
}

impl TableHandle {
    /// Whether the handle is usable.
    pub open spec fn is_ready(self) -> bool {
        self.lifecycle is Ready
    }

    /// The table state behind a ready handle.
    pub open spec fn state(self) -> TableState {
        self.lifecycle->0
    }

    /// Whether a state-changing operation may start now: the handle is
    /// usable and no other mutation is in flight.
    pub open spec fn mutation_allowed(self) -> bool {
        self.is_ready() && !self.mutating
    }

    /// Wraps a freshly loaded table state in a new, idle handle.
    pub fn new(state: TableState) -> (h: TableHandle)
        ensures
            h.is_ready(),
            h.state() == state,
            !h.mutating,
    {
        TableHandle { lifecycle: Lifecycle::Ready(state), mutating: false }
    }
}

/// The version of the currently loaded log state.  On a destroyed handle
/// the usage violation is reported, never a stale number.
pub fn table_version(h: &TableHandle) -> (r: Result<i64, BridgeError>)
    ensures
        h.is_ready() <==> r is Ok,
        r matches Ok(v) ==> v == h.state().version,
        r matches Err(e) ==> e.code == ErrorCode::Protocol,
{
    match &h.lifecycle {
        Lifecycle::Ready(state) => Ok(state.version),
        Lifecycle::Destroyed => Err(
            BridgeError::new(ErrorCode::Protocol, String::from_str("use after free")),
        ),
    }
}

/// The table's canonical URI, copied into an owned buffer.
pub fn table_uri(h: &TableHandle) -> (r: Result<ByteArray, BridgeError>)
    ensures
        h.is_ready() <==> r is Ok,
        r matches Ok(b) ==> b.view() == encode_utf8(h.state().uri@),
        r matches Err(e) ==> e.code == ErrorCode::Protocol,
{
    match &h.lifecycle {
        Lifecycle::Ready(state) => Ok(ByteArray::from_string(&state.uri)),
        Lifecycle::Destroyed => Err(
            BridgeError::new(ErrorCode::Protocol, String::from_str("use after free")),
        ),
    }
}

/// Destroys the handle.  The handle is poisoned rather than reused, so a
/// second destruction, like any other later use, is detected and
/// reported instead of touching freed state.
pub fn table_free(h: &mut TableHandle) -> (r: Result<(), BridgeError>)
    ensures
        final(h).lifecycle is Destroyed,
        old(h).is_ready() <==> r is Ok,
        r matches Err(e) ==> e.code == ErrorCode::Protocol,
{
    let was_ready = match &h.lifecycle {
        Lifecycle::Ready(_) => true,
        Lifecycle::Destroyed => false,
    };
    h.lifecycle = Lifecycle::Destroyed;
    if was_ready {
        Ok(())
    } else {
        Err(BridgeError::new(ErrorCode::Protocol, String::from_str("double free")))
    }
}

/// Claims the single-writer guard for a state-changing operation.  While
/// another mutation is in flight, or on a destroyed handle, the claim is
/// refused and the handle is left untouched.
pub fn begin_mutation(h: &mut TableHandle) -> (r: Result<(), BridgeError>)
    ensures
        r is Ok <==> old(h).mutation_allowed(),
        r is Ok ==> final(h).lifecycle == old(h).lifecycle && final(h).mutating,
        r is Err ==> *final(h) == *old(h),
        r matches Err(e) ==> e.code == ErrorCode::Protocol,
{
    match &h.lifecycle {
        Lifecycle::Ready(_) => {
            if h.mutating {
                Err(BridgeError::new(
                    ErrorCode::Protocol,
                    String::from_str("overlapping mutating operations on one table handle"),
                ))
            } else {
                h.mutating = true;
                Ok(())
            }
        },
        Lifecycle::Destroyed => Err(
            BridgeError::new(ErrorCode::Protocol, String::from_str("use after free")),
        ),
    }
}

/// Releases the single-writer guard when the in-flight operation
/// finishes.  A successful operation installs the engine's post-state
/// whole; a failed one leaves the previous state in place.  Either way
/// the version afterwards is one the engine produced, never a torn
/// value.
pub fn end_mutation(h: &mut TableHandle, new_state: Option<TableState>)
    requires
        old(h).is_ready(),
        old(h).mutating,
    ensures
        !final(h).mutating,
        final(h).is_ready(),
        new_state matches Some(st) ==> final(h).state() == st,
        new_state is None ==> final(h).state() == old(h).state(),
{
    h.mutating = false;
    match new_state {
        Some(st) => {
            h.lifecycle = Lifecycle::Ready(st);
        },
        None => {},
    }
}

/// While one mutating operation is in flight on a handle, no second one
/// is admitted: the guard makes overlapping mutations on the same handle
/// impossible, so its state is only ever replaced whole by the one
/// writer.
pub proof fn lemma_single_writer(h: TableHandle)
    ensures
        h.mutating ==> !h.mutation_allowed(),
{
}

/// Lists the data-file paths of the loaded snapshot as owned buffers.
/// Without loaded snapshot state, or when the table was opened without
/// its file list, the missing-metadata failure is reported.
pub fn table_files(h: &TableHandle) -> (r: Result<DynamicArray, BridgeError>)
    ensures
        r is Ok <==> h.is_ready() && h.state().has_snapshot && h.state().files is Some,
        r matches Ok(a) ==> {
            &&& a.view().len() == h.state().files->0@.len()
            &&& forall|i: int|
                0 <= i < a.view().len() ==> a.view()[i] == encode_utf8(
                    h.state().files->0@[i]@,
                )
        },
        r matches Err(e) ==> e.code == (if h.is_ready() {
            ErrorCode::MissingMetadata
        } else {
            ErrorCode::Protocol
        }),
{
    match &h.lifecycle {
        Lifecycle::Ready(state) => {
            if !state.has_snapshot {
                return Err(
                    BridgeError::new(
                        ErrorCode::MissingMetadata,
                        String::from_str("no snapshot state loaded"),
                    ),
                );
            }
            match &state.files {
                Some(files) => {
                    let mut copies: Vec<String> = Vec::with_capacity(files.len());
                    let mut j: usize = 0;
                    while j < files.len()
                        invariant
                            j <= files@.len(),
                            copies@.len() == j,
                            forall|i: int| 0 <= i < j ==> copies@[i]@ == files@[i]@,
                        decreases files@.len() - j,
                    {
                        copies.push(files[j].clone());
                        j += 1;
                    }
                    Ok(DynamicArray::from_vec_string(copies))
                },
                None => Err(
                    BridgeError::new(
                        ErrorCode::MissingMetadata,
                        String::from_str("file list not loaded"),
                    ),
                ),
            }
        },
        Lifecycle::Destroyed => Err(
            BridgeError::new(ErrorCode::Protocol, String::from_str("use after free")),
        ),
    }
}

/// Lists the canonical URIs of the snapshot's data files: the table root
/// joined to each path.  Availability is exactly as for [`table_files`].
pub fn table_file_uris(h: &TableHandle) -> (r: Result<DynamicArray, BridgeError>)
    ensures
        r is Ok <==> h.is_ready() && h.state().has_snapshot && h.state().files is Some,
        r matches Ok(a) ==> {
            &&& a.view().len() == h.state().files->0@.len()
            &&& forall|i: int|
                0 <= i < a.view().len() ==> a.view()[i] == encode_utf8(
                    spec_joined_uri(h.state().uri@, h.state().files->0@[i]@),
                )
        },
        r matches Err(e) ==> e.code == (if h.is_ready() {
            ErrorCode::MissingMetadata
        } else {
            ErrorCode::Protocol
        }),
{
    match &h.lifecycle {
        Lifecycle::Ready(state) => {
            if !state.has_snapshot {
                return Err(
                    BridgeError::new(
                        ErrorCode::MissingMetadata,
                        String::from_str("no snapshot state loaded"),
                    ),
                );
            }
            match &state.files {
                Some(files) => {
                    let mut joined: Vec<String> = Vec::with_capacity(files.len());
                    let mut j: usize = 0;
                    while j < files.len()
                        invariant
                            j <= files@.len(),
                            joined@.len() == j,
                            forall|i: int|
                                0 <= i < j ==> joined@[i]@ == spec_joined_uri(
                                    state.uri@,
                                    files@[i]@,
                                ),
                        decreases files@.len() - j,
                    {
                        let mut u = state.uri.clone();
                        u.append("/");
                        u.append(files[j].as_str());
                        proof {
                            reveal_strlit("/");
                            assert("/"@ =~= seq!['/']);
                            assert(u@ =~= spec_joined_uri(state.uri@, files@[j as int]@));
                        }
                        joined.push(u);
                        j += 1;
                    }
                    Ok(DynamicArray::from_vec_string(joined))
                },
                None => Err(
                    BridgeError::new(
                        ErrorCode::MissingMetadata,
                        String::from_str("file list not loaded"),
                    ),
                ),
            }
        },
        Lifecycle::Destroyed => Err(
            BridgeError::new(ErrorCode::Protocol, String::from_str("use after free")),
        ),
    }
}

} // verus!

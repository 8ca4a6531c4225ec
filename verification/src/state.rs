//! The top-level compositor aggregate.
//!
//! `WaylandState` owns every piece of shared protocol state: the commit
//! side table, the negotiated buffer-import global, the virtual output and
//! the seat table.  It also fixes, at construction, which protocol globals
//! the server advertises and at which versions; the versions are a
//! wire-compatibility contract and never change afterwards.
//!
//! The embedding process completes construction in two phases: it builds
//! this aggregate first, then allocates it behind its single lock with a
//! cyclic-safe allocation that hands callbacks a non-owning handle to the
//! fully initialized aggregate.  That handle carries weak semantics only —
//! it never extends the aggregate's lifetime — and lives outside this
//! library, as does the lock: every method here assumes its caller already
//! serialized protocol dispatch.

use crate::commit::commit_count;
use crate::commit::commit_step;
use crate::commit::SurfaceCommitTracker;
use crate::dmabuf::BufferHandle;
use crate::dmabuf::BufferImportGlobal;
use crate::dmabuf::BufferImportNegotiator;
use crate::dmabuf::DeviceQuery;
use crate::dmabuf::DrmFormat;
use crate::dmabuf::ImportError;
use crate::output::configured_mode;
use crate::output::OutputTransform;
use crate::output::VirtualOutput;
use crate::output::OUTPUT_SCALE;
use crate::seat::seat_connect;
use crate::seat::SeatData;
use std::collections::HashMap;
use tokio::sync::mpsc::UnboundedSender;
use vstd::prelude::*;

verus! {

broadcast use vstd::std_specs::hash::group_hash_axioms;

/// Version of the surface-aggregation global (`wl_compositor`).
pub const COMPOSITOR_VERSION: u32 = 5;

/// Version of the surface-composition helper global (`wl_subcompositor`).
pub const SUBCOMPOSITOR_VERSION: u32 = 1;

/// Version of the shared-memory buffer global (`wl_shm`).
pub const SHM_VERSION: u32 = 2;

/// Version of the legacy server-side decoration manager global.
pub const KDE_DECORATION_VERSION: u32 = 1;

/// Version of the output global (`wl_output`).
pub const OUTPUT_VERSION: u32 = 4;

/// Version of the data-transfer-device manager global.
pub const DATA_DEVICE_VERSION: u32 = 3;

/// Version of the shell / window-management base global.
pub const XDG_WM_BASE_VERSION: u32 = 5;

/// Version of the window-decoration manager global.
pub const XDG_DECORATION_VERSION: u32 = 1;

/// The protocol interfaces this server advertises as globals.
#[derive(Clone, Copy, PartialEq, Eq, Structural, Debug)]
pub enum GlobalInterface {
    Compositor,
    Subcompositor,
    KdeDecorationManager,
    SharedMemory,
    BufferImport,
    Output,
    DataDeviceManager,
    XdgWmBase,
    XdgDecorationManager,
}

/// One advertised protocol global with its pinned version.
#[derive(Clone, Copy, PartialEq, Eq, Structural, Debug)]
pub struct ProtocolGlobal {
    pub interface: GlobalInterface,
    pub version: u32,
}

/// Which side draws window decorations; this server always decorates.
#[derive(Clone, Copy, PartialEq, Eq, Structural, Debug)]
pub enum DecorationMode {
    Client,
    Server,
}

/// The globals a server advertises, in wiring order, given the version the
/// buffer-import negotiation settled on.
pub open spec fn wired_globals(buffer_import_version: u32) -> Seq<ProtocolGlobal> {
    seq![
        (ProtocolGlobal { interface: GlobalInterface::Compositor, version: COMPOSITOR_VERSION }),
        (ProtocolGlobal {
            interface: GlobalInterface::Subcompositor,
            version: SUBCOMPOSITOR_VERSION,
        }),
        (ProtocolGlobal {
            interface: GlobalInterface::KdeDecorationManager,
            version: KDE_DECORATION_VERSION,
        }),
        (ProtocolGlobal { interface: GlobalInterface::SharedMemory, version: SHM_VERSION }),
        (ProtocolGlobal {
            interface: GlobalInterface::BufferImport,
            version: buffer_import_version,
        }),
        (ProtocolGlobal { interface: GlobalInterface::Output, version: OUTPUT_VERSION }),
        (ProtocolGlobal {
            interface: GlobalInterface::DataDeviceManager,
            version: DATA_DEVICE_VERSION,
        }),
        (ProtocolGlobal { interface: GlobalInterface::XdgWmBase, version: XDG_WM_BASE_VERSION }),
        (ProtocolGlobal {
            interface: GlobalInterface::XdgDecorationManager,
            version: XDG_DECORATION_VERSION,
        }),
    ]
}

/// The shared protocol state, mutated only through the methods below while
/// the embedding process holds its single dispatch lock.
pub struct WaylandState {
    commit_tracker: SurfaceCommitTracker,
    kde_decoration_mode: DecorationMode,
    shm_additional_formats: Vec<u32>,
    dmabuf: BufferImportNegotiator,
    output: VirtualOutput,
    seats: HashMap<u64, SeatData>,
    globals: Vec<ProtocolGlobal>,
}

impl WaylandState {
    /// The commit side table: surface identity to commit count.
    pub closed spec fn spec_commits(&self) -> Map<u64, u64> {
        self.commit_tracker@
    }

    /// The seat table: client identity to seat record.
    pub closed spec fn spec_seats(&self) -> Map<u64, SeatData> {
        self.seats@
    }

    /// The advertised globals with their pinned versions, in wiring order.
    pub closed spec fn spec_globals(&self) -> Seq<ProtocolGlobal> {
        self.globals@
    }

    /// The negotiated buffer-import global.
    pub closed spec fn spec_import_global(&self) -> &BufferImportGlobal {
        self.dmabuf.spec_global()
    }

    pub closed spec fn spec_output(&self) -> &VirtualOutput {
        &self.output
    }

    pub closed spec fn spec_decoration_mode(&self) -> DecorationMode {
        self.kde_decoration_mode
    }

    /// Extra shared-memory formats advertised beyond the backend defaults.
    pub closed spec fn spec_shm_additional_formats(&self) -> Seq<u32> {
        self.shm_additional_formats@
    }

    /// Build the aggregate's dependency-free state in one pass: empty commit
    /// and seat tables, server-side decorations, shared-memory support with
    /// no format restriction, the negotiated buffer-import global, the fixed
    /// virtual output, and the advertised globals at their pinned versions.
    ///
    /// `query` and `descriptor_built` feed the one-shot buffer-import
    /// negotiation; `dmabuf_tx` is the producer end of the unbounded channel
    /// the external renderer consumes.
    pub fn new(
        query: DeviceQuery,
        formats: Vec<DrmFormat>,
        descriptor_built: bool,
        dmabuf_tx: UnboundedSender<BufferHandle>,
    ) -> (state: Self)
        ensures
            state.spec_commits() == Map::<u64, u64>::empty(),
            state.spec_seats() == Map::<u64, SeatData>::empty(),
            state.spec_decoration_mode() == DecorationMode::Server,
            state.spec_shm_additional_formats() == Seq::<u32>::empty(),
            state.spec_import_global().formats@ == formats@,
            state.spec_import_global().feedback is Some <==> (query is Found && descriptor_built),
            match state.spec_import_global().feedback {
                Some(descriptor) => descriptor.device_id == query->Found_0 && descriptor.formats@
                    == formats@,
                None => true,
            },
            state.spec_output().wf(),
            state.spec_output().spec_modes() =~= seq![configured_mode()],
            state.spec_output().spec_scale() == OUTPUT_SCALE,
            state.spec_output().spec_transform() == OutputTransform::Identity,
            state.spec_output().spec_name() == "1x"@,
            state.spec_output().spec_make() == "Virtual XR Display"@,
            state.spec_output().spec_model() == "Your Headset Name Here"@,
            state.spec_globals() =~= wired_globals(state.spec_import_global().spec_version()),
    {
        let commit_tracker = SurfaceCommitTracker::new();
        let kde_decoration_mode = DecorationMode::Server;
        let shm_additional_formats: Vec<u32> = Vec::new();
        let dmabuf = BufferImportNegotiator::new(query, formats, descriptor_built, dmabuf_tx);
        let output = VirtualOutput::create();

        let import_version = dmabuf.global().version();
        let mut globals: Vec<ProtocolGlobal> = Vec::new();
        globals.push(
            ProtocolGlobal { interface: GlobalInterface::Compositor, version: COMPOSITOR_VERSION },
        );
        globals.push(
            ProtocolGlobal {
                interface: GlobalInterface::Subcompositor,
                version: SUBCOMPOSITOR_VERSION,
            },
        );
        globals.push(
            ProtocolGlobal {
                interface: GlobalInterface::KdeDecorationManager,
                version: KDE_DECORATION_VERSION,
            },
        );
        globals.push(
            ProtocolGlobal { interface: GlobalInterface::SharedMemory, version: SHM_VERSION },
        );
        globals.push(
            ProtocolGlobal { interface: GlobalInterface::BufferImport, version: import_version },
        );
        globals.push(ProtocolGlobal { interface: GlobalInterface::Output, version: OUTPUT_VERSION });
        globals.push(
            ProtocolGlobal {
                interface: GlobalInterface::DataDeviceManager,
                version: DATA_DEVICE_VERSION,
            },
        );
        globals.push(
            ProtocolGlobal { interface: GlobalInterface::XdgWmBase, version: XDG_WM_BASE_VERSION },
        );
        globals.push(
            ProtocolGlobal {
                interface: GlobalInterface::XdgDecorationManager,
                version: XDG_DECORATION_VERSION,
            },
        );

        WaylandState {
            commit_tracker,
            kde_decoration_mode,
            shm_additional_formats,
            dmabuf,
            output,
            seats: HashMap::new(),
            globals,
        }
    }

    /// Dispatch one surface commit.  The commit side table steps for this
    /// surface and nothing else changes; the sequence number handed out is
    /// the surface's commit count before this commit.  When the surface has
    /// a content handler attached, the sequence number is returned so the
    /// caller can forward it; when none is attached this is a silent no-op
    /// and nothing is forwarded.  Commits cannot fail.
    pub fn commit(&mut self, surface: u64, has_content_handler: bool) -> (forwarded: Option<u64>)
        requires
            commit_count(old(self).spec_commits(), surface) < u64::MAX,
        ensures
            final(self).spec_commits() == commit_step(old(self).spec_commits(), surface),
            has_content_handler ==> forwarded == Some(
                commit_count(old(self).spec_commits(), surface) as u64,
            ),
            !has_content_handler ==> forwarded is None,
            final(self).spec_seats() == old(self).spec_seats(),
            final(self).spec_globals() == old(self).spec_globals(),
            final(self).spec_import_global() == old(self).spec_import_global(),
            final(self).spec_output() == old(self).spec_output(),
            final(self).spec_decoration_mode() == old(self).spec_decoration_mode(),
            final(self).spec_shm_additional_formats() == old(self).spec_shm_additional_formats(),
    {
        let sequence = self.commit_tracker.on_commit(surface);
        if has_content_handler {
            Some(sequence)
        } else {
            None
        }
    }

    /// Register a newly connected client: a fresh seat record keyed by the
    /// client's identity, overwriting any stale entry for the same identity,
    /// and handed back to the caller.
    pub fn new_client(&mut self, client: u64) -> (seat: SeatData)
        ensures
            seat == (SeatData { client }),
            final(self).spec_seats() == seat_connect(old(self).spec_seats(), client),
            final(self).spec_commits() == old(self).spec_commits(),
            final(self).spec_globals() == old(self).spec_globals(),
            final(self).spec_import_global() == old(self).spec_import_global(),
            final(self).spec_output() == old(self).spec_output(),
            final(self).spec_decoration_mode() == old(self).spec_decoration_mode(),
            final(self).spec_shm_additional_formats() == old(self).spec_shm_additional_formats(),
    {
        let seat_data = SeatData::new(client);
        self.seats.insert(client, seat_data);
        seat_data
    }

    /// The seat record for a client, if one is registered.
    pub fn seat_of(&self, client: u64) -> (seat: Option<&SeatData>)
        ensures
            match seat {
                Some(data) => self.spec_seats().contains_key(client) && *data
                    == self.spec_seats()[client],
                None => !self.spec_seats().contains_key(client),
            },
    {
        self.seats.get(&client)
    }

    /// How many clients currently hold a seat.
    pub fn seat_count(&self) -> (count: usize)
        ensures
            count == self.spec_seats().len(),
    {
        self.seats.len()
    }

    /// Dispatch one imported device-memory buffer: hand it to the renderer.
    /// The shared state is untouched; the import is rejected exactly when
    /// the renderer's end of the channel is gone.
    pub fn dmabuf_imported(&mut self, buffer: BufferHandle) -> (r: Result<(), ImportError>)
        ensures
            *final(self) == *old(self),
            r is Err ==> r->Err_0 == ImportError::Failed,
    {
        self.dmabuf.import(buffer)
    }

    /// Observe a buffer's destruction: nothing in this core holds buffer
    /// state, so nothing changes.
    pub fn buffer_destroyed(&mut self, _buffer: u64)
        ensures
            *final(self) == *old(self),
    {
    }

    /// The commit side table, as the protocol dispatcher reads it.
    pub fn compositor_state(&self) -> (tracker: &SurfaceCommitTracker)
        ensures
            tracker@ == self.spec_commits(),
    {
        &self.commit_tracker
    }

    /// The negotiated buffer-import state.
    pub fn dmabuf_state(&self) -> (negotiator: &BufferImportNegotiator)
        ensures
            negotiator.spec_global() == self.spec_import_global(),
    {
        &self.dmabuf
    }

    /// The extra shared-memory formats advertised: none beyond the backend
    /// defaults.
    pub fn shm_state(&self) -> (additional_formats: &Vec<u32>)
        ensures
            additional_formats@ == self.spec_shm_additional_formats(),
    {
        &self.shm_additional_formats
    }

    /// The virtual output this server exposes.
    pub fn output(&self) -> (output: &VirtualOutput)
        ensures
            output == self.spec_output(),
    {
        &self.output
    }

    /// The advertised globals with their pinned versions, in wiring order.
    pub fn globals(&self) -> (globals: &Vec<ProtocolGlobal>)
        ensures
            globals@ == self.spec_globals(),
    {
        &self.globals
    }

    /// Which side draws decorations: always the server.
    pub fn decoration_mode(&self) -> (mode: DecorationMode)
        ensures
            mode == self.spec_decoration_mode(),
    {
        self.kde_decoration_mode
    }
}

} // verus!

//! Negotiation and import of device-memory (zero-copy) pixel buffers.
//!
//! At startup the negotiator makes a one-shot capability decision: if a kernel
//! render device was found and the feedback descriptor's backing table could
//! be materialized, the buffer-import global is created with a feedback
//! descriptor and advertises the full-capability protocol version; otherwise
//! it falls back to the reduced version and advertises the backend's format
//! list directly.  The decision is never retried or re-evaluated.
//!
//! Imported buffers are handed to the external renderer over a non-blocking
//! unbounded channel; the only way an import can fail is that the consumer
//! side of that channel is gone.

use tokio::sync::mpsc::UnboundedSender;
use vstd::prelude::*;

verus! {

/// Buffer-import protocol version advertised when a feedback descriptor is
/// carried.
pub const FEEDBACK_IMPORT_VERSION: u32 = 5;

/// Reduced buffer-import protocol version advertised when negotiation fell
/// back to the legacy-compatible path.
pub const LEGACY_IMPORT_VERSION: u32 = 3;

/// A device-memory pixel format: a format code together with its layout
/// modifier.
#[derive(Clone, Copy, PartialEq, Eq, Structural, Debug)]
pub struct DrmFormat {
    pub code: u32,
    pub modifier: u64,
}

/// A handle to one imported device-memory buffer, as the renderer consumes
/// it.  Buffer contents are never inspected here.
#[derive(Clone, Copy, PartialEq, Eq, Structural, Debug)]
pub struct BufferHandle {
    pub format: DrmFormat,
    pub width: u32,
    pub height: u32,
}

/// Outcome of asking the rendering backend for its kernel render device.
#[derive(Clone, Copy, PartialEq, Eq, Structural, Debug)]
pub enum DeviceQuery {
    /// A render device was found; the value is its kernel device identifier.
    Found(u64),
    /// The query succeeded but no render device exists.
    NotFound,
    /// The query itself failed.
    QueryFailed,
}

/// Metadata advertising which device and formats support zero-copy import.
pub struct FeedbackDescriptor {
    pub device_id: u64,
    pub formats: Vec<DrmFormat>,
}

/// The singleton protocol object advertising buffer-import capability.
/// Constructed exactly once at startup and immutable afterward.
pub struct BufferImportGlobal {
    /// Present only on the full-capability path.
    pub feedback: Option<FeedbackDescriptor>,
    /// The backend's zero-copy formats, advertised directly on the fallback
    /// path and mirrored by the feedback descriptor otherwise.
    pub formats: Vec<DrmFormat>,
}

impl BufferImportGlobal {
    /// The protocol version this global advertises, fixed by whether the
    /// feedback descriptor exists: a wire-compatibility contract.
    pub open spec fn spec_version(&self) -> u32 {
        if self.feedback is Some {
            FEEDBACK_IMPORT_VERSION
        } else {
            LEGACY_IMPORT_VERSION
        }
    }

    pub fn version(&self) -> (v: u32)
        ensures
            v == self.spec_version(),
    {
        match self.feedback {
            Some(_) => FEEDBACK_IMPORT_VERSION,
            None => LEGACY_IMPORT_VERSION,
        }
    }
}

/// Buffer import could not be delivered because the consumer side of the
/// hand-off channel is gone.  Non-fatal: surfaced to the protocol caller as
/// an import rejection.
#[derive(Clone, Copy, PartialEq, Eq, Structural, Debug)]
pub enum ImportError {
    Failed,
}

#[verifier::external_type_specification]
#[verifier::external_body]
#[verifier::reject_recursive_types(T)]
pub struct ExUnboundedSender<T>(UnboundedSender<T>);

/// Relies on tokio::sync::mpsc::UnboundedSender::send: the send never blocks,
/// succeeds whenever the receiver half is still open, and on failure hands
/// the rejected message back unchanged inside the error.
#[verifier::external_body]
fn send_buffer(channel: &UnboundedSender<BufferHandle>, buffer: BufferHandle) -> (r: Result<
    (),
    BufferHandle,
>)
    ensures
        r is Err ==> r->Err_0 == buffer,
{
    channel.send(buffer).map_err(|rejected| rejected.0)
}

/// What the protocol caller is told for each outcome of the channel hand-off:
/// a delivered buffer is reported as success, an undeliverable one as an
/// import rejection, never a process abort.
pub fn import_outcome(sent: Result<(), BufferHandle>) -> (r: Result<(), ImportError>)
    ensures
        r is Ok <==> sent is Ok,
        r is Err ==> r->Err_0 == ImportError::Failed,
{
    match sent {
        Ok(()) => Ok(()),
        Err(_) => Err(ImportError::Failed),
    }
}

/// Owns the one-shot capability decision and the outbound channel to the
/// renderer.
pub struct BufferImportNegotiator {
    global: BufferImportGlobal,
    renderer_tx: UnboundedSender<BufferHandle>,
}

impl BufferImportNegotiator {
    /// The negotiated buffer-import global.
    pub closed spec fn spec_global(&self) -> &BufferImportGlobal {
        &self.global
    }

    /// Negotiate the buffer-import capability once, at startup.
    ///
    /// `query` is the backend's render-device answer and `descriptor_built`
    /// says whether the feedback descriptor's backing table could be
    /// materialized (that step can fail only for environmental reasons).  The
    /// full-capability global is built exactly when a device was found and
    /// the descriptor materialized; every other case falls back to the
    /// reduced version carrying the backend's format list directly.
    pub fn new(
        query: DeviceQuery,
        formats: Vec<DrmFormat>,
        descriptor_built: bool,
        renderer_tx: UnboundedSender<BufferHandle>,
    ) -> (negotiator: Self)
        ensures
            negotiator.spec_global().formats@ == formats@,
            negotiator.spec_global().feedback is Some <==> (query is Found && descriptor_built),
            match negotiator.spec_global().feedback {
                Some(descriptor) => descriptor.device_id == query->Found_0 && descriptor.formats@
                    == formats@,
                None => true,
            },
            negotiator.spec_global().spec_version() == if query is Found && descriptor_built {
                FEEDBACK_IMPORT_VERSION
            } else {
                LEGACY_IMPORT_VERSION
            },
    {
        let feedback: Option<FeedbackDescriptor> = match query {
            DeviceQuery::Found(device_id) => {
                if descriptor_built {
                    let descriptor_formats = clone_formats(&formats);
                    Some(FeedbackDescriptor { device_id, formats: descriptor_formats })
                } else {
                    None
                }
            },
            DeviceQuery::NotFound => None,
            DeviceQuery::QueryFailed => None,
        };
        BufferImportNegotiator { global: BufferImportGlobal { feedback, formats }, renderer_tx }
    }

    /// A read-only view of the negotiated global.
    pub fn global(&self) -> (global: &BufferImportGlobal)
        ensures
            global == self.spec_global(),
    {
        &self.global
    }

    /// Hand an imported buffer to the renderer.  The hand-off never blocks
    /// and does not inspect or filter the buffer: it fails only when the
    /// consumer side of the channel is gone, and then reports an import
    /// rejection to the protocol caller.
    pub fn import(&self, buffer: BufferHandle) -> (r: Result<(), ImportError>)
        ensures
            r is Err ==> r->Err_0 == ImportError::Failed,
    {
        import_outcome(send_buffer(&self.renderer_tx, buffer))
    }
}

/// An element-for-element copy of a format list.
fn clone_formats(formats: &Vec<DrmFormat>) -> (copy: Vec<DrmFormat>)
    ensures
        copy@ == formats@,
{
    let mut copy: Vec<DrmFormat> = Vec::new();
    let mut i: usize = 0;
    while i < formats.len()
        invariant
            i <= formats@.len(),
            copy@ == formats@.subrange(0, i as int),
        decreases formats@.len() - i,
    {
        copy.push(formats[i]);
        i = i + 1;
    }
    proof {
        assert(copy@ =~= formats@);
    }
    copy
}

} // verus!

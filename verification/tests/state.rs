use tokio::sync::mpsc::unbounded_channel;
use waycore::dmabuf::{BufferHandle, DeviceQuery, DrmFormat, ImportError};
use waycore::state::{DecorationMode, GlobalInterface, WaylandState};

fn backend_formats() -> Vec<DrmFormat> {
    vec![DrmFormat { code: 0x34325258, modifier: 0 }]
}

fn full_capability_state() -> (WaylandState, tokio::sync::mpsc::UnboundedReceiver<BufferHandle>) {
    let (tx, rx) = unbounded_channel::<BufferHandle>();
    let state = WaylandState::new(DeviceQuery::Found(0xD00D), backend_formats(), true, tx);
    (state, rx)
}

#[test]
fn construction_wires_the_pinned_global_versions() {
    let (state, _rx) = full_capability_state();
    let globals = state.globals();
    let version_of = |interface: GlobalInterface| {
        globals
            .iter()
            .find(|g| g.interface == interface)
            .expect("global must be wired")
            .version
    };
    assert_eq!(version_of(GlobalInterface::Compositor), 5);
    assert_eq!(version_of(GlobalInterface::Subcompositor), 1);
    assert_eq!(version_of(GlobalInterface::KdeDecorationManager), 1);
    assert_eq!(version_of(GlobalInterface::SharedMemory), 2);
    assert_eq!(version_of(GlobalInterface::BufferImport), 5);
    assert_eq!(version_of(GlobalInterface::Output), 4);
    assert_eq!(version_of(GlobalInterface::DataDeviceManager), 3);
    assert_eq!(version_of(GlobalInterface::XdgWmBase), 5);
    assert_eq!(version_of(GlobalInterface::XdgDecorationManager), 1);
    assert_eq!(globals.len(), 9);
}

#[test]
fn fallback_negotiation_pins_the_legacy_import_version() {
    let (tx, _rx) = unbounded_channel::<BufferHandle>();
    let state = WaylandState::new(DeviceQuery::QueryFailed, backend_formats(), true, tx);
    assert!(state.dmabuf_state().global().feedback.is_none());
    let import = state
        .globals()
        .iter()
        .find(|g| g.interface == GlobalInterface::BufferImport)
        .expect("buffer-import global must be wired")
        .version;
    assert_eq!(import, 3);
}

#[test]
fn construction_starts_with_empty_tables_and_server_decorations() {
    let (state, _rx) = full_capability_state();
    assert_eq!(state.seat_count(), 0);
    assert_eq!(state.decoration_mode(), DecorationMode::Server);
    assert!(state.shm_state().is_empty());
    assert_eq!(state.compositor_state().count_of(1), 0);
}

#[test]
fn commit_forwards_sequence_only_to_an_attached_handler() {
    let (mut state, _rx) = full_capability_state();
    assert_eq!(state.commit(10, false), None);
    assert_eq!(state.commit(10, true), Some(1));
    assert_eq!(state.commit(10, true), Some(2));
    assert_eq!(state.commit(11, true), Some(0));
}

#[test]
fn connecting_two_clients_yields_independent_seats() {
    let (mut state, _rx) = full_capability_state();
    let seat_a = state.new_client(100);
    let seat_b = state.new_client(200);
    assert_eq!(seat_a.client, 100);
    assert_eq!(seat_b.client, 200);
    assert_eq!(state.seat_count(), 2);
    assert_eq!(state.seat_of(100).expect("client A has a seat").client, 100);
    assert_eq!(state.seat_of(200).expect("client B has a seat").client, 200);
    assert!(state.seat_of(300).is_none());
}

#[test]
fn reusing_a_client_id_overwrites_rather_than_duplicates() {
    let (mut state, _rx) = full_capability_state();
    state.new_client(100);
    state.new_client(100);
    assert_eq!(state.seat_count(), 1);
    assert_eq!(state.seat_of(100).expect("seat survives").client, 100);
}

#[test]
fn imported_buffers_flow_to_the_renderer_channel() {
    let (mut state, mut rx) = full_capability_state();
    let buffer = BufferHandle {
        format: backend_formats()[0],
        width: 4096,
        height: 4096,
    };
    assert_eq!(state.dmabuf_imported(buffer), Ok(()));
    assert_eq!(rx.try_recv(), Ok(buffer));
    assert!(rx.try_recv().is_err());
    drop(rx);
    assert_eq!(state.dmabuf_imported(buffer), Err(ImportError::Failed));
}

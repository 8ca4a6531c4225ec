use tokio::sync::mpsc::unbounded_channel;
use waycore::dmabuf::{
    BufferHandle, BufferImportNegotiator, DeviceQuery, DrmFormat, ImportError,
    FEEDBACK_IMPORT_VERSION, LEGACY_IMPORT_VERSION,
};

fn sample_formats() -> Vec<DrmFormat> {
    vec![
        DrmFormat { code: 0x34325258, modifier: 0 },
        DrmFormat { code: 0x34325241, modifier: 0 },
    ]
}

#[test]
fn found_device_negotiates_feedback() {
    let (tx, _rx) = unbounded_channel::<BufferHandle>();
    let negotiator = BufferImportNegotiator::new(DeviceQuery::Found(0xE100), sample_formats(), true, tx);
    let global = negotiator.global();
    assert_eq!(global.version(), FEEDBACK_IMPORT_VERSION);
    let feedback = global.feedback.as_ref().expect("full-capability path carries feedback");
    assert_eq!(feedback.device_id, 0xE100);
    assert_eq!(feedback.formats, sample_formats());
    assert_eq!(global.formats, sample_formats());
}

#[test]
fn failed_device_query_falls_back_without_feedback() {
    let (tx, _rx) = unbounded_channel::<BufferHandle>();
    let negotiator = BufferImportNegotiator::new(DeviceQuery::QueryFailed, sample_formats(), true, tx);
    let global = negotiator.global();
    assert!(global.feedback.is_none());
    assert_eq!(global.version(), LEGACY_IMPORT_VERSION);
    assert_eq!(global.formats, sample_formats());
}

#[test]
fn missing_device_falls_back_without_feedback() {
    let (tx, _rx) = unbounded_channel::<BufferHandle>();
    let negotiator = BufferImportNegotiator::new(DeviceQuery::NotFound, sample_formats(), true, tx);
    assert!(negotiator.global().feedback.is_none());
    assert_eq!(negotiator.global().version(), LEGACY_IMPORT_VERSION);
}

#[test]
fn unbuilt_descriptor_falls_back_without_feedback() {
    let (tx, _rx) = unbounded_channel::<BufferHandle>();
    let negotiator = BufferImportNegotiator::new(DeviceQuery::Found(7), sample_formats(), false, tx);
    assert!(negotiator.global().feedback.is_none());
    assert_eq!(negotiator.global().version(), LEGACY_IMPORT_VERSION);
}

#[test]
fn import_delivers_buffer_exactly_once() {
    let (tx, mut rx) = unbounded_channel::<BufferHandle>();
    let formats = sample_formats();
    let buffer = BufferHandle { format: formats[0], width: 4096, height: 4096 };
    let negotiator = BufferImportNegotiator::new(DeviceQuery::Found(1), formats, true, tx);
    assert_eq!(negotiator.import(buffer), Ok(()));
    assert_eq!(rx.try_recv(), Ok(buffer));
    assert!(rx.try_recv().is_err());
}

#[test]
fn import_after_consumer_gone_is_rejected_not_fatal() {
    let (tx, rx) = unbounded_channel::<BufferHandle>();
    let formats = sample_formats();
    let buffer = BufferHandle { format: formats[1], width: 16, height: 16 };
    let negotiator = BufferImportNegotiator::new(DeviceQuery::Found(1), formats, true, tx);
    drop(rx);
    assert_eq!(negotiator.import(buffer), Err(ImportError::Failed));
}

#[test]
fn fallback_global_still_accepts_any_backend_format() {
    let (tx, mut rx) = unbounded_channel::<BufferHandle>();
    let formats = sample_formats();
    let negotiator = BufferImportNegotiator::new(DeviceQuery::QueryFailed, formats.clone(), true, tx);
    assert!(negotiator.global().feedback.is_none());
    for format in formats {
        let buffer = BufferHandle { format, width: 64, height: 64 };
        assert_eq!(negotiator.import(buffer), Ok(()));
        assert_eq!(rx.try_recv(), Ok(buffer));
    }
}

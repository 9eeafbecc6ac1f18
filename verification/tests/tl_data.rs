//! TL-data conversion round trips.

use kadmin::tl_data::TlData;
use kadmin::tl_data::TlDataEntry;
use kadmin::tl_data::TlDataRaw;
use kadmin::KAdm5Variant;

fn entry(data_type: i16, contents: &[u8]) -> TlDataEntry {
    TlDataEntry { data_type, contents: contents.to_vec() }
}

fn round_trip(variant: KAdm5Variant, tl: &TlData) -> TlData {
    let raw = TlDataRaw::build(variant, tl);
    TlData::from_raw(&raw)
}

#[test]
fn round_trip_empty() {
    let tl = TlData { entries: vec![] };
    let back = round_trip(KAdm5Variant::MitClient, &tl);
    assert_eq!(back.entries.len(), 0);
}

#[test]
fn round_trip_single() {
    let tl = TlData { entries: vec![entry(7, b"payload")] };
    let back = round_trip(KAdm5Variant::MitClient, &tl);
    assert_eq!(back.entries.len(), 1);
    assert_eq!(back.entries[0].data_type, 7);
    assert_eq!(back.entries[0].contents, b"payload".to_vec());
}

#[test]
fn round_trip_several() {
    let tl = TlData {
        entries: vec![entry(1, b"one"), entry(-2, b""), entry(3, &[0u8, 255u8, 42u8])],
    };
    let back = round_trip(KAdm5Variant::HeimdalServer, &tl);
    assert_eq!(back.entries.len(), 3);
    assert_eq!(back.entries[0].data_type, 1);
    assert_eq!(back.entries[0].contents, b"one".to_vec());
    assert_eq!(back.entries[1].data_type, -2);
    assert_eq!(back.entries[1].contents, Vec::<u8>::new());
    assert_eq!(back.entries[2].data_type, 3);
    assert_eq!(back.entries[2].contents, vec![0u8, 255u8, 42u8]);
}

#[test]
fn build_counts_nodes() {
    let tl = TlData { entries: vec![entry(1, b"a"), entry(2, b"bc")] };
    let raw = TlDataRaw::build(KAdm5Variant::MitServer, &tl);
    assert_eq!(raw.len(), 2);
}

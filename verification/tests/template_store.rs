use sv2_bitcoin_core::error::Sv2BitcoinCoreError;
use sv2_bitcoin_core::template_data::{TemplateBlock, TemplateData, TemplateTransaction};
use sv2_bitcoin_core::template_store::TemplateStore;

fn data(id: u64, time: u32) -> TemplateData {
    let coinbase = TemplateTransaction { version: 2, txid: [9u8; 32] };
    let block = TemplateBlock { version: 4, time, bits: 1, txdata: vec![coinbase] };
    TemplateData::new(id, block, coinbase)
}

#[test]
fn template_ids_count_up_from_zero() {
    let mut store = TemplateStore::new();
    assert_eq!(store.allocate_template_id(), 0);
    assert_eq!(store.allocate_template_id(), 1);
    assert_eq!(store.allocate_template_id(), 2);
}

#[test]
fn a_stored_template_is_found_under_its_id() {
    let mut store = TemplateStore::new();
    let id = store.allocate_template_id();
    assert_eq!(store.insert_template(data(id, 11)), id);
    let other = store.allocate_template_id();
    store.insert_template(data(other, 22));
    assert_eq!(store.get_template(id).unwrap().get_ntime(), 11);
    assert_eq!(store.get_template(other).unwrap().get_ntime(), 22);
}

#[test]
fn storing_again_under_an_id_replaces_the_template() {
    let mut store = TemplateStore::new();
    let id = store.allocate_template_id();
    store.insert_template(data(id, 1));
    store.insert_template(data(id, 2));
    assert_eq!(store.get_template(id).unwrap().get_ntime(), 2);
}

#[test]
fn an_unknown_id_is_not_found() {
    let mut store = TemplateStore::new();
    let id = store.allocate_template_id();
    store.insert_template(data(id, 1));
    assert!(matches!(store.get_template(id + 1), Err(Sv2BitcoinCoreError::TemplateNotFound)));
}

#[test]
fn clearing_drops_templates_but_not_the_id_sequence() {
    let mut store = TemplateStore::new();
    let id = store.allocate_template_id();
    store.insert_template(data(id, 1));
    store.clear();
    assert!(matches!(store.get_template(id), Err(Sv2BitcoinCoreError::TemplateNotFound)));
    assert_eq!(store.allocate_template_id(), 1);
}

#[test]
fn a_template_stays_found_until_the_store_is_cleared() {
    let mut store = TemplateStore::new();
    let id = store.allocate_template_id();
    store.insert_template(data(id, 1));
    for n in 0..5 {
        let other = store.allocate_template_id();
        assert!(other > id);
        store.insert_template(data(other, n));
        assert_eq!(store.get_template(id).unwrap().get_ntime(), 1);
    }
    store.clear();
    assert!(store.get_template(id).is_err());
}

use roles_logic_sv2::bitcoin::consensus::serialize;
use roles_logic_sv2::bitcoin::hashes::sha256d;
use roles_logic_sv2::bitcoin::{Network, Txid};
use sv2_bitcoin_core::error::Sv2BitcoinCoreError;
use sv2_bitcoin_core::template_data::{
    decode_block_template, decode_coinbase_transaction, TemplateBlock, TemplateData,
    TemplateTransaction,
};

const H_CC: [u8; 32] = [
    100, 61, 75, 126, 54, 153, 210, 179, 216, 201, 55, 75, 54, 0, 189, 241, 245, 115, 183, 153,
    210, 165, 104, 134, 35, 101, 81, 160, 22, 180, 45, 223,
];
const H_CE: [u8; 32] = [
    195, 166, 177, 10, 77, 220, 223, 149, 97, 211, 198, 244, 74, 9, 198, 236, 211, 128, 72, 98,
    117, 103, 78, 116, 245, 80, 52, 41, 35, 11, 124, 242,
];

fn tx(version: i32, byte: u8) -> TemplateTransaction {
    TemplateTransaction { version, txid: [byte; 32] }
}

fn template(txids: &[u8]) -> TemplateData {
    let txdata = txids.iter().map(|b| tx(2, *b)).collect();
    let block = TemplateBlock { version: 0x2000_0000, time: 1_700_000_000, bits: 0x1d00_ffff, txdata };
    TemplateData::new(7, block, tx(2, txids.first().copied().unwrap_or(0)))
}

fn sha256d_bytes(data: &[u8]) -> [u8; 32] {
    let h: sha256d::Hash = roles_logic_sv2::bitcoin::hashes::Hash::hash(data);
    roles_logic_sv2::bitcoin::hashes::Hash::to_byte_array(h)
}

#[test]
fn getters_read_the_header_and_coinbase() {
    let data = template(&[1, 2, 3]);
    assert_eq!(data.template_id(), 7);
    assert_eq!(data.get_version(), 0x2000_0000);
    assert_eq!(data.get_ntime(), 1_700_000_000);
    assert_eq!(data.get_nbits(), 0x1d00_ffff);
    assert_eq!(data.get_coinbase_tx_version(), 2);
    let txs = data.get_txs();
    assert_eq!(txs.len(), 3);
    assert_eq!(txs[2].txid, [3u8; 32]);
}

#[test]
fn merkle_path_has_one_32_byte_hash_per_level() {
    for (n, levels) in [(2u8, 1usize), (3, 2), (4, 2), (5, 3), (8, 3), (9, 4)] {
        let ids: Vec<u8> = (1..=n).collect();
        let path = template(&ids).get_merkle_path();
        assert_eq!(path.len(), levels, "{} transactions", n);
        assert!(path.iter().all(|h| h.len() == 32));
    }
}

#[test]
fn merkle_path_of_empty_block_is_empty() {
    assert!(template(&[]).get_merkle_path().is_empty());
}

#[test]
fn merkle_path_of_coinbase_only_block_is_empty() {
    assert!(template(&[1]).get_merkle_path().is_empty());
}

#[test]
fn merkle_path_of_two_transactions_is_the_second_txid() {
    assert_eq!(template(&[1, 2]).get_merkle_path(), vec![vec![2u8; 32]]);
}

#[test]
fn merkle_path_duplicates_the_last_node_of_an_odd_level() {
    // Level 0: [1, 2, 3]; level 1: [H(1|2), H(3|3)].
    assert_eq!(template(&[1, 2, 3]).get_merkle_path(), vec![vec![2u8; 32], H_CC.to_vec()]);
}

#[test]
fn merkle_path_of_four_transactions() {
    assert_eq!(template(&[1, 2, 3, 4]).get_merkle_path(), vec![vec![2u8; 32], H_CE.to_vec()]);
}

#[test]
fn merkle_path_hashes_pairs_with_double_sha256() {
    let mut pair = vec![3u8; 32];
    pair.extend_from_slice(&[4u8; 32]);
    assert_eq!(sha256d_bytes(&pair), H_CE);
}

#[test]
fn coinbase_and_merkle_path_rebuild_the_merkle_root() {
    for n in 1u8..=9 {
        let ids: Vec<u8> = (1..=n).collect();
        let data = template(&ids);
        let mut node = [1u8; 32];
        for sibling in data.get_merkle_path() {
            let mut pair = node.to_vec();
            pair.extend_from_slice(&sibling);
            node = sha256d_bytes(&pair);
        }
        let txids = ids.iter().map(|b| {
            let t: Txid = roles_logic_sv2::bitcoin::hashes::Hash::from_byte_array([*b; 32]);
            t
        });
        let root = roles_logic_sv2::bitcoin::merkle_tree::calculate_root(txids).unwrap();
        assert_eq!(node, roles_logic_sv2::bitcoin::hashes::Hash::to_byte_array(root), "{} transactions", n);
    }
}

#[test]
fn decodes_the_genesis_block() {
    let genesis = roles_logic_sv2::bitcoin::blockdata::constants::genesis_block(Network::Bitcoin);
    let bytes = serialize(&genesis);
    let block = decode_block_template(&bytes).unwrap();
    assert_eq!(block.version, 1);
    assert_eq!(block.time, 1_231_006_505);
    assert_eq!(block.bits, 0x1d00_ffff);
    assert_eq!(block.txdata.len(), 1);
    let root = roles_logic_sv2::bitcoin::hashes::Hash::to_byte_array(genesis.header.merkle_root);
    assert_eq!(block.txdata[0].txid, root);
    assert_eq!(block.txdata[0].version, 1);
}

#[test]
fn decodes_the_genesis_coinbase() {
    let genesis = roles_logic_sv2::bitcoin::blockdata::constants::genesis_block(Network::Bitcoin);
    let bytes = serialize(&genesis.txdata[0]);
    let coinbase = decode_coinbase_transaction(&bytes).unwrap();
    assert_eq!(coinbase.version, 1);
    let root = roles_logic_sv2::bitcoin::hashes::Hash::to_byte_array(genesis.header.merkle_root);
    assert_eq!(coinbase.txid, root);
}

#[test]
fn rejects_a_truncated_block() {
    let genesis = roles_logic_sv2::bitcoin::blockdata::constants::genesis_block(Network::Bitcoin);
    let bytes = serialize(&genesis);
    let res = decode_block_template(&bytes[..60]);
    assert!(matches!(res, Err(Sv2BitcoinCoreError::InvalidTemplateHeader(_))));
}

#[test]
fn rejects_trailing_bytes_after_a_transaction() {
    let genesis = roles_logic_sv2::bitcoin::blockdata::constants::genesis_block(Network::Bitcoin);
    let mut bytes = serialize(&genesis.txdata[0]);
    bytes.push(0);
    let res = decode_coinbase_transaction(&bytes);
    assert!(matches!(res, Err(Sv2BitcoinCoreError::InvalidTemplateHeader(_))));
}

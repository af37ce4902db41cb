//! The dispatcher driven the way the hosting runtime drives it: one call
//! per instruction against an account buffer, including the end-to-end
//! create-then-publish scenario and the failure paths.

use pyth_sim::error::PythError;
use pyth_sim::instruction::AccountMeta;
use pyth_sim::pack::PythPack;
use pyth_sim::processor::process;
use pyth_sim::state::{
    AccKey, CorpAction, Ema, Price, PriceInfo, PriceStatus, PriceType, MAGIC, VERSION_2,
};

const ACCOUNT_SIZE: usize = 3312;

fn program_id() -> AccKey {
    AccKey { val: [9; 32] }
}

fn metas() -> Vec<AccountMeta> {
    vec![
        AccountMeta { pubkey: AccKey { val: [1; 32] }, is_signer: true, is_writable: false },
        AccountMeta { pubkey: AccKey { val: [2; 32] }, is_signer: false, is_writable: true },
    ]
}

fn publish_data(price: i64) -> Vec<u8> {
    let mut data = vec![3u8];
    data.extend_from_slice(&price.to_le_bytes());
    data
}

fn arbitrary_record() -> Price {
    Price {
        magic: MAGIC,
        ver: VERSION_2,
        atype: 3,
        size: 240,
        ptype: PriceType::Price,
        expo: -5,
        num: 1,
        num_qt: 2,
        last_slot: 10,
        valid_slot: 11,
        twap: Ema { val: 100, numer: 200, denom: 300 },
        twac: Ema { val: -100, numer: -200, denom: -300 },
        drv1: 71,
        drv2: 72,
        prod: AccKey { val: [0x41; 32] },
        next: AccKey { val: [0x42; 32] },
        prev_slot: 12,
        prev_price: -13,
        prev_conf: 14,
        drv3: 73,
        agg: PriceInfo {
            price: 1000,
            conf: 20,
            status: PriceStatus::Trading,
            corp_act: CorpAction::NoCorpAct,
            pub_slot: 4,
        },
    }
}

#[test]
fn create_initializes_header_and_aggregate() {
    let mut data = vec![0u8; ACCOUNT_SIZE];
    process(&program_id(), &metas(), &mut data, &[0u8], 1).unwrap();
    let decoded = Price::unpack_from_slice(&data).unwrap();
    assert_eq!(decoded.magic, MAGIC);
    assert_eq!(decoded.ver, VERSION_2);
    assert_eq!(decoded.atype, 3);
    assert_eq!(decoded.agg.price, 0);
    assert_eq!(decoded.agg.conf, 100);
    assert_eq!(decoded.agg.status, PriceStatus::Trading);
    assert_eq!(decoded.agg.pub_slot, 0);
    assert!(data[240..].iter().all(|&b| b == 0));
}

#[test]
fn create_is_idempotent_on_dirty_buffers() {
    let mut zeroed = vec![0u8; ACCOUNT_SIZE];
    let mut dirty = vec![0x5au8; ACCOUNT_SIZE];
    process(&program_id(), &metas(), &mut zeroed, &[0u8], 1).unwrap();
    process(&program_id(), &metas(), &mut dirty, &[0u8], 1).unwrap();
    assert_eq!(zeroed, dirty);
}

#[test]
fn create_rejects_short_buffer() {
    let mut data = vec![0u8; 100];
    let before = data.clone();
    assert_eq!(
        process(&program_id(), &metas(), &mut data, &[0u8], 1),
        Err(PythError::InvalidAccount)
    );
    assert_eq!(data, before);
}

#[test]
fn create_then_publish_scenario() {
    let mut data = vec![0u8; ACCOUNT_SIZE];
    process(&program_id(), &metas(), &mut data, &[0u8], 1).unwrap();
    let created = Price::unpack_from_slice(&data).unwrap();
    assert_eq!(created.agg.price, 0);
    assert_eq!(created.agg.status, PriceStatus::Trading);
    process(&program_id(), &metas(), &mut data, &publish_data(15), 7).unwrap();
    let published = Price::unpack_from_slice(&data).unwrap();
    assert_eq!(published.agg.price, 15);
    assert_eq!(published.agg.pub_slot, 7);
    assert_eq!(published.agg.status, PriceStatus::Trading);
}

#[test]
fn publish_changes_only_price_and_slot() {
    let record = arbitrary_record();
    let mut data = record.pack_into_vec().unwrap();
    data.resize(ACCOUNT_SIZE, 0x77);
    let before = data.clone();
    process(&program_id(), &metas(), &mut data, &publish_data(-987654), 99).unwrap();
    let decoded = Price::unpack_from_slice(&data).unwrap();
    let expected = Price {
        agg: PriceInfo { price: -987654, pub_slot: 99, ..record.agg },
        ..record
    };
    assert_eq!(decoded, expected);
    for i in 0..ACCOUNT_SIZE {
        if !(208..216).contains(&i) && !(232..240).contains(&i) {
            assert_eq!(data[i], before[i], "byte {} changed", i);
        }
    }
}

#[test]
fn publish_rejects_undecodable_record() {
    let mut data = vec![0u8; ACCOUNT_SIZE];
    data[16] = 9;
    let before = data.clone();
    assert_eq!(
        process(&program_id(), &metas(), &mut data, &publish_data(1), 1),
        Err(PythError::CouldNotDecodeInstruction)
    );
    assert_eq!(data, before);
}

#[test]
fn publish_rejects_short_payload() {
    let mut data = vec![0u8; ACCOUNT_SIZE];
    process(&program_id(), &metas(), &mut data, &[0u8], 1).unwrap();
    let before = data.clone();
    assert_eq!(
        process(&program_id(), &metas(), &mut data, &[3u8, 1, 2], 1),
        Err(PythError::CouldNotDecodeInstruction)
    );
    assert_eq!(data, before);
}

#[test]
fn empty_instruction_data_fails_without_mutation() {
    let mut data = vec![0u8; ACCOUNT_SIZE];
    let before = data.clone();
    assert_eq!(
        process(&program_id(), &metas(), &mut data, &[], 1),
        Err(PythError::CouldNotDecodeInstruction)
    );
    assert_eq!(data, before);
}

#[test]
fn unknown_opcode_fails_without_mutation() {
    let mut data = vec![0u8; ACCOUNT_SIZE];
    let before = data.clone();
    assert_eq!(
        process(&program_id(), &metas(), &mut data, &[99u8], 1),
        Err(PythError::InvalidInstructionId)
    );
    assert_eq!(data, before);
}

#[test]
fn product_and_mapping_opcodes_are_noops() {
    let mut data = vec![0u8; ACCOUNT_SIZE];
    let before = data.clone();
    process(&program_id(), &metas(), &mut data, &[1u8], 1).unwrap();
    process(&program_id(), &metas(), &mut data, &[2u8], 1).unwrap();
    assert_eq!(data, before);
}

#[test]
fn missing_signer_is_rejected() {
    let mut bad = metas();
    bad[0].is_signer = false;
    let mut data = vec![0u8; ACCOUNT_SIZE];
    let before = data.clone();
    assert_eq!(
        process(&program_id(), &bad, &mut data, &[0u8], 1),
        Err(PythError::InvalidAccount)
    );
    assert_eq!(data, before);
}

#[test]
fn missing_writable_target_is_rejected() {
    let mut bad = metas();
    bad[1].is_writable = false;
    let mut data = vec![0u8; ACCOUNT_SIZE];
    assert_eq!(
        process(&program_id(), &bad, &mut data, &[0u8], 1),
        Err(PythError::InvalidAccount)
    );
}

#[test]
fn too_few_accounts_is_rejected() {
    let one = vec![AccountMeta {
        pubkey: AccKey { val: [1; 32] },
        is_signer: true,
        is_writable: true,
    }];
    let mut data = vec![0u8; ACCOUNT_SIZE];
    assert_eq!(
        process(&program_id(), &one, &mut data, &[0u8], 1),
        Err(PythError::InvalidAccount)
    );
}

#[test]
fn minimal_buffer_of_record_size_works() {
    let mut data = vec![0u8; 240];
    process(&program_id(), &metas(), &mut data, &[0u8], 1).unwrap();
    process(&program_id(), &metas(), &mut data, &publish_data(5), 3).unwrap();
    let decoded = Price::unpack_from_slice(&data).unwrap();
    assert_eq!(decoded.agg.price, 5);
    assert_eq!(decoded.agg.pub_slot, 3);
}

//! Round-trip, length and failure behaviour of the record and instruction
//! codecs, on concrete values.

use pyth_sim::error::PythError;
use pyth_sim::instruction::{
    create_price_acc, publish_price, AccountMeta, CreateMappingAccountInstruction,
    CreatePriceAccountInstruction, CreateProductAccountInstruction, PublishPriceInstruction,
};
use pyth_sim::pack::{PythInstruction, PythPack};
use pyth_sim::state::{
    AccKey, CorpAction, Ema, Price, PriceComp, PriceInfo, PriceStatus, PriceType,
};

fn sample_price_info() -> PriceInfo {
    PriceInfo {
        price: -42_000_000_007,
        conf: 987_654_321,
        status: PriceStatus::Halted,
        corp_act: CorpAction::NoCorpAct,
        pub_slot: 0xdead_beef_cafe_f00d,
    }
}

fn sample_ema() -> Ema {
    Ema { val: -1, numer: 0x0102_0304_0506_0708, denom: -0x0102_0304_0506_0708 }
}

fn sample_price() -> Price {
    Price {
        magic: 0xa1b2c3d4,
        ver: 2,
        atype: 3,
        size: 240,
        ptype: PriceType::Price,
        expo: -8,
        num: 4,
        num_qt: 5,
        last_slot: 111,
        valid_slot: 222,
        twap: sample_ema(),
        twac: Ema { val: 7, numer: 8, denom: 9 },
        drv1: -11,
        drv2: -12,
        prod: AccKey { val: [0xaa; 32] },
        next: AccKey { val: [0xbb; 32] },
        prev_slot: 333,
        prev_price: -444,
        prev_conf: 555,
        drv3: -13,
        agg: sample_price_info(),
    }
}

#[test]
fn price_info_roundtrip() {
    let v = sample_price_info();
    let bytes = v.pack_into_vec().unwrap();
    assert_eq!(bytes.len(), 32);
    let back = PriceInfo::unpack_from_slice(&bytes).unwrap();
    assert_eq!(back, v);
}

#[test]
fn price_info_exact_bytes() {
    let v = PriceInfo {
        price: 0x0102_0304_0506_0708,
        conf: 0x1112_1314_1516_1718,
        status: PriceStatus::Trading,
        corp_act: CorpAction::NoCorpAct,
        pub_slot: 2,
    };
    let bytes = v.pack_into_vec().unwrap();
    assert_eq!(&bytes[0..8], &[0x08, 0x07, 0x06, 0x05, 0x04, 0x03, 0x02, 0x01]);
    assert_eq!(&bytes[8..16], &[0x18, 0x17, 0x16, 0x15, 0x14, 0x13, 0x12, 0x11]);
    assert_eq!(&bytes[16..20], &[1, 0, 0, 0]);
    assert_eq!(&bytes[20..24], &[0, 0, 0, 0]);
    assert_eq!(&bytes[24..32], &[2, 0, 0, 0, 0, 0, 0, 0]);
}

#[test]
fn price_info_short_buffer_fails() {
    let short = vec![0u8; 31];
    assert_eq!(
        PriceInfo::unpack_from_slice(&short),
        Err(PythError::CouldNotDecodeInstruction)
    );
}

#[test]
fn price_info_bad_status_tag_fails() {
    let v = sample_price_info();
    let mut bytes = v.pack_into_vec().unwrap();
    bytes[16] = 9;
    assert_eq!(
        PriceInfo::unpack_from_slice(&bytes),
        Err(PythError::CouldNotDecodeInstruction)
    );
}

#[test]
fn price_info_bad_corp_action_tag_fails() {
    let v = sample_price_info();
    let mut bytes = v.pack_into_vec().unwrap();
    bytes[20] = 1;
    assert_eq!(
        PriceInfo::unpack_from_slice(&bytes),
        Err(PythError::CouldNotDecodeInstruction)
    );
}

#[test]
fn ema_roundtrip() {
    let v = sample_ema();
    let bytes = v.pack_into_vec().unwrap();
    assert_eq!(bytes.len(), 24);
    assert_eq!(&bytes[0..8], &[0xff; 8]);
    let back = Ema::unpack_from_slice(&bytes).unwrap();
    assert_eq!(back, v);
}

#[test]
fn price_comp_roundtrip() {
    let v = PriceComp {
        publisher: AccKey { val: [0x11; 32] },
        agg: sample_price_info(),
        latest: PriceInfo { price: 5, ..sample_price_info() },
    };
    let bytes = v.pack_into_vec().unwrap();
    assert_eq!(bytes.len(), 96);
    assert_eq!(&bytes[0..32], &[0x11; 32]);
    let back = PriceComp::unpack_from_slice(&bytes).unwrap();
    assert_eq!(back, v);
}

#[test]
fn price_roundtrip() {
    let v = sample_price();
    let bytes = v.pack_into_vec().unwrap();
    assert_eq!(bytes.len(), 240);
    assert_eq!(&bytes[0..4], &[0xd4, 0xc3, 0xb2, 0xa1]);
    assert_eq!(&bytes[4..8], &[2, 0, 0, 0]);
    assert_eq!(&bytes[8..12], &[3, 0, 0, 0]);
    assert_eq!(&bytes[16..20], &[1, 0, 0, 0]);
    assert_eq!(&bytes[20..24], &[0xf8, 0xff, 0xff, 0xff]);
    assert_eq!(&bytes[112..144], &[0xaa; 32]);
    assert_eq!(&bytes[144..176], &[0xbb; 32]);
    let back = Price::unpack_from_slice(&bytes).unwrap();
    assert_eq!(back, v);
}

#[test]
fn price_short_buffer_fails() {
    let short = vec![0u8; 239];
    assert_eq!(
        Price::unpack_from_slice(&short),
        Err(PythError::CouldNotDecodeInstruction)
    );
}

#[test]
fn price_bad_price_type_tag_fails() {
    let mut bytes = sample_price().pack_into_vec().unwrap();
    bytes[16] = 7;
    assert_eq!(
        Price::unpack_from_slice(&bytes),
        Err(PythError::CouldNotDecodeInstruction)
    );
}

#[test]
fn unpack_items_reads_consecutive_records() {
    let a = sample_price_info();
    let b = PriceInfo { price: 777, status: PriceStatus::Auction, ..sample_price_info() };
    let mut bytes = a.pack_into_vec().unwrap();
    bytes.extend_from_slice(&b.pack_into_vec().unwrap());
    let items = PriceInfo::unpack_items_from_slice(2, &bytes).unwrap();
    assert_eq!(items, vec![a, b]);
}

#[test]
fn unpack_items_short_buffer_fails() {
    let bytes = sample_price_info().pack_into_vec().unwrap();
    assert_eq!(
        PriceInfo::unpack_items_from_slice(2, &bytes),
        Err(PythError::CouldNotDecodeInstruction)
    );
}

#[test]
fn pack_items_writes_consecutive_records() {
    let a = sample_ema();
    let b = Ema { val: 1, numer: 2, denom: 3 };
    let items = [a, b];
    let mut dst = vec![0xccu8; 50];
    Ema::pack_items_into_slice(&items, &mut dst, 1).unwrap();
    assert_eq!(&dst[1..25], &a.pack_into_vec().unwrap()[..]);
    assert_eq!(&dst[25..49], &b.pack_into_vec().unwrap()[..]);
    assert_eq!(dst[0], 0xcc);
    assert_eq!(dst[49], 0xcc);
}

#[test]
fn instruction_roundtrip_create_price() {
    let data = CreatePriceAccountInstruction {}.pack_instruction_into_vec().unwrap();
    assert_eq!(data, vec![0u8]);
    let back = CreatePriceAccountInstruction::unpack_instruction(&data).unwrap();
    assert_eq!(back, CreatePriceAccountInstruction {});
}

#[test]
fn instruction_roundtrip_create_product() {
    let data = CreateProductAccountInstruction {}.pack_instruction_into_vec().unwrap();
    assert_eq!(data, vec![1u8]);
    let back = CreateProductAccountInstruction::unpack_instruction(&data).unwrap();
    assert_eq!(back, CreateProductAccountInstruction {});
}

#[test]
fn instruction_roundtrip_create_mapping() {
    let data = CreateMappingAccountInstruction {}.pack_instruction_into_vec().unwrap();
    assert_eq!(data, vec![2u8]);
    let back = CreateMappingAccountInstruction::unpack_instruction(&data).unwrap();
    assert_eq!(back, CreateMappingAccountInstruction {});
}

#[test]
fn instruction_roundtrip_publish_price() {
    let ins = PublishPriceInstruction { price: -2 };
    let data = ins.pack_instruction_into_vec().unwrap();
    assert_eq!(
        data,
        vec![3u8, 0xfe, 0xff, 0xff, 0xff, 0xff, 0xff, 0xff, 0xff]
    );
    let back = PublishPriceInstruction::unpack_instruction(&data).unwrap();
    assert_eq!(back, ins);
}

#[test]
fn instruction_wrong_opcode_fails() {
    let data = CreateProductAccountInstruction {}.pack_instruction_into_vec().unwrap();
    assert_eq!(
        CreatePriceAccountInstruction::unpack_instruction(&data),
        Err(PythError::NotImplemented)
    );
}

#[test]
fn instruction_empty_buffer_fails() {
    let data: Vec<u8> = Vec::new();
    assert_eq!(
        PublishPriceInstruction::unpack_instruction(&data),
        Err(PythError::CouldNotDecodeInstruction)
    );
}

#[test]
fn instruction_short_payload_fails() {
    let data = vec![3u8, 1, 2, 3];
    assert_eq!(
        PublishPriceInstruction::unpack_instruction(&data),
        Err(PythError::CouldNotDecodeInstruction)
    );
}

#[test]
fn pack_instruction_writes_in_place() {
    let ins = PublishPriceInstruction { price: 1 };
    let mut dst = vec![0xeeu8; 12];
    ins.pack_instruction(&mut dst).unwrap();
    assert_eq!(&dst[..9], &[3, 1, 0, 0, 0, 0, 0, 0, 0]);
    assert_eq!(&dst[9..], &[0xee, 0xee, 0xee]);
}

#[test]
fn builder_create_price_acc() {
    let program = AccKey { val: [1; 32] };
    let payer = AccKey { val: [2; 32] };
    let target = AccKey { val: [3; 32] };
    let ins = create_price_acc(&program, &payer, &target).unwrap();
    assert_eq!(ins.program_id, program);
    assert_eq!(ins.data, vec![0u8]);
    assert_eq!(
        ins.accounts,
        vec![
            AccountMeta { pubkey: payer, is_signer: true, is_writable: false },
            AccountMeta { pubkey: target, is_signer: false, is_writable: true },
        ]
    );
}

#[test]
fn builder_publish_price() {
    let program = AccKey { val: [1; 32] };
    let payer = AccKey { val: [2; 32] };
    let target = AccKey { val: [3; 32] };
    let ins = publish_price(&program, &payer, &target, 300).unwrap();
    assert_eq!(ins.program_id, program);
    assert_eq!(ins.data, vec![3u8, 0x2c, 1, 0, 0, 0, 0, 0, 0]);
    assert_eq!(
        ins.accounts,
        vec![
            AccountMeta { pubkey: payer, is_signer: true, is_writable: false },
            AccountMeta { pubkey: target, is_signer: false, is_writable: true },
        ]
    );
}

#[test]
fn error_codes_are_stable() {
    assert_eq!(PythError::NotImplemented.code(), 0);
    assert_eq!(PythError::CouldNotDecodeInstruction.code(), 1);
    assert_eq!(PythError::InvalidInstructionId.code(), 2);
    assert_eq!(PythError::InvalidAccount.code(), 3);
    assert_eq!(PythError::InvalidRequestStatus.code(), 4);
    assert_eq!(PythError::InvalidSeeds.code(), 5);
}

#[test]
fn err_at_tags_file_into_high_byte() {
    assert_eq!(pyth_sim::error::err_at(123, 0), 123);
    assert_eq!(pyth_sim::error::err_at(500, 2), 500 + (2u32 << 24));
}

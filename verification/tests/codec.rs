use spl_store::error::ProgramError;
use spl_store::instruction::SplStoreInstruction;
use spl_store::pubkey::Pubkey;
use spl_store::store::account::StoreAccount;

fn le(x: u64) -> Vec<u8> {
    x.to_le_bytes().to_vec()
}

#[test]
fn instruction_layout_is_tag_plus_little_endian_fields() {
    let mut expected = vec![0u8];
    expected.extend(le(42));
    expected.extend(le(32_000_200_000_000));
    assert_eq!(
        SplStoreInstruction::Initialize(42, 32_000_200_000_000).to_bytes(),
        expected
    );

    let mut expected = vec![1u8];
    expected.extend(le(14));
    assert_eq!(SplStoreInstruction::Buy(14).to_bytes(), expected);

    let mut expected = vec![2u8];
    expected.extend(le(7));
    assert_eq!(SplStoreInstruction::Sell(7).to_bytes(), expected);

    let mut expected = vec![3u8];
    expected.extend(le(37));
    assert_eq!(SplStoreInstruction::UpdatePrice(37).to_bytes(), expected);
}

#[test]
fn instruction_round_trip() {
    let cases = vec![
        SplStoreInstruction::Initialize(1, 0),
        SplStoreInstruction::Initialize(u64::MAX, u64::MAX),
        SplStoreInstruction::Buy(0),
        SplStoreInstruction::Buy(u64::MAX),
        SplStoreInstruction::Sell(123_456_789),
        SplStoreInstruction::UpdatePrice(37),
    ];
    for c in cases {
        let bytes = c.to_bytes();
        assert_eq!(SplStoreInstruction::try_from_slice(bytes.as_slice()), Ok(c));
    }
}

#[test]
fn instruction_decode_refuses_malformed_payloads() {
    // Unknown tag.
    let mut data = vec![4u8];
    data.extend(le(1));
    assert_eq!(
        SplStoreInstruction::try_from_slice(data.as_slice()),
        Err(ProgramError::MalformedInstruction)
    );
    // Truncated field.
    assert_eq!(
        SplStoreInstruction::try_from_slice(&[0u8, 1, 2, 3]),
        Err(ProgramError::MalformedInstruction)
    );
    // A Buy with an Initialize-sized payload.
    let mut data = vec![1u8];
    data.extend(le(1));
    data.extend(le(2));
    assert_eq!(
        SplStoreInstruction::try_from_slice(data.as_slice()),
        Err(ProgramError::MalformedInstruction)
    );
    // Empty.
    assert_eq!(
        SplStoreInstruction::try_from_slice(&[]),
        Err(ProgramError::MalformedInstruction)
    );
}

#[test]
fn store_record_round_trip() {
    let admin = Pubkey::from_bytes(vec![7u8; 32]).unwrap();
    let rec = StoreAccount { price: 42, admin };
    let bytes = rec.serialize();
    assert_eq!(bytes.len(), 40);
    assert_eq!(&bytes[0..8], le(42).as_slice());
    assert_eq!(&bytes[8..40], vec![7u8; 32].as_slice());
    let back = StoreAccount::try_from_slice(&bytes).unwrap();
    assert_eq!(back.price, 42);
    assert_eq!(back.admin.bytes, vec![7u8; 32]);
}

#[test]
fn store_record_refuses_other_lengths() {
    assert_eq!(
        StoreAccount::try_from_slice(&vec![0u8; 39]).unwrap_err(),
        ProgramError::InvalidAccountData
    );
    assert_eq!(
        StoreAccount::try_from_slice(&vec![0u8; 41]).unwrap_err(),
        ProgramError::InvalidAccountData
    );
    assert_eq!(
        StoreAccount::try_from_slice(&Vec::new()).unwrap_err(),
        ProgramError::InvalidAccountData
    );
}

#[test]
fn keys_refuse_other_lengths() {
    assert!(Pubkey::from_bytes(vec![1u8; 31]).is_none());
    assert!(Pubkey::from_bytes(vec![1u8; 33]).is_none());
    assert!(Pubkey::from_bytes(vec![1u8; 32]).is_some());
}

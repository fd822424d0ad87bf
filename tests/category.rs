use hapi::{decode, from_discriminant, Category, DecodeError, CATEGORY_COUNT};

fn all() -> Vec<Category> {
    vec![
        Category::Safe,
        Category::WalletService,
        Category::MerchantService,
        Category::MiningPool,
        Category::LowRiskExchange,
        Category::MediumRiskExchange,
        Category::DeFi,
        Category::OTCBroker,
        Category::ATM,
        Category::Gambling,
        Category::IllicitOrganization,
        Category::Mixer,
        Category::DarknetService,
        Category::Scam,
        Category::Ransomware,
        Category::Theft,
        Category::TerroristFinancing,
        Category::Sanctions,
        Category::ChildAbuse,
    ]
}

#[test]
fn every_category_round_trips() {
    for c in all() {
        assert_eq!(decode(&c.encode()), Ok(c));
    }
}

#[test]
fn discriminants_follow_declaration_order() {
    for (i, c) in all().into_iter().enumerate() {
        assert_eq!(c.encode(), vec![i as u8]);
        assert_eq!(c.to_discriminant(), i as u8);
    }
    assert_eq!(all().len(), CATEGORY_COUNT as usize);
}

#[test]
fn exact_encodings() {
    assert_eq!(Category::Safe.encode(), vec![0u8]);
    assert_eq!(Category::Scam.encode(), vec![13u8]);
    assert_eq!(Category::ChildAbuse.encode(), vec![18u8]);
    assert_eq!(decode(&[16u8]), Ok(Category::TerroristFinancing));
}

#[test]
fn unknown_discriminants_are_rejected() {
    for d in CATEGORY_COUNT..=255u8 {
        assert_eq!(decode(&[d]), Err(DecodeError::UnknownCategory));
        assert_eq!(from_discriminant(d), Err(DecodeError::UnknownCategory));
    }
}

#[test]
fn wrong_length_is_rejected() {
    assert_eq!(decode(&[]), Err(DecodeError::InvalidLength));
    assert_eq!(decode(&[0u8, 0u8]), Err(DecodeError::InvalidLength));
}

#[test]
fn categories_compare_by_variant() {
    assert_eq!(Category::Mixer, Category::Mixer);
    assert_ne!(Category::Mixer, Category::Scam);
}

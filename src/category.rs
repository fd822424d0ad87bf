//! The closed taxonomy of risk categories and its one-byte encoding.

use vstd::prelude::*;

verus! {

/// A risk classification, grouped in five tiers of ascending severity.
#[derive(Clone, Copy, Debug, PartialEq, Eq, Structural)]
pub enum Category {
    // Tier 0
    /// Safe
    Safe,
    // Tier 1 - Low risk
    /// Wallet service - custodial or mixed wallets
    WalletService,
    /// Merchant service
    MerchantService,
    /// Mining pool
    MiningPool,
    /// Exchange (Low Risk) - Exchange with high KYC standards
    LowRiskExchange,
    // Tier 2 - Medium risk
    /// Exchange (Medium Risk)
    MediumRiskExchange,
    /// DeFi application
    DeFi,
    /// OTC Broker
    OTCBroker,
    /// Cryptocurrency ATM
    ATM,
    /// Gambling
    Gambling,
    // Tier 3 - High risk
    /// Illicit organization
    IllicitOrganization,
    /// Mixer
    Mixer,
    /// Darknet market or service
    DarknetService,
    /// Scam
    Scam,
    /// Ransomware
    Ransomware,
    /// Theft - stolen funds
    Theft,
    // Tier 4 - Severe risk
    /// Terrorist financing
    TerroristFinancing,
    /// Sanctions
    Sanctions,
    /// Child abuse and porn materials
    ChildAbuse,
}

/// Why a byte string is not the encoding of a category.
#[derive(Clone, Copy, Debug, PartialEq, Eq, Structural)]
pub enum DecodeError {
    /// The input is not exactly one byte long.
    InvalidLength,
    /// The byte is not the discriminant of any category.
    UnknownCategory,
}

/// Number of categories; discriminants run from zero up to this, exclusive.
pub const CATEGORY_COUNT: u8 = 19;

impl Category {
    /// The stable discriminant of each category: its place in declaration order.
    pub open spec fn discriminant(self) -> u8 {
        match self {
            Category::Safe => 0,
            Category::WalletService => 1,
            Category::MerchantService => 2,
            Category::MiningPool => 3,
            Category::LowRiskExchange => 4,
            Category::MediumRiskExchange => 5,
            Category::DeFi => 6,
            Category::OTCBroker => 7,
            Category::ATM => 8,
            Category::Gambling => 9,
            Category::IllicitOrganization => 10,
            Category::Mixer => 11,
            Category::DarknetService => 12,
            Category::Scam => 13,
            Category::Ransomware => 14,
            Category::Theft => 15,
            Category::TerroristFinancing => 16,
            Category::Sanctions => 17,
            Category::ChildAbuse => 18,
        }
    }

    /// The encoding: the discriminant as a single byte.
    pub open spec fn encoding(self) -> Seq<u8> {
        seq![self.discriminant()]
    }

    /// Encodes the category as its one-byte discriminant.
    pub fn encode(&self) -> (r: Vec<u8>)
        ensures
            r@ == self.encoding(),
    {
        let d: u8 = self.to_discriminant();
        let mut r: Vec<u8> = Vec::new();
        r.push(d);
        assert(r@ =~= self.encoding());
        r
    }

    /// The discriminant of the category.
    pub fn to_discriminant(&self) -> (r: u8)
        ensures
            r == self.discriminant(),
    {
        match self {
            Category::Safe => 0,
            Category::WalletService => 1,
            Category::MerchantService => 2,
            Category::MiningPool => 3,
            Category::LowRiskExchange => 4,
            Category::MediumRiskExchange => 5,
            Category::DeFi => 6,
            Category::OTCBroker => 7,
            Category::ATM => 8,
            Category::Gambling => 9,
            Category::IllicitOrganization => 10,
            Category::Mixer => 11,
            Category::DarknetService => 12,
            Category::Scam => 13,
            Category::Ransomware => 14,
            Category::Theft => 15,
            Category::TerroristFinancing => 16,
            Category::Sanctions => 17,
            Category::ChildAbuse => 18,
        }
    }
}

/// The category whose discriminant is `d`, if there is one.
pub open spec fn category_of(d: u8) -> Option<Category> {
    match d {
        0 => Some(Category::Safe),
        1 => Some(Category::WalletService),
        2 => Some(Category::MerchantService),
        3 => Some(Category::MiningPool),
        4 => Some(Category::LowRiskExchange),
        5 => Some(Category::MediumRiskExchange),
        6 => Some(Category::DeFi),
        7 => Some(Category::OTCBroker),
        8 => Some(Category::ATM),
        9 => Some(Category::Gambling),
        10 => Some(Category::IllicitOrganization),
        11 => Some(Category::Mixer),
        12 => Some(Category::DarknetService),
        13 => Some(Category::Scam),
        14 => Some(Category::Ransomware),
        15 => Some(Category::Theft),
        16 => Some(Category::TerroristFinancing),
        17 => Some(Category::Sanctions),
        18 => Some(Category::ChildAbuse),
        _ => None,
    }
}

/// What decoding a byte string yields.
pub open spec fn decoding(bytes: Seq<u8>) -> Result<Category, DecodeError> {
    if bytes.len() != 1 {
        Err(DecodeError::InvalidLength)
    } else {
        match category_of(bytes[0]) {
            Some(c) => Ok(c),
            None => Err(DecodeError::UnknownCategory),
        }
    }
}

/// Decodes a one-byte discriminant; an unrecognised byte is an error, never a default.
pub fn decode(bytes: &[u8]) -> (r: Result<Category, DecodeError>)
    ensures
        r == decoding(bytes@),
{
    if bytes.len() != 1 {
        return Err(DecodeError::InvalidLength);
    }
    from_discriminant(bytes[0])
}

/// The category with discriminant `d`, or `UnknownCategory`.
pub fn from_discriminant(d: u8) -> (r: Result<Category, DecodeError>)
    ensures
        r == decoding(seq![d]),
{
    match d {
        0 => Ok(Category::Safe),
        1 => Ok(Category::WalletService),
        2 => Ok(Category::MerchantService),
        3 => Ok(Category::MiningPool),
        4 => Ok(Category::LowRiskExchange),
        5 => Ok(Category::MediumRiskExchange),
        6 => Ok(Category::DeFi),
        7 => Ok(Category::OTCBroker),
        8 => Ok(Category::ATM),
        9 => Ok(Category::Gambling),
        10 => Ok(Category::IllicitOrganization),
        11 => Ok(Category::Mixer),
        12 => Ok(Category::DarknetService),
        13 => Ok(Category::Scam),
        14 => Ok(Category::Ransomware),
        15 => Ok(Category::Theft),
        16 => Ok(Category::TerroristFinancing),
        17 => Ok(Category::Sanctions),
        18 => Ok(Category::ChildAbuse),
        _ => Err(DecodeError::UnknownCategory),
    }
}

/// Decoding an encoded category gives that category back.
pub proof fn lemma_decode_encode(c: Category)
    ensures
        decoding(c.encoding()) == Ok::<Category, DecodeError>(c),
{
}

/// A byte that no category encodes to decodes to `UnknownCategory`.
pub proof fn lemma_decode_unknown(d: u8)
    requires
        forall|c: Category| c.encoding() != seq![d],
    ensures
        decoding(seq![d]) == Err::<Category, DecodeError>(DecodeError::UnknownCategory),
{
    if let Some(c) = category_of(d) {
        assert(c.encoding() == seq![d]);
    }
}

/// Each discriminant belongs to at most one category: the encoding is injective.
pub proof fn lemma_encode_injective(a: Category, b: Category)
    requires
        a.encoding() == b.encoding(),
    ensures
        a == b,
{
    assert(a.encoding()[0] == a.discriminant());
    assert(b.encoding()[0] == b.discriminant());
    assert(category_of(a.discriminant()) == Some(a));
    assert(category_of(b.discriminant()) == Some(b));
}

/// Exactly the discriminants below `CATEGORY_COUNT` name a category.
pub proof fn lemma_known_discriminants(d: u8)
    ensures
        category_of(d) is Some <==> d < CATEGORY_COUNT,
        category_of(d) is Some ==> category_of(d)->0.discriminant() == d,
{
}

} // verus!

//! Token-supply queries: which tokens exist, their fixed maximum supplies and
//! mint addresses, what a supply query asks for, and the layout of the
//! on-chain mint record that holds the current supply.

use vstd::prelude::*;

verus! {

/// The tokens whose supply can be queried.
#[derive(Clone, Copy, Debug, PartialEq, Eq, Structural)]
pub enum TokenType {
    Hnt,
    Iot,
    Mobile,
}

/// Which supply figure a query asks for.
#[derive(Clone, Copy, Debug, PartialEq, Eq, Structural)]
pub enum SupplyType {
    Max,
    Circulating,
    Total,
}

/// Parameters of a supply query. An absent or unrecognized supply type is
/// carried as `None`.
pub struct SupplyParams {
    pub supply_type: Option<SupplyType>,
}

/// The fixed maximum supply of a token, in whole tokens.
pub open spec fn spec_max_supply(t: TokenType) -> u64 {
    match t {
        TokenType::Hnt => 223_000_000,
        TokenType::Iot => 200_000_000_000,
        TokenType::Mobile => 230_000_000_000,
    }
}

/// The base58 address of the token's mint account on the chain.
pub open spec fn spec_mint(t: TokenType) -> Seq<char> {
    match t {
        TokenType::Hnt => "hntyVP6YFm1Hg25TN9WGLqM12b8TQmcknKrdu1oxWux"@,
        TokenType::Mobile => "mb1eu7TzEc71KxDpsmsKoucSSuuoGLv1drys1oP2jh6"@,
        TokenType::Iot => "iotEVVZLEywoTn1QdwNPddxPWszn3zFhEot3MfL9fns"@,
    }
}

impl TokenType {
    /// The fixed maximum supply of the token, in whole tokens.
    pub fn max_supply(&self) -> (r: u64)
        ensures
            r == spec_max_supply(*self),
    {
        match self {
            TokenType::Hnt => 223_000_000,
            TokenType::Iot => 200_000_000_000,
            TokenType::Mobile => 230_000_000_000,
        }
    }

    /// The base58 address of the token's mint account on the chain.
    pub fn mint(&self) -> (r: &'static str)
        ensures
            r@ == spec_mint(*self),
    {
        match self {
            TokenType::Hnt => "hntyVP6YFm1Hg25TN9WGLqM12b8TQmcknKrdu1oxWux",
            TokenType::Mobile => "mb1eu7TzEc71KxDpsmsKoucSSuuoGLv1drys1oP2jh6",
            TokenType::Iot => "iotEVVZLEywoTn1QdwNPddxPWszn3zFhEot3MfL9fns",
        }
    }
}

/// What a supply query obliges the service to do.
#[derive(Clone, Copy, Debug, PartialEq, Eq, Structural)]
pub enum SupplyAction {
    /// No supply type was given: respond with an empty body.
    Empty,
    /// Respond with this fixed figure, in whole tokens.
    Fixed(u64),
    /// Query the chain for the mint account's current supply.
    QueryChain,
}

/// The action a supply query calls for.
pub open spec fn spec_supply_plan(t: TokenType, p: SupplyParams) -> SupplyAction {
    match p.supply_type {
        None => SupplyAction::Empty,
        Some(SupplyType::Max) => SupplyAction::Fixed(spec_max_supply(t)),
        Some(SupplyType::Circulating) => SupplyAction::QueryChain,
        Some(SupplyType::Total) => SupplyAction::QueryChain,
    }
}

/// Decides what a supply query asks for: nothing, the fixed maximum, or a
/// query of the chain (both the circulating and the total figure are read
/// from the mint account's current supply).
pub fn supply_plan(token: &TokenType, params: &SupplyParams) -> (r: SupplyAction)
    ensures
        r == spec_supply_plan(*token, *params),
{
    match params.supply_type {
        None => SupplyAction::Empty,
        Some(SupplyType::Max) => SupplyAction::Fixed(token.max_supply()),
        Some(SupplyType::Circulating) => SupplyAction::QueryChain,
        Some(SupplyType::Total) => SupplyAction::QueryChain,
    }
}

/// Length of a mint account record.
pub const MINT_ACCOUNT_LEN: usize = 82;

/// The two fields of a mint account record that a supply query reads.
#[derive(Clone, Copy, Debug, PartialEq, Eq, Structural)]
pub struct MintInfo {
    /// Current supply, in base units of the token.
    pub supply: u64,
    /// Number of base-unit digits after the decimal point.
    pub decimals: u8,
}

/// Whether the four bytes at `at` are a valid optional-field tag: a little
/// endian 32-bit zero or one.
pub open spec fn spec_option_tag_valid(d: Seq<u8>, at: int) -> bool {
    (d[at] == 0 || d[at] == 1) && d[at + 1] == 0 && d[at + 2] == 0 && d[at + 3] == 0
}

/// Whether a byte string starts with a well-formed mint account record:
/// long enough, both optional authority fields carrying a valid tag, and the
/// initialized flag a plain boolean byte.
pub open spec fn spec_mint_data_valid(d: Seq<u8>) -> bool {
    d.len() >= MINT_ACCOUNT_LEN && spec_option_tag_valid(d, 0) && (d[45] == 0 || d[45] == 1)
        && spec_option_tag_valid(d, 46)
}

/// Reads the current supply and the decimals out of a mint account record:
/// a 36-byte optional mint authority, the supply as a little endian 64-bit
/// count of base units, one decimals byte, one initialized byte, and a
/// 36-byte optional freeze authority.
pub fn parse_mint(data: &Vec<u8>) -> (r: Option<MintInfo>)
    ensures
        match r {
            Some(m) => spec_mint_data_valid(data@) && m.supply
                == vstd::bytes::spec_u64_from_le_bytes(data@.subrange(36, 44)) && m.decimals
                == data@[44],
            None => !spec_mint_data_valid(data@),
        },
{
    if data.len() < MINT_ACCOUNT_LEN {
        return None;
    }
    let authority_ok = (data[0] == 0 || data[0] == 1) && data[1] == 0 && data[2] == 0 && data[3]
        == 0;
    let initialized_ok = data[45] == 0 || data[45] == 1;
    let freeze_ok = (data[46] == 0 || data[46] == 1) && data[47] == 0 && data[48] == 0 && data[49]
        == 0;
    if !(authority_ok && initialized_ok && freeze_ok) {
        return None;
    }
    let supply = vstd::bytes::u64_from_le_bytes(&data.as_slice()[36..44]);
    let decimals = data[44];
    Some(MintInfo { supply, decimals })
}

} // verus!

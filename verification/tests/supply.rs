//! Tests of the supply-query logic: fixed figures, mint addresses, the plan a
//! query calls for, and the mint account record parser, cross-checked against
//! the token program's own unpacker.

use helium_address::supply::{
    parse_mint, supply_plan, MintInfo, SupplyAction, SupplyParams, SupplyType, TokenType,
};
use spl_token::solana_program::program_pack::Pack;

/// A well-formed 82-byte mint record: optional mint authority present,
/// the given supply and decimals, initialized, no freeze authority.
fn mint_record(supply: u64, decimals: u8) -> Vec<u8> {
    let mut data = Vec::new();
    data.extend_from_slice(&[1, 0, 0, 0]);
    data.extend_from_slice(&[7u8; 32]);
    data.extend_from_slice(&supply.to_le_bytes());
    data.push(decimals);
    data.push(1);
    data.extend_from_slice(&[0, 0, 0, 0]);
    data.extend_from_slice(&[0u8; 32]);
    assert_eq!(data.len(), 82);
    data
}

#[test]
fn max_supply_figures() {
    assert_eq!(TokenType::Hnt.max_supply(), 223_000_000);
    assert_eq!(TokenType::Iot.max_supply(), 200_000_000_000);
    assert_eq!(TokenType::Mobile.max_supply(), 230_000_000_000);
}

#[test]
fn mint_addresses() {
    assert_eq!(TokenType::Hnt.mint(), "hntyVP6YFm1Hg25TN9WGLqM12b8TQmcknKrdu1oxWux");
    assert_eq!(TokenType::Mobile.mint(), "mb1eu7TzEc71KxDpsmsKoucSSuuoGLv1drys1oP2jh6");
    assert_eq!(TokenType::Iot.mint(), "iotEVVZLEywoTn1QdwNPddxPWszn3zFhEot3MfL9fns");
}

#[test]
fn plan_for_each_query() {
    let none = SupplyParams { supply_type: None };
    let max = SupplyParams { supply_type: Some(SupplyType::Max) };
    let circulating = SupplyParams { supply_type: Some(SupplyType::Circulating) };
    let total = SupplyParams { supply_type: Some(SupplyType::Total) };
    assert_eq!(supply_plan(&TokenType::Hnt, &none), SupplyAction::Empty);
    assert_eq!(supply_plan(&TokenType::Hnt, &max), SupplyAction::Fixed(223_000_000));
    assert_eq!(supply_plan(&TokenType::Iot, &max), SupplyAction::Fixed(200_000_000_000));
    assert_eq!(supply_plan(&TokenType::Mobile, &circulating), SupplyAction::QueryChain);
    assert_eq!(supply_plan(&TokenType::Iot, &total), SupplyAction::QueryChain);
}

#[test]
fn parse_mint_reads_supply_and_decimals() {
    let data = mint_record(163_087_052_527_757_439, 8);
    let info = parse_mint(&data).expect("well-formed record parses");
    assert_eq!(
        info,
        MintInfo { supply: 163_087_052_527_757_439, decimals: 8 }
    );
}

#[test]
fn parse_mint_rejects_malformed_records() {
    // Too short by one byte.
    let mut short = mint_record(5, 6);
    short.pop();
    assert_eq!(parse_mint(&short), None);
    // Invalid optional-authority tag.
    let mut bad_tag = mint_record(5, 6);
    bad_tag[0] = 2;
    assert_eq!(parse_mint(&bad_tag), None);
    let mut bad_tag_high = mint_record(5, 6);
    bad_tag_high[2] = 9;
    assert_eq!(parse_mint(&bad_tag_high), None);
    // Invalid initialized flag.
    let mut bad_flag = mint_record(5, 6);
    bad_flag[45] = 3;
    assert_eq!(parse_mint(&bad_flag), None);
    // Invalid freeze-authority tag.
    let mut bad_freeze = mint_record(5, 6);
    bad_freeze[46] = 7;
    assert_eq!(parse_mint(&bad_freeze), None);
}

#[test]
fn parse_mint_matches_token_program() {
    let good = mint_record(987_654_321_000, 9);
    let ours = parse_mint(&good).expect("well-formed record parses");
    let theirs = spl_token::state::Mint::unpack_from_slice(&good).expect("program accepts it");
    assert_eq!(ours.supply, theirs.supply);
    assert_eq!(ours.decimals, theirs.decimals);

    let mut bad = mint_record(987_654_321_000, 9);
    bad[47] = 1;
    assert_eq!(parse_mint(&bad), None);
    assert!(spl_token::state::Mint::unpack_from_slice(&bad).is_err());
}

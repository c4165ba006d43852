use wasmlib::accessors::ScImmutableAgentID;
use wasmlib::accessors::ScImmutableUint32;
use wasmlib::accessors::ScMutableAgentID;
use wasmlib::accessors::ScMutableBool;
use wasmlib::accessors::ScMutableString;
use wasmlib::accessors::ScMutableUint32;
use wasmlib::bigint::ScBigInt;
use wasmlib::codec::DecodeError;
use wasmlib::codec::ScCodec;
use wasmlib::ids::IdKind;
use wasmlib::ids::ScAgentID;
use wasmlib::ids::ScNftID;
use wasmlib::ids::ScTokenID;
use wasmlib::keyspace::KeySpace;
use wasmlib::params::ImmutableAccountFoundriesParams;
use wasmlib::params::ImmutableAccountNFTAmountInCollectionParams;
use wasmlib::params::ImmutableAccountNFTAmountParams;
use wasmlib::params::ImmutableAccountNFTsInCollectionParams;
use wasmlib::params::ImmutableAccountNFTsParams;
use wasmlib::params::ImmutableBalanceBaseTokenParams;
use wasmlib::params::ImmutableBalanceNativeTokenParams;
use wasmlib::params::ImmutableBalanceParams;
use wasmlib::params::ImmutableFoundryCreateNewParams;
use wasmlib::params::ImmutableGetAccountNonceParams;
use wasmlib::params::ImmutableNativeTokenCreateParams;
use wasmlib::params::ImmutableNativeTokenDestroyParams;
use wasmlib::params::ImmutableNativeTokenModifySupplyParams;
use wasmlib::params::ImmutableNativeTokenParams;
use wasmlib::params::ImmutableNftDataParams;
use wasmlib::params::ImmutableTransferAccountToChainParams;
use wasmlib::params::ImmutableTransferAllowanceToParams;
use wasmlib::params::MutableAccountFoundriesParams;
use wasmlib::params::MutableAccountNFTAmountInCollectionParams;
use wasmlib::params::MutableAccountNFTAmountParams;
use wasmlib::params::MutableAccountNFTsInCollectionParams;
use wasmlib::params::MutableAccountNFTsParams;
use wasmlib::params::MutableBalanceBaseTokenParams;
use wasmlib::params::MutableBalanceNativeTokenParams;
use wasmlib::params::MutableBalanceParams;
use wasmlib::params::MutableFoundryCreateNewParams;
use wasmlib::params::MutableGetAccountNonceParams;
use wasmlib::params::MutableNativeTokenCreateParams;
use wasmlib::params::MutableNativeTokenDestroyParams;
use wasmlib::params::MutableNativeTokenModifySupplyParams;
use wasmlib::params::MutableNativeTokenParams;
use wasmlib::params::MutableNftDataParams;
use wasmlib::params::MutableTransferAccountToChainParams;
use wasmlib::params::MutableTransferAllowanceToParams;
use wasmlib::params::PARAM_AGENT_ID;
use wasmlib::params::PARAM_COLLECTION;
use wasmlib::params::PARAM_DESTROY_TOKENS;
use wasmlib::params::PARAM_FOUNDRY_SN;
use wasmlib::params::PARAM_GAS_RESERVE;
use wasmlib::params::PARAM_NFT_ID;
use wasmlib::params::PARAM_SUPPLY_DELTA_ABS;
use wasmlib::params::PARAM_TOKEN_DECIMALS;
use wasmlib::params::PARAM_TOKEN_ID;
use wasmlib::params::PARAM_TOKEN_NAME;
use wasmlib::params::PARAM_TOKEN_SCHEME;
use wasmlib::params::PARAM_TOKEN_SYMBOL;
use wasmlib::proxy::CallContext;
use wasmlib::proxy::Proxy;
#[test]
fn unwritten_key_is_absent_and_written_key_is_present() {
    let mut ks = KeySpace::new();
    let field = ScMutableUint32::new(Proxy::new(Vec::new()).root(PARAM_FOUNDRY_SN));
    assert!(!field.is_present(&ks));
    field.set_value(&mut ks, &0);
    assert!(field.is_present(&ks));
    assert_eq!(field.value(&ks), Ok(0));
    let view = ScImmutableUint32::new(Proxy::new(Vec::new()).root(PARAM_FOUNDRY_SN));
    assert!(view.is_present(&ks));
    field.delete(&mut ks);
    assert!(!view.is_present(&ks));
}

#[test]
fn unwritten_accessors_read_defaults() {
    let ks = KeySpace::new();
    let root = Proxy::new(Vec::new());
    assert_eq!(ScImmutableUint32::new(root.root("x")).value(&ks), Ok(0));
    assert_eq!(ScMutableString::new(root.root("x")).value(&ks), Ok(String::new()));
    assert_eq!(ScMutableBool::new(root.root("x")).value(&ks), Ok(false));
    let agent = ScImmutableAgentID::new(root.root("x")).value(&ks).unwrap();
    assert_eq!(agent.kind(), IdKind::Address);
    assert_eq!(agent.payload(), &[0u8; 20][..]);
}

#[test]
fn malformed_agent_id_fails_to_decode() {
    let mut ks = KeySpace::new();
    let ctx = CallContext::enter(Vec::new());
    let mut record = vec![1u8];
    record.extend_from_slice(&[0x11u8; 19]);
    Proxy::new(Vec::new()).root(PARAM_AGENT_ID).set_bytes(&mut ks, &record);
    let params = ImmutableTransferAllowanceToParams::new(&ctx);
    assert!(params.agent_id().is_present(&ks));
    assert_eq!(params.agent_id().value(&ks), Err(DecodeError::WrongLength));
}

#[test]
fn malformed_fixed_width_values_fail_to_decode() {
    let mut ks = KeySpace::new();
    let slot = Proxy::new(Vec::new()).root("s");
    slot.set_bytes(&mut ks, &[1, 2, 3]);
    assert_eq!(ScImmutableUint32::new(slot.clone()).value(&ks), Err(DecodeError::WrongLength));
    assert_eq!(ScMutableBool::new(slot.clone()).value(&ks), Err(DecodeError::WrongLength));
    slot.set_bytes(&mut ks, &[7]);
    assert_eq!(ScMutableBool::new(slot).value(&ks), Err(DecodeError::InvalidByte));
}

#[test]
fn native_token_create_end_to_end() {
    let mut ks = KeySpace::new();
    let ctx = CallContext::enter(vec![0x70]);
    let scheme: Vec<u8> = (0u8..17).collect();
    let out = MutableNativeTokenCreateParams::new(Proxy::new(vec![0x70]));
    out.token_name().set_value(&mut ks, &String::from("Foo"));
    out.token_symbol().set_value(&mut ks, &String::from("FOO"));
    out.token_decimals().set_value(&mut ks, &6);
    out.token_scheme().set_value(&mut ks, &scheme);

    let seen = ImmutableNativeTokenCreateParams::new(&ctx);
    assert_eq!(seen.token_name().value(&ks), Ok(String::from("Foo")));
    assert_eq!(seen.token_symbol().value(&ks), Ok(String::from("FOO")));
    assert_eq!(seen.token_decimals().value(&ks), Ok(6));
    let got = seen.token_scheme().value(&ks).unwrap();
    assert_eq!(got.len(), 17);
    assert_eq!(got, scheme);
    assert_eq!(out.token_name().value(&ks), Ok(String::from("Foo")));
}

#[test]
fn modify_supply_defaults_when_unset() {
    let ks = KeySpace::new();
    let ctx = CallContext::enter(Vec::new());
    let params = ImmutableNativeTokenModifySupplyParams::new(&ctx);
    assert!(!params.foundry_sn().is_present(&ks));
    assert_eq!(params.foundry_sn().value(&ks), Ok(0));
    assert_eq!(params.destroy_tokens().value(&ks), Ok(false));
    let delta = params.supply_delta_abs().value(&ks).unwrap();
    assert!(delta.is_zero());
    assert_eq!(delta.magnitude(), &[0u8; 0][..]);
}

#[test]
fn modify_supply_round_trip() {
    let mut ks = KeySpace::new();
    let ctx = CallContext::enter(Vec::new());
    let out = MutableNativeTokenModifySupplyParams::new(Proxy::new(Vec::new()));
    out.foundry_sn().set_value(&mut ks, &77);
    out.destroy_tokens().set_value(&mut ks, &true);
    out.supply_delta_abs().set_value(&mut ks, &ScBigInt::from_u64(1_000_000));
    let seen = ImmutableNativeTokenModifySupplyParams::new(&ctx);
    assert_eq!(seen.foundry_sn().value(&ks), Ok(77));
    assert_eq!(seen.destroy_tokens().value(&ks), Ok(true));
    assert_eq!(seen.supply_delta_abs().value(&ks), Ok(ScBigInt::from_u64(1_000_000)));
    assert_eq!(
        ks.read(&[1, 0, 0, 0, 0, 0, 0, 0, 0x64]),
        Some(vec![0x0fu8, 0x42, 0x40])
    );
}

#[test]
fn gas_reserve_round_trip() {
    let mut ks = KeySpace::new();
    let ctx = CallContext::enter(vec![1, 2, 3]);
    let out = MutableTransferAccountToChainParams::new(Proxy::new(vec![1, 2, 3]));
    out.gas_reserve().set_value(&mut ks, &10_000_000_000);
    let seen = ImmutableTransferAccountToChainParams::new(&ctx);
    assert_eq!(seen.gas_reserve().value(&ks), Ok(10_000_000_000));
    let other = ImmutableTransferAccountToChainParams::new(&CallContext::enter(vec![1, 2]));
    assert_eq!(other.gas_reserve().value(&ks), Ok(0));
    assert!(!other.gas_reserve().is_present(&ks));
}

#[test]
fn identifier_params_round_trip() {
    let mut ks = KeySpace::new();
    let ctx = CallContext::enter(Vec::new());
    let agent = ScAgentID::new(IdKind::Address, &[0xabu8; 20]).unwrap();
    let nft = ScNftID::new(IdKind::Object, &[0xcdu8; 32]).unwrap();
    let token = ScTokenID::new(IdKind::Object, &[0xefu8; 32]).unwrap();

    let out = MutableAccountNFTAmountInCollectionParams::new(Proxy::new(Vec::new()));
    out.agent_id().set_value(&mut ks, &agent);
    out.collection().set_value(&mut ks, &nft);
    let seen = ImmutableAccountNFTAmountInCollectionParams::new(&ctx);
    assert_eq!(seen.agent_id().value(&ks), Ok(agent.clone()));
    assert_eq!(seen.collection().value(&ks), Ok(nft));

    let out = MutableBalanceNativeTokenParams::new(Proxy::new(Vec::new()));
    out.token_id().set_value(&mut ks, &token);
    let seen = ImmutableBalanceNativeTokenParams::new(&ctx);
    assert_eq!(seen.token_id().value(&ks), Ok(token));
    assert_eq!(seen.agent_id().value(&ks), Ok(agent.clone()));

    let out = MutableTransferAllowanceToParams::new(Proxy::new(Vec::new()));
    let field: ScMutableAgentID = out.agent_id();
    field.delete(&mut ks);
    assert_eq!(field.value(&ks), Ok(ScAgentID::default_value()));
}

#[test]
fn param_accessors_address_the_child_of_their_key() {
    let ctx = CallContext::enter(vec![0x50]);
    let seen = ImmutableNativeTokenCreateParams::new(&ctx);
    assert_eq!(
        seen.token_name().key(),
        &[0x50, 2, 0, 0, 0, 0, 0, 0, 0, 0x74, 0x6e][..]
    );
    assert_eq!(
        seen.token_scheme().key(),
        &[0x50, 1, 0, 0, 0, 0, 0, 0, 0, 0x74][..]
    );
    let out = MutableNativeTokenCreateParams::new(Proxy::new(vec![0x50]));
    assert_eq!(out.token_name().key(), seen.token_name().key());
    assert_eq!(out.token_decimals().key(), seen.token_decimals().key());
    assert_ne!(out.token_symbol().key(), seen.token_scheme().key());
}

#[test]
fn param_keys_are_pairwise_different() {
    let keys = [
        PARAM_AGENT_ID,
        PARAM_COLLECTION,
        PARAM_DESTROY_TOKENS,
        PARAM_FOUNDRY_SN,
        PARAM_GAS_RESERVE,
        PARAM_NFT_ID,
        PARAM_SUPPLY_DELTA_ABS,
        PARAM_TOKEN_DECIMALS,
        PARAM_TOKEN_ID,
        PARAM_TOKEN_NAME,
        PARAM_TOKEN_SCHEME,
        PARAM_TOKEN_SYMBOL,
    ];
    assert_eq!(PARAM_AGENT_ID.as_bytes(), &[0x61u8][..]);
    assert_eq!(PARAM_TOKEN_DECIMALS.as_bytes(), &[0x74u8, 0x64][..]);
    let root = Proxy::new(Vec::new());
    for i in 0..keys.len() {
        assert!(!keys[i].is_empty());
        for j in (i + 1)..keys.len() {
            assert_ne!(keys[i], keys[j]);
            assert_ne!(root.root(keys[i]).key(), root.root(keys[j]).key());
        }
    }
}

#[test]
fn every_params_struct_reads_what_its_twin_wrote() {
    let mut ks = KeySpace::new();
    let ctx = CallContext::enter(Vec::new());
    let root = Proxy::new(Vec::new());
    let agent = ScAgentID::new(IdKind::Object, &[1u8; 32]).unwrap();
    let nft = ScNftID::new(IdKind::Object, &[2u8; 32]).unwrap();

    MutableFoundryCreateNewParams::new(root.clone()).token_scheme().set_value(&mut ks, &vec![1, 2]);
    assert_eq!(ImmutableFoundryCreateNewParams::new(&ctx).token_scheme().value(&ks), Ok(vec![1u8, 2]));

    MutableNativeTokenDestroyParams::new(root.clone()).foundry_sn().set_value(&mut ks, &5);
    assert_eq!(ImmutableNativeTokenDestroyParams::new(&ctx).foundry_sn().value(&ks), Ok(5));
    assert_eq!(ImmutableNativeTokenParams::new(&ctx).foundry_sn().value(&ks), Ok(5));
    MutableNativeTokenParams::new(root.clone()).foundry_sn().set_value(&mut ks, &6);
    assert_eq!(ImmutableNativeTokenParams::new(&ctx).foundry_sn().value(&ks), Ok(6));

    MutableAccountFoundriesParams::new(root.clone()).agent_id().set_value(&mut ks, &agent);
    assert_eq!(ImmutableAccountFoundriesParams::new(&ctx).agent_id().value(&ks), Ok(agent.clone()));
    assert_eq!(ImmutableAccountNFTAmountParams::new(&ctx).agent_id().value(&ks), Ok(agent.clone()));
    assert_eq!(ImmutableAccountNFTsParams::new(&ctx).agent_id().value(&ks), Ok(agent.clone()));
    assert_eq!(ImmutableBalanceParams::new(&ctx).agent_id().value(&ks), Ok(agent.clone()));
    assert_eq!(ImmutableBalanceBaseTokenParams::new(&ctx).agent_id().value(&ks), Ok(agent.clone()));
    assert_eq!(ImmutableGetAccountNonceParams::new(&ctx).agent_id().value(&ks), Ok(agent.clone()));
    assert_eq!(ImmutableAccountNFTsInCollectionParams::new(&ctx).agent_id().value(&ks), Ok(agent.clone()));

    MutableAccountNFTsInCollectionParams::new(root.clone()).collection().set_value(&mut ks, &nft);
    assert_eq!(ImmutableAccountNFTsInCollectionParams::new(&ctx).collection().value(&ks), Ok(nft.clone()));
    assert_eq!(ImmutableNftDataParams::new(&ctx).nft_id().value(&ks), Ok(ScNftID::default_value()));
    MutableNftDataParams::new(root.clone()).nft_id().set_value(&mut ks, &nft);
    assert_eq!(ImmutableNftDataParams::new(&ctx).nft_id().value(&ks), Ok(nft));

    let other = ScAgentID::new(IdKind::Address, &[3u8; 20]).unwrap();
    MutableAccountNFTAmountParams::new(root.clone()).agent_id().set_value(&mut ks, &other);
    assert_eq!(ImmutableAccountNFTsParams::new(&ctx).agent_id().value(&ks), Ok(other.clone()));
    MutableAccountNFTsParams::new(root.clone()).agent_id().delete(&mut ks);
    assert!(!MutableBalanceParams::new(root.clone()).agent_id().is_present(&ks));
    MutableBalanceBaseTokenParams::new(root.clone()).agent_id().set_value(&mut ks, &other);
    assert!(MutableGetAccountNonceParams::new(root.clone()).agent_id().is_present(&ks));
}

//! The parameters of each entry point and view of the accounts contract.
//!
//! Each parameter set comes twice: read-only, for the side that receives the
//! call, and read-write, for the side that fills the parameters in. Every
//! field is a typed accessor at the child of the set's root that the field's
//! key names.

use vstd::prelude::*;
use vstd::string::*;
use vstd::utf8::is_ascii_chars_encode_utf8;
use crate::accessors::ScImmutableAgentID;
use crate::accessors::ScImmutableBigInt;
use crate::accessors::ScImmutableBool;
use crate::accessors::ScImmutableBytes;
use crate::accessors::ScImmutableNftID;
use crate::accessors::ScImmutableString;
use crate::accessors::ScImmutableTokenID;
use crate::accessors::ScImmutableUint32;
use crate::accessors::ScImmutableUint64;
use crate::accessors::ScImmutableUint8;
use crate::accessors::ScMutableAgentID;
use crate::accessors::ScMutableBigInt;
use crate::accessors::ScMutableBool;
use crate::accessors::ScMutableBytes;
use crate::accessors::ScMutableNftID;
use crate::accessors::ScMutableString;
use crate::accessors::ScMutableTokenID;
use crate::accessors::ScMutableUint32;
use crate::accessors::ScMutableUint64;
use crate::accessors::ScMutableUint8;
use crate::proxy::child_key;
use crate::proxy::lemma_children_differ;
use crate::proxy::params_proxy;
use crate::proxy::CallContext;
use crate::proxy::Proxy;

verus! {

/// The key of the agent.
pub const PARAM_AGENT_ID: &'static str = "a";

/// The key of the collection.
pub const PARAM_COLLECTION: &'static str = "C";

/// The key of the choice between minting and destroying.
pub const PARAM_DESTROY_TOKENS: &'static str = "y";

/// The key of the serial number of the foundry.
pub const PARAM_FOUNDRY_SN: &'static str = "s";

/// The key of the gas reserve.
pub const PARAM_GAS_RESERVE: &'static str = "g";

/// The key of the non-fungible token.
pub const PARAM_NFT_ID: &'static str = "z";

/// The key of the size of the change in supply.
pub const PARAM_SUPPLY_DELTA_ABS: &'static str = "d";

/// The key of the decimals of the token.
pub const PARAM_TOKEN_DECIMALS: &'static str = "td";

/// The key of the native token.
pub const PARAM_TOKEN_ID: &'static str = "N";

/// The key of the name of the token.
pub const PARAM_TOKEN_NAME: &'static str = "tn";

/// The key of the token scheme.
pub const PARAM_TOKEN_SCHEME: &'static str = "t";

/// The key of the symbol of the token.
pub const PARAM_TOKEN_SYMBOL: &'static str = "ts";

/// The keys of all parameters, in the order of their names.
pub open spec fn param_keys() -> Seq<Seq<u8>> {
    seq![
        PARAM_AGENT_ID.spec_bytes(),
        PARAM_COLLECTION.spec_bytes(),
        PARAM_DESTROY_TOKENS.spec_bytes(),
        PARAM_FOUNDRY_SN.spec_bytes(),
        PARAM_GAS_RESERVE.spec_bytes(),
        PARAM_NFT_ID.spec_bytes(),
        PARAM_SUPPLY_DELTA_ABS.spec_bytes(),
        PARAM_TOKEN_DECIMALS.spec_bytes(),
        PARAM_TOKEN_ID.spec_bytes(),
        PARAM_TOKEN_NAME.spec_bytes(),
        PARAM_TOKEN_SCHEME.spec_bytes(),
        PARAM_TOKEN_SYMBOL.spec_bytes(),
    ]
}

/// The bytes of each key: the ASCII codes of its letters.
pub proof fn lemma_param_key_bytes()
    ensures
        PARAM_AGENT_ID.spec_bytes() == seq![0x61u8],
        PARAM_COLLECTION.spec_bytes() == seq![0x43u8],
        PARAM_DESTROY_TOKENS.spec_bytes() == seq![0x79u8],
        PARAM_FOUNDRY_SN.spec_bytes() == seq![0x73u8],
        PARAM_GAS_RESERVE.spec_bytes() == seq![0x67u8],
        PARAM_NFT_ID.spec_bytes() == seq![0x7au8],
        PARAM_SUPPLY_DELTA_ABS.spec_bytes() == seq![0x64u8],
        PARAM_TOKEN_DECIMALS.spec_bytes() == seq![0x74u8, 0x64u8],
        PARAM_TOKEN_ID.spec_bytes() == seq![0x4eu8],
        PARAM_TOKEN_NAME.spec_bytes() == seq![0x74u8, 0x6eu8],
        PARAM_TOKEN_SCHEME.spec_bytes() == seq![0x74u8],
        PARAM_TOKEN_SYMBOL.spec_bytes() == seq![0x74u8, 0x73u8],
{
    reveal_strlit("a");
    reveal_strlit("C");
    reveal_strlit("y");
    reveal_strlit("s");
    reveal_strlit("g");
    reveal_strlit("z");
    reveal_strlit("d");
    reveal_strlit("td");
    reveal_strlit("N");
    reveal_strlit("tn");
    reveal_strlit("t");
    reveal_strlit("ts");
    is_ascii_chars_encode_utf8(PARAM_AGENT_ID@);
    is_ascii_chars_encode_utf8(PARAM_COLLECTION@);
    is_ascii_chars_encode_utf8(PARAM_DESTROY_TOKENS@);
    is_ascii_chars_encode_utf8(PARAM_FOUNDRY_SN@);
    is_ascii_chars_encode_utf8(PARAM_GAS_RESERVE@);
    is_ascii_chars_encode_utf8(PARAM_NFT_ID@);
    is_ascii_chars_encode_utf8(PARAM_SUPPLY_DELTA_ABS@);
    is_ascii_chars_encode_utf8(PARAM_TOKEN_DECIMALS@);
    is_ascii_chars_encode_utf8(PARAM_TOKEN_ID@);
    is_ascii_chars_encode_utf8(PARAM_TOKEN_NAME@);
    is_ascii_chars_encode_utf8(PARAM_TOKEN_SCHEME@);
    is_ascii_chars_encode_utf8(PARAM_TOKEN_SYMBOL@);
    assert(PARAM_AGENT_ID.spec_bytes() =~= seq![0x61u8]);
    assert(PARAM_COLLECTION.spec_bytes() =~= seq![0x43u8]);
    assert(PARAM_DESTROY_TOKENS.spec_bytes() =~= seq![0x79u8]);
    assert(PARAM_FOUNDRY_SN.spec_bytes() =~= seq![0x73u8]);
    assert(PARAM_GAS_RESERVE.spec_bytes() =~= seq![0x67u8]);
    assert(PARAM_NFT_ID.spec_bytes() =~= seq![0x7au8]);
    assert(PARAM_SUPPLY_DELTA_ABS.spec_bytes() =~= seq![0x64u8]);
    assert(PARAM_TOKEN_DECIMALS.spec_bytes() =~= seq![0x74u8, 0x64u8]);
    assert(PARAM_TOKEN_ID.spec_bytes() =~= seq![0x4eu8]);
    assert(PARAM_TOKEN_NAME.spec_bytes() =~= seq![0x74u8, 0x6eu8]);
    assert(PARAM_TOKEN_SCHEME.spec_bytes() =~= seq![0x74u8]);
    assert(PARAM_TOKEN_SYMBOL.spec_bytes() =~= seq![0x74u8, 0x73u8]);
}

/// No two parameters share a key: under one root, the fields of different
/// names address different locations.
pub proof fn lemma_param_keys_distinct(root: Seq<u8>, i: int, j: int)
    requires
        0 <= i < j < param_keys().len(),
    ensures
        child_key(root, param_keys()[i]) != child_key(root, param_keys()[j]),
{
    lemma_param_key_bytes();
    let a = param_keys()[i];
    let b = param_keys()[j];
    assert(a.len() != b.len() || a[0] != b[0] || (a.len() == 2 && a[1] != b[1]));
    lemma_children_differ(root, a, b);
}

/// The parameters of "foundry create new", read-only.
#[derive(Clone)]
pub struct ImmutableFoundryCreateNewParams {
    proxy: Proxy,
}

impl View for ImmutableFoundryCreateNewParams {
    type V = Seq<u8>;

    /// The root key of the parameter set.
    closed spec fn view(&self) -> Seq<u8> {
        self.proxy@
    }
}

impl ImmutableFoundryCreateNewParams {
    /// The parameters of the active call.
    pub fn new(ctx: &CallContext) -> (r: ImmutableFoundryCreateNewParams)
        requires
            ctx.active(),
        ensures
            r@ == ctx.params_root(),
    {
        ImmutableFoundryCreateNewParams { proxy: params_proxy(ctx) }
    }

    /// Token scheme for the new foundry.
    pub fn token_scheme(&self) -> (r: ScImmutableBytes)
        ensures
            r@ == child_key(self@, PARAM_TOKEN_SCHEME.spec_bytes()),
    {
        proof {
            reveal_strlit("t");
        }
        ScImmutableBytes::new(self.proxy.root(PARAM_TOKEN_SCHEME))
    }
}

/// The parameters of "foundry create new", read-write.
#[derive(Clone)]
pub struct MutableFoundryCreateNewParams {
    proxy: Proxy,
}

impl View for MutableFoundryCreateNewParams {
    type V = Seq<u8>;

    /// The root key of the parameter set.
    closed spec fn view(&self) -> Seq<u8> {
        self.proxy@
    }
}

impl MutableFoundryCreateNewParams {
    /// The parameters under `proxy`, to be filled in.
    pub fn new(proxy: Proxy) -> (r: MutableFoundryCreateNewParams)
        ensures
            r@ == proxy@,
    {
        MutableFoundryCreateNewParams { proxy }
    }

    /// Token scheme for the new foundry.
    pub fn token_scheme(&self) -> (r: ScMutableBytes)
        ensures
            r@ == child_key(self@, PARAM_TOKEN_SCHEME.spec_bytes()),
    {
        proof {
            reveal_strlit("t");
        }
        ScMutableBytes::new(self.proxy.root(PARAM_TOKEN_SCHEME))
    }
}

/// The parameters of "native token create", read-only.
#[derive(Clone)]
pub struct ImmutableNativeTokenCreateParams {
    proxy: Proxy,
}

impl View for ImmutableNativeTokenCreateParams {
    type V = Seq<u8>;

    /// The root key of the parameter set.
    closed spec fn view(&self) -> Seq<u8> {
        self.proxy@
    }
}

impl ImmutableNativeTokenCreateParams {
    /// The parameters of the active call.
    pub fn new(ctx: &CallContext) -> (r: ImmutableNativeTokenCreateParams)
        requires
            ctx.active(),
        ensures
            r@ == ctx.params_root(),
    {
        ImmutableNativeTokenCreateParams { proxy: params_proxy(ctx) }
    }

    /// The decimals of the token.
    pub fn token_decimals(&self) -> (r: ScImmutableUint8)
        ensures
            r@ == child_key(self@, PARAM_TOKEN_DECIMALS.spec_bytes()),
    {
        proof {
            reveal_strlit("td");
        }
        ScImmutableUint8::new(self.proxy.root(PARAM_TOKEN_DECIMALS))
    }

    /// The name of the token.
    pub fn token_name(&self) -> (r: ScImmutableString)
        ensures
            r@ == child_key(self@, PARAM_TOKEN_NAME.spec_bytes()),
    {
        proof {
            reveal_strlit("tn");
        }
        ScImmutableString::new(self.proxy.root(PARAM_TOKEN_NAME))
    }

    /// Token scheme for the new foundry.
    pub fn token_scheme(&self) -> (r: ScImmutableBytes)
        ensures
            r@ == child_key(self@, PARAM_TOKEN_SCHEME.spec_bytes()),
    {
        proof {
            reveal_strlit("t");
        }
        ScImmutableBytes::new(self.proxy.root(PARAM_TOKEN_SCHEME))
    }

    /// The symbol of the token.
    pub fn token_symbol(&self) -> (r: ScImmutableString)
        ensures
            r@ == child_key(self@, PARAM_TOKEN_SYMBOL.spec_bytes()),
    {
        proof {
            reveal_strlit("ts");
        }
        ScImmutableString::new(self.proxy.root(PARAM_TOKEN_SYMBOL))
    }
}

/// The parameters of "native token create", read-write.
#[derive(Clone)]
pub struct MutableNativeTokenCreateParams {
    proxy: Proxy,
}

impl View for MutableNativeTokenCreateParams {
    type V = Seq<u8>;

    /// The root key of the parameter set.
    closed spec fn view(&self) -> Seq<u8> {
        self.proxy@
    }
}

impl MutableNativeTokenCreateParams {
    /// The parameters under `proxy`, to be filled in.
    pub fn new(proxy: Proxy) -> (r: MutableNativeTokenCreateParams)
        ensures
            r@ == proxy@,
    {
        MutableNativeTokenCreateParams { proxy }
    }

    /// The decimals of the token.
    pub fn token_decimals(&self) -> (r: ScMutableUint8)
        ensures
            r@ == child_key(self@, PARAM_TOKEN_DECIMALS.spec_bytes()),
    {
        proof {
            reveal_strlit("td");
        }
        ScMutableUint8::new(self.proxy.root(PARAM_TOKEN_DECIMALS))
    }

    /// The name of the token.
    pub fn token_name(&self) -> (r: ScMutableString)
        ensures
            r@ == child_key(self@, PARAM_TOKEN_NAME.spec_bytes()),
    {
        proof {
            reveal_strlit("tn");
        }
        ScMutableString::new(self.proxy.root(PARAM_TOKEN_NAME))
    }

    /// Token scheme for the new foundry.
    pub fn token_scheme(&self) -> (r: ScMutableBytes)
        ensures
            r@ == child_key(self@, PARAM_TOKEN_SCHEME.spec_bytes()),
    {
        proof {
            reveal_strlit("t");
        }
        ScMutableBytes::new(self.proxy.root(PARAM_TOKEN_SCHEME))
    }

    /// The symbol of the token.
    pub fn token_symbol(&self) -> (r: ScMutableString)
        ensures
            r@ == child_key(self@, PARAM_TOKEN_SYMBOL.spec_bytes()),
    {
        proof {
            reveal_strlit("ts");
        }
        ScMutableString::new(self.proxy.root(PARAM_TOKEN_SYMBOL))
    }
}

/// The parameters of "native token destroy", read-only.
#[derive(Clone)]
pub struct ImmutableNativeTokenDestroyParams {
    proxy: Proxy,
}

impl View for ImmutableNativeTokenDestroyParams {
    type V = Seq<u8>;

    /// The root key of the parameter set.
    closed spec fn view(&self) -> Seq<u8> {
        self.proxy@
    }
}

impl ImmutableNativeTokenDestroyParams {
    /// The parameters of the active call.
    pub fn new(ctx: &CallContext) -> (r: ImmutableNativeTokenDestroyParams)
        requires
            ctx.active(),
        ensures
            r@ == ctx.params_root(),
    {
        ImmutableNativeTokenDestroyParams { proxy: params_proxy(ctx) }
    }

    /// Serial number of the foundry.
    pub fn foundry_sn(&self) -> (r: ScImmutableUint32)
        ensures
            r@ == child_key(self@, PARAM_FOUNDRY_SN.spec_bytes()),
    {
        proof {
            reveal_strlit("s");
        }
        ScImmutableUint32::new(self.proxy.root(PARAM_FOUNDRY_SN))
    }
}

/// The parameters of "native token destroy", read-write.
#[derive(Clone)]
pub struct MutableNativeTokenDestroyParams {
    proxy: Proxy,
}

impl View for MutableNativeTokenDestroyParams {
    type V = Seq<u8>;

    /// The root key of the parameter set.
    closed spec fn view(&self) -> Seq<u8> {
        self.proxy@
    }
}

impl MutableNativeTokenDestroyParams {
    /// The parameters under `proxy`, to be filled in.
    pub fn new(proxy: Proxy) -> (r: MutableNativeTokenDestroyParams)
        ensures
            r@ == proxy@,
    {
        MutableNativeTokenDestroyParams { proxy }
    }

    /// Serial number of the foundry.
    pub fn foundry_sn(&self) -> (r: ScMutableUint32)
        ensures
            r@ == child_key(self@, PARAM_FOUNDRY_SN.spec_bytes()),
    {
        proof {
            reveal_strlit("s");
        }
        ScMutableUint32::new(self.proxy.root(PARAM_FOUNDRY_SN))
    }
}

/// The parameters of "native token modify supply", read-only.
#[derive(Clone)]
pub struct ImmutableNativeTokenModifySupplyParams {
    proxy: Proxy,
}

impl View for ImmutableNativeTokenModifySupplyParams {
    type V = Seq<u8>;

    /// The root key of the parameter set.
    closed spec fn view(&self) -> Seq<u8> {
        self.proxy@
    }
}

impl ImmutableNativeTokenModifySupplyParams {
    /// The parameters of the active call.
    pub fn new(ctx: &CallContext) -> (r: ImmutableNativeTokenModifySupplyParams)
        requires
            ctx.active(),
        ensures
            r@ == ctx.params_root(),
    {
        ImmutableNativeTokenModifySupplyParams { proxy: params_proxy(ctx) }
    }

    /// Mint (default) or destroy tokens.
    pub fn destroy_tokens(&self) -> (r: ScImmutableBool)
        ensures
            r@ == child_key(self@, PARAM_DESTROY_TOKENS.spec_bytes()),
    {
        proof {
            reveal_strlit("y");
        }
        ScImmutableBool::new(self.proxy.root(PARAM_DESTROY_TOKENS))
    }

    /// Serial number of the foundry.
    pub fn foundry_sn(&self) -> (r: ScImmutableUint32)
        ensures
            r@ == child_key(self@, PARAM_FOUNDRY_SN.spec_bytes()),
    {
        proof {
            reveal_strlit("s");
        }
        ScImmutableUint32::new(self.proxy.root(PARAM_FOUNDRY_SN))
    }

    /// Positive nonzero amount to mint or destroy.
    pub fn supply_delta_abs(&self) -> (r: ScImmutableBigInt)
        ensures
            r@ == child_key(self@, PARAM_SUPPLY_DELTA_ABS.spec_bytes()),
    {
        proof {
            reveal_strlit("d");
        }
        ScImmutableBigInt::new(self.proxy.root(PARAM_SUPPLY_DELTA_ABS))
    }
}

/// The parameters of "native token modify supply", read-write.
#[derive(Clone)]
pub struct MutableNativeTokenModifySupplyParams {
    proxy: Proxy,
}

impl View for MutableNativeTokenModifySupplyParams {
    type V = Seq<u8>;

    /// The root key of the parameter set.
    closed spec fn view(&self) -> Seq<u8> {
        self.proxy@
    }
}

impl MutableNativeTokenModifySupplyParams {
    /// The parameters under `proxy`, to be filled in.
    pub fn new(proxy: Proxy) -> (r: MutableNativeTokenModifySupplyParams)
        ensures
            r@ == proxy@,
    {
        MutableNativeTokenModifySupplyParams { proxy }
    }

    /// Mint (default) or destroy tokens.
    pub fn destroy_tokens(&self) -> (r: ScMutableBool)
        ensures
            r@ == child_key(self@, PARAM_DESTROY_TOKENS.spec_bytes()),
    {
        proof {
            reveal_strlit("y");
        }
        ScMutableBool::new(self.proxy.root(PARAM_DESTROY_TOKENS))
    }

    /// Serial number of the foundry.
    pub fn foundry_sn(&self) -> (r: ScMutableUint32)
        ensures
            r@ == child_key(self@, PARAM_FOUNDRY_SN.spec_bytes()),
    {
        proof {
            reveal_strlit("s");
        }
        ScMutableUint32::new(self.proxy.root(PARAM_FOUNDRY_SN))
    }

    /// Positive nonzero amount to mint or destroy.
    pub fn supply_delta_abs(&self) -> (r: ScMutableBigInt)
        ensures
            r@ == child_key(self@, PARAM_SUPPLY_DELTA_ABS.spec_bytes()),
    {
        proof {
            reveal_strlit("d");
        }
        ScMutableBigInt::new(self.proxy.root(PARAM_SUPPLY_DELTA_ABS))
    }
}

/// The parameters of "transfer account to chain", read-only.
#[derive(Clone)]
pub struct ImmutableTransferAccountToChainParams {
    proxy: Proxy,
}

impl View for ImmutableTransferAccountToChainParams {
    type V = Seq<u8>;

    /// The root key of the parameter set.
    closed spec fn view(&self) -> Seq<u8> {
        self.proxy@
    }
}

impl ImmutableTransferAccountToChainParams {
    /// The parameters of the active call.
    pub fn new(ctx: &CallContext) -> (r: ImmutableTransferAccountToChainParams)
        requires
            ctx.active(),
        ensures
            r@ == ctx.params_root(),
    {
        ImmutableTransferAccountToChainParams { proxy: params_proxy(ctx) }
    }

    /// Optional gas amount to reserve in the allowance for the internal.
    /// Call to transferAllowanceTo(). Default 10_000 (MinGasFee)..
    pub fn gas_reserve(&self) -> (r: ScImmutableUint64)
        ensures
            r@ == child_key(self@, PARAM_GAS_RESERVE.spec_bytes()),
    {
        proof {
            reveal_strlit("g");
        }
        ScImmutableUint64::new(self.proxy.root(PARAM_GAS_RESERVE))
    }
}

/// The parameters of "transfer account to chain", read-write.
#[derive(Clone)]
pub struct MutableTransferAccountToChainParams {
    proxy: Proxy,
}

impl View for MutableTransferAccountToChainParams {
    type V = Seq<u8>;

    /// The root key of the parameter set.
    closed spec fn view(&self) -> Seq<u8> {
        self.proxy@
    }
}

impl MutableTransferAccountToChainParams {
    /// The parameters under `proxy`, to be filled in.
    pub fn new(proxy: Proxy) -> (r: MutableTransferAccountToChainParams)
        ensures
            r@ == proxy@,
    {
        MutableTransferAccountToChainParams { proxy }
    }

    /// Optional gas amount to reserve in the allowance for the internal.
    /// Call to transferAllowanceTo(). Default 10_000 (MinGasFee)..
    pub fn gas_reserve(&self) -> (r: ScMutableUint64)
        ensures
            r@ == child_key(self@, PARAM_GAS_RESERVE.spec_bytes()),
    {
        proof {
            reveal_strlit("g");
        }
        ScMutableUint64::new(self.proxy.root(PARAM_GAS_RESERVE))
    }
}

/// The parameters of "transfer allowance to", read-only.
#[derive(Clone)]
pub struct ImmutableTransferAllowanceToParams {
    proxy: Proxy,
}

impl View for ImmutableTransferAllowanceToParams {
    type V = Seq<u8>;

    /// The root key of the parameter set.
    closed spec fn view(&self) -> Seq<u8> {
        self.proxy@
    }
}

impl ImmutableTransferAllowanceToParams {
    /// The parameters of the active call.
    pub fn new(ctx: &CallContext) -> (r: ImmutableTransferAllowanceToParams)
        requires
            ctx.active(),
        ensures
            r@ == ctx.params_root(),
    {
        ImmutableTransferAllowanceToParams { proxy: params_proxy(ctx) }
    }

    /// The target L2 account.
    pub fn agent_id(&self) -> (r: ScImmutableAgentID)
        ensures
            r@ == child_key(self@, PARAM_AGENT_ID.spec_bytes()),
    {
        proof {
            reveal_strlit("a");
        }
        ScImmutableAgentID::new(self.proxy.root(PARAM_AGENT_ID))
    }
}

/// The parameters of "transfer allowance to", read-write.
#[derive(Clone)]
pub struct MutableTransferAllowanceToParams {
    proxy: Proxy,
}

impl View for MutableTransferAllowanceToParams {
    type V = Seq<u8>;

    /// The root key of the parameter set.
    closed spec fn view(&self) -> Seq<u8> {
        self.proxy@
    }
}

impl MutableTransferAllowanceToParams {
    /// The parameters under `proxy`, to be filled in.
    pub fn new(proxy: Proxy) -> (r: MutableTransferAllowanceToParams)
        ensures
            r@ == proxy@,
    {
        MutableTransferAllowanceToParams { proxy }
    }

    /// The target L2 account.
    pub fn agent_id(&self) -> (r: ScMutableAgentID)
        ensures
            r@ == child_key(self@, PARAM_AGENT_ID.spec_bytes()),
    {
        proof {
            reveal_strlit("a");
        }
        ScMutableAgentID::new(self.proxy.root(PARAM_AGENT_ID))
    }
}

/// The parameters of "account foundries", read-only.
#[derive(Clone)]
pub struct ImmutableAccountFoundriesParams {
    proxy: Proxy,
}

impl View for ImmutableAccountFoundriesParams {
    type V = Seq<u8>;

    /// The root key of the parameter set.
    closed spec fn view(&self) -> Seq<u8> {
        self.proxy@
    }
}

impl ImmutableAccountFoundriesParams {
    /// The parameters of the active call.
    pub fn new(ctx: &CallContext) -> (r: ImmutableAccountFoundriesParams)
        requires
            ctx.active(),
        ensures
            r@ == ctx.params_root(),
    {
        ImmutableAccountFoundriesParams { proxy: params_proxy(ctx) }
    }

    /// Account agent ID.
    pub fn agent_id(&self) -> (r: ScImmutableAgentID)
        ensures
            r@ == child_key(self@, PARAM_AGENT_ID.spec_bytes()),
    {
        proof {
            reveal_strlit("a");
        }
        ScImmutableAgentID::new(self.proxy.root(PARAM_AGENT_ID))
    }
}

/// The parameters of "account foundries", read-write.
#[derive(Clone)]
pub struct MutableAccountFoundriesParams {
    proxy: Proxy,
}

impl View for MutableAccountFoundriesParams {
    type V = Seq<u8>;

    /// The root key of the parameter set.
    closed spec fn view(&self) -> Seq<u8> {
        self.proxy@
    }
}

impl MutableAccountFoundriesParams {
    /// The parameters under `proxy`, to be filled in.
    pub fn new(proxy: Proxy) -> (r: MutableAccountFoundriesParams)
        ensures
            r@ == proxy@,
    {
        MutableAccountFoundriesParams { proxy }
    }

    /// Account agent ID.
    pub fn agent_id(&self) -> (r: ScMutableAgentID)
        ensures
            r@ == child_key(self@, PARAM_AGENT_ID.spec_bytes()),
    {
        proof {
            reveal_strlit("a");
        }
        ScMutableAgentID::new(self.proxy.root(PARAM_AGENT_ID))
    }
}

/// The parameters of "account nft amount", read-only.
#[derive(Clone)]
pub struct ImmutableAccountNFTAmountParams {
    proxy: Proxy,
}

impl View for ImmutableAccountNFTAmountParams {
    type V = Seq<u8>;

    /// The root key of the parameter set.
    closed spec fn view(&self) -> Seq<u8> {
        self.proxy@
    }
}

impl ImmutableAccountNFTAmountParams {
    /// The parameters of the active call.
    pub fn new(ctx: &CallContext) -> (r: ImmutableAccountNFTAmountParams)
        requires
            ctx.active(),
        ensures
            r@ == ctx.params_root(),
    {
        ImmutableAccountNFTAmountParams { proxy: params_proxy(ctx) }
    }

    /// Account agent ID.
    pub fn agent_id(&self) -> (r: ScImmutableAgentID)
        ensures
            r@ == child_key(self@, PARAM_AGENT_ID.spec_bytes()),
    {
        proof {
            reveal_strlit("a");
        }
        ScImmutableAgentID::new(self.proxy.root(PARAM_AGENT_ID))
    }
}

/// The parameters of "account nft amount", read-write.
#[derive(Clone)]
pub struct MutableAccountNFTAmountParams {
    proxy: Proxy,
}

impl View for MutableAccountNFTAmountParams {
    type V = Seq<u8>;

    /// The root key of the parameter set.
    closed spec fn view(&self) -> Seq<u8> {
        self.proxy@
    }
}

impl MutableAccountNFTAmountParams {
    /// The parameters under `proxy`, to be filled in.
    pub fn new(proxy: Proxy) -> (r: MutableAccountNFTAmountParams)
        ensures
            r@ == proxy@,
    {
        MutableAccountNFTAmountParams { proxy }
    }

    /// Account agent ID.
    pub fn agent_id(&self) -> (r: ScMutableAgentID)
        ensures
            r@ == child_key(self@, PARAM_AGENT_ID.spec_bytes()),
    {
        proof {
            reveal_strlit("a");
        }
        ScMutableAgentID::new(self.proxy.root(PARAM_AGENT_ID))
    }
}

/// The parameters of "account nft amount in collection", read-only.
#[derive(Clone)]
pub struct ImmutableAccountNFTAmountInCollectionParams {
    proxy: Proxy,
}

impl View for ImmutableAccountNFTAmountInCollectionParams {
    type V = Seq<u8>;

    /// The root key of the parameter set.
    closed spec fn view(&self) -> Seq<u8> {
        self.proxy@
    }
}

impl ImmutableAccountNFTAmountInCollectionParams {
    /// The parameters of the active call.
    pub fn new(ctx: &CallContext) -> (r: ImmutableAccountNFTAmountInCollectionParams)
        requires
            ctx.active(),
        ensures
            r@ == ctx.params_root(),
    {
        ImmutableAccountNFTAmountInCollectionParams { proxy: params_proxy(ctx) }
    }

    /// Account agent ID.
    pub fn agent_id(&self) -> (r: ScImmutableAgentID)
        ensures
            r@ == child_key(self@, PARAM_AGENT_ID.spec_bytes()),
    {
        proof {
            reveal_strlit("a");
        }
        ScImmutableAgentID::new(self.proxy.root(PARAM_AGENT_ID))
    }

    /// NFT ID of collection.
    pub fn collection(&self) -> (r: ScImmutableNftID)
        ensures
            r@ == child_key(self@, PARAM_COLLECTION.spec_bytes()),
    {
        proof {
            reveal_strlit("C");
        }
        ScImmutableNftID::new(self.proxy.root(PARAM_COLLECTION))
    }
}

/// The parameters of "account nft amount in collection", read-write.
#[derive(Clone)]
pub struct MutableAccountNFTAmountInCollectionParams {
    proxy: Proxy,
}

impl View for MutableAccountNFTAmountInCollectionParams {
    type V = Seq<u8>;

    /// The root key of the parameter set.
    closed spec fn view(&self) -> Seq<u8> {
        self.proxy@
    }
}

impl MutableAccountNFTAmountInCollectionParams {
    /// The parameters under `proxy`, to be filled in.
    pub fn new(proxy: Proxy) -> (r: MutableAccountNFTAmountInCollectionParams)
        ensures
            r@ == proxy@,
    {
        MutableAccountNFTAmountInCollectionParams { proxy }
    }

    /// Account agent ID.
    pub fn agent_id(&self) -> (r: ScMutableAgentID)
        ensures
            r@ == child_key(self@, PARAM_AGENT_ID.spec_bytes()),
    {
        proof {
            reveal_strlit("a");
        }
        ScMutableAgentID::new(self.proxy.root(PARAM_AGENT_ID))
    }

    /// NFT ID of collection.
    pub fn collection(&self) -> (r: ScMutableNftID)
        ensures
            r@ == child_key(self@, PARAM_COLLECTION.spec_bytes()),
    {
        proof {
            reveal_strlit("C");
        }
        ScMutableNftID::new(self.proxy.root(PARAM_COLLECTION))
    }
}

/// The parameters of "account nfts", read-only.
#[derive(Clone)]
pub struct ImmutableAccountNFTsParams {
    proxy: Proxy,
}

impl View for ImmutableAccountNFTsParams {
    type V = Seq<u8>;

    /// The root key of the parameter set.
    closed spec fn view(&self) -> Seq<u8> {
        self.proxy@
    }
}

impl ImmutableAccountNFTsParams {
    /// The parameters of the active call.
    pub fn new(ctx: &CallContext) -> (r: ImmutableAccountNFTsParams)
        requires
            ctx.active(),
        ensures
            r@ == ctx.params_root(),
    {
        ImmutableAccountNFTsParams { proxy: params_proxy(ctx) }
    }

    /// Account agent ID.
    pub fn agent_id(&self) -> (r: ScImmutableAgentID)
        ensures
            r@ == child_key(self@, PARAM_AGENT_ID.spec_bytes()),
    {
        proof {
            reveal_strlit("a");
        }
        ScImmutableAgentID::new(self.proxy.root(PARAM_AGENT_ID))
    }
}

/// The parameters of "account nfts", read-write.
#[derive(Clone)]
pub struct MutableAccountNFTsParams {
    proxy: Proxy,
}

impl View for MutableAccountNFTsParams {
    type V = Seq<u8>;

    /// The root key of the parameter set.
    closed spec fn view(&self) -> Seq<u8> {
        self.proxy@
    }
}

impl MutableAccountNFTsParams {
    /// The parameters under `proxy`, to be filled in.
    pub fn new(proxy: Proxy) -> (r: MutableAccountNFTsParams)
        ensures
            r@ == proxy@,
    {
        MutableAccountNFTsParams { proxy }
    }

    /// Account agent ID.
    pub fn agent_id(&self) -> (r: ScMutableAgentID)
        ensures
            r@ == child_key(self@, PARAM_AGENT_ID.spec_bytes()),
    {
        proof {
            reveal_strlit("a");
        }
        ScMutableAgentID::new(self.proxy.root(PARAM_AGENT_ID))
    }
}

/// The parameters of "account nfts in collection", read-only.
#[derive(Clone)]
pub struct ImmutableAccountNFTsInCollectionParams {
    proxy: Proxy,
}

impl View for ImmutableAccountNFTsInCollectionParams {
    type V = Seq<u8>;

    /// The root key of the parameter set.
    closed spec fn view(&self) -> Seq<u8> {
        self.proxy@
    }
}

impl ImmutableAccountNFTsInCollectionParams {
    /// The parameters of the active call.
    pub fn new(ctx: &CallContext) -> (r: ImmutableAccountNFTsInCollectionParams)
        requires
            ctx.active(),
        ensures
            r@ == ctx.params_root(),
    {
        ImmutableAccountNFTsInCollectionParams { proxy: params_proxy(ctx) }
    }

    /// Account agent ID.
    pub fn agent_id(&self) -> (r: ScImmutableAgentID)
        ensures
            r@ == child_key(self@, PARAM_AGENT_ID.spec_bytes()),
    {
        proof {
            reveal_strlit("a");
        }
        ScImmutableAgentID::new(self.proxy.root(PARAM_AGENT_ID))
    }

    /// NFT ID of collection.
    pub fn collection(&self) -> (r: ScImmutableNftID)
        ensures
            r@ == child_key(self@, PARAM_COLLECTION.spec_bytes()),
    {
        proof {
            reveal_strlit("C");
        }
        ScImmutableNftID::new(self.proxy.root(PARAM_COLLECTION))
    }
}

/// The parameters of "account nfts in collection", read-write.
#[derive(Clone)]
pub struct MutableAccountNFTsInCollectionParams {
    proxy: Proxy,
}

impl View for MutableAccountNFTsInCollectionParams {
    type V = Seq<u8>;

    /// The root key of the parameter set.
    closed spec fn view(&self) -> Seq<u8> {
        self.proxy@
    }
}

impl MutableAccountNFTsInCollectionParams {
    /// The parameters under `proxy`, to be filled in.
    pub fn new(proxy: Proxy) -> (r: MutableAccountNFTsInCollectionParams)
        ensures
            r@ == proxy@,
    {
        MutableAccountNFTsInCollectionParams { proxy }
    }

    /// Account agent ID.
    pub fn agent_id(&self) -> (r: ScMutableAgentID)
        ensures
            r@ == child_key(self@, PARAM_AGENT_ID.spec_bytes()),
    {
        proof {
            reveal_strlit("a");
        }
        ScMutableAgentID::new(self.proxy.root(PARAM_AGENT_ID))
    }

    /// NFT ID of collection.
    pub fn collection(&self) -> (r: ScMutableNftID)
        ensures
            r@ == child_key(self@, PARAM_COLLECTION.spec_bytes()),
    {
        proof {
            reveal_strlit("C");
        }
        ScMutableNftID::new(self.proxy.root(PARAM_COLLECTION))
    }
}

/// The parameters of "balance", read-only.
#[derive(Clone)]
pub struct ImmutableBalanceParams {
    proxy: Proxy,
}

impl View for ImmutableBalanceParams {
    type V = Seq<u8>;

    /// The root key of the parameter set.
    closed spec fn view(&self) -> Seq<u8> {
        self.proxy@
    }
}

impl ImmutableBalanceParams {
    /// The parameters of the active call.
    pub fn new(ctx: &CallContext) -> (r: ImmutableBalanceParams)
        requires
            ctx.active(),
        ensures
            r@ == ctx.params_root(),
    {
        ImmutableBalanceParams { proxy: params_proxy(ctx) }
    }

    /// Account agent ID.
    pub fn agent_id(&self) -> (r: ScImmutableAgentID)
        ensures
            r@ == child_key(self@, PARAM_AGENT_ID.spec_bytes()),
    {
        proof {
            reveal_strlit("a");
        }
        ScImmutableAgentID::new(self.proxy.root(PARAM_AGENT_ID))
    }
}

/// The parameters of "balance", read-write.
#[derive(Clone)]
pub struct MutableBalanceParams {
    proxy: Proxy,
}

impl View for MutableBalanceParams {
    type V = Seq<u8>;

    /// The root key of the parameter set.
    closed spec fn view(&self) -> Seq<u8> {
        self.proxy@
    }
}

impl MutableBalanceParams {
    /// The parameters under `proxy`, to be filled in.
    pub fn new(proxy: Proxy) -> (r: MutableBalanceParams)
        ensures
            r@ == proxy@,
    {
        MutableBalanceParams { proxy }
    }

    /// Account agent ID.
    pub fn agent_id(&self) -> (r: ScMutableAgentID)
        ensures
            r@ == child_key(self@, PARAM_AGENT_ID.spec_bytes()),
    {
        proof {
            reveal_strlit("a");
        }
        ScMutableAgentID::new(self.proxy.root(PARAM_AGENT_ID))
    }
}

/// The parameters of "balance base token", read-only.
#[derive(Clone)]
pub struct ImmutableBalanceBaseTokenParams {
    proxy: Proxy,
}

impl View for ImmutableBalanceBaseTokenParams {
    type V = Seq<u8>;

    /// The root key of the parameter set.
    closed spec fn view(&self) -> Seq<u8> {
        self.proxy@
    }
}

impl ImmutableBalanceBaseTokenParams {
    /// The parameters of the active call.
    pub fn new(ctx: &CallContext) -> (r: ImmutableBalanceBaseTokenParams)
        requires
            ctx.active(),
        ensures
            r@ == ctx.params_root(),
    {
        ImmutableBalanceBaseTokenParams { proxy: params_proxy(ctx) }
    }

    /// Account agent ID.
    pub fn agent_id(&self) -> (r: ScImmutableAgentID)
        ensures
            r@ == child_key(self@, PARAM_AGENT_ID.spec_bytes()),
    {
        proof {
            reveal_strlit("a");
        }
        ScImmutableAgentID::new(self.proxy.root(PARAM_AGENT_ID))
    }
}

/// The parameters of "balance base token", read-write.
#[derive(Clone)]
pub struct MutableBalanceBaseTokenParams {
    proxy: Proxy,
}

impl View for MutableBalanceBaseTokenParams {
    type V = Seq<u8>;

    /// The root key of the parameter set.
    closed spec fn view(&self) -> Seq<u8> {
        self.proxy@
    }
}

impl MutableBalanceBaseTokenParams {
    /// The parameters under `proxy`, to be filled in.
    pub fn new(proxy: Proxy) -> (r: MutableBalanceBaseTokenParams)
        ensures
            r@ == proxy@,
    {
        MutableBalanceBaseTokenParams { proxy }
    }

    /// Account agent ID.
    pub fn agent_id(&self) -> (r: ScMutableAgentID)
        ensures
            r@ == child_key(self@, PARAM_AGENT_ID.spec_bytes()),
    {
        proof {
            reveal_strlit("a");
        }
        ScMutableAgentID::new(self.proxy.root(PARAM_AGENT_ID))
    }
}

/// The parameters of "balance native token", read-only.
#[derive(Clone)]
pub struct ImmutableBalanceNativeTokenParams {
    proxy: Proxy,
}

impl View for ImmutableBalanceNativeTokenParams {
    type V = Seq<u8>;

    /// The root key of the parameter set.
    closed spec fn view(&self) -> Seq<u8> {
        self.proxy@
    }
}

impl ImmutableBalanceNativeTokenParams {
    /// The parameters of the active call.
    pub fn new(ctx: &CallContext) -> (r: ImmutableBalanceNativeTokenParams)
        requires
            ctx.active(),
        ensures
            r@ == ctx.params_root(),
    {
        ImmutableBalanceNativeTokenParams { proxy: params_proxy(ctx) }
    }

    /// Account agent ID.
    pub fn agent_id(&self) -> (r: ScImmutableAgentID)
        ensures
            r@ == child_key(self@, PARAM_AGENT_ID.spec_bytes()),
    {
        proof {
            reveal_strlit("a");
        }
        ScImmutableAgentID::new(self.proxy.root(PARAM_AGENT_ID))
    }

    /// Native token ID.
    pub fn token_id(&self) -> (r: ScImmutableTokenID)
        ensures
            r@ == child_key(self@, PARAM_TOKEN_ID.spec_bytes()),
    {
        proof {
            reveal_strlit("N");
        }
        ScImmutableTokenID::new(self.proxy.root(PARAM_TOKEN_ID))
    }
}

/// The parameters of "balance native token", read-write.
#[derive(Clone)]
pub struct MutableBalanceNativeTokenParams {
    proxy: Proxy,
}

impl View for MutableBalanceNativeTokenParams {
    type V = Seq<u8>;

    /// The root key of the parameter set.
    closed spec fn view(&self) -> Seq<u8> {
        self.proxy@
    }
}

impl MutableBalanceNativeTokenParams {
    /// The parameters under `proxy`, to be filled in.
    pub fn new(proxy: Proxy) -> (r: MutableBalanceNativeTokenParams)
        ensures
            r@ == proxy@,
    {
        MutableBalanceNativeTokenParams { proxy }
    }

    /// Account agent ID.
    pub fn agent_id(&self) -> (r: ScMutableAgentID)
        ensures
            r@ == child_key(self@, PARAM_AGENT_ID.spec_bytes()),
    {
        proof {
            reveal_strlit("a");
        }
        ScMutableAgentID::new(self.proxy.root(PARAM_AGENT_ID))
    }

    /// Native token ID.
    pub fn token_id(&self) -> (r: ScMutableTokenID)
        ensures
            r@ == child_key(self@, PARAM_TOKEN_ID.spec_bytes()),
    {
        proof {
            reveal_strlit("N");
        }
        ScMutableTokenID::new(self.proxy.root(PARAM_TOKEN_ID))
    }
}

/// The parameters of "get account nonce", read-only.
#[derive(Clone)]
pub struct ImmutableGetAccountNonceParams {
    proxy: Proxy,
}

impl View for ImmutableGetAccountNonceParams {
    type V = Seq<u8>;

    /// The root key of the parameter set.
    closed spec fn view(&self) -> Seq<u8> {
        self.proxy@
    }
}

impl ImmutableGetAccountNonceParams {
    /// The parameters of the active call.
    pub fn new(ctx: &CallContext) -> (r: ImmutableGetAccountNonceParams)
        requires
            ctx.active(),
        ensures
            r@ == ctx.params_root(),
    {
        ImmutableGetAccountNonceParams { proxy: params_proxy(ctx) }
    }

    /// Account agent ID.
    pub fn agent_id(&self) -> (r: ScImmutableAgentID)
        ensures
            r@ == child_key(self@, PARAM_AGENT_ID.spec_bytes()),
    {
        proof {
            reveal_strlit("a");
        }
        ScImmutableAgentID::new(self.proxy.root(PARAM_AGENT_ID))
    }
}

/// The parameters of "get account nonce", read-write.
#[derive(Clone)]
pub struct MutableGetAccountNonceParams {
    proxy: Proxy,
}

impl View for MutableGetAccountNonceParams {
    type V = Seq<u8>;

    /// The root key of the parameter set.
    closed spec fn view(&self) -> Seq<u8> {
        self.proxy@
    }
}

impl MutableGetAccountNonceParams {
    /// The parameters under `proxy`, to be filled in.
    pub fn new(proxy: Proxy) -> (r: MutableGetAccountNonceParams)
        ensures
            r@ == proxy@,
    {
        MutableGetAccountNonceParams { proxy }
    }

    /// Account agent ID.
    pub fn agent_id(&self) -> (r: ScMutableAgentID)
        ensures
            r@ == child_key(self@, PARAM_AGENT_ID.spec_bytes()),
    {
        proof {
            reveal_strlit("a");
        }
        ScMutableAgentID::new(self.proxy.root(PARAM_AGENT_ID))
    }
}

/// The parameters of "native token", read-only.
#[derive(Clone)]
pub struct ImmutableNativeTokenParams {
    proxy: Proxy,
}

impl View for ImmutableNativeTokenParams {
    type V = Seq<u8>;

    /// The root key of the parameter set.
    closed spec fn view(&self) -> Seq<u8> {
        self.proxy@
    }
}

impl ImmutableNativeTokenParams {
    /// The parameters of the active call.
    pub fn new(ctx: &CallContext) -> (r: ImmutableNativeTokenParams)
        requires
            ctx.active(),
        ensures
            r@ == ctx.params_root(),
    {
        ImmutableNativeTokenParams { proxy: params_proxy(ctx) }
    }

    /// Serial number of the foundry.
    pub fn foundry_sn(&self) -> (r: ScImmutableUint32)
        ensures
            r@ == child_key(self@, PARAM_FOUNDRY_SN.spec_bytes()),
    {
        proof {
            reveal_strlit("s");
        }
        ScImmutableUint32::new(self.proxy.root(PARAM_FOUNDRY_SN))
    }
}

/// The parameters of "native token", read-write.
#[derive(Clone)]
pub struct MutableNativeTokenParams {
    proxy: Proxy,
}

impl View for MutableNativeTokenParams {
    type V = Seq<u8>;

    /// The root key of the parameter set.
    closed spec fn view(&self) -> Seq<u8> {
        self.proxy@
    }
}

impl MutableNativeTokenParams {
    /// The parameters under `proxy`, to be filled in.
    pub fn new(proxy: Proxy) -> (r: MutableNativeTokenParams)
        ensures
            r@ == proxy@,
    {
        MutableNativeTokenParams { proxy }
    }

    /// Serial number of the foundry.
    pub fn foundry_sn(&self) -> (r: ScMutableUint32)
        ensures
            r@ == child_key(self@, PARAM_FOUNDRY_SN.spec_bytes()),
    {
        proof {
            reveal_strlit("s");
        }
        ScMutableUint32::new(self.proxy.root(PARAM_FOUNDRY_SN))
    }
}

/// The parameters of "nft data", read-only.
#[derive(Clone)]
pub struct ImmutableNftDataParams {
    proxy: Proxy,
}

impl View for ImmutableNftDataParams {
    type V = Seq<u8>;

    /// The root key of the parameter set.
    closed spec fn view(&self) -> Seq<u8> {
        self.proxy@
    }
}

impl ImmutableNftDataParams {
    /// The parameters of the active call.
    pub fn new(ctx: &CallContext) -> (r: ImmutableNftDataParams)
        requires
            ctx.active(),
        ensures
            r@ == ctx.params_root(),
    {
        ImmutableNftDataParams { proxy: params_proxy(ctx) }
    }

    /// NFT ID.
    pub fn nft_id(&self) -> (r: ScImmutableNftID)
        ensures
            r@ == child_key(self@, PARAM_NFT_ID.spec_bytes()),
    {
        proof {
            reveal_strlit("z");
        }
        ScImmutableNftID::new(self.proxy.root(PARAM_NFT_ID))
    }
}

/// The parameters of "nft data", read-write.
#[derive(Clone)]
pub struct MutableNftDataParams {
    proxy: Proxy,
}

impl View for MutableNftDataParams {
    type V = Seq<u8>;

    /// The root key of the parameter set.
    closed spec fn view(&self) -> Seq<u8> {
        self.proxy@
    }
}

impl MutableNftDataParams {
    /// The parameters under `proxy`, to be filled in.
    pub fn new(proxy: Proxy) -> (r: MutableNftDataParams)
        ensures
            r@ == proxy@,
    {
        MutableNftDataParams { proxy }
    }

    /// NFT ID.
    pub fn nft_id(&self) -> (r: ScMutableNftID)
        ensures
            r@ == child_key(self@, PARAM_NFT_ID.spec_bytes()),
    {
        proof {
            reveal_strlit("z");
        }
        ScMutableNftID::new(self.proxy.root(PARAM_NFT_ID))
    }
}

} // verus!

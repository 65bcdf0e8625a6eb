//! The schemas and method signatures of each actor family, stated as spec
//! tables over type shapes, and the executable tables that match them.
use vstd::prelude::*;
use vstd::string::StringSliceAdditionalSpecFns;
use crate::abi::{bytes_eq, lemma_shape_list, shape_list, AbiType, Ty};
use crate::selector::{signature, signature_of};

verus! {

/// A family of native actors reachable through the bridge.
#[derive(Clone, Copy, Debug, PartialEq, Eq, Structural)]
pub enum ActorFamily {
    Account,
    Datacap,
    Market,
    Power,
    Miner,
    VerifiedRegistry,
    Send,
    Precompiles,
}

/// Failures of registry lookups.
#[derive(Clone, Copy, Debug, PartialEq, Eq, Structural)]
pub enum RegistryError {
    /// No type of that name in the family.
    UnknownType,
    /// No method of that name in the family.
    UnknownMethod,
}

/// A method: its name, its parameters as one tuple, and its outputs as one
/// tuple (none for a method without outputs).
pub struct MethodSignature {
    pub name: &'static str,
    pub params: AbiType,
    pub outputs: Option<AbiType>,
}

/// A named struct or enumeration schema.
pub struct NamedSchema {
    pub name: &'static str,
    pub schema: AbiType,
}

/// A method table entry: name, parameter tuple, outputs.
#[verifier::ext_equal]
pub struct MethodEntry {
    pub name: Seq<u8>,
    pub params: Ty,
    pub outputs: Option<Ty>,
}

/// A schema table entry.
#[verifier::ext_equal]
pub struct SchemaEntry {
    pub name: Seq<u8>,
    pub schema: Ty,
}

/// The shape of an optional type.
pub open spec fn opt_shape(o: Option<AbiType>) -> Option<Ty> {
    match o {
        Some(t) => Some(t.shape()),
        None => None,
    }
}

/// The table entry a method signature stands for.
pub open spec fn entry_of(m: MethodSignature) -> MethodEntry {
    MethodEntry { name: m.name.spec_bytes(), params: m.params.shape(), outputs: opt_shape(m.outputs) }
}

/// The table entry a named schema stands for.
pub open spec fn schema_entry_of(s: NamedSchema) -> SchemaEntry {
    SchemaEntry { name: s.name.spec_bytes(), schema: s.schema.shape() }
}

/// The methods of the Account family, in table order.
pub open spec fn account_method_table() -> Seq<MethodEntry> {
    seq![
        MethodEntry {
            name: "authenticate_message".spec_bytes(),
            params: Ty::Tuple(seq![Ty::Uint(64), Ty::Tuple(seq![Ty::Bytes, Ty::Bytes])]),
            outputs: None,
        },
        MethodEntry {
            name: "universal_receiver_hook".spec_bytes(),
            params: Ty::Tuple(seq![Ty::Uint(64), Ty::Tuple(seq![Ty::Uint(32), Ty::Bytes])]),
            outputs: None,
        },
    ]
}

/// The methods of the Datacap family, in table order.
pub open spec fn datacap_method_table() -> Seq<MethodEntry> {
    seq![
        MethodEntry {
            name: "name".spec_bytes(),
            params: Ty::Tuple(seq![]),
            outputs: Some(Ty::Tuple(seq![Ty::Str])),
        },
        MethodEntry {
            name: "symbol".spec_bytes(),
            params: Ty::Tuple(seq![]),
            outputs: Some(Ty::Tuple(seq![Ty::Str])),
        },
        MethodEntry {
            name: "total_supply".spec_bytes(),
            params: Ty::Tuple(seq![]),
            outputs: Some(Ty::Tuple(seq![Ty::Tuple(seq![Ty::Bytes, Ty::Bool])])),
        },
        MethodEntry {
            name: "balance".spec_bytes(),
            params: Ty::Tuple(seq![Ty::Tuple(seq![Ty::Bytes])]),
            outputs: Some(Ty::Tuple(seq![Ty::Tuple(seq![Ty::Bytes, Ty::Bool])])),
        },
        MethodEntry {
            name: "allowance".spec_bytes(),
            params: Ty::Tuple(seq![Ty::Tuple(seq![Ty::Tuple(seq![Ty::Bytes]), Ty::Tuple(seq![Ty::Bytes])])]),
            outputs: Some(Ty::Tuple(seq![Ty::Tuple(seq![Ty::Bytes, Ty::Bool])])),
        },
        MethodEntry {
            name: "transfer".spec_bytes(),
            params: Ty::Tuple(seq![Ty::Tuple(seq![Ty::Bytes, Ty::Tuple(seq![Ty::Bytes]), Ty::Tuple(seq![Ty::Bytes, Ty::Bool])])]),
            outputs: Some(Ty::Tuple(seq![Ty::Tuple(seq![Ty::Bytes, Ty::Tuple(seq![Ty::Bytes, Ty::Bool]), Ty::Tuple(seq![Ty::Bytes, Ty::Bool])])])),
        },
        MethodEntry {
            name: "transfer_from".spec_bytes(),
            params: Ty::Tuple(seq![Ty::Tuple(seq![Ty::Bytes, Ty::Tuple(seq![Ty::Bytes]), Ty::Tuple(seq![Ty::Bytes]), Ty::Tuple(seq![Ty::Bytes, Ty::Bool])])]),
            outputs: Some(Ty::Tuple(seq![Ty::Tuple(seq![Ty::Bytes, Ty::Tuple(seq![Ty::Bytes, Ty::Bool]), Ty::Tuple(seq![Ty::Bytes, Ty::Bool]), Ty::Tuple(seq![Ty::Bytes, Ty::Bool])])])),
        },
        MethodEntry {
            name: "increase_allowance".spec_bytes(),
            params: Ty::Tuple(seq![Ty::Tuple(seq![Ty::Tuple(seq![Ty::Bytes]), Ty::Tuple(seq![Ty::Bytes, Ty::Bool])])]),
            outputs: Some(Ty::Tuple(seq![Ty::Tuple(seq![Ty::Bytes, Ty::Bool])])),
        },
        MethodEntry {
            name: "decrease_allowance".spec_bytes(),
            params: Ty::Tuple(seq![Ty::Tuple(seq![Ty::Tuple(seq![Ty::Bytes]), Ty::Tuple(seq![Ty::Bytes, Ty::Bool])])]),
            outputs: Some(Ty::Tuple(seq![Ty::Tuple(seq![Ty::Bytes, Ty::Bool])])),
        },
        MethodEntry {
            name: "revoke_allowance".spec_bytes(),
            params: Ty::Tuple(seq![Ty::Tuple(seq![Ty::Bytes])]),
            outputs: Some(Ty::Tuple(seq![Ty::Tuple(seq![Ty::Bytes, Ty::Bool])])),
        },
        MethodEntry {
            name: "burn".spec_bytes(),
            params: Ty::Tuple(seq![Ty::Tuple(seq![Ty::Bytes, Ty::Bool])]),
            outputs: Some(Ty::Tuple(seq![Ty::Tuple(seq![Ty::Bytes, Ty::Bool])])),
        },
        MethodEntry {
            name: "burn_from".spec_bytes(),
            params: Ty::Tuple(seq![Ty::Tuple(seq![Ty::Tuple(seq![Ty::Bytes]), Ty::Tuple(seq![Ty::Bytes, Ty::Bool])])]),
            outputs: Some(Ty::Tuple(seq![Ty::Tuple(seq![Ty::Tuple(seq![Ty::Bytes, Ty::Bool]), Ty::Tuple(seq![Ty::Bytes, Ty::Bool])])])),
        },
        MethodEntry {
            name: "handle_filecoin_method".spec_bytes(),
            params: Ty::Tuple(seq![Ty::Uint(64), Ty::Uint(64), Ty::Bytes]),
            outputs: None,
        },
    ]
}

/// The methods of the Market family, in table order.
pub open spec fn market_method_table() -> Seq<MethodEntry> {
    seq![
        MethodEntry {
            name: "add_balance".spec_bytes(),
            params: Ty::Tuple(seq![Ty::Tuple(seq![Ty::Bytes]), Ty::Uint256]),
            outputs: None,
        },
        MethodEntry {
            name: "withdraw_balance".spec_bytes(),
            params: Ty::Tuple(seq![Ty::Tuple(seq![Ty::Tuple(seq![Ty::Bytes]), Ty::Tuple(seq![Ty::Bytes, Ty::Bool])])]),
            outputs: Some(Ty::Tuple(seq![Ty::Tuple(seq![Ty::Bytes, Ty::Bool])])),
        },
        MethodEntry {
            name: "get_balance".spec_bytes(),
            params: Ty::Tuple(seq![Ty::Tuple(seq![Ty::Bytes])]),
            outputs: Some(Ty::Tuple(seq![Ty::Tuple(seq![Ty::Tuple(seq![Ty::Bytes, Ty::Bool]), Ty::Tuple(seq![Ty::Bytes, Ty::Bool])])])),
        },
        MethodEntry {
            name: "get_deal_data_commitment".spec_bytes(),
            params: Ty::Tuple(seq![Ty::Uint(64)]),
            outputs: Some(Ty::Tuple(seq![Ty::Tuple(seq![Ty::Bytes, Ty::Uint(64)])])),
        },
        MethodEntry {
            name: "get_deal_client".spec_bytes(),
            params: Ty::Tuple(seq![Ty::Uint(64)]),
            outputs: Some(Ty::Tuple(seq![Ty::Uint(64)])),
        },
        MethodEntry {
            name: "get_deal_provider".spec_bytes(),
            params: Ty::Tuple(seq![Ty::Uint(64)]),
            outputs: Some(Ty::Tuple(seq![Ty::Uint(64)])),
        },
        MethodEntry {
            name: "get_deal_label".spec_bytes(),
            params: Ty::Tuple(seq![Ty::Uint(64)]),
            outputs: Some(Ty::Tuple(seq![Ty::Tuple(seq![Ty::Bytes, Ty::Bool])])),
        },
        MethodEntry {
            name: "get_deal_total_price".spec_bytes(),
            params: Ty::Tuple(seq![Ty::Uint(64)]),
            outputs: Some(Ty::Tuple(seq![Ty::Tuple(seq![Ty::Bytes, Ty::Bool])])),
        },
        MethodEntry {
            name: "get_deal_client_collateral".spec_bytes(),
            params: Ty::Tuple(seq![Ty::Uint(64)]),
            outputs: Some(Ty::Tuple(seq![Ty::Tuple(seq![Ty::Bytes, Ty::Bool])])),
        },
        MethodEntry {
            name: "get_deal_provider_collateral".spec_bytes(),
            params: Ty::Tuple(seq![Ty::Uint(64)]),
            outputs: Some(Ty::Tuple(seq![Ty::Tuple(seq![Ty::Bytes, Ty::Bool])])),
        },
        MethodEntry {
            name: "get_deal_term".spec_bytes(),
            params: Ty::Tuple(seq![Ty::Uint(64)]),
            outputs: Some(Ty::Tuple(seq![Ty::Tuple(seq![Ty::Int64, Ty::Int64])])),
        },
        MethodEntry {
            name: "get_deal_verified".spec_bytes(),
            params: Ty::Tuple(seq![Ty::Uint(64)]),
            outputs: Some(Ty::Tuple(seq![Ty::Bool])),
        },
        MethodEntry {
            name: "get_deal_activation".spec_bytes(),
            params: Ty::Tuple(seq![Ty::Uint(64)]),
            outputs: Some(Ty::Tuple(seq![Ty::Tuple(seq![Ty::Int64, Ty::Int64])])),
        },
        MethodEntry {
            name: "publish_storage_deals".spec_bytes(),
            params: Ty::Tuple(seq![Ty::Tuple(seq![Ty::Array(Box::new(Ty::Tuple(seq![Ty::Tuple(seq![Ty::Tuple(seq![Ty::Bytes]), Ty::Uint(64), Ty::Bool, Ty::Tuple(seq![Ty::Bytes]), Ty::Tuple(seq![Ty::Bytes]), Ty::Tuple(seq![Ty::Bytes, Ty::Bool]), Ty::Int64, Ty::Int64, Ty::Tuple(seq![Ty::Bytes, Ty::Bool]), Ty::Tuple(seq![Ty::Bytes, Ty::Bool]), Ty::Tuple(seq![Ty::Bytes, Ty::Bool])]), Ty::Bytes])))])]),
            outputs: Some(Ty::Tuple(seq![Ty::Tuple(seq![Ty::Array(Box::new(Ty::Uint(64))), Ty::Bytes])])),
        },
    ]
}

/// The methods of the Power family, in table order.
pub open spec fn power_method_table() -> Seq<MethodEntry> {
    seq![
        MethodEntry {
            name: "create_miner".spec_bytes(),
            params: Ty::Tuple(seq![Ty::Tuple(seq![Ty::Tuple(seq![Ty::Bytes]), Ty::Tuple(seq![Ty::Bytes]), Ty::Enum(11), Ty::Tuple(seq![Ty::Bytes]), Ty::Array(Box::new(Ty::Tuple(seq![Ty::Bytes])))]), Ty::Uint256]),
            outputs: Some(Ty::Tuple(seq![Ty::Tuple(seq![Ty::Tuple(seq![Ty::Bytes]), Ty::Tuple(seq![Ty::Bytes])])])),
        },
        MethodEntry {
            name: "miner_count".spec_bytes(),
            params: Ty::Tuple(seq![]),
            outputs: Some(Ty::Tuple(seq![Ty::Uint(64)])),
        },
        MethodEntry {
            name: "miner_consensus_count".spec_bytes(),
            params: Ty::Tuple(seq![]),
            outputs: Some(Ty::Tuple(seq![Ty::Int64])),
        },
        MethodEntry {
            name: "network_raw_power".spec_bytes(),
            params: Ty::Tuple(seq![]),
            outputs: Some(Ty::Tuple(seq![Ty::Tuple(seq![Ty::Bytes, Ty::Bool])])),
        },
        MethodEntry {
            name: "miner_raw_power".spec_bytes(),
            params: Ty::Tuple(seq![Ty::Uint(64)]),
            outputs: Some(Ty::Tuple(seq![Ty::Tuple(seq![Ty::Tuple(seq![Ty::Bytes, Ty::Bool]), Ty::Bool])])),
        },
    ]
}

/// The methods of the Miner family, in table order.
pub open spec fn miner_method_table() -> Seq<MethodEntry> {
    seq![
        MethodEntry {
            name: "get_owner".spec_bytes(),
            params: Ty::Tuple(seq![Ty::Uint(64)]),
            outputs: Some(Ty::Tuple(seq![Ty::Tuple(seq![Ty::Tuple(seq![Ty::Bytes]), Ty::Tuple(seq![Ty::Bytes])])])),
        },
        MethodEntry {
            name: "change_owner_address".spec_bytes(),
            params: Ty::Tuple(seq![Ty::Uint(64), Ty::Tuple(seq![Ty::Bytes])]),
            outputs: None,
        },
        MethodEntry {
            name: "is_controlling_address".spec_bytes(),
            params: Ty::Tuple(seq![Ty::Uint(64), Ty::Tuple(seq![Ty::Bytes])]),
            outputs: Some(Ty::Tuple(seq![Ty::Bool])),
        },
        MethodEntry {
            name: "get_sector_size".spec_bytes(),
            params: Ty::Tuple(seq![Ty::Uint(64)]),
            outputs: Some(Ty::Tuple(seq![Ty::Uint(64)])),
        },
        MethodEntry {
            name: "get_available_balance".spec_bytes(),
            params: Ty::Tuple(seq![Ty::Uint(64)]),
            outputs: Some(Ty::Tuple(seq![Ty::Tuple(seq![Ty::Bytes, Ty::Bool])])),
        },
        MethodEntry {
            name: "get_vesting_funds".spec_bytes(),
            params: Ty::Tuple(seq![Ty::Uint(64)]),
            outputs: Some(Ty::Tuple(seq![Ty::Tuple(seq![Ty::Array(Box::new(Ty::Tuple(seq![Ty::Int64, Ty::Tuple(seq![Ty::Bytes, Ty::Bool])])))])])),
        },
        MethodEntry {
            name: "change_beneficiary".spec_bytes(),
            params: Ty::Tuple(seq![Ty::Uint(64), Ty::Tuple(seq![Ty::Tuple(seq![Ty::Bytes]), Ty::Tuple(seq![Ty::Bytes, Ty::Bool]), Ty::Int64])]),
            outputs: None,
        },
        MethodEntry {
            name: "get_beneficiary".spec_bytes(),
            params: Ty::Tuple(seq![Ty::Uint(64)]),
            outputs: Some(Ty::Tuple(seq![Ty::Tuple(seq![Ty::Tuple(seq![Ty::Tuple(seq![Ty::Bytes]), Ty::Tuple(seq![Ty::Tuple(seq![Ty::Bytes, Ty::Bool]), Ty::Tuple(seq![Ty::Bytes, Ty::Bool]), Ty::Int64])]), Ty::Tuple(seq![Ty::Tuple(seq![Ty::Bytes]), Ty::Tuple(seq![Ty::Bytes, Ty::Bool]), Ty::Int64, Ty::Bool, Ty::Bool])])])),
        },
        MethodEntry {
            name: "change_worker_address".spec_bytes(),
            params: Ty::Tuple(seq![Ty::Uint(64), Ty::Tuple(seq![Ty::Tuple(seq![Ty::Bytes]), Ty::Array(Box::new(Ty::Tuple(seq![Ty::Bytes])))])]),
            outputs: None,
        },
        MethodEntry {
            name: "change_peer_id".spec_bytes(),
            params: Ty::Tuple(seq![Ty::Uint(64), Ty::Tuple(seq![Ty::Bytes])]),
            outputs: None,
        },
        MethodEntry {
            name: "change_multiaddresses".spec_bytes(),
            params: Ty::Tuple(seq![Ty::Uint(64), Ty::Tuple(seq![Ty::Array(Box::new(Ty::Tuple(seq![Ty::Bytes])))])]),
            outputs: None,
        },
        MethodEntry {
            name: "repay_debt".spec_bytes(),
            params: Ty::Tuple(seq![Ty::Uint(64)]),
            outputs: None,
        },
        MethodEntry {
            name: "confirm_change_worker_address".spec_bytes(),
            params: Ty::Tuple(seq![Ty::Uint(64)]),
            outputs: None,
        },
        MethodEntry {
            name: "get_peer_id".spec_bytes(),
            params: Ty::Tuple(seq![Ty::Uint(64)]),
            outputs: Some(Ty::Tuple(seq![Ty::Tuple(seq![Ty::Bytes])])),
        },
        MethodEntry {
            name: "get_multiaddresses".spec_bytes(),
            params: Ty::Tuple(seq![Ty::Uint(64)]),
            outputs: Some(Ty::Tuple(seq![Ty::Tuple(seq![Ty::Array(Box::new(Ty::Tuple(seq![Ty::Bytes])))])])),
        },
        MethodEntry {
            name: "withdraw_balance".spec_bytes(),
            params: Ty::Tuple(seq![Ty::Uint(64), Ty::Tuple(seq![Ty::Bytes, Ty::Bool])]),
            outputs: Some(Ty::Tuple(seq![Ty::Tuple(seq![Ty::Bytes, Ty::Bool])])),
        },
        MethodEntry {
            name: "encode_vesting_funds".spec_bytes(),
            params: Ty::Tuple(seq![Ty::Array(Box::new(Ty::Tuple(seq![Ty::Int64, Ty::Tuple(seq![Ty::Bytes, Ty::Bool])])))]),
            outputs: None,
        },
    ]
}

/// The methods of the VerifiedRegistry family, in table order.
pub open spec fn verified_registry_method_table() -> Seq<MethodEntry> {
    seq![
        MethodEntry {
            name: "get_claims".spec_bytes(),
            params: Ty::Tuple(seq![Ty::Tuple(seq![Ty::Uint(64), Ty::Array(Box::new(Ty::Uint(64)))])]),
            outputs: Some(Ty::Tuple(seq![Ty::Tuple(seq![Ty::Tuple(seq![Ty::Uint(32), Ty::Array(Box::new(Ty::Tuple(seq![Ty::Uint(32), Ty::Uint(32)])))]), Ty::Array(Box::new(Ty::Tuple(seq![Ty::Uint(64), Ty::Uint(64), Ty::Bytes, Ty::Uint(64), Ty::Int64, Ty::Int64, Ty::Int64, Ty::Uint(64)])))])])),
        },
        MethodEntry {
            name: "add_verified_client".spec_bytes(),
            params: Ty::Tuple(seq![Ty::Tuple(seq![Ty::Tuple(seq![Ty::Bytes]), Ty::Tuple(seq![Ty::Bytes, Ty::Bool])])]),
            outputs: None,
        },
        MethodEntry {
            name: "remove_expired_allocations".spec_bytes(),
            params: Ty::Tuple(seq![Ty::Tuple(seq![Ty::Uint(64), Ty::Array(Box::new(Ty::Uint(64)))])]),
            outputs: Some(Ty::Tuple(seq![Ty::Tuple(seq![Ty::Array(Box::new(Ty::Uint(64))), Ty::Tuple(seq![Ty::Uint(32), Ty::Array(Box::new(Ty::Tuple(seq![Ty::Uint(32), Ty::Uint(32)])))]), Ty::Tuple(seq![Ty::Bytes, Ty::Bool])])])),
        },
        MethodEntry {
            name: "extend_claim_terms".spec_bytes(),
            params: Ty::Tuple(seq![Ty::Tuple(seq![Ty::Array(Box::new(Ty::Tuple(seq![Ty::Uint(64), Ty::Uint(64), Ty::Int64])))])]),
            outputs: Some(Ty::Tuple(seq![Ty::Tuple(seq![Ty::Uint(32), Ty::Array(Box::new(Ty::Tuple(seq![Ty::Uint(32), Ty::Uint(32)])))])])),
        },
        MethodEntry {
            name: "remove_expired_claims".spec_bytes(),
            params: Ty::Tuple(seq![Ty::Tuple(seq![Ty::Uint(64), Ty::Array(Box::new(Ty::Uint(64)))])]),
            outputs: Some(Ty::Tuple(seq![Ty::Tuple(seq![Ty::Array(Box::new(Ty::Uint(64))), Ty::Tuple(seq![Ty::Uint(32), Ty::Array(Box::new(Ty::Tuple(seq![Ty::Uint(32), Ty::Uint(32)])))])])])),
        },
    ]
}

/// The methods of the Send family, in table order.
pub open spec fn send_method_table() -> Seq<MethodEntry> {
    seq![
        MethodEntry {
            name: "send".spec_bytes(),
            params: Ty::Tuple(seq![Ty::Uint(64), Ty::Uint256]),
            outputs: None,
        },
        MethodEntry {
            name: "send".spec_bytes(),
            params: Ty::Tuple(seq![Ty::Tuple(seq![Ty::Bytes]), Ty::Uint256]),
            outputs: None,
        },
    ]
}

/// The methods of the Precompiles family, in table order.
pub open spec fn precompiles_method_table() -> Seq<MethodEntry> {
    seq![
        MethodEntry {
            name: "resolve_address".spec_bytes(),
            params: Ty::Tuple(seq![Ty::Tuple(seq![Ty::Bytes])]),
            outputs: Some(Ty::Tuple(seq![Ty::Uint(64)])),
        },
        MethodEntry {
            name: "resolve_eth_address".spec_bytes(),
            params: Ty::Tuple(seq![Ty::Address]),
            outputs: Some(Ty::Tuple(seq![Ty::Uint(64)])),
        },
        MethodEntry {
            name: "lookup_delegated_address".spec_bytes(),
            params: Ty::Tuple(seq![Ty::Uint(64)]),
            outputs: Some(Ty::Tuple(seq![Ty::Bytes])),
        },
    ]
}

/// The methods of each family, in table order (an overloaded name appears
/// once per overload).
pub open spec fn method_table(f: ActorFamily) -> Seq<MethodEntry> {
    match f {
        ActorFamily::Account => account_method_table(),
        ActorFamily::Datacap => datacap_method_table(),
        ActorFamily::Market => market_method_table(),
        ActorFamily::Power => power_method_table(),
        ActorFamily::Miner => miner_method_table(),
        ActorFamily::VerifiedRegistry => verified_registry_method_table(),
        ActorFamily::Send => send_method_table(),
        ActorFamily::Precompiles => precompiles_method_table(),
    }
}

/// The schemas of the Account family, in table order.
pub open spec fn account_schema_table() -> Seq<SchemaEntry> {
    seq![
        SchemaEntry { name: "AuthenticateMessageParams".spec_bytes(), schema: Ty::Tuple(seq![Ty::Bytes, Ty::Bytes]) },
        SchemaEntry { name: "UniversalReceiverParams".spec_bytes(), schema: Ty::Tuple(seq![Ty::Uint(32), Ty::Bytes]) },
    ]
}

/// The schemas of the Datacap family, in table order.
pub open spec fn datacap_schema_table() -> Seq<SchemaEntry> {
    seq![
        SchemaEntry { name: "BigInt".spec_bytes(), schema: Ty::Tuple(seq![Ty::Bytes, Ty::Bool]) },
        SchemaEntry { name: "FilAddress".spec_bytes(), schema: Ty::Tuple(seq![Ty::Bytes]) },
        SchemaEntry { name: "GetAllowanceParams".spec_bytes(), schema: Ty::Tuple(seq![Ty::Tuple(seq![Ty::Bytes]), Ty::Tuple(seq![Ty::Bytes])]) },
        SchemaEntry { name: "TransferParams".spec_bytes(), schema: Ty::Tuple(seq![Ty::Bytes, Ty::Tuple(seq![Ty::Bytes]), Ty::Tuple(seq![Ty::Bytes, Ty::Bool])]) },
        SchemaEntry { name: "TransferReturn".spec_bytes(), schema: Ty::Tuple(seq![Ty::Bytes, Ty::Tuple(seq![Ty::Bytes, Ty::Bool]), Ty::Tuple(seq![Ty::Bytes, Ty::Bool])]) },
        SchemaEntry { name: "TransferFromParams".spec_bytes(), schema: Ty::Tuple(seq![Ty::Bytes, Ty::Tuple(seq![Ty::Bytes]), Ty::Tuple(seq![Ty::Bytes]), Ty::Tuple(seq![Ty::Bytes, Ty::Bool])]) },
        SchemaEntry { name: "TransferFromReturn".spec_bytes(), schema: Ty::Tuple(seq![Ty::Bytes, Ty::Tuple(seq![Ty::Bytes, Ty::Bool]), Ty::Tuple(seq![Ty::Bytes, Ty::Bool]), Ty::Tuple(seq![Ty::Bytes, Ty::Bool])]) },
        SchemaEntry { name: "IncreaseAllowanceParams".spec_bytes(), schema: Ty::Tuple(seq![Ty::Tuple(seq![Ty::Bytes]), Ty::Tuple(seq![Ty::Bytes, Ty::Bool])]) },
        SchemaEntry { name: "DecreaseAllowanceParams".spec_bytes(), schema: Ty::Tuple(seq![Ty::Tuple(seq![Ty::Bytes]), Ty::Tuple(seq![Ty::Bytes, Ty::Bool])]) },
        SchemaEntry { name: "BurnFromParams".spec_bytes(), schema: Ty::Tuple(seq![Ty::Tuple(seq![Ty::Bytes]), Ty::Tuple(seq![Ty::Bytes, Ty::Bool])]) },
        SchemaEntry { name: "BurnFromReturn".spec_bytes(), schema: Ty::Tuple(seq![Ty::Tuple(seq![Ty::Bytes, Ty::Bool]), Ty::Tuple(seq![Ty::Bytes, Ty::Bool])]) },
    ]
}

/// The schemas of the Market family, in table order.
pub open spec fn market_schema_table() -> Seq<SchemaEntry> {
    seq![
        SchemaEntry { name: "FailCode".spec_bytes(), schema: Ty::Tuple(seq![Ty::Uint(32), Ty::Uint(32)]) },
        SchemaEntry { name: "BatchReturn".spec_bytes(), schema: Ty::Tuple(seq![Ty::Uint(32), Ty::Array(Box::new(Ty::Tuple(seq![Ty::Uint(32), Ty::Uint(32)])))]) },
        SchemaEntry { name: "UniversalReceiverParams".spec_bytes(), schema: Ty::Tuple(seq![Ty::Uint(32), Ty::Bytes]) },
        SchemaEntry { name: "BigInt".spec_bytes(), schema: Ty::Tuple(seq![Ty::Bytes, Ty::Bool]) },
        SchemaEntry { name: "FilAddress".spec_bytes(), schema: Ty::Tuple(seq![Ty::Bytes]) },
        SchemaEntry { name: "Cid".spec_bytes(), schema: Ty::Tuple(seq![Ty::Bytes]) },
        SchemaEntry { name: "DealLabel".spec_bytes(), schema: Ty::Tuple(seq![Ty::Bytes, Ty::Bool]) },
        SchemaEntry { name: "GetDealTermReturn".spec_bytes(), schema: Ty::Tuple(seq![Ty::Int64, Ty::Int64]) },
        SchemaEntry { name: "GetDealActivationReturn".spec_bytes(), schema: Ty::Tuple(seq![Ty::Int64, Ty::Int64]) },
        SchemaEntry { name: "DealProposal".spec_bytes(), schema: Ty::Tuple(seq![Ty::Tuple(seq![Ty::Bytes]), Ty::Uint(64), Ty::Bool, Ty::Tuple(seq![Ty::Bytes]), Ty::Tuple(seq![Ty::Bytes]), Ty::Tuple(seq![Ty::Bytes, Ty::Bool]), Ty::Int64, Ty::Int64, Ty::Tuple(seq![Ty::Bytes, Ty::Bool]), Ty::Tuple(seq![Ty::Bytes, Ty::Bool]), Ty::Tuple(seq![Ty::Bytes, Ty::Bool])]) },
        SchemaEntry { name: "ClientDealProposal".spec_bytes(), schema: Ty::Tuple(seq![Ty::Tuple(seq![Ty::Tuple(seq![Ty::Bytes]), Ty::Uint(64), Ty::Bool, Ty::Tuple(seq![Ty::Bytes]), Ty::Tuple(seq![Ty::Bytes]), Ty::Tuple(seq![Ty::Bytes, Ty::Bool]), Ty::Int64, Ty::Int64, Ty::Tuple(seq![Ty::Bytes, Ty::Bool]), Ty::Tuple(seq![Ty::Bytes, Ty::Bool]), Ty::Tuple(seq![Ty::Bytes, Ty::Bool])]), Ty::Bytes]) },
        SchemaEntry { name: "PublishStorageDealsParams".spec_bytes(), schema: Ty::Tuple(seq![Ty::Array(Box::new(Ty::Tuple(seq![Ty::Tuple(seq![Ty::Tuple(seq![Ty::Bytes]), Ty::Uint(64), Ty::Bool, Ty::Tuple(seq![Ty::Bytes]), Ty::Tuple(seq![Ty::Bytes]), Ty::Tuple(seq![Ty::Bytes, Ty::Bool]), Ty::Int64, Ty::Int64, Ty::Tuple(seq![Ty::Bytes, Ty::Bool]), Ty::Tuple(seq![Ty::Bytes, Ty::Bool]), Ty::Tuple(seq![Ty::Bytes, Ty::Bool])]), Ty::Bytes])))]) },
        SchemaEntry { name: "PublishStorageDealsReturn".spec_bytes(), schema: Ty::Tuple(seq![Ty::Array(Box::new(Ty::Uint(64))), Ty::Bytes]) },
        SchemaEntry { name: "WithdrawBalanceParams".spec_bytes(), schema: Ty::Tuple(seq![Ty::Tuple(seq![Ty::Bytes]), Ty::Tuple(seq![Ty::Bytes, Ty::Bool])]) },
        SchemaEntry { name: "GetBalanceReturn".spec_bytes(), schema: Ty::Tuple(seq![Ty::Tuple(seq![Ty::Bytes, Ty::Bool]), Ty::Tuple(seq![Ty::Bytes, Ty::Bool])]) },
        SchemaEntry { name: "GetDealDataCommitmentReturn".spec_bytes(), schema: Ty::Tuple(seq![Ty::Bytes, Ty::Uint(64)]) },
    ]
}

/// The schemas of the Power family, in table order.
pub open spec fn power_schema_table() -> Seq<SchemaEntry> {
    seq![
        SchemaEntry { name: "BigInt".spec_bytes(), schema: Ty::Tuple(seq![Ty::Bytes, Ty::Bool]) },
        SchemaEntry { name: "FilAddress".spec_bytes(), schema: Ty::Tuple(seq![Ty::Bytes]) },
        SchemaEntry { name: "CreateMinerParams".spec_bytes(), schema: Ty::Tuple(seq![Ty::Tuple(seq![Ty::Bytes]), Ty::Tuple(seq![Ty::Bytes]), Ty::Enum(11), Ty::Tuple(seq![Ty::Bytes]), Ty::Array(Box::new(Ty::Tuple(seq![Ty::Bytes])))]) },
        SchemaEntry { name: "CreateMinerReturn".spec_bytes(), schema: Ty::Tuple(seq![Ty::Tuple(seq![Ty::Bytes]), Ty::Tuple(seq![Ty::Bytes])]) },
        SchemaEntry { name: "MinerRawPowerReturn".spec_bytes(), schema: Ty::Tuple(seq![Ty::Tuple(seq![Ty::Bytes, Ty::Bool]), Ty::Bool]) },
        SchemaEntry { name: "RegisteredPoStProof".spec_bytes(), schema: Ty::Enum(11) },
    ]
}

/// The schemas of the Miner family, in table order.
pub open spec fn miner_schema_table() -> Seq<SchemaEntry> {
    seq![
        SchemaEntry { name: "BigInt".spec_bytes(), schema: Ty::Tuple(seq![Ty::Bytes, Ty::Bool]) },
        SchemaEntry { name: "FilAddress".spec_bytes(), schema: Ty::Tuple(seq![Ty::Bytes]) },
        SchemaEntry { name: "GetOwnerReturn".spec_bytes(), schema: Ty::Tuple(seq![Ty::Tuple(seq![Ty::Bytes]), Ty::Tuple(seq![Ty::Bytes])]) },
        SchemaEntry { name: "GetVestingFundsReturn".spec_bytes(), schema: Ty::Tuple(seq![Ty::Array(Box::new(Ty::Tuple(seq![Ty::Int64, Ty::Tuple(seq![Ty::Bytes, Ty::Bool])])))]) },
        SchemaEntry { name: "ChangeBeneficiaryParams".spec_bytes(), schema: Ty::Tuple(seq![Ty::Tuple(seq![Ty::Bytes]), Ty::Tuple(seq![Ty::Bytes, Ty::Bool]), Ty::Int64]) },
        SchemaEntry { name: "ChangeWorkerAddressParams".spec_bytes(), schema: Ty::Tuple(seq![Ty::Tuple(seq![Ty::Bytes]), Ty::Array(Box::new(Ty::Tuple(seq![Ty::Bytes])))]) },
        SchemaEntry { name: "ChangeMultiaddrsParams".spec_bytes(), schema: Ty::Tuple(seq![Ty::Array(Box::new(Ty::Tuple(seq![Ty::Bytes])))]) },
        SchemaEntry { name: "GetMultiaddrsReturn".spec_bytes(), schema: Ty::Tuple(seq![Ty::Array(Box::new(Ty::Tuple(seq![Ty::Bytes])))]) },
        SchemaEntry { name: "VestingFunds".spec_bytes(), schema: Ty::Tuple(seq![Ty::Int64, Ty::Tuple(seq![Ty::Bytes, Ty::Bool])]) },
        SchemaEntry { name: "BeneficiaryTerm".spec_bytes(), schema: Ty::Tuple(seq![Ty::Tuple(seq![Ty::Bytes, Ty::Bool]), Ty::Tuple(seq![Ty::Bytes, Ty::Bool]), Ty::Int64]) },
        SchemaEntry { name: "ActiveBeneficiary".spec_bytes(), schema: Ty::Tuple(seq![Ty::Tuple(seq![Ty::Bytes]), Ty::Tuple(seq![Ty::Tuple(seq![Ty::Bytes, Ty::Bool]), Ty::Tuple(seq![Ty::Bytes, Ty::Bool]), Ty::Int64])]) },
        SchemaEntry { name: "PendingBeneficiaryChange".spec_bytes(), schema: Ty::Tuple(seq![Ty::Tuple(seq![Ty::Bytes]), Ty::Tuple(seq![Ty::Bytes, Ty::Bool]), Ty::Int64, Ty::Bool, Ty::Bool]) },
    ]
}

/// The schemas of the VerifiedRegistry family, in table order.
pub open spec fn verified_registry_schema_table() -> Seq<SchemaEntry> {
    seq![
        SchemaEntry { name: "BigInt".spec_bytes(), schema: Ty::Tuple(seq![Ty::Bytes, Ty::Bool]) },
        SchemaEntry { name: "FilAddress".spec_bytes(), schema: Ty::Tuple(seq![Ty::Bytes]) },
        SchemaEntry { name: "FailCode".spec_bytes(), schema: Ty::Tuple(seq![Ty::Uint(32), Ty::Uint(32)]) },
        SchemaEntry { name: "BatchReturn".spec_bytes(), schema: Ty::Tuple(seq![Ty::Uint(32), Ty::Array(Box::new(Ty::Tuple(seq![Ty::Uint(32), Ty::Uint(32)])))]) },
        SchemaEntry { name: "GetClaimsParams".spec_bytes(), schema: Ty::Tuple(seq![Ty::Uint(64), Ty::Array(Box::new(Ty::Uint(64)))]) },
        SchemaEntry { name: "GetClaimsReturn".spec_bytes(), schema: Ty::Tuple(seq![Ty::Tuple(seq![Ty::Uint(32), Ty::Array(Box::new(Ty::Tuple(seq![Ty::Uint(32), Ty::Uint(32)])))]), Ty::Array(Box::new(Ty::Tuple(seq![Ty::Uint(64), Ty::Uint(64), Ty::Bytes, Ty::Uint(64), Ty::Int64, Ty::Int64, Ty::Int64, Ty::Uint(64)])))]) },
        SchemaEntry { name: "AddVerifiedClientParams".spec_bytes(), schema: Ty::Tuple(seq![Ty::Tuple(seq![Ty::Bytes]), Ty::Tuple(seq![Ty::Bytes, Ty::Bool])]) },
        SchemaEntry { name: "RemoveExpiredAllocationsParams".spec_bytes(), schema: Ty::Tuple(seq![Ty::Uint(64), Ty::Array(Box::new(Ty::Uint(64)))]) },
        SchemaEntry { name: "RemoveExpiredAllocationsReturn".spec_bytes(), schema: Ty::Tuple(seq![Ty::Array(Box::new(Ty::Uint(64))), Ty::Tuple(seq![Ty::Uint(32), Ty::Array(Box::new(Ty::Tuple(seq![Ty::Uint(32), Ty::Uint(32)])))]), Ty::Tuple(seq![Ty::Bytes, Ty::Bool])]) },
        SchemaEntry { name: "RemoveExpiredClaimsParams".spec_bytes(), schema: Ty::Tuple(seq![Ty::Uint(64), Ty::Array(Box::new(Ty::Uint(64)))]) },
        SchemaEntry { name: "RemoveExpiredClaimsReturn".spec_bytes(), schema: Ty::Tuple(seq![Ty::Array(Box::new(Ty::Uint(64))), Ty::Tuple(seq![Ty::Uint(32), Ty::Array(Box::new(Ty::Tuple(seq![Ty::Uint(32), Ty::Uint(32)])))])]) },
        SchemaEntry { name: "ExtendClaimTermsParams".spec_bytes(), schema: Ty::Tuple(seq![Ty::Array(Box::new(Ty::Tuple(seq![Ty::Uint(64), Ty::Uint(64), Ty::Int64])))]) },
        SchemaEntry { name: "ClaimTerm".spec_bytes(), schema: Ty::Tuple(seq![Ty::Uint(64), Ty::Uint(64), Ty::Int64]) },
        SchemaEntry { name: "Claim".spec_bytes(), schema: Ty::Tuple(seq![Ty::Uint(64), Ty::Uint(64), Ty::Bytes, Ty::Uint(64), Ty::Int64, Ty::Int64, Ty::Int64, Ty::Uint(64)]) },
    ]
}

/// The schemas of the Send family, in table order.
pub open spec fn send_schema_table() -> Seq<SchemaEntry> {
    seq![
        SchemaEntry { name: "FilAddress".spec_bytes(), schema: Ty::Tuple(seq![Ty::Bytes]) },
    ]
}

/// The schemas of the Precompiles family, in table order.
pub open spec fn precompiles_schema_table() -> Seq<SchemaEntry> {
    seq![
        SchemaEntry { name: "FilAddress".spec_bytes(), schema: Ty::Tuple(seq![Ty::Bytes]) },
    ]
}

/// The struct and enumeration schemas of each family, in table order.
pub open spec fn schema_table(f: ActorFamily) -> Seq<SchemaEntry> {
    match f {
        ActorFamily::Account => account_schema_table(),
        ActorFamily::Datacap => datacap_schema_table(),
        ActorFamily::Market => market_schema_table(),
        ActorFamily::Power => power_schema_table(),
        ActorFamily::Miner => miner_schema_table(),
        ActorFamily::VerifiedRegistry => verified_registry_schema_table(),
        ActorFamily::Send => send_schema_table(),
        ActorFamily::Precompiles => precompiles_schema_table(),
    }
}

/// The names of the methods of a family, in table order.
pub open spec fn method_names(f: ActorFamily) -> Seq<Seq<u8>> {
    Seq::new(method_table(f).len(), |i: int| method_table(f)[i].name)
}

/// The canonical signatures of the methods of a family, in table order.
pub open spec fn method_signatures(f: ActorFamily) -> Seq<Seq<u8>> {
    Seq::new(
        method_table(f).len(),
        |i: int| signature_of(method_table(f)[i].name, method_table(f)[i].params),
    )
}

/// The names of the schemas of a family, in table order.
pub open spec fn schema_names(f: ActorFamily) -> Seq<Seq<u8>> {
    Seq::new(schema_table(f).len(), |i: int| schema_table(f)[i].name)
}

/// `i` is the first position of `x` in `s`.
pub open spec fn is_first(s: Seq<Seq<u8>>, x: Seq<u8>, i: int) -> bool {
    0 <= i < s.len() && s[i] == x && forall|j: int| 0 <= j < i ==> s[j] != x
}

/// The first position of `x` in `s` (meaningful when `s` contains `x`).
pub open spec fn first_index(s: Seq<Seq<u8>>, x: Seq<u8>) -> int {
    choose|i: int| is_first(s, x, i)
}

/// The first position is unique.
pub proof fn lemma_first_index(s: Seq<Seq<u8>>, x: Seq<u8>, i: int)
    requires
        is_first(s, x, i),
    ensures
        first_index(s, x) == i,
{
    let j = first_index(s, x);
    assert(is_first(s, x, j));
    if j < i {
        assert(s[j] != x);
    } else if i < j {
        assert(s[i] != x);
    }
}

/// The entry of the first method of family `f` named `name`.
pub open spec fn method_entry(f: ActorFamily, name: Seq<u8>) -> MethodEntry {
    method_table(f)[first_index(method_names(f), name)]
}

/// The entry of the first method of family `f` whose signature is `sig`.
pub open spec fn method_entry_by_signature(f: ActorFamily, sig: Seq<u8>) -> MethodEntry {
    method_table(f)[first_index(method_signatures(f), sig)]
}

/// The schema of the first entry of family `f` named `name`.
pub open spec fn schema_entry(f: ActorFamily, name: Seq<u8>) -> Ty {
    schema_table(f)[first_index(schema_names(f), name)].schema
}

/// The signatures `ms` are the method table of `f`, in order.
pub open spec fn table_match(ms: Seq<MethodSignature>, f: ActorFamily) -> bool {
    ms.len() == method_table(f).len() && forall|i: int|
        0 <= i < ms.len() ==> entry_of(#[trigger] ms[i]) == method_table(f)[i] && ms[i].params is Tuple
}

/// The named schemas `ss` are the schema table of `f`, in order.
pub open spec fn schema_table_match(ss: Seq<NamedSchema>, f: ActorFamily) -> bool {
    ss.len() == schema_table(f).len() && forall|i: int|
        0 <= i < ss.len() ==> schema_entry_of(#[trigger] ss[i]) == schema_table(f)[i]
}

fn tup(ts: Vec<AbiType>) -> (r: AbiType)
    ensures
        r == AbiType::Tuple(ts),
        r.shape() is Tuple,
        r.shape()->Tuple_0.len() == ts@.len(),
        forall|i: int| 0 <= i < ts@.len() ==> #[trigger] r.shape()->Tuple_0[i] == ts@[i].shape(),
{
    proof {
        lemma_shape_list(ts@);
    }
    AbiType::Tuple(ts)
}

#[verifier::rlimit(100)]
fn account_method_0() -> (r: MethodSignature)
    ensures
        entry_of(r) == account_method_table()[0],
        r.params is Tuple,
{
    let t0 = tup(vec![AbiType::Bytes, AbiType::Bytes]);
    assert(t0.shape()->Tuple_0 =~= seq![Ty::Bytes, Ty::Bytes]);
    let t1 = tup(vec![AbiType::Uint(64), t0]);
    assert(t1.shape()->Tuple_0 =~= seq![Ty::Uint(64), Ty::Tuple(seq![Ty::Bytes, Ty::Bytes])]);
    let r = MethodSignature { name: "authenticate_message", params: t1, outputs: None };
    assert(entry_of(r) == account_method_table()[0]);
    r
}

#[verifier::rlimit(100)]
fn account_method_1() -> (r: MethodSignature)
    ensures
        entry_of(r) == account_method_table()[1],
        r.params is Tuple,
{
    let t0 = tup(vec![AbiType::Uint(32), AbiType::Bytes]);
    assert(t0.shape()->Tuple_0 =~= seq![Ty::Uint(32), Ty::Bytes]);
    let t1 = tup(vec![AbiType::Uint(64), t0]);
    assert(t1.shape()->Tuple_0 =~= seq![Ty::Uint(64), Ty::Tuple(seq![Ty::Uint(32), Ty::Bytes])]);
    let r = MethodSignature { name: "universal_receiver_hook", params: t1, outputs: None };
    assert(entry_of(r) == account_method_table()[1]);
    r
}

fn account_methods() -> (r: Vec<MethodSignature>)
    ensures
        r@.len() == account_method_table().len(),
        forall|i: int| 0 <= i < r@.len() ==> entry_of(#[trigger] r@[i]) == account_method_table()[i] && r@[i].params is Tuple,
{
    let r = vec![account_method_0(), account_method_1()];
    assert(r@.len() == account_method_table().len());
    r
}

#[verifier::rlimit(100)]
fn account_schema_0() -> (r: NamedSchema)
    ensures
        schema_entry_of(r) == account_schema_table()[0],
{
    let t0 = tup(vec![AbiType::Bytes, AbiType::Bytes]);
    assert(t0.shape()->Tuple_0 =~= seq![Ty::Bytes, Ty::Bytes]);
    let r = NamedSchema { name: "AuthenticateMessageParams", schema: t0 };
    assert(schema_entry_of(r) == account_schema_table()[0]);
    r
}

#[verifier::rlimit(100)]
fn account_schema_1() -> (r: NamedSchema)
    ensures
        schema_entry_of(r) == account_schema_table()[1],
{
    let t0 = tup(vec![AbiType::Uint(32), AbiType::Bytes]);
    assert(t0.shape()->Tuple_0 =~= seq![Ty::Uint(32), Ty::Bytes]);
    let r = NamedSchema { name: "UniversalReceiverParams", schema: t0 };
    assert(schema_entry_of(r) == account_schema_table()[1]);
    r
}

fn account_schemas() -> (r: Vec<NamedSchema>)
    ensures
        r@.len() == account_schema_table().len(),
        forall|i: int| 0 <= i < r@.len() ==> schema_entry_of(#[trigger] r@[i]) == account_schema_table()[i],
{
    let r = vec![account_schema_0(), account_schema_1()];
    assert(r@.len() == account_schema_table().len());
    r
}

#[verifier::rlimit(100)]
fn datacap_method_0() -> (r: MethodSignature)
    ensures
        entry_of(r) == datacap_method_table()[0],
        r.params is Tuple,
{
    let t0 = tup(vec![]);
    assert(t0.shape()->Tuple_0 =~= seq![]);
    let t1 = tup(vec![AbiType::Str]);
    assert(t1.shape()->Tuple_0 =~= seq![Ty::Str]);
    let r = MethodSignature { name: "name", params: t0, outputs: Some(t1) };
    assert(entry_of(r) == datacap_method_table()[0]);
    r
}

#[verifier::rlimit(100)]
fn datacap_method_1() -> (r: MethodSignature)
    ensures
        entry_of(r) == datacap_method_table()[1],
        r.params is Tuple,
{
    let t0 = tup(vec![]);
    assert(t0.shape()->Tuple_0 =~= seq![]);
    let t1 = tup(vec![AbiType::Str]);
    assert(t1.shape()->Tuple_0 =~= seq![Ty::Str]);
    let r = MethodSignature { name: "symbol", params: t0, outputs: Some(t1) };
    assert(entry_of(r) == datacap_method_table()[1]);
    r
}

#[verifier::rlimit(100)]
fn datacap_method_2() -> (r: MethodSignature)
    ensures
        entry_of(r) == datacap_method_table()[2],
        r.params is Tuple,
{
    let t0 = tup(vec![]);
    assert(t0.shape()->Tuple_0 =~= seq![]);
    let t1 = tup(vec![AbiType::Bytes, AbiType::Bool]);
    assert(t1.shape()->Tuple_0 =~= seq![Ty::Bytes, Ty::Bool]);
    let t2 = tup(vec![t1]);
    assert(t2.shape()->Tuple_0 =~= seq![Ty::Tuple(seq![Ty::Bytes, Ty::Bool])]);
    let r = MethodSignature { name: "total_supply", params: t0, outputs: Some(t2) };
    assert(entry_of(r) == datacap_method_table()[2]);
    r
}

#[verifier::rlimit(100)]
fn datacap_method_3() -> (r: MethodSignature)
    ensures
        entry_of(r) == datacap_method_table()[3],
        r.params is Tuple,
{
    let t0 = tup(vec![AbiType::Bytes]);
    assert(t0.shape()->Tuple_0 =~= seq![Ty::Bytes]);
    let t1 = tup(vec![t0]);
    assert(t1.shape()->Tuple_0 =~= seq![Ty::Tuple(seq![Ty::Bytes])]);
    let t2 = tup(vec![AbiType::Bytes, AbiType::Bool]);
    assert(t2.shape()->Tuple_0 =~= seq![Ty::Bytes, Ty::Bool]);
    let t3 = tup(vec![t2]);
    assert(t3.shape()->Tuple_0 =~= seq![Ty::Tuple(seq![Ty::Bytes, Ty::Bool])]);
    let r = MethodSignature { name: "balance", params: t1, outputs: Some(t3) };
    assert(entry_of(r) == datacap_method_table()[3]);
    r
}

#[verifier::rlimit(100)]
fn datacap_method_4() -> (r: MethodSignature)
    ensures
        entry_of(r) == datacap_method_table()[4],
        r.params is Tuple,
{
    let t0 = tup(vec![AbiType::Bytes]);
    assert(t0.shape()->Tuple_0 =~= seq![Ty::Bytes]);
    let t1 = tup(vec![AbiType::Bytes]);
    assert(t1.shape()->Tuple_0 =~= seq![Ty::Bytes]);
    let t2 = tup(vec![t0, t1]);
    assert(t2.shape()->Tuple_0 =~= seq![Ty::Tuple(seq![Ty::Bytes]), Ty::Tuple(seq![Ty::Bytes])]);
    let t3 = tup(vec![t2]);
    assert(t3.shape()->Tuple_0 =~= seq![Ty::Tuple(seq![Ty::Tuple(seq![Ty::Bytes]), Ty::Tuple(seq![Ty::Bytes])])]);
    let t4 = tup(vec![AbiType::Bytes, AbiType::Bool]);
    assert(t4.shape()->Tuple_0 =~= seq![Ty::Bytes, Ty::Bool]);
    let t5 = tup(vec![t4]);
    assert(t5.shape()->Tuple_0 =~= seq![Ty::Tuple(seq![Ty::Bytes, Ty::Bool])]);
    let r = MethodSignature { name: "allowance", params: t3, outputs: Some(t5) };
    assert(entry_of(r) == datacap_method_table()[4]);
    r
}

#[verifier::rlimit(100)]
fn datacap_method_5() -> (r: MethodSignature)
    ensures
        entry_of(r) == datacap_method_table()[5],
        r.params is Tuple,
{
    let t0 = tup(vec![AbiType::Bytes]);
    assert(t0.shape()->Tuple_0 =~= seq![Ty::Bytes]);
    let t1 = tup(vec![AbiType::Bytes, AbiType::Bool]);
    assert(t1.shape()->Tuple_0 =~= seq![Ty::Bytes, Ty::Bool]);
    let t2 = tup(vec![AbiType::Bytes, t0, t1]);
    assert(t2.shape()->Tuple_0 =~= seq![Ty::Bytes, Ty::Tuple(seq![Ty::Bytes]), Ty::Tuple(seq![Ty::Bytes, Ty::Bool])]);
    let t3 = tup(vec![t2]);
    assert(t3.shape()->Tuple_0 =~= seq![Ty::Tuple(seq![Ty::Bytes, Ty::Tuple(seq![Ty::Bytes]), Ty::Tuple(seq![Ty::Bytes, Ty::Bool])])]);
    let t4 = tup(vec![AbiType::Bytes, AbiType::Bool]);
    assert(t4.shape()->Tuple_0 =~= seq![Ty::Bytes, Ty::Bool]);
    let t5 = tup(vec![AbiType::Bytes, AbiType::Bool]);
    assert(t5.shape()->Tuple_0 =~= seq![Ty::Bytes, Ty::Bool]);
    let t6 = tup(vec![AbiType::Bytes, t4, t5]);
    assert(t6.shape()->Tuple_0 =~= seq![Ty::Bytes, Ty::Tuple(seq![Ty::Bytes, Ty::Bool]), Ty::Tuple(seq![Ty::Bytes, Ty::Bool])]);
    let t7 = tup(vec![t6]);
    assert(t7.shape()->Tuple_0 =~= seq![Ty::Tuple(seq![Ty::Bytes, Ty::Tuple(seq![Ty::Bytes, Ty::Bool]), Ty::Tuple(seq![Ty::Bytes, Ty::Bool])])]);
    let r = MethodSignature { name: "transfer", params: t3, outputs: Some(t7) };
    assert(entry_of(r) == datacap_method_table()[5]);
    r
}

#[verifier::rlimit(100)]
fn datacap_method_6() -> (r: MethodSignature)
    ensures
        entry_of(r) == datacap_method_table()[6],
        r.params is Tuple,
{
    let t0 = tup(vec![AbiType::Bytes]);
    assert(t0.shape()->Tuple_0 =~= seq![Ty::Bytes]);
    let t1 = tup(vec![AbiType::Bytes]);
    assert(t1.shape()->Tuple_0 =~= seq![Ty::Bytes]);
    let t2 = tup(vec![AbiType::Bytes, AbiType::Bool]);
    assert(t2.shape()->Tuple_0 =~= seq![Ty::Bytes, Ty::Bool]);
    let t3 = tup(vec![AbiType::Bytes, t0, t1, t2]);
    assert(t3.shape()->Tuple_0 =~= seq![Ty::Bytes, Ty::Tuple(seq![Ty::Bytes]), Ty::Tuple(seq![Ty::Bytes]), Ty::Tuple(seq![Ty::Bytes, Ty::Bool])]);
    let t4 = tup(vec![t3]);
    assert(t4.shape()->Tuple_0 =~= seq![Ty::Tuple(seq![Ty::Bytes, Ty::Tuple(seq![Ty::Bytes]), Ty::Tuple(seq![Ty::Bytes]), Ty::Tuple(seq![Ty::Bytes, Ty::Bool])])]);
    let t5 = tup(vec![AbiType::Bytes, AbiType::Bool]);
    assert(t5.shape()->Tuple_0 =~= seq![Ty::Bytes, Ty::Bool]);
    let t6 = tup(vec![AbiType::Bytes, AbiType::Bool]);
    assert(t6.shape()->Tuple_0 =~= seq![Ty::Bytes, Ty::Bool]);
    let t7 = tup(vec![AbiType::Bytes, AbiType::Bool]);
    assert(t7.shape()->Tuple_0 =~= seq![Ty::Bytes, Ty::Bool]);
    let t8 = tup(vec![AbiType::Bytes, t5, t6, t7]);
    assert(t8.shape()->Tuple_0 =~= seq![Ty::Bytes, Ty::Tuple(seq![Ty::Bytes, Ty::Bool]), Ty::Tuple(seq![Ty::Bytes, Ty::Bool]), Ty::Tuple(seq![Ty::Bytes, Ty::Bool])]);
    let t9 = tup(vec![t8]);
    assert(t9.shape()->Tuple_0 =~= seq![Ty::Tuple(seq![Ty::Bytes, Ty::Tuple(seq![Ty::Bytes, Ty::Bool]), Ty::Tuple(seq![Ty::Bytes, Ty::Bool]), Ty::Tuple(seq![Ty::Bytes, Ty::Bool])])]);
    let r = MethodSignature { name: "transfer_from", params: t4, outputs: Some(t9) };
    assert(entry_of(r) == datacap_method_table()[6]);
    r
}

#[verifier::rlimit(100)]
fn datacap_method_7() -> (r: MethodSignature)
    ensures
        entry_of(r) == datacap_method_table()[7],
        r.params is Tuple,
{
    let t0 = tup(vec![AbiType::Bytes]);
    assert(t0.shape()->Tuple_0 =~= seq![Ty::Bytes]);
    let t1 = tup(vec![AbiType::Bytes, AbiType::Bool]);
    assert(t1.shape()->Tuple_0 =~= seq![Ty::Bytes, Ty::Bool]);
    let t2 = tup(vec![t0, t1]);
    assert(t2.shape()->Tuple_0 =~= seq![Ty::Tuple(seq![Ty::Bytes]), Ty::Tuple(seq![Ty::Bytes, Ty::Bool])]);
    let t3 = tup(vec![t2]);
    assert(t3.shape()->Tuple_0 =~= seq![Ty::Tuple(seq![Ty::Tuple(seq![Ty::Bytes]), Ty::Tuple(seq![Ty::Bytes, Ty::Bool])])]);
    let t4 = tup(vec![AbiType::Bytes, AbiType::Bool]);
    assert(t4.shape()->Tuple_0 =~= seq![Ty::Bytes, Ty::Bool]);
    let t5 = tup(vec![t4]);
    assert(t5.shape()->Tuple_0 =~= seq![Ty::Tuple(seq![Ty::Bytes, Ty::Bool])]);
    let r = MethodSignature { name: "increase_allowance", params: t3, outputs: Some(t5) };
    assert(entry_of(r) == datacap_method_table()[7]);
    r
}

#[verifier::rlimit(100)]
fn datacap_method_8() -> (r: MethodSignature)
    ensures
        entry_of(r) == datacap_method_table()[8],
        r.params is Tuple,
{
    let t0 = tup(vec![AbiType::Bytes]);
    assert(t0.shape()->Tuple_0 =~= seq![Ty::Bytes]);
    let t1 = tup(vec![AbiType::Bytes, AbiType::Bool]);
    assert(t1.shape()->Tuple_0 =~= seq![Ty::Bytes, Ty::Bool]);
    let t2 = tup(vec![t0, t1]);
    assert(t2.shape()->Tuple_0 =~= seq![Ty::Tuple(seq![Ty::Bytes]), Ty::Tuple(seq![Ty::Bytes, Ty::Bool])]);
    let t3 = tup(vec![t2]);
    assert(t3.shape()->Tuple_0 =~= seq![Ty::Tuple(seq![Ty::Tuple(seq![Ty::Bytes]), Ty::Tuple(seq![Ty::Bytes, Ty::Bool])])]);
    let t4 = tup(vec![AbiType::Bytes, AbiType::Bool]);
    assert(t4.shape()->Tuple_0 =~= seq![Ty::Bytes, Ty::Bool]);
    let t5 = tup(vec![t4]);
    assert(t5.shape()->Tuple_0 =~= seq![Ty::Tuple(seq![Ty::Bytes, Ty::Bool])]);
    let r = MethodSignature { name: "decrease_allowance", params: t3, outputs: Some(t5) };
    assert(entry_of(r) == datacap_method_table()[8]);
    r
}

#[verifier::rlimit(100)]
fn datacap_method_9() -> (r: MethodSignature)
    ensures
        entry_of(r) == datacap_method_table()[9],
        r.params is Tuple,
{
    let t0 = tup(vec![AbiType::Bytes]);
    assert(t0.shape()->Tuple_0 =~= seq![Ty::Bytes]);
    let t1 = tup(vec![t0]);
    assert(t1.shape()->Tuple_0 =~= seq![Ty::Tuple(seq![Ty::Bytes])]);
    let t2 = tup(vec![AbiType::Bytes, AbiType::Bool]);
    assert(t2.shape()->Tuple_0 =~= seq![Ty::Bytes, Ty::Bool]);
    let t3 = tup(vec![t2]);
    assert(t3.shape()->Tuple_0 =~= seq![Ty::Tuple(seq![Ty::Bytes, Ty::Bool])]);
    let r = MethodSignature { name: "revoke_allowance", params: t1, outputs: Some(t3) };
    assert(entry_of(r) == datacap_method_table()[9]);
    r
}

#[verifier::rlimit(100)]
fn datacap_method_10() -> (r: MethodSignature)
    ensures
        entry_of(r) == datacap_method_table()[10],
        r.params is Tuple,
{
    let t0 = tup(vec![AbiType::Bytes, AbiType::Bool]);
    assert(t0.shape()->Tuple_0 =~= seq![Ty::Bytes, Ty::Bool]);
    let t1 = tup(vec![t0]);
    assert(t1.shape()->Tuple_0 =~= seq![Ty::Tuple(seq![Ty::Bytes, Ty::Bool])]);
    let t2 = tup(vec![AbiType::Bytes, AbiType::Bool]);
    assert(t2.shape()->Tuple_0 =~= seq![Ty::Bytes, Ty::Bool]);
    let t3 = tup(vec![t2]);
    assert(t3.shape()->Tuple_0 =~= seq![Ty::Tuple(seq![Ty::Bytes, Ty::Bool])]);
    let r = MethodSignature { name: "burn", params: t1, outputs: Some(t3) };
    assert(entry_of(r) == datacap_method_table()[10]);
    r
}

#[verifier::rlimit(100)]
fn datacap_method_11() -> (r: MethodSignature)
    ensures
        entry_of(r) == datacap_method_table()[11],
        r.params is Tuple,
{
    let t0 = tup(vec![AbiType::Bytes]);
    assert(t0.shape()->Tuple_0 =~= seq![Ty::Bytes]);
    let t1 = tup(vec![AbiType::Bytes, AbiType::Bool]);
    assert(t1.shape()->Tuple_0 =~= seq![Ty::Bytes, Ty::Bool]);
    let t2 = tup(vec![t0, t1]);
    assert(t2.shape()->Tuple_0 =~= seq![Ty::Tuple(seq![Ty::Bytes]), Ty::Tuple(seq![Ty::Bytes, Ty::Bool])]);
    let t3 = tup(vec![t2]);
    assert(t3.shape()->Tuple_0 =~= seq![Ty::Tuple(seq![Ty::Tuple(seq![Ty::Bytes]), Ty::Tuple(seq![Ty::Bytes, Ty::Bool])])]);
    let t4 = tup(vec![AbiType::Bytes, AbiType::Bool]);
    assert(t4.shape()->Tuple_0 =~= seq![Ty::Bytes, Ty::Bool]);
    let t5 = tup(vec![AbiType::Bytes, AbiType::Bool]);
    assert(t5.shape()->Tuple_0 =~= seq![Ty::Bytes, Ty::Bool]);
    let t6 = tup(vec![t4, t5]);
    assert(t6.shape()->Tuple_0 =~= seq![Ty::Tuple(seq![Ty::Bytes, Ty::Bool]), Ty::Tuple(seq![Ty::Bytes, Ty::Bool])]);
    let t7 = tup(vec![t6]);
    assert(t7.shape()->Tuple_0 =~= seq![Ty::Tuple(seq![Ty::Tuple(seq![Ty::Bytes, Ty::Bool]), Ty::Tuple(seq![Ty::Bytes, Ty::Bool])])]);
    let r = MethodSignature { name: "burn_from", params: t3, outputs: Some(t7) };
    assert(entry_of(r) == datacap_method_table()[11]);
    r
}

#[verifier::rlimit(100)]
fn datacap_method_12() -> (r: MethodSignature)
    ensures
        entry_of(r) == datacap_method_table()[12],
        r.params is Tuple,
{
    let t0 = tup(vec![AbiType::Uint(64), AbiType::Uint(64), AbiType::Bytes]);
    assert(t0.shape()->Tuple_0 =~= seq![Ty::Uint(64), Ty::Uint(64), Ty::Bytes]);
    let r = MethodSignature { name: "handle_filecoin_method", params: t0, outputs: None };
    assert(entry_of(r) == datacap_method_table()[12]);
    r
}

fn datacap_methods() -> (r: Vec<MethodSignature>)
    ensures
        r@.len() == datacap_method_table().len(),
        forall|i: int| 0 <= i < r@.len() ==> entry_of(#[trigger] r@[i]) == datacap_method_table()[i] && r@[i].params is Tuple,
{
    let r = vec![datacap_method_0(), datacap_method_1(), datacap_method_2(), datacap_method_3(), datacap_method_4(), datacap_method_5(), datacap_method_6(), datacap_method_7(), datacap_method_8(), datacap_method_9(), datacap_method_10(), datacap_method_11(), datacap_method_12()];
    assert(r@.len() == datacap_method_table().len());
    r
}

#[verifier::rlimit(100)]
fn datacap_schema_0() -> (r: NamedSchema)
    ensures
        schema_entry_of(r) == datacap_schema_table()[0],
{
    let t0 = tup(vec![AbiType::Bytes, AbiType::Bool]);
    assert(t0.shape()->Tuple_0 =~= seq![Ty::Bytes, Ty::Bool]);
    let r = NamedSchema { name: "BigInt", schema: t0 };
    assert(schema_entry_of(r) == datacap_schema_table()[0]);
    r
}

#[verifier::rlimit(100)]
fn datacap_schema_1() -> (r: NamedSchema)
    ensures
        schema_entry_of(r) == datacap_schema_table()[1],
{
    let t0 = tup(vec![AbiType::Bytes]);
    assert(t0.shape()->Tuple_0 =~= seq![Ty::Bytes]);
    let r = NamedSchema { name: "FilAddress", schema: t0 };
    assert(schema_entry_of(r) == datacap_schema_table()[1]);
    r
}

#[verifier::rlimit(100)]
fn datacap_schema_2() -> (r: NamedSchema)
    ensures
        schema_entry_of(r) == datacap_schema_table()[2],
{
    let t0 = tup(vec![AbiType::Bytes]);
    assert(t0.shape()->Tuple_0 =~= seq![Ty::Bytes]);
    let t1 = tup(vec![AbiType::Bytes]);
    assert(t1.shape()->Tuple_0 =~= seq![Ty::Bytes]);
    let t2 = tup(vec![t0, t1]);
    assert(t2.shape()->Tuple_0 =~= seq![Ty::Tuple(seq![Ty::Bytes]), Ty::Tuple(seq![Ty::Bytes])]);
    let r = NamedSchema { name: "GetAllowanceParams", schema: t2 };
    assert(schema_entry_of(r) == datacap_schema_table()[2]);
    r
}

#[verifier::rlimit(100)]
fn datacap_schema_3() -> (r: NamedSchema)
    ensures
        schema_entry_of(r) == datacap_schema_table()[3],
{
    let t0 = tup(vec![AbiType::Bytes]);
    assert(t0.shape()->Tuple_0 =~= seq![Ty::Bytes]);
    let t1 = tup(vec![AbiType::Bytes, AbiType::Bool]);
    assert(t1.shape()->Tuple_0 =~= seq![Ty::Bytes, Ty::Bool]);
    let t2 = tup(vec![AbiType::Bytes, t0, t1]);
    assert(t2.shape()->Tuple_0 =~= seq![Ty::Bytes, Ty::Tuple(seq![Ty::Bytes]), Ty::Tuple(seq![Ty::Bytes, Ty::Bool])]);
    let r = NamedSchema { name: "TransferParams", schema: t2 };
    assert(schema_entry_of(r) == datacap_schema_table()[3]);
    r
}

#[verifier::rlimit(100)]
fn datacap_schema_4() -> (r: NamedSchema)
    ensures
        schema_entry_of(r) == datacap_schema_table()[4],
{
    let t0 = tup(vec![AbiType::Bytes, AbiType::Bool]);
    assert(t0.shape()->Tuple_0 =~= seq![Ty::Bytes, Ty::Bool]);
    let t1 = tup(vec![AbiType::Bytes, AbiType::Bool]);
    assert(t1.shape()->Tuple_0 =~= seq![Ty::Bytes, Ty::Bool]);
    let t2 = tup(vec![AbiType::Bytes, t0, t1]);
    assert(t2.shape()->Tuple_0 =~= seq![Ty::Bytes, Ty::Tuple(seq![Ty::Bytes, Ty::Bool]), Ty::Tuple(seq![Ty::Bytes, Ty::Bool])]);
    let r = NamedSchema { name: "TransferReturn", schema: t2 };
    assert(schema_entry_of(r) == datacap_schema_table()[4]);
    r
}

#[verifier::rlimit(100)]
fn datacap_schema_5() -> (r: NamedSchema)
    ensures
        schema_entry_of(r) == datacap_schema_table()[5],
{
    let t0 = tup(vec![AbiType::Bytes]);
    assert(t0.shape()->Tuple_0 =~= seq![Ty::Bytes]);
    let t1 = tup(vec![AbiType::Bytes]);
    assert(t1.shape()->Tuple_0 =~= seq![Ty::Bytes]);
    let t2 = tup(vec![AbiType::Bytes, AbiType::Bool]);
    assert(t2.shape()->Tuple_0 =~= seq![Ty::Bytes, Ty::Bool]);
    let t3 = tup(vec![AbiType::Bytes, t0, t1, t2]);
    assert(t3.shape()->Tuple_0 =~= seq![Ty::Bytes, Ty::Tuple(seq![Ty::Bytes]), Ty::Tuple(seq![Ty::Bytes]), Ty::Tuple(seq![Ty::Bytes, Ty::Bool])]);
    let r = NamedSchema { name: "TransferFromParams", schema: t3 };
    assert(schema_entry_of(r) == datacap_schema_table()[5]);
    r
}

#[verifier::rlimit(100)]
fn datacap_schema_6() -> (r: NamedSchema)
    ensures
        schema_entry_of(r) == datacap_schema_table()[6],
{
    let t0 = tup(vec![AbiType::Bytes, AbiType::Bool]);
    assert(t0.shape()->Tuple_0 =~= seq![Ty::Bytes, Ty::Bool]);
    let t1 = tup(vec![AbiType::Bytes, AbiType::Bool]);
    assert(t1.shape()->Tuple_0 =~= seq![Ty::Bytes, Ty::Bool]);
    let t2 = tup(vec![AbiType::Bytes, AbiType::Bool]);
    assert(t2.shape()->Tuple_0 =~= seq![Ty::Bytes, Ty::Bool]);
    let t3 = tup(vec![AbiType::Bytes, t0, t1, t2]);
    assert(t3.shape()->Tuple_0 =~= seq![Ty::Bytes, Ty::Tuple(seq![Ty::Bytes, Ty::Bool]), Ty::Tuple(seq![Ty::Bytes, Ty::Bool]), Ty::Tuple(seq![Ty::Bytes, Ty::Bool])]);
    let r = NamedSchema { name: "TransferFromReturn", schema: t3 };
    assert(schema_entry_of(r) == datacap_schema_table()[6]);
    r
}

#[verifier::rlimit(100)]
fn datacap_schema_7() -> (r: NamedSchema)
    ensures
        schema_entry_of(r) == datacap_schema_table()[7],
{
    let t0 = tup(vec![AbiType::Bytes]);
    assert(t0.shape()->Tuple_0 =~= seq![Ty::Bytes]);
    let t1 = tup(vec![AbiType::Bytes, AbiType::Bool]);
    assert(t1.shape()->Tuple_0 =~= seq![Ty::Bytes, Ty::Bool]);
    let t2 = tup(vec![t0, t1]);
    assert(t2.shape()->Tuple_0 =~= seq![Ty::Tuple(seq![Ty::Bytes]), Ty::Tuple(seq![Ty::Bytes, Ty::Bool])]);
    let r = NamedSchema { name: "IncreaseAllowanceParams", schema: t2 };
    assert(schema_entry_of(r) == datacap_schema_table()[7]);
    r
}

#[verifier::rlimit(100)]
fn datacap_schema_8() -> (r: NamedSchema)
    ensures
        schema_entry_of(r) == datacap_schema_table()[8],
{
    let t0 = tup(vec![AbiType::Bytes]);
    assert(t0.shape()->Tuple_0 =~= seq![Ty::Bytes]);
    let t1 = tup(vec![AbiType::Bytes, AbiType::Bool]);
    assert(t1.shape()->Tuple_0 =~= seq![Ty::Bytes, Ty::Bool]);
    let t2 = tup(vec![t0, t1]);
    assert(t2.shape()->Tuple_0 =~= seq![Ty::Tuple(seq![Ty::Bytes]), Ty::Tuple(seq![Ty::Bytes, Ty::Bool])]);
    let r = NamedSchema { name: "DecreaseAllowanceParams", schema: t2 };
    assert(schema_entry_of(r) == datacap_schema_table()[8]);
    r
}

#[verifier::rlimit(100)]
fn datacap_schema_9() -> (r: NamedSchema)
    ensures
        schema_entry_of(r) == datacap_schema_table()[9],
{
    let t0 = tup(vec![AbiType::Bytes]);
    assert(t0.shape()->Tuple_0 =~= seq![Ty::Bytes]);
    let t1 = tup(vec![AbiType::Bytes, AbiType::Bool]);
    assert(t1.shape()->Tuple_0 =~= seq![Ty::Bytes, Ty::Bool]);
    let t2 = tup(vec![t0, t1]);
    assert(t2.shape()->Tuple_0 =~= seq![Ty::Tuple(seq![Ty::Bytes]), Ty::Tuple(seq![Ty::Bytes, Ty::Bool])]);
    let r = NamedSchema { name: "BurnFromParams", schema: t2 };
    assert(schema_entry_of(r) == datacap_schema_table()[9]);
    r
}

#[verifier::rlimit(100)]
fn datacap_schema_10() -> (r: NamedSchema)
    ensures
        schema_entry_of(r) == datacap_schema_table()[10],
{
    let t0 = tup(vec![AbiType::Bytes, AbiType::Bool]);
    assert(t0.shape()->Tuple_0 =~= seq![Ty::Bytes, Ty::Bool]);
    let t1 = tup(vec![AbiType::Bytes, AbiType::Bool]);
    assert(t1.shape()->Tuple_0 =~= seq![Ty::Bytes, Ty::Bool]);
    let t2 = tup(vec![t0, t1]);
    assert(t2.shape()->Tuple_0 =~= seq![Ty::Tuple(seq![Ty::Bytes, Ty::Bool]), Ty::Tuple(seq![Ty::Bytes, Ty::Bool])]);
    let r = NamedSchema { name: "BurnFromReturn", schema: t2 };
    assert(schema_entry_of(r) == datacap_schema_table()[10]);
    r
}

fn datacap_schemas() -> (r: Vec<NamedSchema>)
    ensures
        r@.len() == datacap_schema_table().len(),
        forall|i: int| 0 <= i < r@.len() ==> schema_entry_of(#[trigger] r@[i]) == datacap_schema_table()[i],
{
    let r = vec![datacap_schema_0(), datacap_schema_1(), datacap_schema_2(), datacap_schema_3(), datacap_schema_4(), datacap_schema_5(), datacap_schema_6(), datacap_schema_7(), datacap_schema_8(), datacap_schema_9(), datacap_schema_10()];
    assert(r@.len() == datacap_schema_table().len());
    r
}

#[verifier::rlimit(100)]
fn market_method_0() -> (r: MethodSignature)
    ensures
        entry_of(r) == market_method_table()[0],
        r.params is Tuple,
{
    let t0 = tup(vec![AbiType::Bytes]);
    assert(t0.shape()->Tuple_0 =~= seq![Ty::Bytes]);
    let t1 = tup(vec![t0, AbiType::Uint256]);
    assert(t1.shape()->Tuple_0 =~= seq![Ty::Tuple(seq![Ty::Bytes]), Ty::Uint256]);
    let r = MethodSignature { name: "add_balance", params: t1, outputs: None };
    assert(entry_of(r) == market_method_table()[0]);
    r
}

#[verifier::rlimit(100)]
fn market_method_1() -> (r: MethodSignature)
    ensures
        entry_of(r) == market_method_table()[1],
        r.params is Tuple,
{
    let t0 = tup(vec![AbiType::Bytes]);
    assert(t0.shape()->Tuple_0 =~= seq![Ty::Bytes]);
    let t1 = tup(vec![AbiType::Bytes, AbiType::Bool]);
    assert(t1.shape()->Tuple_0 =~= seq![Ty::Bytes, Ty::Bool]);
    let t2 = tup(vec![t0, t1]);
    assert(t2.shape()->Tuple_0 =~= seq![Ty::Tuple(seq![Ty::Bytes]), Ty::Tuple(seq![Ty::Bytes, Ty::Bool])]);
    let t3 = tup(vec![t2]);
    assert(t3.shape()->Tuple_0 =~= seq![Ty::Tuple(seq![Ty::Tuple(seq![Ty::Bytes]), Ty::Tuple(seq![Ty::Bytes, Ty::Bool])])]);
    let t4 = tup(vec![AbiType::Bytes, AbiType::Bool]);
    assert(t4.shape()->Tuple_0 =~= seq![Ty::Bytes, Ty::Bool]);
    let t5 = tup(vec![t4]);
    assert(t5.shape()->Tuple_0 =~= seq![Ty::Tuple(seq![Ty::Bytes, Ty::Bool])]);
    let r = MethodSignature { name: "withdraw_balance", params: t3, outputs: Some(t5) };
    assert(entry_of(r) == market_method_table()[1]);
    r
}

#[verifier::rlimit(100)]
fn market_method_2() -> (r: MethodSignature)
    ensures
        entry_of(r) == market_method_table()[2],
        r.params is Tuple,
{
    let t0 = tup(vec![AbiType::Bytes]);
    assert(t0.shape()->Tuple_0 =~= seq![Ty::Bytes]);
    let t1 = tup(vec![t0]);
    assert(t1.shape()->Tuple_0 =~= seq![Ty::Tuple(seq![Ty::Bytes])]);
    let t2 = tup(vec![AbiType::Bytes, AbiType::Bool]);
    assert(t2.shape()->Tuple_0 =~= seq![Ty::Bytes, Ty::Bool]);
    let t3 = tup(vec![AbiType::Bytes, AbiType::Bool]);
    assert(t3.shape()->Tuple_0 =~= seq![Ty::Bytes, Ty::Bool]);
    let t4 = tup(vec![t2, t3]);
    assert(t4.shape()->Tuple_0 =~= seq![Ty::Tuple(seq![Ty::Bytes, Ty::Bool]), Ty::Tuple(seq![Ty::Bytes, Ty::Bool])]);
    let t5 = tup(vec![t4]);
    assert(t5.shape()->Tuple_0 =~= seq![Ty::Tuple(seq![Ty::Tuple(seq![Ty::Bytes, Ty::Bool]), Ty::Tuple(seq![Ty::Bytes, Ty::Bool])])]);
    let r = MethodSignature { name: "get_balance", params: t1, outputs: Some(t5) };
    assert(entry_of(r) == market_method_table()[2]);
    r
}

#[verifier::rlimit(100)]
fn market_method_3() -> (r: MethodSignature)
    ensures
        entry_of(r) == market_method_table()[3],
        r.params is Tuple,
{
    let t0 = tup(vec![AbiType::Uint(64)]);
    assert(t0.shape()->Tuple_0 =~= seq![Ty::Uint(64)]);
    let t1 = tup(vec![AbiType::Bytes, AbiType::Uint(64)]);
    assert(t1.shape()->Tuple_0 =~= seq![Ty::Bytes, Ty::Uint(64)]);
    let t2 = tup(vec![t1]);
    assert(t2.shape()->Tuple_0 =~= seq![Ty::Tuple(seq![Ty::Bytes, Ty::Uint(64)])]);
    let r = MethodSignature { name: "get_deal_data_commitment", params: t0, outputs: Some(t2) };
    assert(entry_of(r) == market_method_table()[3]);
    r
}

#[verifier::rlimit(100)]
fn market_method_4() -> (r: MethodSignature)
    ensures
        entry_of(r) == market_method_table()[4],
        r.params is Tuple,
{
    let t0 = tup(vec![AbiType::Uint(64)]);
    assert(t0.shape()->Tuple_0 =~= seq![Ty::Uint(64)]);
    let t1 = tup(vec![AbiType::Uint(64)]);
    assert(t1.shape()->Tuple_0 =~= seq![Ty::Uint(64)]);
    let r = MethodSignature { name: "get_deal_client", params: t0, outputs: Some(t1) };
    assert(entry_of(r) == market_method_table()[4]);
    r
}

#[verifier::rlimit(100)]
fn market_method_5() -> (r: MethodSignature)
    ensures
        entry_of(r) == market_method_table()[5],
        r.params is Tuple,
{
    let t0 = tup(vec![AbiType::Uint(64)]);
    assert(t0.shape()->Tuple_0 =~= seq![Ty::Uint(64)]);
    let t1 = tup(vec![AbiType::Uint(64)]);
    assert(t1.shape()->Tuple_0 =~= seq![Ty::Uint(64)]);
    let r = MethodSignature { name: "get_deal_provider", params: t0, outputs: Some(t1) };
    assert(entry_of(r) == market_method_table()[5]);
    r
}

#[verifier::rlimit(100)]
fn market_method_6() -> (r: MethodSignature)
    ensures
        entry_of(r) == market_method_table()[6],
        r.params is Tuple,
{
    let t0 = tup(vec![AbiType::Uint(64)]);
    assert(t0.shape()->Tuple_0 =~= seq![Ty::Uint(64)]);
    let t1 = tup(vec![AbiType::Bytes, AbiType::Bool]);
    assert(t1.shape()->Tuple_0 =~= seq![Ty::Bytes, Ty::Bool]);
    let t2 = tup(vec![t1]);
    assert(t2.shape()->Tuple_0 =~= seq![Ty::Tuple(seq![Ty::Bytes, Ty::Bool])]);
    let r = MethodSignature { name: "get_deal_label", params: t0, outputs: Some(t2) };
    assert(entry_of(r) == market_method_table()[6]);
    r
}

#[verifier::rlimit(100)]
fn market_method_7() -> (r: MethodSignature)
    ensures
        entry_of(r) == market_method_table()[7],
        r.params is Tuple,
{
    let t0 = tup(vec![AbiType::Uint(64)]);
    assert(t0.shape()->Tuple_0 =~= seq![Ty::Uint(64)]);
    let t1 = tup(vec![AbiType::Bytes, AbiType::Bool]);
    assert(t1.shape()->Tuple_0 =~= seq![Ty::Bytes, Ty::Bool]);
    let t2 = tup(vec![t1]);
    assert(t2.shape()->Tuple_0 =~= seq![Ty::Tuple(seq![Ty::Bytes, Ty::Bool])]);
    let r = MethodSignature { name: "get_deal_total_price", params: t0, outputs: Some(t2) };
    assert(entry_of(r) == market_method_table()[7]);
    r
}

#[verifier::rlimit(100)]
fn market_method_8() -> (r: MethodSignature)
    ensures
        entry_of(r) == market_method_table()[8],
        r.params is Tuple,
{
    let t0 = tup(vec![AbiType::Uint(64)]);
    assert(t0.shape()->Tuple_0 =~= seq![Ty::Uint(64)]);
    let t1 = tup(vec![AbiType::Bytes, AbiType::Bool]);
    assert(t1.shape()->Tuple_0 =~= seq![Ty::Bytes, Ty::Bool]);
    let t2 = tup(vec![t1]);
    assert(t2.shape()->Tuple_0 =~= seq![Ty::Tuple(seq![Ty::Bytes, Ty::Bool])]);
    let r = MethodSignature { name: "get_deal_client_collateral", params: t0, outputs: Some(t2) };
    assert(entry_of(r) == market_method_table()[8]);
    r
}

#[verifier::rlimit(100)]
fn market_method_9() -> (r: MethodSignature)
    ensures
        entry_of(r) == market_method_table()[9],
        r.params is Tuple,
{
    let t0 = tup(vec![AbiType::Uint(64)]);
    assert(t0.shape()->Tuple_0 =~= seq![Ty::Uint(64)]);
    let t1 = tup(vec![AbiType::Bytes, AbiType::Bool]);
    assert(t1.shape()->Tuple_0 =~= seq![Ty::Bytes, Ty::Bool]);
    let t2 = tup(vec![t1]);
    assert(t2.shape()->Tuple_0 =~= seq![Ty::Tuple(seq![Ty::Bytes, Ty::Bool])]);
    let r = MethodSignature { name: "get_deal_provider_collateral", params: t0, outputs: Some(t2) };
    assert(entry_of(r) == market_method_table()[9]);
    r
}

#[verifier::rlimit(100)]
fn market_method_10() -> (r: MethodSignature)
    ensures
        entry_of(r) == market_method_table()[10],
        r.params is Tuple,
{
    let t0 = tup(vec![AbiType::Uint(64)]);
    assert(t0.shape()->Tuple_0 =~= seq![Ty::Uint(64)]);
    let t1 = tup(vec![AbiType::Int64, AbiType::Int64]);
    assert(t1.shape()->Tuple_0 =~= seq![Ty::Int64, Ty::Int64]);
    let t2 = tup(vec![t1]);
    assert(t2.shape()->Tuple_0 =~= seq![Ty::Tuple(seq![Ty::Int64, Ty::Int64])]);
    let r = MethodSignature { name: "get_deal_term", params: t0, outputs: Some(t2) };
    assert(entry_of(r) == market_method_table()[10]);
    r
}

#[verifier::rlimit(100)]
fn market_method_11() -> (r: MethodSignature)
    ensures
        entry_of(r) == market_method_table()[11],
        r.params is Tuple,
{
    let t0 = tup(vec![AbiType::Uint(64)]);
    assert(t0.shape()->Tuple_0 =~= seq![Ty::Uint(64)]);
    let t1 = tup(vec![AbiType::Bool]);
    assert(t1.shape()->Tuple_0 =~= seq![Ty::Bool]);
    let r = MethodSignature { name: "get_deal_verified", params: t0, outputs: Some(t1) };
    assert(entry_of(r) == market_method_table()[11]);
    r
}

#[verifier::rlimit(100)]
fn market_method_12() -> (r: MethodSignature)
    ensures
        entry_of(r) == market_method_table()[12],
        r.params is Tuple,
{
    let t0 = tup(vec![AbiType::Uint(64)]);
    assert(t0.shape()->Tuple_0 =~= seq![Ty::Uint(64)]);
    let t1 = tup(vec![AbiType::Int64, AbiType::Int64]);
    assert(t1.shape()->Tuple_0 =~= seq![Ty::Int64, Ty::Int64]);
    let t2 = tup(vec![t1]);
    assert(t2.shape()->Tuple_0 =~= seq![Ty::Tuple(seq![Ty::Int64, Ty::Int64])]);
    let r = MethodSignature { name: "get_deal_activation", params: t0, outputs: Some(t2) };
    assert(entry_of(r) == market_method_table()[12]);
    r
}

#[verifier::rlimit(100)]
fn market_method_13() -> (r: MethodSignature)
    ensures
        entry_of(r) == market_method_table()[13],
        r.params is Tuple,
{
    let t0 = tup(vec![AbiType::Bytes]);
    assert(t0.shape()->Tuple_0 =~= seq![Ty::Bytes]);
    let t1 = tup(vec![AbiType::Bytes]);
    assert(t1.shape()->Tuple_0 =~= seq![Ty::Bytes]);
    let t2 = tup(vec![AbiType::Bytes]);
    assert(t2.shape()->Tuple_0 =~= seq![Ty::Bytes]);
    let t3 = tup(vec![AbiType::Bytes, AbiType::Bool]);
    assert(t3.shape()->Tuple_0 =~= seq![Ty::Bytes, Ty::Bool]);
    let t4 = tup(vec![AbiType::Bytes, AbiType::Bool]);
    assert(t4.shape()->Tuple_0 =~= seq![Ty::Bytes, Ty::Bool]);
    let t5 = tup(vec![AbiType::Bytes, AbiType::Bool]);
    assert(t5.shape()->Tuple_0 =~= seq![Ty::Bytes, Ty::Bool]);
    let t6 = tup(vec![AbiType::Bytes, AbiType::Bool]);
    assert(t6.shape()->Tuple_0 =~= seq![Ty::Bytes, Ty::Bool]);
    let t7 = tup(vec![t0, AbiType::Uint(64), AbiType::Bool, t1, t2, t3, AbiType::Int64, AbiType::Int64, t4, t5, t6]);
    assert(t7.shape()->Tuple_0 =~= seq![Ty::Tuple(seq![Ty::Bytes]), Ty::Uint(64), Ty::Bool, Ty::Tuple(seq![Ty::Bytes]), Ty::Tuple(seq![Ty::Bytes]), Ty::Tuple(seq![Ty::Bytes, Ty::Bool]), Ty::Int64, Ty::Int64, Ty::Tuple(seq![Ty::Bytes, Ty::Bool]), Ty::Tuple(seq![Ty::Bytes, Ty::Bool]), Ty::Tuple(seq![Ty::Bytes, Ty::Bool])]);
    let t8 = tup(vec![t7, AbiType::Bytes]);
    assert(t8.shape()->Tuple_0 =~= seq![Ty::Tuple(seq![Ty::Tuple(seq![Ty::Bytes]), Ty::Uint(64), Ty::Bool, Ty::Tuple(seq![Ty::Bytes]), Ty::Tuple(seq![Ty::Bytes]), Ty::Tuple(seq![Ty::Bytes, Ty::Bool]), Ty::Int64, Ty::Int64, Ty::Tuple(seq![Ty::Bytes, Ty::Bool]), Ty::Tuple(seq![Ty::Bytes, Ty::Bool]), Ty::Tuple(seq![Ty::Bytes, Ty::Bool])]), Ty::Bytes]);
    let t9 = AbiType::Array(Box::new(t8));
    assert(t9.shape() == Ty::Array(Box::new(Ty::Tuple(seq![Ty::Tuple(seq![Ty::Tuple(seq![Ty::Bytes]), Ty::Uint(64), Ty::Bool, Ty::Tuple(seq![Ty::Bytes]), Ty::Tuple(seq![Ty::Bytes]), Ty::Tuple(seq![Ty::Bytes, Ty::Bool]), Ty::Int64, Ty::Int64, Ty::Tuple(seq![Ty::Bytes, Ty::Bool]), Ty::Tuple(seq![Ty::Bytes, Ty::Bool]), Ty::Tuple(seq![Ty::Bytes, Ty::Bool])]), Ty::Bytes]))));
    let t10 = tup(vec![t9]);
    assert(t10.shape()->Tuple_0 =~= seq![Ty::Array(Box::new(Ty::Tuple(seq![Ty::Tuple(seq![Ty::Tuple(seq![Ty::Bytes]), Ty::Uint(64), Ty::Bool, Ty::Tuple(seq![Ty::Bytes]), Ty::Tuple(seq![Ty::Bytes]), Ty::Tuple(seq![Ty::Bytes, Ty::Bool]), Ty::Int64, Ty::Int64, Ty::Tuple(seq![Ty::Bytes, Ty::Bool]), Ty::Tuple(seq![Ty::Bytes, Ty::Bool]), Ty::Tuple(seq![Ty::Bytes, Ty::Bool])]), Ty::Bytes])))]);
    let t11 = tup(vec![t10]);
    assert(t11.shape()->Tuple_0 =~= seq![Ty::Tuple(seq![Ty::Array(Box::new(Ty::Tuple(seq![Ty::Tuple(seq![Ty::Tuple(seq![Ty::Bytes]), Ty::Uint(64), Ty::Bool, Ty::Tuple(seq![Ty::Bytes]), Ty::Tuple(seq![Ty::Bytes]), Ty::Tuple(seq![Ty::Bytes, Ty::Bool]), Ty::Int64, Ty::Int64, Ty::Tuple(seq![Ty::Bytes, Ty::Bool]), Ty::Tuple(seq![Ty::Bytes, Ty::Bool]), Ty::Tuple(seq![Ty::Bytes, Ty::Bool])]), Ty::Bytes])))])]);
    assert(AbiType::Uint(64).shape() == Ty::Uint(64));
    let t12 = AbiType::Array(Box::new(AbiType::Uint(64)));
    assert(t12.shape() == Ty::Array(Box::new(Ty::Uint(64))));
    let t13 = tup(vec![t12, AbiType::Bytes]);
    assert(t13.shape()->Tuple_0 =~= seq![Ty::Array(Box::new(Ty::Uint(64))), Ty::Bytes]);
    let t14 = tup(vec![t13]);
    assert(t14.shape()->Tuple_0 =~= seq![Ty::Tuple(seq![Ty::Array(Box::new(Ty::Uint(64))), Ty::Bytes])]);
    let r = MethodSignature { name: "publish_storage_deals", params: t11, outputs: Some(t14) };
    assert(entry_of(r) == market_method_table()[13]);
    r
}

fn market_methods() -> (r: Vec<MethodSignature>)
    ensures
        r@.len() == market_method_table().len(),
        forall|i: int| 0 <= i < r@.len() ==> entry_of(#[trigger] r@[i]) == market_method_table()[i] && r@[i].params is Tuple,
{
    let r = vec![market_method_0(), market_method_1(), market_method_2(), market_method_3(), market_method_4(), market_method_5(), market_method_6(), market_method_7(), market_method_8(), market_method_9(), market_method_10(), market_method_11(), market_method_12(), market_method_13()];
    assert(r@.len() == market_method_table().len());
    r
}

#[verifier::rlimit(100)]
fn market_schema_0() -> (r: NamedSchema)
    ensures
        schema_entry_of(r) == market_schema_table()[0],
{
    let t0 = tup(vec![AbiType::Uint(32), AbiType::Uint(32)]);
    assert(t0.shape()->Tuple_0 =~= seq![Ty::Uint(32), Ty::Uint(32)]);
    let r = NamedSchema { name: "FailCode", schema: t0 };
    assert(schema_entry_of(r) == market_schema_table()[0]);
    r
}

#[verifier::rlimit(100)]
fn market_schema_1() -> (r: NamedSchema)
    ensures
        schema_entry_of(r) == market_schema_table()[1],
{
    let t0 = tup(vec![AbiType::Uint(32), AbiType::Uint(32)]);
    assert(t0.shape()->Tuple_0 =~= seq![Ty::Uint(32), Ty::Uint(32)]);
    let t1 = AbiType::Array(Box::new(t0));
    assert(t1.shape() == Ty::Array(Box::new(Ty::Tuple(seq![Ty::Uint(32), Ty::Uint(32)]))));
    let t2 = tup(vec![AbiType::Uint(32), t1]);
    assert(t2.shape()->Tuple_0 =~= seq![Ty::Uint(32), Ty::Array(Box::new(Ty::Tuple(seq![Ty::Uint(32), Ty::Uint(32)])))]);
    let r = NamedSchema { name: "BatchReturn", schema: t2 };
    assert(schema_entry_of(r) == market_schema_table()[1]);
    r
}

#[verifier::rlimit(100)]
fn market_schema_2() -> (r: NamedSchema)
    ensures
        schema_entry_of(r) == market_schema_table()[2],
{
    let t0 = tup(vec![AbiType::Uint(32), AbiType::Bytes]);
    assert(t0.shape()->Tuple_0 =~= seq![Ty::Uint(32), Ty::Bytes]);
    let r = NamedSchema { name: "UniversalReceiverParams", schema: t0 };
    assert(schema_entry_of(r) == market_schema_table()[2]);
    r
}

#[verifier::rlimit(100)]
fn market_schema_3() -> (r: NamedSchema)
    ensures
        schema_entry_of(r) == market_schema_table()[3],
{
    let t0 = tup(vec![AbiType::Bytes, AbiType::Bool]);
    assert(t0.shape()->Tuple_0 =~= seq![Ty::Bytes, Ty::Bool]);
    let r = NamedSchema { name: "BigInt", schema: t0 };
    assert(schema_entry_of(r) == market_schema_table()[3]);
    r
}

#[verifier::rlimit(100)]
fn market_schema_4() -> (r: NamedSchema)
    ensures
        schema_entry_of(r) == market_schema_table()[4],
{
    let t0 = tup(vec![AbiType::Bytes]);
    assert(t0.shape()->Tuple_0 =~= seq![Ty::Bytes]);
    let r = NamedSchema { name: "FilAddress", schema: t0 };
    assert(schema_entry_of(r) == market_schema_table()[4]);
    r
}

#[verifier::rlimit(100)]
fn market_schema_5() -> (r: NamedSchema)
    ensures
        schema_entry_of(r) == market_schema_table()[5],
{
    let t0 = tup(vec![AbiType::Bytes]);
    assert(t0.shape()->Tuple_0 =~= seq![Ty::Bytes]);
    let r = NamedSchema { name: "Cid", schema: t0 };
    assert(schema_entry_of(r) == market_schema_table()[5]);
    r
}

#[verifier::rlimit(100)]
fn market_schema_6() -> (r: NamedSchema)
    ensures
        schema_entry_of(r) == market_schema_table()[6],
{
    let t0 = tup(vec![AbiType::Bytes, AbiType::Bool]);
    assert(t0.shape()->Tuple_0 =~= seq![Ty::Bytes, Ty::Bool]);
    let r = NamedSchema { name: "DealLabel", schema: t0 };
    assert(schema_entry_of(r) == market_schema_table()[6]);
    r
}

#[verifier::rlimit(100)]
fn market_schema_7() -> (r: NamedSchema)
    ensures
        schema_entry_of(r) == market_schema_table()[7],
{
    let t0 = tup(vec![AbiType::Int64, AbiType::Int64]);
    assert(t0.shape()->Tuple_0 =~= seq![Ty::Int64, Ty::Int64]);
    let r = NamedSchema { name: "GetDealTermReturn", schema: t0 };
    assert(schema_entry_of(r) == market_schema_table()[7]);
    r
}

#[verifier::rlimit(100)]
fn market_schema_8() -> (r: NamedSchema)
    ensures
        schema_entry_of(r) == market_schema_table()[8],
{
    let t0 = tup(vec![AbiType::Int64, AbiType::Int64]);
    assert(t0.shape()->Tuple_0 =~= seq![Ty::Int64, Ty::Int64]);
    let r = NamedSchema { name: "GetDealActivationReturn", schema: t0 };
    assert(schema_entry_of(r) == market_schema_table()[8]);
    r
}

#[verifier::rlimit(100)]
fn market_schema_9() -> (r: NamedSchema)
    ensures
        schema_entry_of(r) == market_schema_table()[9],
{
    let t0 = tup(vec![AbiType::Bytes]);
    assert(t0.shape()->Tuple_0 =~= seq![Ty::Bytes]);
    let t1 = tup(vec![AbiType::Bytes]);
    assert(t1.shape()->Tuple_0 =~= seq![Ty::Bytes]);
    let t2 = tup(vec![AbiType::Bytes]);
    assert(t2.shape()->Tuple_0 =~= seq![Ty::Bytes]);
    let t3 = tup(vec![AbiType::Bytes, AbiType::Bool]);
    assert(t3.shape()->Tuple_0 =~= seq![Ty::Bytes, Ty::Bool]);
    let t4 = tup(vec![AbiType::Bytes, AbiType::Bool]);
    assert(t4.shape()->Tuple_0 =~= seq![Ty::Bytes, Ty::Bool]);
    let t5 = tup(vec![AbiType::Bytes, AbiType::Bool]);
    assert(t5.shape()->Tuple_0 =~= seq![Ty::Bytes, Ty::Bool]);
    let t6 = tup(vec![AbiType::Bytes, AbiType::Bool]);
    assert(t6.shape()->Tuple_0 =~= seq![Ty::Bytes, Ty::Bool]);
    let t7 = tup(vec![t0, AbiType::Uint(64), AbiType::Bool, t1, t2, t3, AbiType::Int64, AbiType::Int64, t4, t5, t6]);
    assert(t7.shape()->Tuple_0 =~= seq![Ty::Tuple(seq![Ty::Bytes]), Ty::Uint(64), Ty::Bool, Ty::Tuple(seq![Ty::Bytes]), Ty::Tuple(seq![Ty::Bytes]), Ty::Tuple(seq![Ty::Bytes, Ty::Bool]), Ty::Int64, Ty::Int64, Ty::Tuple(seq![Ty::Bytes, Ty::Bool]), Ty::Tuple(seq![Ty::Bytes, Ty::Bool]), Ty::Tuple(seq![Ty::Bytes, Ty::Bool])]);
    let r = NamedSchema { name: "DealProposal", schema: t7 };
    assert(schema_entry_of(r) == market_schema_table()[9]);
    r
}

#[verifier::rlimit(100)]
fn market_schema_10() -> (r: NamedSchema)
    ensures
        schema_entry_of(r) == market_schema_table()[10],
{
    let t0 = tup(vec![AbiType::Bytes]);
    assert(t0.shape()->Tuple_0 =~= seq![Ty::Bytes]);
    let t1 = tup(vec![AbiType::Bytes]);
    assert(t1.shape()->Tuple_0 =~= seq![Ty::Bytes]);
    let t2 = tup(vec![AbiType::Bytes]);
    assert(t2.shape()->Tuple_0 =~= seq![Ty::Bytes]);
    let t3 = tup(vec![AbiType::Bytes, AbiType::Bool]);
    assert(t3.shape()->Tuple_0 =~= seq![Ty::Bytes, Ty::Bool]);
    let t4 = tup(vec![AbiType::Bytes, AbiType::Bool]);
    assert(t4.shape()->Tuple_0 =~= seq![Ty::Bytes, Ty::Bool]);
    let t5 = tup(vec![AbiType::Bytes, AbiType::Bool]);
    assert(t5.shape()->Tuple_0 =~= seq![Ty::Bytes, Ty::Bool]);
    let t6 = tup(vec![AbiType::Bytes, AbiType::Bool]);
    assert(t6.shape()->Tuple_0 =~= seq![Ty::Bytes, Ty::Bool]);
    let t7 = tup(vec![t0, AbiType::Uint(64), AbiType::Bool, t1, t2, t3, AbiType::Int64, AbiType::Int64, t4, t5, t6]);
    assert(t7.shape()->Tuple_0 =~= seq![Ty::Tuple(seq![Ty::Bytes]), Ty::Uint(64), Ty::Bool, Ty::Tuple(seq![Ty::Bytes]), Ty::Tuple(seq![Ty::Bytes]), Ty::Tuple(seq![Ty::Bytes, Ty::Bool]), Ty::Int64, Ty::Int64, Ty::Tuple(seq![Ty::Bytes, Ty::Bool]), Ty::Tuple(seq![Ty::Bytes, Ty::Bool]), Ty::Tuple(seq![Ty::Bytes, Ty::Bool])]);
    let t8 = tup(vec![t7, AbiType::Bytes]);
    assert(t8.shape()->Tuple_0 =~= seq![Ty::Tuple(seq![Ty::Tuple(seq![Ty::Bytes]), Ty::Uint(64), Ty::Bool, Ty::Tuple(seq![Ty::Bytes]), Ty::Tuple(seq![Ty::Bytes]), Ty::Tuple(seq![Ty::Bytes, Ty::Bool]), Ty::Int64, Ty::Int64, Ty::Tuple(seq![Ty::Bytes, Ty::Bool]), Ty::Tuple(seq![Ty::Bytes, Ty::Bool]), Ty::Tuple(seq![Ty::Bytes, Ty::Bool])]), Ty::Bytes]);
    let r = NamedSchema { name: "ClientDealProposal", schema: t8 };
    assert(schema_entry_of(r) == market_schema_table()[10]);
    r
}

#[verifier::rlimit(100)]
fn market_schema_11() -> (r: NamedSchema)
    ensures
        schema_entry_of(r) == market_schema_table()[11],
{
    let t0 = tup(vec![AbiType::Bytes]);
    assert(t0.shape()->Tuple_0 =~= seq![Ty::Bytes]);
    let t1 = tup(vec![AbiType::Bytes]);
    assert(t1.shape()->Tuple_0 =~= seq![Ty::Bytes]);
    let t2 = tup(vec![AbiType::Bytes]);
    assert(t2.shape()->Tuple_0 =~= seq![Ty::Bytes]);
    let t3 = tup(vec![AbiType::Bytes, AbiType::Bool]);
    assert(t3.shape()->Tuple_0 =~= seq![Ty::Bytes, Ty::Bool]);
    let t4 = tup(vec![AbiType::Bytes, AbiType::Bool]);
    assert(t4.shape()->Tuple_0 =~= seq![Ty::Bytes, Ty::Bool]);
    let t5 = tup(vec![AbiType::Bytes, AbiType::Bool]);
    assert(t5.shape()->Tuple_0 =~= seq![Ty::Bytes, Ty::Bool]);
    let t6 = tup(vec![AbiType::Bytes, AbiType::Bool]);
    assert(t6.shape()->Tuple_0 =~= seq![Ty::Bytes, Ty::Bool]);
    let t7 = tup(vec![t0, AbiType::Uint(64), AbiType::Bool, t1, t2, t3, AbiType::Int64, AbiType::Int64, t4, t5, t6]);
    assert(t7.shape()->Tuple_0 =~= seq![Ty::Tuple(seq![Ty::Bytes]), Ty::Uint(64), Ty::Bool, Ty::Tuple(seq![Ty::Bytes]), Ty::Tuple(seq![Ty::Bytes]), Ty::Tuple(seq![Ty::Bytes, Ty::Bool]), Ty::Int64, Ty::Int64, Ty::Tuple(seq![Ty::Bytes, Ty::Bool]), Ty::Tuple(seq![Ty::Bytes, Ty::Bool]), Ty::Tuple(seq![Ty::Bytes, Ty::Bool])]);
    let t8 = tup(vec![t7, AbiType::Bytes]);
    assert(t8.shape()->Tuple_0 =~= seq![Ty::Tuple(seq![Ty::Tuple(seq![Ty::Bytes]), Ty::Uint(64), Ty::Bool, Ty::Tuple(seq![Ty::Bytes]), Ty::Tuple(seq![Ty::Bytes]), Ty::Tuple(seq![Ty::Bytes, Ty::Bool]), Ty::Int64, Ty::Int64, Ty::Tuple(seq![Ty::Bytes, Ty::Bool]), Ty::Tuple(seq![Ty::Bytes, Ty::Bool]), Ty::Tuple(seq![Ty::Bytes, Ty::Bool])]), Ty::Bytes]);
    let t9 = AbiType::Array(Box::new(t8));
    assert(t9.shape() == Ty::Array(Box::new(Ty::Tuple(seq![Ty::Tuple(seq![Ty::Tuple(seq![Ty::Bytes]), Ty::Uint(64), Ty::Bool, Ty::Tuple(seq![Ty::Bytes]), Ty::Tuple(seq![Ty::Bytes]), Ty::Tuple(seq![Ty::Bytes, Ty::Bool]), Ty::Int64, Ty::Int64, Ty::Tuple(seq![Ty::Bytes, Ty::Bool]), Ty::Tuple(seq![Ty::Bytes, Ty::Bool]), Ty::Tuple(seq![Ty::Bytes, Ty::Bool])]), Ty::Bytes]))));
    let t10 = tup(vec![t9]);
    assert(t10.shape()->Tuple_0 =~= seq![Ty::Array(Box::new(Ty::Tuple(seq![Ty::Tuple(seq![Ty::Tuple(seq![Ty::Bytes]), Ty::Uint(64), Ty::Bool, Ty::Tuple(seq![Ty::Bytes]), Ty::Tuple(seq![Ty::Bytes]), Ty::Tuple(seq![Ty::Bytes, Ty::Bool]), Ty::Int64, Ty::Int64, Ty::Tuple(seq![Ty::Bytes, Ty::Bool]), Ty::Tuple(seq![Ty::Bytes, Ty::Bool]), Ty::Tuple(seq![Ty::Bytes, Ty::Bool])]), Ty::Bytes])))]);
    let r = NamedSchema { name: "PublishStorageDealsParams", schema: t10 };
    assert(schema_entry_of(r) == market_schema_table()[11]);
    r
}

#[verifier::rlimit(100)]
fn market_schema_12() -> (r: NamedSchema)
    ensures
        schema_entry_of(r) == market_schema_table()[12],
{
    assert(AbiType::Uint(64).shape() == Ty::Uint(64));
    let t0 = AbiType::Array(Box::new(AbiType::Uint(64)));
    assert(t0.shape() == Ty::Array(Box::new(Ty::Uint(64))));
    let t1 = tup(vec![t0, AbiType::Bytes]);
    assert(t1.shape()->Tuple_0 =~= seq![Ty::Array(Box::new(Ty::Uint(64))), Ty::Bytes]);
    let r = NamedSchema { name: "PublishStorageDealsReturn", schema: t1 };
    assert(schema_entry_of(r) == market_schema_table()[12]);
    r
}

#[verifier::rlimit(100)]
fn market_schema_13() -> (r: NamedSchema)
    ensures
        schema_entry_of(r) == market_schema_table()[13],
{
    let t0 = tup(vec![AbiType::Bytes]);
    assert(t0.shape()->Tuple_0 =~= seq![Ty::Bytes]);
    let t1 = tup(vec![AbiType::Bytes, AbiType::Bool]);
    assert(t1.shape()->Tuple_0 =~= seq![Ty::Bytes, Ty::Bool]);
    let t2 = tup(vec![t0, t1]);
    assert(t2.shape()->Tuple_0 =~= seq![Ty::Tuple(seq![Ty::Bytes]), Ty::Tuple(seq![Ty::Bytes, Ty::Bool])]);
    let r = NamedSchema { name: "WithdrawBalanceParams", schema: t2 };
    assert(schema_entry_of(r) == market_schema_table()[13]);
    r
}

#[verifier::rlimit(100)]
fn market_schema_14() -> (r: NamedSchema)
    ensures
        schema_entry_of(r) == market_schema_table()[14],
{
    let t0 = tup(vec![AbiType::Bytes, AbiType::Bool]);
    assert(t0.shape()->Tuple_0 =~= seq![Ty::Bytes, Ty::Bool]);
    let t1 = tup(vec![AbiType::Bytes, AbiType::Bool]);
    assert(t1.shape()->Tuple_0 =~= seq![Ty::Bytes, Ty::Bool]);
    let t2 = tup(vec![t0, t1]);
    assert(t2.shape()->Tuple_0 =~= seq![Ty::Tuple(seq![Ty::Bytes, Ty::Bool]), Ty::Tuple(seq![Ty::Bytes, Ty::Bool])]);
    let r = NamedSchema { name: "GetBalanceReturn", schema: t2 };
    assert(schema_entry_of(r) == market_schema_table()[14]);
    r
}

#[verifier::rlimit(100)]
fn market_schema_15() -> (r: NamedSchema)
    ensures
        schema_entry_of(r) == market_schema_table()[15],
{
    let t0 = tup(vec![AbiType::Bytes, AbiType::Uint(64)]);
    assert(t0.shape()->Tuple_0 =~= seq![Ty::Bytes, Ty::Uint(64)]);
    let r = NamedSchema { name: "GetDealDataCommitmentReturn", schema: t0 };
    assert(schema_entry_of(r) == market_schema_table()[15]);
    r
}

fn market_schemas() -> (r: Vec<NamedSchema>)
    ensures
        r@.len() == market_schema_table().len(),
        forall|i: int| 0 <= i < r@.len() ==> schema_entry_of(#[trigger] r@[i]) == market_schema_table()[i],
{
    let r = vec![market_schema_0(), market_schema_1(), market_schema_2(), market_schema_3(), market_schema_4(), market_schema_5(), market_schema_6(), market_schema_7(), market_schema_8(), market_schema_9(), market_schema_10(), market_schema_11(), market_schema_12(), market_schema_13(), market_schema_14(), market_schema_15()];
    assert(r@.len() == market_schema_table().len());
    r
}

#[verifier::rlimit(100)]
fn power_method_0() -> (r: MethodSignature)
    ensures
        entry_of(r) == power_method_table()[0],
        r.params is Tuple,
{
    let t0 = tup(vec![AbiType::Bytes]);
    assert(t0.shape()->Tuple_0 =~= seq![Ty::Bytes]);
    let t1 = tup(vec![AbiType::Bytes]);
    assert(t1.shape()->Tuple_0 =~= seq![Ty::Bytes]);
    let t2 = tup(vec![AbiType::Bytes]);
    assert(t2.shape()->Tuple_0 =~= seq![Ty::Bytes]);
    let t3 = tup(vec![AbiType::Bytes]);
    assert(t3.shape()->Tuple_0 =~= seq![Ty::Bytes]);
    let t4 = AbiType::Array(Box::new(t3));
    assert(t4.shape() == Ty::Array(Box::new(Ty::Tuple(seq![Ty::Bytes]))));
    let t5 = tup(vec![t0, t1, AbiType::Enum(11), t2, t4]);
    assert(t5.shape()->Tuple_0 =~= seq![Ty::Tuple(seq![Ty::Bytes]), Ty::Tuple(seq![Ty::Bytes]), Ty::Enum(11), Ty::Tuple(seq![Ty::Bytes]), Ty::Array(Box::new(Ty::Tuple(seq![Ty::Bytes])))]);
    let t6 = tup(vec![t5, AbiType::Uint256]);
    assert(t6.shape()->Tuple_0 =~= seq![Ty::Tuple(seq![Ty::Tuple(seq![Ty::Bytes]), Ty::Tuple(seq![Ty::Bytes]), Ty::Enum(11), Ty::Tuple(seq![Ty::Bytes]), Ty::Array(Box::new(Ty::Tuple(seq![Ty::Bytes])))]), Ty::Uint256]);
    let t7 = tup(vec![AbiType::Bytes]);
    assert(t7.shape()->Tuple_0 =~= seq![Ty::Bytes]);
    let t8 = tup(vec![AbiType::Bytes]);
    assert(t8.shape()->Tuple_0 =~= seq![Ty::Bytes]);
    let t9 = tup(vec![t7, t8]);
    assert(t9.shape()->Tuple_0 =~= seq![Ty::Tuple(seq![Ty::Bytes]), Ty::Tuple(seq![Ty::Bytes])]);
    let t10 = tup(vec![t9]);
    assert(t10.shape()->Tuple_0 =~= seq![Ty::Tuple(seq![Ty::Tuple(seq![Ty::Bytes]), Ty::Tuple(seq![Ty::Bytes])])]);
    let r = MethodSignature { name: "create_miner", params: t6, outputs: Some(t10) };
    assert(entry_of(r) == power_method_table()[0]);
    r
}

#[verifier::rlimit(100)]
fn power_method_1() -> (r: MethodSignature)
    ensures
        entry_of(r) == power_method_table()[1],
        r.params is Tuple,
{
    let t0 = tup(vec![]);
    assert(t0.shape()->Tuple_0 =~= seq![]);
    let t1 = tup(vec![AbiType::Uint(64)]);
    assert(t1.shape()->Tuple_0 =~= seq![Ty::Uint(64)]);
    let r = MethodSignature { name: "miner_count", params: t0, outputs: Some(t1) };
    assert(entry_of(r) == power_method_table()[1]);
    r
}

#[verifier::rlimit(100)]
fn power_method_2() -> (r: MethodSignature)
    ensures
        entry_of(r) == power_method_table()[2],
        r.params is Tuple,
{
    let t0 = tup(vec![]);
    assert(t0.shape()->Tuple_0 =~= seq![]);
    let t1 = tup(vec![AbiType::Int64]);
    assert(t1.shape()->Tuple_0 =~= seq![Ty::Int64]);
    let r = MethodSignature { name: "miner_consensus_count", params: t0, outputs: Some(t1) };
    assert(entry_of(r) == power_method_table()[2]);
    r
}

#[verifier::rlimit(100)]
fn power_method_3() -> (r: MethodSignature)
    ensures
        entry_of(r) == power_method_table()[3],
        r.params is Tuple,
{
    let t0 = tup(vec![]);
    assert(t0.shape()->Tuple_0 =~= seq![]);
    let t1 = tup(vec![AbiType::Bytes, AbiType::Bool]);
    assert(t1.shape()->Tuple_0 =~= seq![Ty::Bytes, Ty::Bool]);
    let t2 = tup(vec![t1]);
    assert(t2.shape()->Tuple_0 =~= seq![Ty::Tuple(seq![Ty::Bytes, Ty::Bool])]);
    let r = MethodSignature { name: "network_raw_power", params: t0, outputs: Some(t2) };
    assert(entry_of(r) == power_method_table()[3]);
    r
}

#[verifier::rlimit(100)]
fn power_method_4() -> (r: MethodSignature)
    ensures
        entry_of(r) == power_method_table()[4],
        r.params is Tuple,
{
    let t0 = tup(vec![AbiType::Uint(64)]);
    assert(t0.shape()->Tuple_0 =~= seq![Ty::Uint(64)]);
    let t1 = tup(vec![AbiType::Bytes, AbiType::Bool]);
    assert(t1.shape()->Tuple_0 =~= seq![Ty::Bytes, Ty::Bool]);
    let t2 = tup(vec![t1, AbiType::Bool]);
    assert(t2.shape()->Tuple_0 =~= seq![Ty::Tuple(seq![Ty::Bytes, Ty::Bool]), Ty::Bool]);
    let t3 = tup(vec![t2]);
    assert(t3.shape()->Tuple_0 =~= seq![Ty::Tuple(seq![Ty::Tuple(seq![Ty::Bytes, Ty::Bool]), Ty::Bool])]);
    let r = MethodSignature { name: "miner_raw_power", params: t0, outputs: Some(t3) };
    assert(entry_of(r) == power_method_table()[4]);
    r
}

fn power_methods() -> (r: Vec<MethodSignature>)
    ensures
        r@.len() == power_method_table().len(),
        forall|i: int| 0 <= i < r@.len() ==> entry_of(#[trigger] r@[i]) == power_method_table()[i] && r@[i].params is Tuple,
{
    let r = vec![power_method_0(), power_method_1(), power_method_2(), power_method_3(), power_method_4()];
    assert(r@.len() == power_method_table().len());
    r
}

#[verifier::rlimit(100)]
fn power_schema_0() -> (r: NamedSchema)
    ensures
        schema_entry_of(r) == power_schema_table()[0],
{
    let t0 = tup(vec![AbiType::Bytes, AbiType::Bool]);
    assert(t0.shape()->Tuple_0 =~= seq![Ty::Bytes, Ty::Bool]);
    let r = NamedSchema { name: "BigInt", schema: t0 };
    assert(schema_entry_of(r) == power_schema_table()[0]);
    r
}

#[verifier::rlimit(100)]
fn power_schema_1() -> (r: NamedSchema)
    ensures
        schema_entry_of(r) == power_schema_table()[1],
{
    let t0 = tup(vec![AbiType::Bytes]);
    assert(t0.shape()->Tuple_0 =~= seq![Ty::Bytes]);
    let r = NamedSchema { name: "FilAddress", schema: t0 };
    assert(schema_entry_of(r) == power_schema_table()[1]);
    r
}

#[verifier::rlimit(100)]
fn power_schema_2() -> (r: NamedSchema)
    ensures
        schema_entry_of(r) == power_schema_table()[2],
{
    let t0 = tup(vec![AbiType::Bytes]);
    assert(t0.shape()->Tuple_0 =~= seq![Ty::Bytes]);
    let t1 = tup(vec![AbiType::Bytes]);
    assert(t1.shape()->Tuple_0 =~= seq![Ty::Bytes]);
    let t2 = tup(vec![AbiType::Bytes]);
    assert(t2.shape()->Tuple_0 =~= seq![Ty::Bytes]);
    let t3 = tup(vec![AbiType::Bytes]);
    assert(t3.shape()->Tuple_0 =~= seq![Ty::Bytes]);
    let t4 = AbiType::Array(Box::new(t3));
    assert(t4.shape() == Ty::Array(Box::new(Ty::Tuple(seq![Ty::Bytes]))));
    let t5 = tup(vec![t0, t1, AbiType::Enum(11), t2, t4]);
    assert(t5.shape()->Tuple_0 =~= seq![Ty::Tuple(seq![Ty::Bytes]), Ty::Tuple(seq![Ty::Bytes]), Ty::Enum(11), Ty::Tuple(seq![Ty::Bytes]), Ty::Array(Box::new(Ty::Tuple(seq![Ty::Bytes])))]);
    let r = NamedSchema { name: "CreateMinerParams", schema: t5 };
    assert(schema_entry_of(r) == power_schema_table()[2]);
    r
}

#[verifier::rlimit(100)]
fn power_schema_3() -> (r: NamedSchema)
    ensures
        schema_entry_of(r) == power_schema_table()[3],
{
    let t0 = tup(vec![AbiType::Bytes]);
    assert(t0.shape()->Tuple_0 =~= seq![Ty::Bytes]);
    let t1 = tup(vec![AbiType::Bytes]);
    assert(t1.shape()->Tuple_0 =~= seq![Ty::Bytes]);
    let t2 = tup(vec![t0, t1]);
    assert(t2.shape()->Tuple_0 =~= seq![Ty::Tuple(seq![Ty::Bytes]), Ty::Tuple(seq![Ty::Bytes])]);
    let r = NamedSchema { name: "CreateMinerReturn", schema: t2 };
    assert(schema_entry_of(r) == power_schema_table()[3]);
    r
}

#[verifier::rlimit(100)]
fn power_schema_4() -> (r: NamedSchema)
    ensures
        schema_entry_of(r) == power_schema_table()[4],
{
    let t0 = tup(vec![AbiType::Bytes, AbiType::Bool]);
    assert(t0.shape()->Tuple_0 =~= seq![Ty::Bytes, Ty::Bool]);
    let t1 = tup(vec![t0, AbiType::Bool]);
    assert(t1.shape()->Tuple_0 =~= seq![Ty::Tuple(seq![Ty::Bytes, Ty::Bool]), Ty::Bool]);
    let r = NamedSchema { name: "MinerRawPowerReturn", schema: t1 };
    assert(schema_entry_of(r) == power_schema_table()[4]);
    r
}

#[verifier::rlimit(100)]
fn power_schema_5() -> (r: NamedSchema)
    ensures
        schema_entry_of(r) == power_schema_table()[5],
{

    let r = NamedSchema { name: "RegisteredPoStProof", schema: AbiType::Enum(11) };
    assert(schema_entry_of(r) == power_schema_table()[5]);
    r
}

fn power_schemas() -> (r: Vec<NamedSchema>)
    ensures
        r@.len() == power_schema_table().len(),
        forall|i: int| 0 <= i < r@.len() ==> schema_entry_of(#[trigger] r@[i]) == power_schema_table()[i],
{
    let r = vec![power_schema_0(), power_schema_1(), power_schema_2(), power_schema_3(), power_schema_4(), power_schema_5()];
    assert(r@.len() == power_schema_table().len());
    r
}

#[verifier::rlimit(100)]
fn miner_method_0() -> (r: MethodSignature)
    ensures
        entry_of(r) == miner_method_table()[0],
        r.params is Tuple,
{
    let t0 = tup(vec![AbiType::Uint(64)]);
    assert(t0.shape()->Tuple_0 =~= seq![Ty::Uint(64)]);
    let t1 = tup(vec![AbiType::Bytes]);
    assert(t1.shape()->Tuple_0 =~= seq![Ty::Bytes]);
    let t2 = tup(vec![AbiType::Bytes]);
    assert(t2.shape()->Tuple_0 =~= seq![Ty::Bytes]);
    let t3 = tup(vec![t1, t2]);
    assert(t3.shape()->Tuple_0 =~= seq![Ty::Tuple(seq![Ty::Bytes]), Ty::Tuple(seq![Ty::Bytes])]);
    let t4 = tup(vec![t3]);
    assert(t4.shape()->Tuple_0 =~= seq![Ty::Tuple(seq![Ty::Tuple(seq![Ty::Bytes]), Ty::Tuple(seq![Ty::Bytes])])]);
    let r = MethodSignature { name: "get_owner", params: t0, outputs: Some(t4) };
    assert(entry_of(r) == miner_method_table()[0]);
    r
}

#[verifier::rlimit(100)]
fn miner_method_1() -> (r: MethodSignature)
    ensures
        entry_of(r) == miner_method_table()[1],
        r.params is Tuple,
{
    let t0 = tup(vec![AbiType::Bytes]);
    assert(t0.shape()->Tuple_0 =~= seq![Ty::Bytes]);
    let t1 = tup(vec![AbiType::Uint(64), t0]);
    assert(t1.shape()->Tuple_0 =~= seq![Ty::Uint(64), Ty::Tuple(seq![Ty::Bytes])]);
    let r = MethodSignature { name: "change_owner_address", params: t1, outputs: None };
    assert(entry_of(r) == miner_method_table()[1]);
    r
}

#[verifier::rlimit(100)]
fn miner_method_2() -> (r: MethodSignature)
    ensures
        entry_of(r) == miner_method_table()[2],
        r.params is Tuple,
{
    let t0 = tup(vec![AbiType::Bytes]);
    assert(t0.shape()->Tuple_0 =~= seq![Ty::Bytes]);
    let t1 = tup(vec![AbiType::Uint(64), t0]);
    assert(t1.shape()->Tuple_0 =~= seq![Ty::Uint(64), Ty::Tuple(seq![Ty::Bytes])]);
    let t2 = tup(vec![AbiType::Bool]);
    assert(t2.shape()->Tuple_0 =~= seq![Ty::Bool]);
    let r = MethodSignature { name: "is_controlling_address", params: t1, outputs: Some(t2) };
    assert(entry_of(r) == miner_method_table()[2]);
    r
}

#[verifier::rlimit(100)]
fn miner_method_3() -> (r: MethodSignature)
    ensures
        entry_of(r) == miner_method_table()[3],
        r.params is Tuple,
{
    let t0 = tup(vec![AbiType::Uint(64)]);
    assert(t0.shape()->Tuple_0 =~= seq![Ty::Uint(64)]);
    let t1 = tup(vec![AbiType::Uint(64)]);
    assert(t1.shape()->Tuple_0 =~= seq![Ty::Uint(64)]);
    let r = MethodSignature { name: "get_sector_size", params: t0, outputs: Some(t1) };
    assert(entry_of(r) == miner_method_table()[3]);
    r
}

#[verifier::rlimit(100)]
fn miner_method_4() -> (r: MethodSignature)
    ensures
        entry_of(r) == miner_method_table()[4],
        r.params is Tuple,
{
    let t0 = tup(vec![AbiType::Uint(64)]);
    assert(t0.shape()->Tuple_0 =~= seq![Ty::Uint(64)]);
    let t1 = tup(vec![AbiType::Bytes, AbiType::Bool]);
    assert(t1.shape()->Tuple_0 =~= seq![Ty::Bytes, Ty::Bool]);
    let t2 = tup(vec![t1]);
    assert(t2.shape()->Tuple_0 =~= seq![Ty::Tuple(seq![Ty::Bytes, Ty::Bool])]);
    let r = MethodSignature { name: "get_available_balance", params: t0, outputs: Some(t2) };
    assert(entry_of(r) == miner_method_table()[4]);
    r
}

#[verifier::rlimit(100)]
fn miner_method_5() -> (r: MethodSignature)
    ensures
        entry_of(r) == miner_method_table()[5],
        r.params is Tuple,
{
    let t0 = tup(vec![AbiType::Uint(64)]);
    assert(t0.shape()->Tuple_0 =~= seq![Ty::Uint(64)]);
    let t1 = tup(vec![AbiType::Bytes, AbiType::Bool]);
    assert(t1.shape()->Tuple_0 =~= seq![Ty::Bytes, Ty::Bool]);
    let t2 = tup(vec![AbiType::Int64, t1]);
    assert(t2.shape()->Tuple_0 =~= seq![Ty::Int64, Ty::Tuple(seq![Ty::Bytes, Ty::Bool])]);
    let t3 = AbiType::Array(Box::new(t2));
    assert(t3.shape() == Ty::Array(Box::new(Ty::Tuple(seq![Ty::Int64, Ty::Tuple(seq![Ty::Bytes, Ty::Bool])]))));
    let t4 = tup(vec![t3]);
    assert(t4.shape()->Tuple_0 =~= seq![Ty::Array(Box::new(Ty::Tuple(seq![Ty::Int64, Ty::Tuple(seq![Ty::Bytes, Ty::Bool])])))]);
    let t5 = tup(vec![t4]);
    assert(t5.shape()->Tuple_0 =~= seq![Ty::Tuple(seq![Ty::Array(Box::new(Ty::Tuple(seq![Ty::Int64, Ty::Tuple(seq![Ty::Bytes, Ty::Bool])])))])]);
    let r = MethodSignature { name: "get_vesting_funds", params: t0, outputs: Some(t5) };
    assert(entry_of(r) == miner_method_table()[5]);
    r
}

#[verifier::rlimit(100)]
fn miner_method_6() -> (r: MethodSignature)
    ensures
        entry_of(r) == miner_method_table()[6],
        r.params is Tuple,
{
    let t0 = tup(vec![AbiType::Bytes]);
    assert(t0.shape()->Tuple_0 =~= seq![Ty::Bytes]);
    let t1 = tup(vec![AbiType::Bytes, AbiType::Bool]);
    assert(t1.shape()->Tuple_0 =~= seq![Ty::Bytes, Ty::Bool]);
    let t2 = tup(vec![t0, t1, AbiType::Int64]);
    assert(t2.shape()->Tuple_0 =~= seq![Ty::Tuple(seq![Ty::Bytes]), Ty::Tuple(seq![Ty::Bytes, Ty::Bool]), Ty::Int64]);
    let t3 = tup(vec![AbiType::Uint(64), t2]);
    assert(t3.shape()->Tuple_0 =~= seq![Ty::Uint(64), Ty::Tuple(seq![Ty::Tuple(seq![Ty::Bytes]), Ty::Tuple(seq![Ty::Bytes, Ty::Bool]), Ty::Int64])]);
    let r = MethodSignature { name: "change_beneficiary", params: t3, outputs: None };
    assert(entry_of(r) == miner_method_table()[6]);
    r
}

#[verifier::rlimit(100)]
fn miner_method_7() -> (r: MethodSignature)
    ensures
        entry_of(r) == miner_method_table()[7],
        r.params is Tuple,
{
    let t0 = tup(vec![AbiType::Uint(64)]);
    assert(t0.shape()->Tuple_0 =~= seq![Ty::Uint(64)]);
    let t1 = tup(vec![AbiType::Bytes]);
    assert(t1.shape()->Tuple_0 =~= seq![Ty::Bytes]);
    let t2 = tup(vec![AbiType::Bytes, AbiType::Bool]);
    assert(t2.shape()->Tuple_0 =~= seq![Ty::Bytes, Ty::Bool]);
    let t3 = tup(vec![AbiType::Bytes, AbiType::Bool]);
    assert(t3.shape()->Tuple_0 =~= seq![Ty::Bytes, Ty::Bool]);
    let t4 = tup(vec![t2, t3, AbiType::Int64]);
    assert(t4.shape()->Tuple_0 =~= seq![Ty::Tuple(seq![Ty::Bytes, Ty::Bool]), Ty::Tuple(seq![Ty::Bytes, Ty::Bool]), Ty::Int64]);
    let t5 = tup(vec![t1, t4]);
    assert(t5.shape()->Tuple_0 =~= seq![Ty::Tuple(seq![Ty::Bytes]), Ty::Tuple(seq![Ty::Tuple(seq![Ty::Bytes, Ty::Bool]), Ty::Tuple(seq![Ty::Bytes, Ty::Bool]), Ty::Int64])]);
    let t6 = tup(vec![AbiType::Bytes]);
    assert(t6.shape()->Tuple_0 =~= seq![Ty::Bytes]);
    let t7 = tup(vec![AbiType::Bytes, AbiType::Bool]);
    assert(t7.shape()->Tuple_0 =~= seq![Ty::Bytes, Ty::Bool]);
    let t8 = tup(vec![t6, t7, AbiType::Int64, AbiType::Bool, AbiType::Bool]);
    assert(t8.shape()->Tuple_0 =~= seq![Ty::Tuple(seq![Ty::Bytes]), Ty::Tuple(seq![Ty::Bytes, Ty::Bool]), Ty::Int64, Ty::Bool, Ty::Bool]);
    let t9 = tup(vec![t5, t8]);
    assert(t9.shape()->Tuple_0 =~= seq![Ty::Tuple(seq![Ty::Tuple(seq![Ty::Bytes]), Ty::Tuple(seq![Ty::Tuple(seq![Ty::Bytes, Ty::Bool]), Ty::Tuple(seq![Ty::Bytes, Ty::Bool]), Ty::Int64])]), Ty::Tuple(seq![Ty::Tuple(seq![Ty::Bytes]), Ty::Tuple(seq![Ty::Bytes, Ty::Bool]), Ty::Int64, Ty::Bool, Ty::Bool])]);
    let t10 = tup(vec![t9]);
    assert(t10.shape()->Tuple_0 =~= seq![Ty::Tuple(seq![Ty::Tuple(seq![Ty::Tuple(seq![Ty::Bytes]), Ty::Tuple(seq![Ty::Tuple(seq![Ty::Bytes, Ty::Bool]), Ty::Tuple(seq![Ty::Bytes, Ty::Bool]), Ty::Int64])]), Ty::Tuple(seq![Ty::Tuple(seq![Ty::Bytes]), Ty::Tuple(seq![Ty::Bytes, Ty::Bool]), Ty::Int64, Ty::Bool, Ty::Bool])])]);
    let r = MethodSignature { name: "get_beneficiary", params: t0, outputs: Some(t10) };
    assert(entry_of(r) == miner_method_table()[7]);
    r
}

#[verifier::rlimit(100)]
fn miner_method_8() -> (r: MethodSignature)
    ensures
        entry_of(r) == miner_method_table()[8],
        r.params is Tuple,
{
    let t0 = tup(vec![AbiType::Bytes]);
    assert(t0.shape()->Tuple_0 =~= seq![Ty::Bytes]);
    let t1 = tup(vec![AbiType::Bytes]);
    assert(t1.shape()->Tuple_0 =~= seq![Ty::Bytes]);
    let t2 = AbiType::Array(Box::new(t1));
    assert(t2.shape() == Ty::Array(Box::new(Ty::Tuple(seq![Ty::Bytes]))));
    let t3 = tup(vec![t0, t2]);
    assert(t3.shape()->Tuple_0 =~= seq![Ty::Tuple(seq![Ty::Bytes]), Ty::Array(Box::new(Ty::Tuple(seq![Ty::Bytes])))]);
    let t4 = tup(vec![AbiType::Uint(64), t3]);
    assert(t4.shape()->Tuple_0 =~= seq![Ty::Uint(64), Ty::Tuple(seq![Ty::Tuple(seq![Ty::Bytes]), Ty::Array(Box::new(Ty::Tuple(seq![Ty::Bytes])))])]);
    let r = MethodSignature { name: "change_worker_address", params: t4, outputs: None };
    assert(entry_of(r) == miner_method_table()[8]);
    r
}

#[verifier::rlimit(100)]
fn miner_method_9() -> (r: MethodSignature)
    ensures
        entry_of(r) == miner_method_table()[9],
        r.params is Tuple,
{
    let t0 = tup(vec![AbiType::Bytes]);
    assert(t0.shape()->Tuple_0 =~= seq![Ty::Bytes]);
    let t1 = tup(vec![AbiType::Uint(64), t0]);
    assert(t1.shape()->Tuple_0 =~= seq![Ty::Uint(64), Ty::Tuple(seq![Ty::Bytes])]);
    let r = MethodSignature { name: "change_peer_id", params: t1, outputs: None };
    assert(entry_of(r) == miner_method_table()[9]);
    r
}

#[verifier::rlimit(100)]
fn miner_method_10() -> (r: MethodSignature)
    ensures
        entry_of(r) == miner_method_table()[10],
        r.params is Tuple,
{
    let t0 = tup(vec![AbiType::Bytes]);
    assert(t0.shape()->Tuple_0 =~= seq![Ty::Bytes]);
    let t1 = AbiType::Array(Box::new(t0));
    assert(t1.shape() == Ty::Array(Box::new(Ty::Tuple(seq![Ty::Bytes]))));
    let t2 = tup(vec![t1]);
    assert(t2.shape()->Tuple_0 =~= seq![Ty::Array(Box::new(Ty::Tuple(seq![Ty::Bytes])))]);
    let t3 = tup(vec![AbiType::Uint(64), t2]);
    assert(t3.shape()->Tuple_0 =~= seq![Ty::Uint(64), Ty::Tuple(seq![Ty::Array(Box::new(Ty::Tuple(seq![Ty::Bytes])))])]);
    let r = MethodSignature { name: "change_multiaddresses", params: t3, outputs: None };
    assert(entry_of(r) == miner_method_table()[10]);
    r
}

#[verifier::rlimit(100)]
fn miner_method_11() -> (r: MethodSignature)
    ensures
        entry_of(r) == miner_method_table()[11],
        r.params is Tuple,
{
    let t0 = tup(vec![AbiType::Uint(64)]);
    assert(t0.shape()->Tuple_0 =~= seq![Ty::Uint(64)]);
    let r = MethodSignature { name: "repay_debt", params: t0, outputs: None };
    assert(entry_of(r) == miner_method_table()[11]);
    r
}

#[verifier::rlimit(100)]
fn miner_method_12() -> (r: MethodSignature)
    ensures
        entry_of(r) == miner_method_table()[12],
        r.params is Tuple,
{
    let t0 = tup(vec![AbiType::Uint(64)]);
    assert(t0.shape()->Tuple_0 =~= seq![Ty::Uint(64)]);
    let r = MethodSignature { name: "confirm_change_worker_address", params: t0, outputs: None };
    assert(entry_of(r) == miner_method_table()[12]);
    r
}

#[verifier::rlimit(100)]
fn miner_method_13() -> (r: MethodSignature)
    ensures
        entry_of(r) == miner_method_table()[13],
        r.params is Tuple,
{
    let t0 = tup(vec![AbiType::Uint(64)]);
    assert(t0.shape()->Tuple_0 =~= seq![Ty::Uint(64)]);
    let t1 = tup(vec![AbiType::Bytes]);
    assert(t1.shape()->Tuple_0 =~= seq![Ty::Bytes]);
    let t2 = tup(vec![t1]);
    assert(t2.shape()->Tuple_0 =~= seq![Ty::Tuple(seq![Ty::Bytes])]);
    let r = MethodSignature { name: "get_peer_id", params: t0, outputs: Some(t2) };
    assert(entry_of(r) == miner_method_table()[13]);
    r
}

#[verifier::rlimit(100)]
fn miner_method_14() -> (r: MethodSignature)
    ensures
        entry_of(r) == miner_method_table()[14],
        r.params is Tuple,
{
    let t0 = tup(vec![AbiType::Uint(64)]);
    assert(t0.shape()->Tuple_0 =~= seq![Ty::Uint(64)]);
    let t1 = tup(vec![AbiType::Bytes]);
    assert(t1.shape()->Tuple_0 =~= seq![Ty::Bytes]);
    let t2 = AbiType::Array(Box::new(t1));
    assert(t2.shape() == Ty::Array(Box::new(Ty::Tuple(seq![Ty::Bytes]))));
    let t3 = tup(vec![t2]);
    assert(t3.shape()->Tuple_0 =~= seq![Ty::Array(Box::new(Ty::Tuple(seq![Ty::Bytes])))]);
    let t4 = tup(vec![t3]);
    assert(t4.shape()->Tuple_0 =~= seq![Ty::Tuple(seq![Ty::Array(Box::new(Ty::Tuple(seq![Ty::Bytes])))])]);
    let r = MethodSignature { name: "get_multiaddresses", params: t0, outputs: Some(t4) };
    assert(entry_of(r) == miner_method_table()[14]);
    r
}

#[verifier::rlimit(100)]
fn miner_method_15() -> (r: MethodSignature)
    ensures
        entry_of(r) == miner_method_table()[15],
        r.params is Tuple,
{
    let t0 = tup(vec![AbiType::Bytes, AbiType::Bool]);
    assert(t0.shape()->Tuple_0 =~= seq![Ty::Bytes, Ty::Bool]);
    let t1 = tup(vec![AbiType::Uint(64), t0]);
    assert(t1.shape()->Tuple_0 =~= seq![Ty::Uint(64), Ty::Tuple(seq![Ty::Bytes, Ty::Bool])]);
    let t2 = tup(vec![AbiType::Bytes, AbiType::Bool]);
    assert(t2.shape()->Tuple_0 =~= seq![Ty::Bytes, Ty::Bool]);
    let t3 = tup(vec![t2]);
    assert(t3.shape()->Tuple_0 =~= seq![Ty::Tuple(seq![Ty::Bytes, Ty::Bool])]);
    let r = MethodSignature { name: "withdraw_balance", params: t1, outputs: Some(t3) };
    assert(entry_of(r) == miner_method_table()[15]);
    r
}

#[verifier::rlimit(100)]
fn miner_method_16() -> (r: MethodSignature)
    ensures
        entry_of(r) == miner_method_table()[16],
        r.params is Tuple,
{
    let t0 = tup(vec![AbiType::Bytes, AbiType::Bool]);
    assert(t0.shape()->Tuple_0 =~= seq![Ty::Bytes, Ty::Bool]);
    let t1 = tup(vec![AbiType::Int64, t0]);
    assert(t1.shape()->Tuple_0 =~= seq![Ty::Int64, Ty::Tuple(seq![Ty::Bytes, Ty::Bool])]);
    let t2 = AbiType::Array(Box::new(t1));
    assert(t2.shape() == Ty::Array(Box::new(Ty::Tuple(seq![Ty::Int64, Ty::Tuple(seq![Ty::Bytes, Ty::Bool])]))));
    let t3 = tup(vec![t2]);
    assert(t3.shape()->Tuple_0 =~= seq![Ty::Array(Box::new(Ty::Tuple(seq![Ty::Int64, Ty::Tuple(seq![Ty::Bytes, Ty::Bool])])))]);
    let r = MethodSignature { name: "encode_vesting_funds", params: t3, outputs: None };
    assert(entry_of(r) == miner_method_table()[16]);
    r
}

fn miner_methods() -> (r: Vec<MethodSignature>)
    ensures
        r@.len() == miner_method_table().len(),
        forall|i: int| 0 <= i < r@.len() ==> entry_of(#[trigger] r@[i]) == miner_method_table()[i] && r@[i].params is Tuple,
{
    let r = vec![miner_method_0(), miner_method_1(), miner_method_2(), miner_method_3(), miner_method_4(), miner_method_5(), miner_method_6(), miner_method_7(), miner_method_8(), miner_method_9(), miner_method_10(), miner_method_11(), miner_method_12(), miner_method_13(), miner_method_14(), miner_method_15(), miner_method_16()];
    assert(r@.len() == miner_method_table().len());
    r
}

#[verifier::rlimit(100)]
fn miner_schema_0() -> (r: NamedSchema)
    ensures
        schema_entry_of(r) == miner_schema_table()[0],
{
    let t0 = tup(vec![AbiType::Bytes, AbiType::Bool]);
    assert(t0.shape()->Tuple_0 =~= seq![Ty::Bytes, Ty::Bool]);
    let r = NamedSchema { name: "BigInt", schema: t0 };
    assert(schema_entry_of(r) == miner_schema_table()[0]);
    r
}

#[verifier::rlimit(100)]
fn miner_schema_1() -> (r: NamedSchema)
    ensures
        schema_entry_of(r) == miner_schema_table()[1],
{
    let t0 = tup(vec![AbiType::Bytes]);
    assert(t0.shape()->Tuple_0 =~= seq![Ty::Bytes]);
    let r = NamedSchema { name: "FilAddress", schema: t0 };
    assert(schema_entry_of(r) == miner_schema_table()[1]);
    r
}

#[verifier::rlimit(100)]
fn miner_schema_2() -> (r: NamedSchema)
    ensures
        schema_entry_of(r) == miner_schema_table()[2],
{
    let t0 = tup(vec![AbiType::Bytes]);
    assert(t0.shape()->Tuple_0 =~= seq![Ty::Bytes]);
    let t1 = tup(vec![AbiType::Bytes]);
    assert(t1.shape()->Tuple_0 =~= seq![Ty::Bytes]);
    let t2 = tup(vec![t0, t1]);
    assert(t2.shape()->Tuple_0 =~= seq![Ty::Tuple(seq![Ty::Bytes]), Ty::Tuple(seq![Ty::Bytes])]);
    let r = NamedSchema { name: "GetOwnerReturn", schema: t2 };
    assert(schema_entry_of(r) == miner_schema_table()[2]);
    r
}

#[verifier::rlimit(100)]
fn miner_schema_3() -> (r: NamedSchema)
    ensures
        schema_entry_of(r) == miner_schema_table()[3],
{
    let t0 = tup(vec![AbiType::Bytes, AbiType::Bool]);
    assert(t0.shape()->Tuple_0 =~= seq![Ty::Bytes, Ty::Bool]);
    let t1 = tup(vec![AbiType::Int64, t0]);
    assert(t1.shape()->Tuple_0 =~= seq![Ty::Int64, Ty::Tuple(seq![Ty::Bytes, Ty::Bool])]);
    let t2 = AbiType::Array(Box::new(t1));
    assert(t2.shape() == Ty::Array(Box::new(Ty::Tuple(seq![Ty::Int64, Ty::Tuple(seq![Ty::Bytes, Ty::Bool])]))));
    let t3 = tup(vec![t2]);
    assert(t3.shape()->Tuple_0 =~= seq![Ty::Array(Box::new(Ty::Tuple(seq![Ty::Int64, Ty::Tuple(seq![Ty::Bytes, Ty::Bool])])))]);
    let r = NamedSchema { name: "GetVestingFundsReturn", schema: t3 };
    assert(schema_entry_of(r) == miner_schema_table()[3]);
    r
}

#[verifier::rlimit(100)]
fn miner_schema_4() -> (r: NamedSchema)
    ensures
        schema_entry_of(r) == miner_schema_table()[4],
{
    let t0 = tup(vec![AbiType::Bytes]);
    assert(t0.shape()->Tuple_0 =~= seq![Ty::Bytes]);
    let t1 = tup(vec![AbiType::Bytes, AbiType::Bool]);
    assert(t1.shape()->Tuple_0 =~= seq![Ty::Bytes, Ty::Bool]);
    let t2 = tup(vec![t0, t1, AbiType::Int64]);
    assert(t2.shape()->Tuple_0 =~= seq![Ty::Tuple(seq![Ty::Bytes]), Ty::Tuple(seq![Ty::Bytes, Ty::Bool]), Ty::Int64]);
    let r = NamedSchema { name: "ChangeBeneficiaryParams", schema: t2 };
    assert(schema_entry_of(r) == miner_schema_table()[4]);
    r
}

#[verifier::rlimit(100)]
fn miner_schema_5() -> (r: NamedSchema)
    ensures
        schema_entry_of(r) == miner_schema_table()[5],
{
    let t0 = tup(vec![AbiType::Bytes]);
    assert(t0.shape()->Tuple_0 =~= seq![Ty::Bytes]);
    let t1 = tup(vec![AbiType::Bytes]);
    assert(t1.shape()->Tuple_0 =~= seq![Ty::Bytes]);
    let t2 = AbiType::Array(Box::new(t1));
    assert(t2.shape() == Ty::Array(Box::new(Ty::Tuple(seq![Ty::Bytes]))));
    let t3 = tup(vec![t0, t2]);
    assert(t3.shape()->Tuple_0 =~= seq![Ty::Tuple(seq![Ty::Bytes]), Ty::Array(Box::new(Ty::Tuple(seq![Ty::Bytes])))]);
    let r = NamedSchema { name: "ChangeWorkerAddressParams", schema: t3 };
    assert(schema_entry_of(r) == miner_schema_table()[5]);
    r
}

#[verifier::rlimit(100)]
fn miner_schema_6() -> (r: NamedSchema)
    ensures
        schema_entry_of(r) == miner_schema_table()[6],
{
    let t0 = tup(vec![AbiType::Bytes]);
    assert(t0.shape()->Tuple_0 =~= seq![Ty::Bytes]);
    let t1 = AbiType::Array(Box::new(t0));
    assert(t1.shape() == Ty::Array(Box::new(Ty::Tuple(seq![Ty::Bytes]))));
    let t2 = tup(vec![t1]);
    assert(t2.shape()->Tuple_0 =~= seq![Ty::Array(Box::new(Ty::Tuple(seq![Ty::Bytes])))]);
    let r = NamedSchema { name: "ChangeMultiaddrsParams", schema: t2 };
    assert(schema_entry_of(r) == miner_schema_table()[6]);
    r
}

#[verifier::rlimit(100)]
fn miner_schema_7() -> (r: NamedSchema)
    ensures
        schema_entry_of(r) == miner_schema_table()[7],
{
    let t0 = tup(vec![AbiType::Bytes]);
    assert(t0.shape()->Tuple_0 =~= seq![Ty::Bytes]);
    let t1 = AbiType::Array(Box::new(t0));
    assert(t1.shape() == Ty::Array(Box::new(Ty::Tuple(seq![Ty::Bytes]))));
    let t2 = tup(vec![t1]);
    assert(t2.shape()->Tuple_0 =~= seq![Ty::Array(Box::new(Ty::Tuple(seq![Ty::Bytes])))]);
    let r = NamedSchema { name: "GetMultiaddrsReturn", schema: t2 };
    assert(schema_entry_of(r) == miner_schema_table()[7]);
    r
}

#[verifier::rlimit(100)]
fn miner_schema_8() -> (r: NamedSchema)
    ensures
        schema_entry_of(r) == miner_schema_table()[8],
{
    let t0 = tup(vec![AbiType::Bytes, AbiType::Bool]);
    assert(t0.shape()->Tuple_0 =~= seq![Ty::Bytes, Ty::Bool]);
    let t1 = tup(vec![AbiType::Int64, t0]);
    assert(t1.shape()->Tuple_0 =~= seq![Ty::Int64, Ty::Tuple(seq![Ty::Bytes, Ty::Bool])]);
    let r = NamedSchema { name: "VestingFunds", schema: t1 };
    assert(schema_entry_of(r) == miner_schema_table()[8]);
    r
}

#[verifier::rlimit(100)]
fn miner_schema_9() -> (r: NamedSchema)
    ensures
        schema_entry_of(r) == miner_schema_table()[9],
{
    let t0 = tup(vec![AbiType::Bytes, AbiType::Bool]);
    assert(t0.shape()->Tuple_0 =~= seq![Ty::Bytes, Ty::Bool]);
    let t1 = tup(vec![AbiType::Bytes, AbiType::Bool]);
    assert(t1.shape()->Tuple_0 =~= seq![Ty::Bytes, Ty::Bool]);
    let t2 = tup(vec![t0, t1, AbiType::Int64]);
    assert(t2.shape()->Tuple_0 =~= seq![Ty::Tuple(seq![Ty::Bytes, Ty::Bool]), Ty::Tuple(seq![Ty::Bytes, Ty::Bool]), Ty::Int64]);
    let r = NamedSchema { name: "BeneficiaryTerm", schema: t2 };
    assert(schema_entry_of(r) == miner_schema_table()[9]);
    r
}

#[verifier::rlimit(100)]
fn miner_schema_10() -> (r: NamedSchema)
    ensures
        schema_entry_of(r) == miner_schema_table()[10],
{
    let t0 = tup(vec![AbiType::Bytes]);
    assert(t0.shape()->Tuple_0 =~= seq![Ty::Bytes]);
    let t1 = tup(vec![AbiType::Bytes, AbiType::Bool]);
    assert(t1.shape()->Tuple_0 =~= seq![Ty::Bytes, Ty::Bool]);
    let t2 = tup(vec![AbiType::Bytes, AbiType::Bool]);
    assert(t2.shape()->Tuple_0 =~= seq![Ty::Bytes, Ty::Bool]);
    let t3 = tup(vec![t1, t2, AbiType::Int64]);
    assert(t3.shape()->Tuple_0 =~= seq![Ty::Tuple(seq![Ty::Bytes, Ty::Bool]), Ty::Tuple(seq![Ty::Bytes, Ty::Bool]), Ty::Int64]);
    let t4 = tup(vec![t0, t3]);
    assert(t4.shape()->Tuple_0 =~= seq![Ty::Tuple(seq![Ty::Bytes]), Ty::Tuple(seq![Ty::Tuple(seq![Ty::Bytes, Ty::Bool]), Ty::Tuple(seq![Ty::Bytes, Ty::Bool]), Ty::Int64])]);
    let r = NamedSchema { name: "ActiveBeneficiary", schema: t4 };
    assert(schema_entry_of(r) == miner_schema_table()[10]);
    r
}

#[verifier::rlimit(100)]
fn miner_schema_11() -> (r: NamedSchema)
    ensures
        schema_entry_of(r) == miner_schema_table()[11],
{
    let t0 = tup(vec![AbiType::Bytes]);
    assert(t0.shape()->Tuple_0 =~= seq![Ty::Bytes]);
    let t1 = tup(vec![AbiType::Bytes, AbiType::Bool]);
    assert(t1.shape()->Tuple_0 =~= seq![Ty::Bytes, Ty::Bool]);
    let t2 = tup(vec![t0, t1, AbiType::Int64, AbiType::Bool, AbiType::Bool]);
    assert(t2.shape()->Tuple_0 =~= seq![Ty::Tuple(seq![Ty::Bytes]), Ty::Tuple(seq![Ty::Bytes, Ty::Bool]), Ty::Int64, Ty::Bool, Ty::Bool]);
    let r = NamedSchema { name: "PendingBeneficiaryChange", schema: t2 };
    assert(schema_entry_of(r) == miner_schema_table()[11]);
    r
}

fn miner_schemas() -> (r: Vec<NamedSchema>)
    ensures
        r@.len() == miner_schema_table().len(),
        forall|i: int| 0 <= i < r@.len() ==> schema_entry_of(#[trigger] r@[i]) == miner_schema_table()[i],
{
    let r = vec![miner_schema_0(), miner_schema_1(), miner_schema_2(), miner_schema_3(), miner_schema_4(), miner_schema_5(), miner_schema_6(), miner_schema_7(), miner_schema_8(), miner_schema_9(), miner_schema_10(), miner_schema_11()];
    assert(r@.len() == miner_schema_table().len());
    r
}

#[verifier::rlimit(100)]
fn verified_registry_method_0() -> (r: MethodSignature)
    ensures
        entry_of(r) == verified_registry_method_table()[0],
        r.params is Tuple,
{
    assert(AbiType::Uint(64).shape() == Ty::Uint(64));
    let t0 = AbiType::Array(Box::new(AbiType::Uint(64)));
    assert(t0.shape() == Ty::Array(Box::new(Ty::Uint(64))));
    let t1 = tup(vec![AbiType::Uint(64), t0]);
    assert(t1.shape()->Tuple_0 =~= seq![Ty::Uint(64), Ty::Array(Box::new(Ty::Uint(64)))]);
    let t2 = tup(vec![t1]);
    assert(t2.shape()->Tuple_0 =~= seq![Ty::Tuple(seq![Ty::Uint(64), Ty::Array(Box::new(Ty::Uint(64)))])]);
    let t3 = tup(vec![AbiType::Uint(32), AbiType::Uint(32)]);
    assert(t3.shape()->Tuple_0 =~= seq![Ty::Uint(32), Ty::Uint(32)]);
    let t4 = AbiType::Array(Box::new(t3));
    assert(t4.shape() == Ty::Array(Box::new(Ty::Tuple(seq![Ty::Uint(32), Ty::Uint(32)]))));
    let t5 = tup(vec![AbiType::Uint(32), t4]);
    assert(t5.shape()->Tuple_0 =~= seq![Ty::Uint(32), Ty::Array(Box::new(Ty::Tuple(seq![Ty::Uint(32), Ty::Uint(32)])))]);
    let t6 = tup(vec![AbiType::Uint(64), AbiType::Uint(64), AbiType::Bytes, AbiType::Uint(64), AbiType::Int64, AbiType::Int64, AbiType::Int64, AbiType::Uint(64)]);
    assert(t6.shape()->Tuple_0 =~= seq![Ty::Uint(64), Ty::Uint(64), Ty::Bytes, Ty::Uint(64), Ty::Int64, Ty::Int64, Ty::Int64, Ty::Uint(64)]);
    let t7 = AbiType::Array(Box::new(t6));
    assert(t7.shape() == Ty::Array(Box::new(Ty::Tuple(seq![Ty::Uint(64), Ty::Uint(64), Ty::Bytes, Ty::Uint(64), Ty::Int64, Ty::Int64, Ty::Int64, Ty::Uint(64)]))));
    let t8 = tup(vec![t5, t7]);
    assert(t8.shape()->Tuple_0 =~= seq![Ty::Tuple(seq![Ty::Uint(32), Ty::Array(Box::new(Ty::Tuple(seq![Ty::Uint(32), Ty::Uint(32)])))]), Ty::Array(Box::new(Ty::Tuple(seq![Ty::Uint(64), Ty::Uint(64), Ty::Bytes, Ty::Uint(64), Ty::Int64, Ty::Int64, Ty::Int64, Ty::Uint(64)])))]);
    let t9 = tup(vec![t8]);
    assert(t9.shape()->Tuple_0 =~= seq![Ty::Tuple(seq![Ty::Tuple(seq![Ty::Uint(32), Ty::Array(Box::new(Ty::Tuple(seq![Ty::Uint(32), Ty::Uint(32)])))]), Ty::Array(Box::new(Ty::Tuple(seq![Ty::Uint(64), Ty::Uint(64), Ty::Bytes, Ty::Uint(64), Ty::Int64, Ty::Int64, Ty::Int64, Ty::Uint(64)])))])]);
    let r = MethodSignature { name: "get_claims", params: t2, outputs: Some(t9) };
    assert(entry_of(r) == verified_registry_method_table()[0]);
    r
}

#[verifier::rlimit(100)]
fn verified_registry_method_1() -> (r: MethodSignature)
    ensures
        entry_of(r) == verified_registry_method_table()[1],
        r.params is Tuple,
{
    let t0 = tup(vec![AbiType::Bytes]);
    assert(t0.shape()->Tuple_0 =~= seq![Ty::Bytes]);
    let t1 = tup(vec![AbiType::Bytes, AbiType::Bool]);
    assert(t1.shape()->Tuple_0 =~= seq![Ty::Bytes, Ty::Bool]);
    let t2 = tup(vec![t0, t1]);
    assert(t2.shape()->Tuple_0 =~= seq![Ty::Tuple(seq![Ty::Bytes]), Ty::Tuple(seq![Ty::Bytes, Ty::Bool])]);
    let t3 = tup(vec![t2]);
    assert(t3.shape()->Tuple_0 =~= seq![Ty::Tuple(seq![Ty::Tuple(seq![Ty::Bytes]), Ty::Tuple(seq![Ty::Bytes, Ty::Bool])])]);
    let r = MethodSignature { name: "add_verified_client", params: t3, outputs: None };
    assert(entry_of(r) == verified_registry_method_table()[1]);
    r
}

#[verifier::rlimit(100)]
fn verified_registry_method_2() -> (r: MethodSignature)
    ensures
        entry_of(r) == verified_registry_method_table()[2],
        r.params is Tuple,
{
    assert(AbiType::Uint(64).shape() == Ty::Uint(64));
    let t0 = AbiType::Array(Box::new(AbiType::Uint(64)));
    assert(t0.shape() == Ty::Array(Box::new(Ty::Uint(64))));
    let t1 = tup(vec![AbiType::Uint(64), t0]);
    assert(t1.shape()->Tuple_0 =~= seq![Ty::Uint(64), Ty::Array(Box::new(Ty::Uint(64)))]);
    let t2 = tup(vec![t1]);
    assert(t2.shape()->Tuple_0 =~= seq![Ty::Tuple(seq![Ty::Uint(64), Ty::Array(Box::new(Ty::Uint(64)))])]);
    assert(AbiType::Uint(64).shape() == Ty::Uint(64));
    let t3 = AbiType::Array(Box::new(AbiType::Uint(64)));
    assert(t3.shape() == Ty::Array(Box::new(Ty::Uint(64))));
    let t4 = tup(vec![AbiType::Uint(32), AbiType::Uint(32)]);
    assert(t4.shape()->Tuple_0 =~= seq![Ty::Uint(32), Ty::Uint(32)]);
    let t5 = AbiType::Array(Box::new(t4));
    assert(t5.shape() == Ty::Array(Box::new(Ty::Tuple(seq![Ty::Uint(32), Ty::Uint(32)]))));
    let t6 = tup(vec![AbiType::Uint(32), t5]);
    assert(t6.shape()->Tuple_0 =~= seq![Ty::Uint(32), Ty::Array(Box::new(Ty::Tuple(seq![Ty::Uint(32), Ty::Uint(32)])))]);
    let t7 = tup(vec![AbiType::Bytes, AbiType::Bool]);
    assert(t7.shape()->Tuple_0 =~= seq![Ty::Bytes, Ty::Bool]);
    let t8 = tup(vec![t3, t6, t7]);
    assert(t8.shape()->Tuple_0 =~= seq![Ty::Array(Box::new(Ty::Uint(64))), Ty::Tuple(seq![Ty::Uint(32), Ty::Array(Box::new(Ty::Tuple(seq![Ty::Uint(32), Ty::Uint(32)])))]), Ty::Tuple(seq![Ty::Bytes, Ty::Bool])]);
    let t9 = tup(vec![t8]);
    assert(t9.shape()->Tuple_0 =~= seq![Ty::Tuple(seq![Ty::Array(Box::new(Ty::Uint(64))), Ty::Tuple(seq![Ty::Uint(32), Ty::Array(Box::new(Ty::Tuple(seq![Ty::Uint(32), Ty::Uint(32)])))]), Ty::Tuple(seq![Ty::Bytes, Ty::Bool])])]);
    let r = MethodSignature { name: "remove_expired_allocations", params: t2, outputs: Some(t9) };
    assert(entry_of(r) == verified_registry_method_table()[2]);
    r
}

#[verifier::rlimit(100)]
fn verified_registry_method_3() -> (r: MethodSignature)
    ensures
        entry_of(r) == verified_registry_method_table()[3],
        r.params is Tuple,
{
    let t0 = tup(vec![AbiType::Uint(64), AbiType::Uint(64), AbiType::Int64]);
    assert(t0.shape()->Tuple_0 =~= seq![Ty::Uint(64), Ty::Uint(64), Ty::Int64]);
    let t1 = AbiType::Array(Box::new(t0));
    assert(t1.shape() == Ty::Array(Box::new(Ty::Tuple(seq![Ty::Uint(64), Ty::Uint(64), Ty::Int64]))));
    let t2 = tup(vec![t1]);
    assert(t2.shape()->Tuple_0 =~= seq![Ty::Array(Box::new(Ty::Tuple(seq![Ty::Uint(64), Ty::Uint(64), Ty::Int64])))]);
    let t3 = tup(vec![t2]);
    assert(t3.shape()->Tuple_0 =~= seq![Ty::Tuple(seq![Ty::Array(Box::new(Ty::Tuple(seq![Ty::Uint(64), Ty::Uint(64), Ty::Int64])))])]);
    let t4 = tup(vec![AbiType::Uint(32), AbiType::Uint(32)]);
    assert(t4.shape()->Tuple_0 =~= seq![Ty::Uint(32), Ty::Uint(32)]);
    let t5 = AbiType::Array(Box::new(t4));
    assert(t5.shape() == Ty::Array(Box::new(Ty::Tuple(seq![Ty::Uint(32), Ty::Uint(32)]))));
    let t6 = tup(vec![AbiType::Uint(32), t5]);
    assert(t6.shape()->Tuple_0 =~= seq![Ty::Uint(32), Ty::Array(Box::new(Ty::Tuple(seq![Ty::Uint(32), Ty::Uint(32)])))]);
    let t7 = tup(vec![t6]);
    assert(t7.shape()->Tuple_0 =~= seq![Ty::Tuple(seq![Ty::Uint(32), Ty::Array(Box::new(Ty::Tuple(seq![Ty::Uint(32), Ty::Uint(32)])))])]);
    let r = MethodSignature { name: "extend_claim_terms", params: t3, outputs: Some(t7) };
    assert(entry_of(r) == verified_registry_method_table()[3]);
    r
}

#[verifier::rlimit(100)]
fn verified_registry_method_4() -> (r: MethodSignature)
    ensures
        entry_of(r) == verified_registry_method_table()[4],
        r.params is Tuple,
{
    assert(AbiType::Uint(64).shape() == Ty::Uint(64));
    let t0 = AbiType::Array(Box::new(AbiType::Uint(64)));
    assert(t0.shape() == Ty::Array(Box::new(Ty::Uint(64))));
    let t1 = tup(vec![AbiType::Uint(64), t0]);
    assert(t1.shape()->Tuple_0 =~= seq![Ty::Uint(64), Ty::Array(Box::new(Ty::Uint(64)))]);
    let t2 = tup(vec![t1]);
    assert(t2.shape()->Tuple_0 =~= seq![Ty::Tuple(seq![Ty::Uint(64), Ty::Array(Box::new(Ty::Uint(64)))])]);
    assert(AbiType::Uint(64).shape() == Ty::Uint(64));
    let t3 = AbiType::Array(Box::new(AbiType::Uint(64)));
    assert(t3.shape() == Ty::Array(Box::new(Ty::Uint(64))));
    let t4 = tup(vec![AbiType::Uint(32), AbiType::Uint(32)]);
    assert(t4.shape()->Tuple_0 =~= seq![Ty::Uint(32), Ty::Uint(32)]);
    let t5 = AbiType::Array(Box::new(t4));
    assert(t5.shape() == Ty::Array(Box::new(Ty::Tuple(seq![Ty::Uint(32), Ty::Uint(32)]))));
    let t6 = tup(vec![AbiType::Uint(32), t5]);
    assert(t6.shape()->Tuple_0 =~= seq![Ty::Uint(32), Ty::Array(Box::new(Ty::Tuple(seq![Ty::Uint(32), Ty::Uint(32)])))]);
    let t7 = tup(vec![t3, t6]);
    assert(t7.shape()->Tuple_0 =~= seq![Ty::Array(Box::new(Ty::Uint(64))), Ty::Tuple(seq![Ty::Uint(32), Ty::Array(Box::new(Ty::Tuple(seq![Ty::Uint(32), Ty::Uint(32)])))])]);
    let t8 = tup(vec![t7]);
    assert(t8.shape()->Tuple_0 =~= seq![Ty::Tuple(seq![Ty::Array(Box::new(Ty::Uint(64))), Ty::Tuple(seq![Ty::Uint(32), Ty::Array(Box::new(Ty::Tuple(seq![Ty::Uint(32), Ty::Uint(32)])))])])]);
    let r = MethodSignature { name: "remove_expired_claims", params: t2, outputs: Some(t8) };
    assert(entry_of(r) == verified_registry_method_table()[4]);
    r
}

fn verified_registry_methods() -> (r: Vec<MethodSignature>)
    ensures
        r@.len() == verified_registry_method_table().len(),
        forall|i: int| 0 <= i < r@.len() ==> entry_of(#[trigger] r@[i]) == verified_registry_method_table()[i] && r@[i].params is Tuple,
{
    let r = vec![verified_registry_method_0(), verified_registry_method_1(), verified_registry_method_2(), verified_registry_method_3(), verified_registry_method_4()];
    assert(r@.len() == verified_registry_method_table().len());
    r
}

#[verifier::rlimit(100)]
fn verified_registry_schema_0() -> (r: NamedSchema)
    ensures
        schema_entry_of(r) == verified_registry_schema_table()[0],
{
    let t0 = tup(vec![AbiType::Bytes, AbiType::Bool]);
    assert(t0.shape()->Tuple_0 =~= seq![Ty::Bytes, Ty::Bool]);
    let r = NamedSchema { name: "BigInt", schema: t0 };
    assert(schema_entry_of(r) == verified_registry_schema_table()[0]);
    r
}

#[verifier::rlimit(100)]
fn verified_registry_schema_1() -> (r: NamedSchema)
    ensures
        schema_entry_of(r) == verified_registry_schema_table()[1],
{
    let t0 = tup(vec![AbiType::Bytes]);
    assert(t0.shape()->Tuple_0 =~= seq![Ty::Bytes]);
    let r = NamedSchema { name: "FilAddress", schema: t0 };
    assert(schema_entry_of(r) == verified_registry_schema_table()[1]);
    r
}

#[verifier::rlimit(100)]
fn verified_registry_schema_2() -> (r: NamedSchema)
    ensures
        schema_entry_of(r) == verified_registry_schema_table()[2],
{
    let t0 = tup(vec![AbiType::Uint(32), AbiType::Uint(32)]);
    assert(t0.shape()->Tuple_0 =~= seq![Ty::Uint(32), Ty::Uint(32)]);
    let r = NamedSchema { name: "FailCode", schema: t0 };
    assert(schema_entry_of(r) == verified_registry_schema_table()[2]);
    r
}

#[verifier::rlimit(100)]
fn verified_registry_schema_3() -> (r: NamedSchema)
    ensures
        schema_entry_of(r) == verified_registry_schema_table()[3],
{
    let t0 = tup(vec![AbiType::Uint(32), AbiType::Uint(32)]);
    assert(t0.shape()->Tuple_0 =~= seq![Ty::Uint(32), Ty::Uint(32)]);
    let t1 = AbiType::Array(Box::new(t0));
    assert(t1.shape() == Ty::Array(Box::new(Ty::Tuple(seq![Ty::Uint(32), Ty::Uint(32)]))));
    let t2 = tup(vec![AbiType::Uint(32), t1]);
    assert(t2.shape()->Tuple_0 =~= seq![Ty::Uint(32), Ty::Array(Box::new(Ty::Tuple(seq![Ty::Uint(32), Ty::Uint(32)])))]);
    let r = NamedSchema { name: "BatchReturn", schema: t2 };
    assert(schema_entry_of(r) == verified_registry_schema_table()[3]);
    r
}

#[verifier::rlimit(100)]
fn verified_registry_schema_4() -> (r: NamedSchema)
    ensures
        schema_entry_of(r) == verified_registry_schema_table()[4],
{
    assert(AbiType::Uint(64).shape() == Ty::Uint(64));
    let t0 = AbiType::Array(Box::new(AbiType::Uint(64)));
    assert(t0.shape() == Ty::Array(Box::new(Ty::Uint(64))));
    let t1 = tup(vec![AbiType::Uint(64), t0]);
    assert(t1.shape()->Tuple_0 =~= seq![Ty::Uint(64), Ty::Array(Box::new(Ty::Uint(64)))]);
    let r = NamedSchema { name: "GetClaimsParams", schema: t1 };
    assert(schema_entry_of(r) == verified_registry_schema_table()[4]);
    r
}

#[verifier::rlimit(100)]
fn verified_registry_schema_5() -> (r: NamedSchema)
    ensures
        schema_entry_of(r) == verified_registry_schema_table()[5],
{
    let t0 = tup(vec![AbiType::Uint(32), AbiType::Uint(32)]);
    assert(t0.shape()->Tuple_0 =~= seq![Ty::Uint(32), Ty::Uint(32)]);
    let t1 = AbiType::Array(Box::new(t0));
    assert(t1.shape() == Ty::Array(Box::new(Ty::Tuple(seq![Ty::Uint(32), Ty::Uint(32)]))));
    let t2 = tup(vec![AbiType::Uint(32), t1]);
    assert(t2.shape()->Tuple_0 =~= seq![Ty::Uint(32), Ty::Array(Box::new(Ty::Tuple(seq![Ty::Uint(32), Ty::Uint(32)])))]);
    let t3 = tup(vec![AbiType::Uint(64), AbiType::Uint(64), AbiType::Bytes, AbiType::Uint(64), AbiType::Int64, AbiType::Int64, AbiType::Int64, AbiType::Uint(64)]);
    assert(t3.shape()->Tuple_0 =~= seq![Ty::Uint(64), Ty::Uint(64), Ty::Bytes, Ty::Uint(64), Ty::Int64, Ty::Int64, Ty::Int64, Ty::Uint(64)]);
    let t4 = AbiType::Array(Box::new(t3));
    assert(t4.shape() == Ty::Array(Box::new(Ty::Tuple(seq![Ty::Uint(64), Ty::Uint(64), Ty::Bytes, Ty::Uint(64), Ty::Int64, Ty::Int64, Ty::Int64, Ty::Uint(64)]))));
    let t5 = tup(vec![t2, t4]);
    assert(t5.shape()->Tuple_0 =~= seq![Ty::Tuple(seq![Ty::Uint(32), Ty::Array(Box::new(Ty::Tuple(seq![Ty::Uint(32), Ty::Uint(32)])))]), Ty::Array(Box::new(Ty::Tuple(seq![Ty::Uint(64), Ty::Uint(64), Ty::Bytes, Ty::Uint(64), Ty::Int64, Ty::Int64, Ty::Int64, Ty::Uint(64)])))]);
    let r = NamedSchema { name: "GetClaimsReturn", schema: t5 };
    assert(schema_entry_of(r) == verified_registry_schema_table()[5]);
    r
}

#[verifier::rlimit(100)]
fn verified_registry_schema_6() -> (r: NamedSchema)
    ensures
        schema_entry_of(r) == verified_registry_schema_table()[6],
{
    let t0 = tup(vec![AbiType::Bytes]);
    assert(t0.shape()->Tuple_0 =~= seq![Ty::Bytes]);
    let t1 = tup(vec![AbiType::Bytes, AbiType::Bool]);
    assert(t1.shape()->Tuple_0 =~= seq![Ty::Bytes, Ty::Bool]);
    let t2 = tup(vec![t0, t1]);
    assert(t2.shape()->Tuple_0 =~= seq![Ty::Tuple(seq![Ty::Bytes]), Ty::Tuple(seq![Ty::Bytes, Ty::Bool])]);
    let r = NamedSchema { name: "AddVerifiedClientParams", schema: t2 };
    assert(schema_entry_of(r) == verified_registry_schema_table()[6]);
    r
}

#[verifier::rlimit(100)]
fn verified_registry_schema_7() -> (r: NamedSchema)
    ensures
        schema_entry_of(r) == verified_registry_schema_table()[7],
{
    assert(AbiType::Uint(64).shape() == Ty::Uint(64));
    let t0 = AbiType::Array(Box::new(AbiType::Uint(64)));
    assert(t0.shape() == Ty::Array(Box::new(Ty::Uint(64))));
    let t1 = tup(vec![AbiType::Uint(64), t0]);
    assert(t1.shape()->Tuple_0 =~= seq![Ty::Uint(64), Ty::Array(Box::new(Ty::Uint(64)))]);
    let r = NamedSchema { name: "RemoveExpiredAllocationsParams", schema: t1 };
    assert(schema_entry_of(r) == verified_registry_schema_table()[7]);
    r
}

#[verifier::rlimit(100)]
fn verified_registry_schema_8() -> (r: NamedSchema)
    ensures
        schema_entry_of(r) == verified_registry_schema_table()[8],
{
    assert(AbiType::Uint(64).shape() == Ty::Uint(64));
    let t0 = AbiType::Array(Box::new(AbiType::Uint(64)));
    assert(t0.shape() == Ty::Array(Box::new(Ty::Uint(64))));
    let t1 = tup(vec![AbiType::Uint(32), AbiType::Uint(32)]);
    assert(t1.shape()->Tuple_0 =~= seq![Ty::Uint(32), Ty::Uint(32)]);
    let t2 = AbiType::Array(Box::new(t1));
    assert(t2.shape() == Ty::Array(Box::new(Ty::Tuple(seq![Ty::Uint(32), Ty::Uint(32)]))));
    let t3 = tup(vec![AbiType::Uint(32), t2]);
    assert(t3.shape()->Tuple_0 =~= seq![Ty::Uint(32), Ty::Array(Box::new(Ty::Tuple(seq![Ty::Uint(32), Ty::Uint(32)])))]);
    let t4 = tup(vec![AbiType::Bytes, AbiType::Bool]);
    assert(t4.shape()->Tuple_0 =~= seq![Ty::Bytes, Ty::Bool]);
    let t5 = tup(vec![t0, t3, t4]);
    assert(t5.shape()->Tuple_0 =~= seq![Ty::Array(Box::new(Ty::Uint(64))), Ty::Tuple(seq![Ty::Uint(32), Ty::Array(Box::new(Ty::Tuple(seq![Ty::Uint(32), Ty::Uint(32)])))]), Ty::Tuple(seq![Ty::Bytes, Ty::Bool])]);
    let r = NamedSchema { name: "RemoveExpiredAllocationsReturn", schema: t5 };
    assert(schema_entry_of(r) == verified_registry_schema_table()[8]);
    r
}

#[verifier::rlimit(100)]
fn verified_registry_schema_9() -> (r: NamedSchema)
    ensures
        schema_entry_of(r) == verified_registry_schema_table()[9],
{
    assert(AbiType::Uint(64).shape() == Ty::Uint(64));
    let t0 = AbiType::Array(Box::new(AbiType::Uint(64)));
    assert(t0.shape() == Ty::Array(Box::new(Ty::Uint(64))));
    let t1 = tup(vec![AbiType::Uint(64), t0]);
    assert(t1.shape()->Tuple_0 =~= seq![Ty::Uint(64), Ty::Array(Box::new(Ty::Uint(64)))]);
    let r = NamedSchema { name: "RemoveExpiredClaimsParams", schema: t1 };
    assert(schema_entry_of(r) == verified_registry_schema_table()[9]);
    r
}

#[verifier::rlimit(100)]
fn verified_registry_schema_10() -> (r: NamedSchema)
    ensures
        schema_entry_of(r) == verified_registry_schema_table()[10],
{
    assert(AbiType::Uint(64).shape() == Ty::Uint(64));
    let t0 = AbiType::Array(Box::new(AbiType::Uint(64)));
    assert(t0.shape() == Ty::Array(Box::new(Ty::Uint(64))));
    let t1 = tup(vec![AbiType::Uint(32), AbiType::Uint(32)]);
    assert(t1.shape()->Tuple_0 =~= seq![Ty::Uint(32), Ty::Uint(32)]);
    let t2 = AbiType::Array(Box::new(t1));
    assert(t2.shape() == Ty::Array(Box::new(Ty::Tuple(seq![Ty::Uint(32), Ty::Uint(32)]))));
    let t3 = tup(vec![AbiType::Uint(32), t2]);
    assert(t3.shape()->Tuple_0 =~= seq![Ty::Uint(32), Ty::Array(Box::new(Ty::Tuple(seq![Ty::Uint(32), Ty::Uint(32)])))]);
    let t4 = tup(vec![t0, t3]);
    assert(t4.shape()->Tuple_0 =~= seq![Ty::Array(Box::new(Ty::Uint(64))), Ty::Tuple(seq![Ty::Uint(32), Ty::Array(Box::new(Ty::Tuple(seq![Ty::Uint(32), Ty::Uint(32)])))])]);
    let r = NamedSchema { name: "RemoveExpiredClaimsReturn", schema: t4 };
    assert(schema_entry_of(r) == verified_registry_schema_table()[10]);
    r
}

#[verifier::rlimit(100)]
fn verified_registry_schema_11() -> (r: NamedSchema)
    ensures
        schema_entry_of(r) == verified_registry_schema_table()[11],
{
    let t0 = tup(vec![AbiType::Uint(64), AbiType::Uint(64), AbiType::Int64]);
    assert(t0.shape()->Tuple_0 =~= seq![Ty::Uint(64), Ty::Uint(64), Ty::Int64]);
    let t1 = AbiType::Array(Box::new(t0));
    assert(t1.shape() == Ty::Array(Box::new(Ty::Tuple(seq![Ty::Uint(64), Ty::Uint(64), Ty::Int64]))));
    let t2 = tup(vec![t1]);
    assert(t2.shape()->Tuple_0 =~= seq![Ty::Array(Box::new(Ty::Tuple(seq![Ty::Uint(64), Ty::Uint(64), Ty::Int64])))]);
    let r = NamedSchema { name: "ExtendClaimTermsParams", schema: t2 };
    assert(schema_entry_of(r) == verified_registry_schema_table()[11]);
    r
}

#[verifier::rlimit(100)]
fn verified_registry_schema_12() -> (r: NamedSchema)
    ensures
        schema_entry_of(r) == verified_registry_schema_table()[12],
{
    let t0 = tup(vec![AbiType::Uint(64), AbiType::Uint(64), AbiType::Int64]);
    assert(t0.shape()->Tuple_0 =~= seq![Ty::Uint(64), Ty::Uint(64), Ty::Int64]);
    let r = NamedSchema { name: "ClaimTerm", schema: t0 };
    assert(schema_entry_of(r) == verified_registry_schema_table()[12]);
    r
}

#[verifier::rlimit(100)]
fn verified_registry_schema_13() -> (r: NamedSchema)
    ensures
        schema_entry_of(r) == verified_registry_schema_table()[13],
{
    let t0 = tup(vec![AbiType::Uint(64), AbiType::Uint(64), AbiType::Bytes, AbiType::Uint(64), AbiType::Int64, AbiType::Int64, AbiType::Int64, AbiType::Uint(64)]);
    assert(t0.shape()->Tuple_0 =~= seq![Ty::Uint(64), Ty::Uint(64), Ty::Bytes, Ty::Uint(64), Ty::Int64, Ty::Int64, Ty::Int64, Ty::Uint(64)]);
    let r = NamedSchema { name: "Claim", schema: t0 };
    assert(schema_entry_of(r) == verified_registry_schema_table()[13]);
    r
}

fn verified_registry_schemas() -> (r: Vec<NamedSchema>)
    ensures
        r@.len() == verified_registry_schema_table().len(),
        forall|i: int| 0 <= i < r@.len() ==> schema_entry_of(#[trigger] r@[i]) == verified_registry_schema_table()[i],
{
    let r = vec![verified_registry_schema_0(), verified_registry_schema_1(), verified_registry_schema_2(), verified_registry_schema_3(), verified_registry_schema_4(), verified_registry_schema_5(), verified_registry_schema_6(), verified_registry_schema_7(), verified_registry_schema_8(), verified_registry_schema_9(), verified_registry_schema_10(), verified_registry_schema_11(), verified_registry_schema_12(), verified_registry_schema_13()];
    assert(r@.len() == verified_registry_schema_table().len());
    r
}

#[verifier::rlimit(100)]
fn send_method_0() -> (r: MethodSignature)
    ensures
        entry_of(r) == send_method_table()[0],
        r.params is Tuple,
{
    let t0 = tup(vec![AbiType::Uint(64), AbiType::Uint256]);
    assert(t0.shape()->Tuple_0 =~= seq![Ty::Uint(64), Ty::Uint256]);
    let r = MethodSignature { name: "send", params: t0, outputs: None };
    assert(entry_of(r) == send_method_table()[0]);
    r
}

#[verifier::rlimit(100)]
fn send_method_1() -> (r: MethodSignature)
    ensures
        entry_of(r) == send_method_table()[1],
        r.params is Tuple,
{
    let t0 = tup(vec![AbiType::Bytes]);
    assert(t0.shape()->Tuple_0 =~= seq![Ty::Bytes]);
    let t1 = tup(vec![t0, AbiType::Uint256]);
    assert(t1.shape()->Tuple_0 =~= seq![Ty::Tuple(seq![Ty::Bytes]), Ty::Uint256]);
    let r = MethodSignature { name: "send", params: t1, outputs: None };
    assert(entry_of(r) == send_method_table()[1]);
    r
}

fn send_methods() -> (r: Vec<MethodSignature>)
    ensures
        r@.len() == send_method_table().len(),
        forall|i: int| 0 <= i < r@.len() ==> entry_of(#[trigger] r@[i]) == send_method_table()[i] && r@[i].params is Tuple,
{
    let r = vec![send_method_0(), send_method_1()];
    assert(r@.len() == send_method_table().len());
    r
}

#[verifier::rlimit(100)]
fn send_schema_0() -> (r: NamedSchema)
    ensures
        schema_entry_of(r) == send_schema_table()[0],
{
    let t0 = tup(vec![AbiType::Bytes]);
    assert(t0.shape()->Tuple_0 =~= seq![Ty::Bytes]);
    let r = NamedSchema { name: "FilAddress", schema: t0 };
    assert(schema_entry_of(r) == send_schema_table()[0]);
    r
}

fn send_schemas() -> (r: Vec<NamedSchema>)
    ensures
        r@.len() == send_schema_table().len(),
        forall|i: int| 0 <= i < r@.len() ==> schema_entry_of(#[trigger] r@[i]) == send_schema_table()[i],
{
    let r = vec![send_schema_0()];
    assert(r@.len() == send_schema_table().len());
    r
}

#[verifier::rlimit(100)]
fn precompiles_method_0() -> (r: MethodSignature)
    ensures
        entry_of(r) == precompiles_method_table()[0],
        r.params is Tuple,
{
    let t0 = tup(vec![AbiType::Bytes]);
    assert(t0.shape()->Tuple_0 =~= seq![Ty::Bytes]);
    let t1 = tup(vec![t0]);
    assert(t1.shape()->Tuple_0 =~= seq![Ty::Tuple(seq![Ty::Bytes])]);
    let t2 = tup(vec![AbiType::Uint(64)]);
    assert(t2.shape()->Tuple_0 =~= seq![Ty::Uint(64)]);
    let r = MethodSignature { name: "resolve_address", params: t1, outputs: Some(t2) };
    assert(entry_of(r) == precompiles_method_table()[0]);
    r
}

#[verifier::rlimit(100)]
fn precompiles_method_1() -> (r: MethodSignature)
    ensures
        entry_of(r) == precompiles_method_table()[1],
        r.params is Tuple,
{
    let t0 = tup(vec![AbiType::Address]);
    assert(t0.shape()->Tuple_0 =~= seq![Ty::Address]);
    let t1 = tup(vec![AbiType::Uint(64)]);
    assert(t1.shape()->Tuple_0 =~= seq![Ty::Uint(64)]);
    let r = MethodSignature { name: "resolve_eth_address", params: t0, outputs: Some(t1) };
    assert(entry_of(r) == precompiles_method_table()[1]);
    r
}

#[verifier::rlimit(100)]
fn precompiles_method_2() -> (r: MethodSignature)
    ensures
        entry_of(r) == precompiles_method_table()[2],
        r.params is Tuple,
{
    let t0 = tup(vec![AbiType::Uint(64)]);
    assert(t0.shape()->Tuple_0 =~= seq![Ty::Uint(64)]);
    let t1 = tup(vec![AbiType::Bytes]);
    assert(t1.shape()->Tuple_0 =~= seq![Ty::Bytes]);
    let r = MethodSignature { name: "lookup_delegated_address", params: t0, outputs: Some(t1) };
    assert(entry_of(r) == precompiles_method_table()[2]);
    r
}

fn precompiles_methods() -> (r: Vec<MethodSignature>)
    ensures
        r@.len() == precompiles_method_table().len(),
        forall|i: int| 0 <= i < r@.len() ==> entry_of(#[trigger] r@[i]) == precompiles_method_table()[i] && r@[i].params is Tuple,
{
    let r = vec![precompiles_method_0(), precompiles_method_1(), precompiles_method_2()];
    assert(r@.len() == precompiles_method_table().len());
    r
}

#[verifier::rlimit(100)]
fn precompiles_schema_0() -> (r: NamedSchema)
    ensures
        schema_entry_of(r) == precompiles_schema_table()[0],
{
    let t0 = tup(vec![AbiType::Bytes]);
    assert(t0.shape()->Tuple_0 =~= seq![Ty::Bytes]);
    let r = NamedSchema { name: "FilAddress", schema: t0 };
    assert(schema_entry_of(r) == precompiles_schema_table()[0]);
    r
}

fn precompiles_schemas() -> (r: Vec<NamedSchema>)
    ensures
        r@.len() == precompiles_schema_table().len(),
        forall|i: int| 0 <= i < r@.len() ==> schema_entry_of(#[trigger] r@[i]) == precompiles_schema_table()[i],
{
    let r = vec![precompiles_schema_0()];
    assert(r@.len() == precompiles_schema_table().len());
    r
}

/// The method table of a family.
pub fn family_methods(f: ActorFamily) -> (r: Vec<MethodSignature>)
    ensures
        table_match(r@, f),
{
    match f {
        ActorFamily::Account => account_methods(),
        ActorFamily::Datacap => datacap_methods(),
        ActorFamily::Market => market_methods(),
        ActorFamily::Power => power_methods(),
        ActorFamily::Miner => miner_methods(),
        ActorFamily::VerifiedRegistry => verified_registry_methods(),
        ActorFamily::Send => send_methods(),
        ActorFamily::Precompiles => precompiles_methods(),
    }
}

/// The schema table of a family.
pub fn family_schemas(f: ActorFamily) -> (r: Vec<NamedSchema>)
    ensures
        schema_table_match(r@, f),
{
    match f {
        ActorFamily::Account => account_schemas(),
        ActorFamily::Datacap => datacap_schemas(),
        ActorFamily::Market => market_schemas(),
        ActorFamily::Power => power_schemas(),
        ActorFamily::Miner => miner_schemas(),
        ActorFamily::VerifiedRegistry => verified_registry_schemas(),
        ActorFamily::Send => send_schemas(),
        ActorFamily::Precompiles => precompiles_schemas(),
    }
}

/// The signature of the first method of family `f` named `name`.
pub fn method_for(f: ActorFamily, name: &str) -> (r: Result<MethodSignature, RegistryError>)
    ensures
        r is Ok <==> method_names(f).contains(name.spec_bytes()),
        r is Ok ==> entry_of(r->Ok_0) == method_entry(f, name.spec_bytes()) && r->Ok_0.params is Tuple,
        r is Ok ==> r->Ok_0.name.spec_bytes() == name.spec_bytes(),
        r is Err ==> r->Err_0 == RegistryError::UnknownMethod,
{
    let mut table = family_methods(f);
    let mut i: usize = 0;
    while i < table.len()
        invariant
            table_match(table@, f),
            i <= table@.len(),
            forall|j: int| 0 <= j < i ==> method_names(f)[j] != name.spec_bytes(),
        decreases table@.len() - i,
    {
        if bytes_eq(table[i].name.as_bytes(), name.as_bytes()) {
            proof {
                assert(entry_of(table@[i as int]) == method_table(f)[i as int]);
                assert(method_names(f)[i as int] == name.spec_bytes());
                assert(is_first(method_names(f), name.spec_bytes(), i as int));
                lemma_first_index(method_names(f), name.spec_bytes(), i as int);
            }
            let m = table.swap_remove(i);
            return Ok(m);
        }
        proof {
            assert(entry_of(table@[i as int]) == method_table(f)[i as int]);
        }
        i = i + 1;
    }
    Err(RegistryError::UnknownMethod)
}

/// The method of family `f` whose canonical signature is `sig`, such as
/// `send((bytes),uint256)`: this tells overloads of one name apart.
pub fn method_for_signature(f: ActorFamily, sig: &str) -> (r: Result<MethodSignature, RegistryError>)
    ensures
        r is Ok <==> method_signatures(f).contains(sig.spec_bytes()),
        r is Ok ==> entry_of(r->Ok_0) == method_entry_by_signature(f, sig.spec_bytes()) && r->Ok_0.params is Tuple,
        r is Err ==> r->Err_0 == RegistryError::UnknownMethod,
{
    let mut table = family_methods(f);
    let mut i: usize = 0;
    while i < table.len()
        invariant
            table_match(table@, f),
            i <= table@.len(),
            forall|j: int| 0 <= j < i ==> method_signatures(f)[j] != sig.spec_bytes(),
        decreases table@.len() - i,
    {
        let candidate = signature(table[i].name, &table[i].params);
        proof {
            assert(entry_of(table@[i as int]) == method_table(f)[i as int]);
            assert(candidate@ == method_signatures(f)[i as int]);
        }
        if bytes_eq(candidate.as_slice(), sig.as_bytes()) {
            proof {
                assert(is_first(method_signatures(f), sig.spec_bytes(), i as int));
                lemma_first_index(method_signatures(f), sig.spec_bytes(), i as int);
            }
            let m = table.swap_remove(i);
            return Ok(m);
        }
        i = i + 1;
    }
    Err(RegistryError::UnknownMethod)
}

/// The schema named `name` in family `f`: that of its first table entry.
pub fn schema_for(f: ActorFamily, name: &str) -> (r: Result<AbiType, RegistryError>)
    ensures
        r is Ok <==> schema_names(f).contains(name.spec_bytes()),
        r is Ok ==> r->Ok_0.shape() == schema_entry(f, name.spec_bytes()),
        r is Err ==> r->Err_0 == RegistryError::UnknownType,
{
    let mut table = family_schemas(f);
    let mut i: usize = 0;
    while i < table.len()
        invariant
            schema_table_match(table@, f),
            i <= table@.len(),
            forall|j: int| 0 <= j < i ==> schema_names(f)[j] != name.spec_bytes(),
        decreases table@.len() - i,
    {
        proof {
            assert(schema_entry_of(table@[i as int]) == schema_table(f)[i as int]);
        }
        if bytes_eq(table[i].name.as_bytes(), name.as_bytes()) {
            proof {
                assert(is_first(schema_names(f), name.spec_bytes(), i as int));
                lemma_first_index(schema_names(f), name.spec_bytes(), i as int);
            }
            let s = table.swap_remove(i);
            return Ok(s.schema);
        }
        i = i + 1;
    }
    Err(RegistryError::UnknownType)
}

} // verus!

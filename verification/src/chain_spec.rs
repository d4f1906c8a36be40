//! The chains that a node can be started on, and what each starts from.
//!
//! Keys are named here by their seeds: `"Alice"` stands for the account key
//! and for the session key that are derived from that seed. Deriving them is
//! left to whoever builds the chain.

use vstd::prelude::*;
use vstd::string::StrSliceExecFns;

verus! {

/// The seed from which a key is derived.
pub type Seed = &'static str;

/// The seconds from one block to the next.
pub const SECS_PER_BLOCK: u64 = 6;

/// The blocks of one minute.
pub const MINUTES: u64 = 60 / SECS_PER_BLOCK;

/// What each initial validator's account holds at genesis.
pub const ENDOWMENT: u128 = 1152921504606846976;

/// The chain specification option: one of the chains that can be named on
/// the command line.
#[derive(Clone, Copy, Debug, PartialEq, Eq, Structural)]
pub enum Alternative {
    /// Whatever the current runtime is, with just Alice as an authority.
    Development,
    /// Whatever the current runtime is, with Alice and Bob as authorities.
    LocalTestnet,
}

/// Fees and balances at genesis.
pub struct BalancesConfig {
    pub transaction_base_fee: u128,
    pub transaction_byte_fee: u128,
    pub existential_deposit: u128,
    pub transfer_fee: u128,
    pub creation_fee: u128,
    /// The initial balance of each endowed account, by the seed of its key.
    pub balances: Vec<(Seed, u128)>,
}

/// What a chain starts from.
pub struct GenesisConfig {
    /// The consensus authorities, by the seeds of their session keys.
    pub consensus_authorities: Vec<Seed>,
    /// The minimum period between blocks; a slot lasts twice as long.
    pub timestamp_minimum_period: u64,
    /// The accounts that get an index, by the seeds of their account keys.
    pub indices_ids: Vec<Seed>,
    /// The session's validators, by the seeds of their account keys.
    pub session_validators: Vec<Seed>,
    /// The length of a session in blocks.
    pub session_length: u64,
    /// The session key of each validator: seed of the account key, seed of
    /// the session key.
    pub session_keys: Vec<(Seed, Seed)>,
    pub balances: BalancesConfig,
    /// The account that holds administrative authority, by its seed.
    pub sudo_key: Seed,
    /// The validator set at genesis: seed of the account key, seed of the
    /// session key.
    pub validatorset_validators: Vec<(Seed, Seed)>,
}

/// A chain: its name, its identifier, and what it starts from. It has no
/// boot nodes, no telemetry endpoint, and neither a protocol identifier, a
/// consensus engine nor properties of its own.
pub struct ChainSpec {
    pub name: &'static str,
    pub id: &'static str,
    pub genesis: GenesisConfig,
}

/// The chain that a name given on the command line stands for.
pub open spec fn alternative_for(name: Seq<char>) -> Option<Alternative> {
    if name == "dev"@ {
        Some(Alternative::Development)
    } else if name == ""@ || name == "local"@ {
        Some(Alternative::LocalTestnet)
    } else {
        None
    }
}

/// The text of each seed.
pub open spec fn seed_names(seeds: Seq<Seed>) -> Seq<Seq<char>> {
    seeds.map_values(|seed: Seed| seed@)
}

/// The text of each pair of seeds.
pub open spec fn seed_pair_names(pairs: Seq<(Seed, Seed)>) -> Seq<(Seq<char>, Seq<char>)> {
    pairs.map_values(|pair: (Seed, Seed)| (pair.0@, pair.1@))
}

/// The text of each seed, with the balance that goes with it.
pub open spec fn balance_names(balances: Seq<(Seed, u128)>) -> Seq<(Seq<char>, u128)> {
    balances.map_values(|entry: (Seed, u128)| (entry.0@, entry.1))
}

/// The seeds of the validators of every test network.
pub open spec fn testnet_authorities() -> Seq<Seq<char>> {
    seq!["Alice"@, "Bob"@]
}

/// Whether `genesis` is the genesis of a test network whose administrative
/// key has the seed `root_key`: Alice and Bob are its authorities, its
/// validators and its only endowed accounts.
pub open spec fn is_testnet_genesis(genesis: GenesisConfig, root_key: Seq<char>) -> bool {
    &&& seed_names(genesis.consensus_authorities@) == testnet_authorities()
    &&& genesis.timestamp_minimum_period == 3
    &&& seed_names(genesis.indices_ids@) == testnet_authorities()
    &&& seed_names(genesis.session_validators@) == testnet_authorities()
    &&& genesis.session_length == 50
    &&& seed_pair_names(genesis.session_keys@) == seq![("Alice"@, "Alice"@), ("Bob"@, "Bob"@)]
    &&& genesis.balances.transaction_base_fee == 1
    &&& genesis.balances.transaction_byte_fee == 0
    &&& genesis.balances.existential_deposit == 500
    &&& genesis.balances.transfer_fee == 0
    &&& genesis.balances.creation_fee == 0
    &&& balance_names(genesis.balances.balances@) == seq![
        ("Alice"@, 1152921504606846976u128),
        ("Bob"@, 1152921504606846976u128),
    ]
    &&& genesis.sudo_key@ == root_key
    &&& seed_pair_names(genesis.validatorset_validators@) == seq![
        ("Alice"@, "Alice"@),
        ("Bob"@, "Bob"@),
    ]
}

/// Whether two texts are the same.
pub fn same_text(left: &str, right: &str) -> (same: bool)
    ensures
        same == (left@ == right@),
{
    let n = left.unicode_len();
    if right.unicode_len() != n {
        return false;
    }
    let mut i: usize = 0;
    while i < n
        invariant
            i <= n,
            n == left@.len(),
            n == right@.len(),
            forall|j: int| 0 <= j < i ==> left@[j] == right@[j],
        decreases n - i,
    {
        if left.get_char(i) != right.get_char(i) {
            return false;
        }
        i += 1;
    }
    assert(left@ =~= right@);
    true
}

impl Alternative {
    /// The chain that `s` names: `dev` is the development chain, `local` and
    /// the empty name are the local test network, and no other name stands
    /// for a chain.
    pub fn from(s: &str) -> (alternative: Option<Self>)
        ensures
            alternative == alternative_for(s@),
    {
        if same_text(s, "dev") {
            Some(Alternative::Development)
        } else if same_text(s, "") || same_text(s, "local") {
            Some(Alternative::LocalTestnet)
        } else {
            None
        }
    }

    /// The name of the chain.
    pub fn name(self) -> (name: &'static str)
        ensures
            name@ == (match self {
                Alternative::Development => "Development"@,
                Alternative::LocalTestnet => "Local Testnet"@,
            }),
    {
        match self {
            Alternative::Development => "Development",
            Alternative::LocalTestnet => "Local Testnet",
        }
    }

    /// The identifier of the chain.
    pub fn id(self) -> (id: &'static str)
        ensures
            id@ == (match self {
                Alternative::Development => "dev"@,
                Alternative::LocalTestnet => "local_testnet"@,
            }),
    {
        match self {
            Alternative::Development => "dev",
            Alternative::LocalTestnet => "local_testnet",
        }
    }

    /// The seeds of the session keys that the chain names as its initial
    /// authorities.
    pub fn initial_authorities(self) -> (seeds: Vec<Seed>)
        ensures
            seed_names(seeds@) == (match self {
                Alternative::Development => seq!["Alice"@],
                Alternative::LocalTestnet => seq!["Alice"@, "Bob"@],
            }),
    {
        let mut seeds: Vec<Seed> = Vec::new();
        seeds.push("Alice");
        match self {
            Alternative::Development => {
                assert(seed_names(seeds@) =~= seq!["Alice"@]);
            },
            Alternative::LocalTestnet => {
                seeds.push("Bob");
                assert(seed_names(seeds@) =~= seq!["Alice"@, "Bob"@]);
            },
        }
        seeds
    }

    /// The seeds of the account keys that the chain names as endowed.
    pub fn endowed_accounts(self) -> (seeds: Vec<Seed>)
        ensures
            seed_names(seeds@) == (match self {
                Alternative::Development => seq!["Alice"@],
                Alternative::LocalTestnet => seq![
                    "Alice"@,
                    "Bob"@,
                    "Charlie"@,
                    "Dave"@,
                    "Eve"@,
                    "Ferdie"@,
                ],
            }),
    {
        let mut seeds: Vec<Seed> = Vec::new();
        seeds.push("Alice");
        match self {
            Alternative::Development => {
                assert(seed_names(seeds@) =~= seq!["Alice"@]);
            },
            Alternative::LocalTestnet => {
                seeds.push("Bob");
                seeds.push("Charlie");
                seeds.push("Dave");
                seeds.push("Eve");
                seeds.push("Ferdie");
                assert(seed_names(seeds@) =~= seq![
                    "Alice"@,
                    "Bob"@,
                    "Charlie"@,
                    "Dave"@,
                    "Eve"@,
                    "Ferdie"@,
                ]);
            },
        }
        seeds
    }

    /// The chain of this alternative. Both chains start from the genesis of
    /// the test network, with Alice holding administrative authority.
    pub fn load(self) -> (result: Result<ChainSpec, String>)
        ensures
            match result {
                Ok(chain) => chain.name@ == (match self {
                    Alternative::Development => "Development"@,
                    Alternative::LocalTestnet => "Local Testnet"@,
                }) && chain.id@ == (match self {
                    Alternative::Development => "dev"@,
                    Alternative::LocalTestnet => "local_testnet"@,
                }) && is_testnet_genesis(chain.genesis, "Alice"@),
                Err(_) => false,
            },
    {
        let genesis = testnet_genesis(self.initial_authorities(), self.endowed_accounts(), "Alice");
        Ok(ChainSpec { name: self.name(), id: self.id(), genesis })
    }
}

/// The genesis of a test network. Its authorities are Alice and Bob whatever
/// `initial_authorities` and `endowed_accounts` name; `root_key` holds
/// administrative authority.
pub fn testnet_genesis(
    initial_authorities: Vec<Seed>,
    endowed_accounts: Vec<Seed>,
    root_key: Seed,
) -> (genesis: GenesisConfig)
    ensures
        is_testnet_genesis(genesis, root_key@),
{
    let mut authorities: Vec<(Seed, Seed)> = Vec::new();
    authorities.push(("Alice", "Alice"));
    authorities.push(("Bob", "Bob"));
    assert(seed_pair_names(authorities@) =~= seq![("Alice"@, "Alice"@), ("Bob"@, "Bob"@)]);

    let mut session_keys: Vec<Seed> = Vec::new();
    let mut controllers: Vec<Seed> = Vec::new();
    let mut indices: Vec<Seed> = Vec::new();
    let mut keys: Vec<(Seed, Seed)> = Vec::new();
    let mut balances: Vec<(Seed, u128)> = Vec::new();
    let mut i: usize = 0;
    while i < authorities.len()
        invariant
            i <= authorities.len(),
            session_keys@ == authorities@.take(i as int).map_values(|pair: (Seed, Seed)| pair.1),
            controllers@ == authorities@.take(i as int).map_values(|pair: (Seed, Seed)| pair.0),
            indices@ == controllers@,
            keys@ == authorities@.take(i as int),
            balances@ == authorities@.take(i as int).map_values(
                |pair: (Seed, Seed)| (pair.0, ENDOWMENT),
            ),
        decreases authorities.len() - i,
    {
        let (controller, session_key) = authorities[i];
        proof {
            let before = authorities@.take(i as int);
            let after = authorities@.take(i + 1);
            assert(after =~= before.push(authorities@[i as int]));
            assert(after.map_values(|pair: (Seed, Seed)| pair.1) =~= before.map_values(
                |pair: (Seed, Seed)| pair.1,
            ).push(session_key));
            assert(after.map_values(|pair: (Seed, Seed)| pair.0) =~= before.map_values(
                |pair: (Seed, Seed)| pair.0,
            ).push(controller));
            assert(after.map_values(|pair: (Seed, Seed)| (pair.0, ENDOWMENT))
                =~= before.map_values(|pair: (Seed, Seed)| (pair.0, ENDOWMENT)).push(
                (controller, ENDOWMENT),
            ));
        }
        session_keys.push(session_key);
        controllers.push(controller);
        indices.push(controller);
        keys.push((controller, session_key));
        balances.push((controller, ENDOWMENT));
        i += 1;
    }
    proof {
        assert(authorities@.take(i as int) =~= authorities@);
        assert(seed_names(session_keys@) =~= testnet_authorities());
        assert(seed_names(controllers@) =~= testnet_authorities());
        assert(balance_names(balances@) =~= seq![
            ("Alice"@, 1152921504606846976u128),
            ("Bob"@, 1152921504606846976u128),
        ]);
    }
    GenesisConfig {
        consensus_authorities: session_keys,
        timestamp_minimum_period: SECS_PER_BLOCK / 2,
        indices_ids: indices,
        session_validators: controllers,
        session_length: 5 * MINUTES,
        session_keys: keys,
        balances: BalancesConfig {
            transaction_base_fee: 1,
            transaction_byte_fee: 0,
            existential_deposit: 500,
            transfer_fee: 0,
            creation_fee: 0,
            balances,
        },
        sudo_key: root_key,
        validatorset_validators: authorities,
    }
}

} // verus!

//! What the command line of a node says about sealing and EVM tracing.

use vstd::prelude::*;
use vstd::string::*;

verus! {

/// Which sealing method a development node uses.
#[derive(Clone, Copy, Debug, PartialEq, Eq, Structural)]
pub enum Sealing {
    /// Seal on request.
    Manual,
    /// Seal as soon as a transaction is executed.
    Instant,
}

impl Default for Sealing {
    fn default() -> (r: Sealing)
        ensures
            r == Sealing::Manual,
    {
        Sealing::Manual
    }
}

/// A family of tracing methods that a node can offer.
#[derive(Clone, Copy, Debug, PartialEq, Eq, Structural)]
pub enum EthApi {
    /// The EVM debug methods.
    Debug,
    /// The EVM trace methods.
    Trace,
}

/// What is said of a name that stands for no family of tracing methods.
pub open spec fn unrecognized(name: Seq<char>) -> Seq<char> {
    "`"@ + name + "` is not recognized as a supported Ethereum Api"@
}

impl EthApi {
    /// The family of tracing methods with the given name: `debug` or
    /// `trace`. Any other name is answered with a message that quotes it.
    pub fn from_str(s: &str) -> (r: Result<EthApi, String>)
        ensures
            s@ == "debug"@ ==> r == Ok::<EthApi, String>(EthApi::Debug),
            s@ == "trace"@ ==> r == Ok::<EthApi, String>(EthApi::Trace),
            s@ != "debug"@ && s@ != "trace"@ ==> r is Err && r->Err_0@ == unrecognized(s@),
    {
        proof {
            reveal_strlit("debug");
            reveal_strlit("trace");
            assert("debug"@[0] != "trace"@[0]);
        }
        let name = String::from_str(s);
        if name == String::from_str("debug") {
            Ok(EthApi::Debug)
        } else if name == String::from_str("trace") {
            Ok(EthApi::Trace)
        } else {
            let message = String::from_str("`").concat(s).concat(
                "` is not recognized as a supported Ethereum Api",
            );
            Err(message)
        }
    }
}

impl std::str::FromStr for EthApi {
    type Err = String;

    /// The family of tracing methods with the given name, as
    /// [`EthApi::from_str`] tells it.
    fn from_str(s: &str) -> (r: Result<EthApi, String>)
        ensures
            s@ == "debug"@ ==> r == Ok::<EthApi, String>(EthApi::Debug),
            s@ == "trace"@ ==> r == Ok::<EthApi, String>(EthApi::Trace),
            s@ != "debug"@ && s@ != "trace"@ ==> r is Err && r->Err_0@ == unrecognized(s@),
    {
        EthApi::from_str(s)
    }
}

/// Where the specification of the chain comes from.
#[derive(Clone, Debug, PartialEq, Eq)]
pub enum ChainSpecSource {
    /// The development chain, with manual sealing switched on where a
    /// sealing method was chosen.
    Development { enable_manual_seal: Option<bool> },
    /// The local test network.
    LocalTestnet,
    /// The JSON file at this path.
    JsonFile(String),
}

/// Whether manual sealing is switched on: it is where a sealing method was
/// chosen, whichever it is.
pub open spec fn manual_seal(sealing: Option<Sealing>) -> Option<bool> {
    match sealing {
        Some(_) => Some(true),
        None => None,
    }
}

/// Tells where the specification of the chain named `id` comes from: `dev`
/// names the development chain, the empty name and `local` the local test
/// network, and any other name is the path of a JSON file.
pub fn load_spec(id: &str, sealing: Option<Sealing>) -> (r: ChainSpecSource)
    ensures
        id@ == "dev"@ ==> r == (ChainSpecSource::Development {
            enable_manual_seal: manual_seal(sealing),
        }),
        id@ == ""@ || id@ == "local"@ ==> r == ChainSpecSource::LocalTestnet,
        id@ != "dev"@ && id@ != ""@ && id@ != "local"@ ==> (r matches ChainSpecSource::JsonFile(
            path,
        ) && path@ == id@),
{
    proof {
        reveal_strlit("dev");
        reveal_strlit("");
        reveal_strlit("local");
        assert("dev"@.len() == 3 && ""@.len() == 0 && "local"@.len() == 5);
    }
    let name = String::from_str(id);
    if name == String::from_str("dev") {
        let enable_manual_seal = match sealing {
            Some(_) => Some(true),
            None => None,
        };
        ChainSpecSource::Development { enable_manual_seal }
    } else if name == String::from_str("") || name == String::from_str("local") {
        ChainSpecSource::LocalTestnet
    } else {
        ChainSpecSource::JsonFile(name)
    }
}

/// The kind of database in which a node keeps the chain.
#[derive(Clone, Copy, Debug, PartialEq, Eq, Structural)]
pub enum DatabaseKind {
    RocksDb,
    ParityDb,
    /// Any other kind, or one chosen when the node starts.
    Other,
}

/// Where a node keeps what it records of the EVM beside the chain.
#[derive(Clone, Copy, Debug, PartialEq, Eq)]
pub struct FrontierDatabase {
    pub kind: DatabaseKind,
    /// The directory under the configuration directory of the database.
    pub directory: &'static str,
    /// The size of the cache, for a database that has one.
    pub cache_size: Option<usize>,
}

/// The database of EVM records to purge together with a chain database of
/// the given kind, or nothing where a database of that kind cannot be
/// purged.
pub fn frontier_database(kind: DatabaseKind) -> (r: Option<FrontierDatabase>)
    ensures
        kind == DatabaseKind::RocksDb ==> (r matches Some(db) && db.kind == DatabaseKind::RocksDb
            && db.directory@ == "db"@ && db.cache_size == Some(0usize)),
        kind == DatabaseKind::ParityDb ==> (r matches Some(db) && db.kind == DatabaseKind::ParityDb
            && db.directory@ == "paritydb"@ && db.cache_size is None),
        kind == DatabaseKind::Other ==> r is None,
{
    match kind {
        DatabaseKind::RocksDb => Some(
            FrontierDatabase { kind, directory: "db", cache_size: Some(0) },
        ),
        DatabaseKind::ParityDb => Some(
            FrontierDatabase { kind, directory: "paritydb", cache_size: None },
        ),
        DatabaseKind::Other => None,
    }
}

/// How a node traces the EVM.
#[derive(Clone, Debug)]
pub struct EvmTracingConfiguration {
    /// The families of tracing methods that the node offers.
    pub ethapi: Vec<EthApi>,
    /// How many tracing tasks may run at once.
    pub tracing_max_permits: u32,
    /// How many trace entries one request of `trace_filter` may return.
    pub tracing_max_count: u32,
    /// After how many seconds the cache of `trace_filter` for a block is
    /// dropped.
    pub tracing_cache_duration: u64,
    /// How many bytes of memory, stack and storage a raw tracing request
    /// may use.
    pub tracing_raw_max_memory_usage: usize,
    /// How many logs one query may return.
    pub tracing_max_past_logs: u32,
    /// The size in bytes of the cache of block data.
    pub tracing_eth_log_block_cache: usize,
    /// The size in bytes of the cache of transaction statuses.
    pub tracing_eth_statuses_cache: usize,
}

impl Default for EvmTracingConfiguration {
    fn default() -> (r: EvmTracingConfiguration)
        ensures
            r.ethapi@.len() == 0,
            r.tracing_max_permits == 10,
            r.tracing_max_count == 500,
            r.tracing_cache_duration == 300,
            r.tracing_raw_max_memory_usage == 20000000,
            r.tracing_max_past_logs == 10000,
            r.tracing_eth_log_block_cache == 300000000,
            r.tracing_eth_statuses_cache == 300000000,
    {
        EvmTracingConfiguration {
            ethapi: Vec::new(),
            tracing_max_permits: 10,
            tracing_max_count: 500,
            tracing_cache_duration: 300,
            tracing_raw_max_memory_usage: 20000000,
            tracing_max_past_logs: 10000,
            tracing_eth_log_block_cache: 300000000,
            tracing_eth_statuses_cache: 300000000,
        }
    }
}

impl EvmTracingConfiguration {
    /// How a node that runs without a subcommand traces the EVM: it offers
    /// the trace and the debug methods, with every limit at its default.
    pub fn for_node() -> (r: EvmTracingConfiguration)
        ensures
            r.ethapi@ == seq![EthApi::Trace, EthApi::Debug],
            r.tracing_max_permits == 10,
            r.tracing_max_count == 500,
            r.tracing_cache_duration == 300,
            r.tracing_raw_max_memory_usage == 20000000,
            r.tracing_max_past_logs == 10000,
            r.tracing_eth_log_block_cache == 300000000,
            r.tracing_eth_statuses_cache == 300000000,
    {
        let mut r = EvmTracingConfiguration::default();
        r.ethapi.push(EthApi::Trace);
        r.ethapi.push(EthApi::Debug);
        r
    }

    /// Tells whether the node offers the given family of tracing methods.
    pub fn offers(&self, api: EthApi) -> (r: bool)
        ensures
            r == self.ethapi@.contains(api),
    {
        let mut i: usize = 0;
        while i < self.ethapi.len()
            invariant
                i <= self.ethapi.len(),
                forall|j: int| 0 <= j < i ==> self.ethapi@[j] != api,
            decreases self.ethapi.len() - i,
        {
            if self.ethapi[i] == api {
                return true;
            }
            i += 1;
        }
        false
    }
}

} // verus!

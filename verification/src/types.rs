//! Addresses, contract identifiers, errors and the configuration itself.

use vstd::prelude::*;
use vstd::string::*;

verus! {

/// The most slots that one page of signers may hold, and the most that one signer may have.
pub const STACKERDB_PAGE_MAX: u32 = 4096;

/// The most replicas that a contract may hint at.
pub const MAX_HINT_REPLICAS: u32 = 128;

/// The contract function that gives the number of pages.
pub const STACKERDB_PAGE_COUNT_FUNCTION: &'static str = "stackerdb-get-page-count";

/// The contract function that gives one page of signers.
pub const STACKERDB_SLOTS_FUNCTION: &'static str = "stackerdb-get-signer-slots";

/// The contract function that gives the control metadata.
pub const STACKERDB_CONFIG_FUNCTION: &'static str = "stackerdb-get-config";

/// The bounds that a node sets to every database that it replicates.
#[derive(Debug, Clone, Copy, PartialEq, Eq)]
pub struct Limits {
    /// The most slots that the pages of a contract may hold together.
    pub inv_max: u32,
    /// The largest chunk, in bytes.
    pub max_chunk_size: u32,
}

/// The hash of a public key or of a script.
#[derive(Debug, Clone, Copy, PartialEq, Eq)]
pub struct Hash160(pub [u8; 20]);

/// The address of an account: a version, and a hash.
#[derive(Debug, Clone, Copy, PartialEq, Eq)]
pub struct StacksAddress {
    pub version: u8,
    pub bytes: Hash160,
}

/// A standard principal: the version and the hash of an account.
#[derive(Debug, Clone, Copy, PartialEq, Eq)]
pub struct StandardPrincipalData(pub u8, pub [u8; 20]);

/// The name of a contract, with the account that published it.
#[derive(Debug, PartialEq, Eq)]
pub struct QualifiedContractIdentifier {
    pub issuer: StandardPrincipalData,
    pub name: String,
}

/// An account, or a contract.
#[derive(Debug, PartialEq, Eq)]
pub enum PrincipalData {
    Standard(StandardPrincipalData),
    Contract(QualifiedContractIdentifier),
}

/// An IPv6 address, in network byte order.
#[derive(Debug, Clone, Copy, PartialEq, Eq)]
pub struct PeerAddress(pub [u8; 16]);

/// A replica: where it listens, and the hash of its public key.
#[derive(Debug, Clone, Copy, PartialEq, Eq)]
pub struct NeighborAddress {
    pub addrbytes: PeerAddress,
    pub port: u16,
    pub public_key_hash: Hash160,
}

/// What a replica's address says.
#[verifier::ext_equal]
pub struct NeighborView {
    pub addrbytes: Seq<u8>,
    pub port: u16,
    pub public_key_hash: Seq<u8>,
}

impl View for NeighborAddress {
    type V = NeighborView;

    open spec fn view(&self) -> NeighborView {
        NeighborView {
            addrbytes: self.addrbytes.0@,
            port: self.port,
            public_key_hash: self.public_key_hash.0@,
        }
    }
}

/// The configuration of a database.
#[derive(Debug, PartialEq, Eq)]
pub struct StackerDBConfig {
    /// The largest chunk, in bytes.
    pub chunk_size: u64,
    /// Who may write, and to how many slots each.
    pub signers: Vec<(StacksAddress, u32)>,
    /// The fewest seconds between two writes to a slot.
    pub write_freq: u64,
    /// The most writes to a slot in one reward cycle.
    pub max_writes: u32,
    /// Replicas to try first.
    pub hint_replicas: Vec<NeighborAddress>,
    /// The most neighbors to replicate with.
    pub max_neighbors: usize,
}

/// What a configuration says.
#[verifier::ext_equal]
pub struct ConfigView {
    pub chunk_size: u64,
    pub signers: Seq<(StacksAddress, u32)>,
    pub write_freq: u64,
    pub max_writes: u32,
    pub hint_replicas: Seq<NeighborView>,
    pub max_neighbors: usize,
}

impl View for StackerDBConfig {
    type V = ConfigView;

    open spec fn view(&self) -> ConfigView {
        ConfigView {
            chunk_size: self.chunk_size,
            signers: self.signers@,
            write_freq: self.write_freq,
            max_writes: self.max_writes,
            hint_replicas: neighbor_views(self.hint_replicas@),
            max_neighbors: self.max_neighbors,
        }
    }
}

/// What a list of replicas says.
pub open spec fn neighbor_views(replicas: Seq<NeighborAddress>) -> Seq<NeighborView> {
    replicas.map_values(|n: NeighborAddress| n@)
}

/// Why a configuration could not be had.
#[derive(Debug, PartialEq, Eq)]
pub enum NetError {
    /// There is no such contract.
    NoSuchStackerDB(QualifiedContractIdentifier),
    /// The contract, or what it answered, is not that of a StackerDB; with the reason.
    InvalidStackerDBContract(QualifiedContractIdentifier, String),
    /// A count went out of range; with the reason.
    OverflowError(String),
}

/// What an error says.
pub enum ErrorView {
    NoSuchStackerDB(QualifiedContractIdentifier),
    InvalidStackerDBContract(QualifiedContractIdentifier, Seq<char>),
    OverflowError(Seq<char>),
}

impl View for NetError {
    type V = ErrorView;

    open spec fn view(&self) -> ErrorView {
        match self {
            NetError::NoSuchStackerDB(id) => ErrorView::NoSuchStackerDB(*id),
            NetError::InvalidStackerDBContract(id, reason) => ErrorView::InvalidStackerDBContract(
                *id,
                reason@,
            ),
            NetError::OverflowError(reason) => ErrorView::OverflowError(reason@),
        }
    }
}

/// What `clarity::vm::types::StandardPrincipalData::to_address` returns, for the version and
/// the hash of a principal.
pub uninterp spec fn address_text(version: u8, hash: Seq<u8>) -> Seq<char>;

impl StandardPrincipalData {
    /// Writes the principal in c32check.
    ///
    /// Calls `clarity::vm::types::StandardPrincipalData::to_address`. Its text is a function of
    /// the version and the hash alone, and is only named here.
    #[verifier::external_body]
    pub(crate) fn to_address(&self) -> (text: String)
        ensures
            text@ == address_text(self.0, self.1@),
    {
        clarity::vm::types::StandardPrincipalData(self.0, self.1).to_address()
    }
}

impl From<StandardPrincipalData> for StacksAddress {
    fn from(principal: StandardPrincipalData) -> (address: StacksAddress) {
        StacksAddress { version: principal.0, bytes: Hash160(principal.1) }
    }
}

impl vstd::std_specs::convert::FromSpecImpl<StandardPrincipalData> for StacksAddress {
    open spec fn obeys_from_spec() -> bool {
        true
    }

    open spec fn from_spec(principal: StandardPrincipalData) -> StacksAddress {
        address_of(principal)
    }
}

/// The address of a standard principal: its version and its hash.
pub open spec fn address_of(principal: StandardPrincipalData) -> StacksAddress {
    StacksAddress { version: principal.0, bytes: Hash160(principal.1) }
}

impl Clone for QualifiedContractIdentifier {
    fn clone(&self) -> (copy: Self)
        ensures
            copy == *self,
    {
        QualifiedContractIdentifier { issuer: self.issuer, name: self.name.clone() }
    }
}

impl QualifiedContractIdentifier {
    /// The identifier as it is written: the address of the issuer, a dot, the name.
    pub open spec fn spec_text(&self) -> Seq<char> {
        address_text(self.issuer.0, self.issuer.1@) + "."@ + self.name@
    }

    /// Writes the identifier.
    pub fn text(&self) -> (text: String)
        ensures
            text@ == self.spec_text(),
    {
        let mut text = self.issuer.to_address();
        text.append(".");
        text.append(self.name.as_str());
        text
    }
}

/// A sentence with the identifier of a contract in it.
pub open spec fn contract_reason(
    head: Seq<char>,
    id: QualifiedContractIdentifier,
    tail: Seq<char>,
) -> Seq<char> {
    head + id.spec_text() + tail
}

/// Writes a sentence with the identifier of a contract in it.
pub(crate) fn write_contract_reason(head: &str, id: &QualifiedContractIdentifier, tail: &str) -> (reason:
    String)
    ensures
        reason@ == contract_reason(head@, *id, tail@),
{
    let mut reason = String::from_str(head);
    reason.append(id.text().as_str());
    reason.append(tail);
    reason
}

/// A sentence on what a function of a contract returned.
pub open spec fn function_reason(
    id: QualifiedContractIdentifier,
    function: Seq<char>,
    tail: Seq<char>,
) -> Seq<char> {
    contract_reason("StackerDB fn `"@, id, "."@ + function + "` "@ + tail)
}

/// Writes a sentence on what a function of a contract returned.
pub(crate) fn write_function_reason(
    id: &QualifiedContractIdentifier,
    function: &str,
    tail: &str,
) -> (reason: String)
    ensures
        reason@ == function_reason(*id, function@, tail@),
{
    let mut rest = String::from_str(".");
    rest.append(function);
    rest.append("` ");
    rest.append(tail);
    write_contract_reason("StackerDB fn `", id, rest.as_str())
}

/// The error for a contract that is not that of a StackerDB.
pub(crate) fn invalid_contract(id: &QualifiedContractIdentifier, reason: String) -> (error: NetError)
    ensures
        error@ == ErrorView::InvalidStackerDBContract(*id, reason@),
{
    NetError::InvalidStackerDBContract(id.clone(), reason)
}

} // verus!

//! Starting a signing session: what is read, where the configuration is
//! pushed, what it holds, and whether a proxy to the validator is needed.
//! The caller reads the key files, encodes the request and opens the
//! sockets; every choice it makes on the way comes from here.
use vstd::prelude::*;

verus! {

/// Cloud access-key material; held in memory only.
#[derive(Debug, Clone)]
pub struct Credentials {
    pub aws_key_id: String,
    pub aws_secret_key: String,
    pub aws_session_token: String,
}

/// How the validator reaches the signer.
#[derive(Debug, Clone)]
pub enum ValidatorAddress {
    /// A direct TCP connection, optionally authenticated by the peer's id.
    Tcp { peer_id: Option<String>, host: String, port: u16 },
    /// A Unix-domain socket, relayed to the enclave by a proxy.
    Unix { path: String },
}

/// A context id and port on the restricted host-enclave transport.
#[derive(Debug, Clone, Copy, PartialEq, Eq, Structural)]
pub struct VsockAddr {
    pub cid: u32,
    pub port: u32,
}

/// The operator's settings for a signing session.
#[derive(Debug, Clone)]
pub struct SessionOptions {
    pub chain_id: String,
    /// The height above which the enclave refuses to sign.
    pub max_height: Option<u64>,
    pub address: ValidatorAddress,
    pub sealed_consensus_key_path: String,
    pub sealed_id_key_path: Option<String>,
    pub state_file_path: String,
    /// The context id of the enclave, unless the caller overrides it.
    pub enclave_config_cid: u32,
    pub enclave_config_port: u32,
    /// The port on which the enclave's state updates arrive.
    pub enclave_state_port: u16,
    /// The enclave port for the validator's consensus connection.
    pub enclave_tendermint_conn: u32,
    /// Credentials given in the settings; fetched when absent.
    pub credentials: Option<Credentials>,
    pub aws_region: String,
}

/// The configuration that the enclave receives when a session starts.
#[derive(Debug, Clone)]
pub struct SigningSessionConfig {
    pub chain_id: String,
    pub max_height: Option<u64>,
    /// Sealed consensus key, opaque on this side.
    pub sealed_consensus_key: Vec<u8>,
    /// Sealed identity key, opaque on this side.
    pub sealed_id_key: Option<Vec<u8>>,
    pub peer_id: Option<String>,
    pub enclave_state_port: u16,
    pub enclave_tendermint_conn: u32,
    pub credentials: Credentials,
    pub aws_region: String,
}

/// A request to the enclave; starting a session is the only kind so far.
#[derive(Debug, Clone)]
pub enum SessionRequest {
    Start(SigningSessionConfig),
}

/// The views of an optional string.
pub open spec fn opt_view(s: Option<String>) -> Option<Seq<char>> {
    match s {
        Some(v) => Some(v@),
        None => None,
    }
}

fn clone_opt_string(s: &Option<String>) -> (r: Option<String>)
    ensures
        opt_view(r) == opt_view(*s),
{
    match s {
        Some(v) => Some(v.clone()),
        None => None,
    }
}

/// The peer id the validator connection is authenticated with: only a TCP
/// address carries one.
pub open spec fn spec_peer_id(a: ValidatorAddress) -> Option<Seq<char>> {
    match a {
        ValidatorAddress::Tcp { peer_id, .. } => opt_view(peer_id),
        ValidatorAddress::Unix { .. } => None,
    }
}

/// The peer id the validator connection is authenticated with.
pub fn peer_id_of(a: &ValidatorAddress) -> (r: Option<String>)
    ensures
        opt_view(r) == spec_peer_id(*a),
{
    match a {
        ValidatorAddress::Tcp { peer_id, .. } => clone_opt_string(peer_id),
        ValidatorAddress::Unix { .. } => None,
    }
}

/// Where the configuration is pushed: the enclave's context id, unless the
/// caller gives another, and the configuration port.
pub fn config_push_addr(opts: &SessionOptions, cid: Option<u32>) -> (r: VsockAddr)
    ensures
        r.port == opts.enclave_config_port,
        cid matches Some(c) ==> r.cid == c,
        cid is None ==> r.cid == opts.enclave_config_cid,
{
    match cid {
        Some(c) => VsockAddr { cid: c, port: opts.enclave_config_port },
        None => VsockAddr { cid: opts.enclave_config_cid, port: opts.enclave_config_port },
    }
}

/// The sealed identity key file to read: only a TCP connection uses one.
pub fn id_key_path(opts: &SessionOptions) -> (r: Option<String>)
    ensures
        opts.address is Tcp ==> opt_view(r) == opt_view(opts.sealed_id_key_path),
        opts.address is Unix ==> r is None,
{
    match &opts.address {
        ValidatorAddress::Tcp { .. } => clone_opt_string(&opts.sealed_id_key_path),
        ValidatorAddress::Unix { .. } => None,
    }
}

/// A proxy between the validator's Unix socket and the enclave.
#[derive(Debug, Clone)]
pub struct ProxyPlan {
    /// The Unix-domain path the validator connects to.
    pub path: String,
    /// The enclave port each validator connection is paired with.
    pub enclave_port: u32,
}

/// The proxy to start: one exactly when the validator connects through a
/// Unix-domain socket.
pub fn proxy_plan(opts: &SessionOptions) -> (r: Option<ProxyPlan>)
    ensures
        opts.address is Tcp ==> r is None,
        opts.address matches ValidatorAddress::Unix { path } ==> (r matches Some(p)
            && p.path@ == path@ && p.enclave_port == opts.enclave_tendermint_conn),
{
    match &opts.address {
        ValidatorAddress::Tcp { .. } => None,
        ValidatorAddress::Unix { path } => Some(ProxyPlan {
            path: path.clone(),
            enclave_port: opts.enclave_tendermint_conn,
        }),
    }
}

/// Whether credentials have to be fetched: exactly when the settings hold none.
pub fn needs_credentials(opts: &SessionOptions) -> (r: bool)
    ensures
        r == opts.credentials is None,
{
    opts.credentials.is_none()
}

/// The configuration handed to the enclave, from the settings, the
/// credentials and the sealed keys that were read.
pub open spec fn is_session_config(
    c: SigningSessionConfig,
    opts: SessionOptions,
    credentials: Credentials,
    sealed_consensus_key: Seq<u8>,
    sealed_id_key: Option<Seq<u8>>,
) -> bool {
    &&& c.chain_id@ == opts.chain_id@
    &&& c.max_height == opts.max_height
    &&& c.sealed_consensus_key@ == sealed_consensus_key
    &&& match c.sealed_id_key {
        Some(k) => sealed_id_key == Some(k@),
        None => sealed_id_key is None,
    }
    &&& opt_view(c.peer_id) == spec_peer_id(opts.address)
    &&& c.enclave_state_port == opts.enclave_state_port
    &&& c.enclave_tendermint_conn == opts.enclave_tendermint_conn
    &&& c.credentials == credentials
    &&& c.aws_region@ == opts.aws_region@
}

/// Builds the configuration for the enclave.
pub fn session_config(
    opts: &SessionOptions,
    credentials: Credentials,
    sealed_consensus_key: Vec<u8>,
    sealed_id_key: Option<Vec<u8>>,
) -> (r: SigningSessionConfig)
    ensures
        is_session_config(
            r,
            *opts,
            credentials,
            sealed_consensus_key@,
            match sealed_id_key {
                Some(k) => Some(k@),
                None => None,
            },
        ),
{
    SigningSessionConfig {
        chain_id: opts.chain_id.clone(),
        max_height: opts.max_height,
        sealed_consensus_key,
        sealed_id_key,
        peer_id: peer_id_of(&opts.address),
        enclave_state_port: opts.enclave_state_port,
        enclave_tendermint_conn: opts.enclave_tendermint_conn,
        credentials,
        aws_region: opts.aws_region.clone(),
    }
}

/// Two configurations built from the same settings, credentials and keys
/// agree in every field, so their encodings, and the frames that carry them,
/// are the same bytes.
pub proof fn lemma_session_config_determined(
    a: SigningSessionConfig,
    b: SigningSessionConfig,
    opts: SessionOptions,
    credentials: Credentials,
    sealed_consensus_key: Seq<u8>,
    sealed_id_key: Option<Seq<u8>>,
)
    requires
        is_session_config(a, opts, credentials, sealed_consensus_key, sealed_id_key),
        is_session_config(b, opts, credentials, sealed_consensus_key, sealed_id_key),
    ensures
        a.chain_id@ == b.chain_id@,
        a.max_height == b.max_height,
        a.sealed_consensus_key@ == b.sealed_consensus_key@,
        a.sealed_id_key is Some <==> b.sealed_id_key is Some,
        a.sealed_id_key matches Some(ka) ==> (b.sealed_id_key matches Some(kb) && ka@ == kb@),
        opt_view(a.peer_id) == opt_view(b.peer_id),
        a.enclave_state_port == b.enclave_state_port,
        a.enclave_tendermint_conn == b.enclave_tendermint_conn,
        a.credentials == b.credentials,
        a.aws_region@ == b.aws_region@,
{
}

} // verus!

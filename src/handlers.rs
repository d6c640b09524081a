//! The host-facing methods: what each one asks of the backend, and how the
//! backend's replies become the host's results.
use vstd::prelude::*;
use crate::rpc::{BackendCall, BackendMethod, Envelope};
use crate::text::{decimal, decimal_text, hex_of, quote, quoted, to_hex};

verus! {

/// The methods offered to the host.
#[derive(Clone, Copy, PartialEq, Eq, Debug)]
pub enum HostMethod {
    GetChainInfo,
    SendRawTransaction,
    GetUtxOut,
    EstimateFees,
    GetRawBlockByHeight,
}

impl HostMethod {
    pub open spec fn spec_name(self) -> Seq<char> {
        match self {
            HostMethod::GetChainInfo => "getchaininfo"@,
            HostMethod::SendRawTransaction => "sendrawtransaction"@,
            HostMethod::GetUtxOut => "getutxout"@,
            HostMethod::EstimateFees => "estimatefees"@,
            HostMethod::GetRawBlockByHeight => "getrawblockbyheight"@,
        }
    }

    /// The name under which the host calls the method.
    pub fn name(&self) -> (r: &'static str)
        ensures
            r@ == self.spec_name(),
    {
        match self {
            HostMethod::GetChainInfo => "getchaininfo",
            HostMethod::SendRawTransaction => "sendrawtransaction",
            HostMethod::GetUtxOut => "getutxout",
            HostMethod::EstimateFees => "estimatefees",
            HostMethod::GetRawBlockByHeight => "getrawblockbyheight",
        }
    }
}

/// Why a host call fails.
#[derive(Clone, Copy, PartialEq, Eq, Debug)]
pub enum BridgeError {
    /// The host left out a parameter the method needs.
    BadRequest,
    /// The backend could not be reached, or its reply could not be read.
    Transport,
    /// The backend's reply does not have the expected shape.
    MalformedResponse,
}

/// The parameters of a host call that the methods read, each written as JSON
/// text (a string parameter keeps its quotes), or absent.
pub struct HostParams {
    pub tx: Option<String>,
    pub txid: Option<String>,
    pub vout: Option<String>,
}

/// The backend's chain information, as far as the host needs it.
pub struct BlockchainInfo {
    pub chain: String,
    pub height: u32,
    pub validated: u32,
    pub ibd: bool,
}

/// A transaction output: its amount in satoshis and its locking script.
pub struct TxOut {
    pub value: u64,
    pub script_pubkey: String,
}

/// The backend's answer to an output lookup; no output when it is spent or unknown.
pub struct UtxoLookup {
    pub txout: Option<TxOut>,
}

/// The host's chain information.
pub struct ChainInfoReply {
    pub chain: String,
    pub headercount: u32,
    pub blockcount: u32,
    pub ibd: bool,
}

/// The host's result of publishing a transaction.
pub struct SendReply {
    pub success: bool,
    pub errmsg: Option<String>,
}

/// The host's result of an output lookup; both absent when there is no such output.
pub struct UtxoReply {
    pub amount: Option<u64>,
    pub script: Option<String>,
}

/// A feerate, in satoshis per kilo weight unit, for a confirmation target in blocks.
pub struct FeeRate {
    pub blocks: u32,
    pub feerate: u32,
}

/// The host's fee table.
pub struct FeeEstimate {
    pub feerate_floor: u32,
    pub feerates: Vec<FeeRate>,
}

/// The host's result of a block lookup: the block's hash and its hexadecimal
/// bytes, or both absent.
pub struct RawBlockReply {
    pub blockhash: Option<String>,
    pub block: Option<String>,
}

/// What the block lookup does once the backend has answered for the hash.
pub enum BlockStep {
    /// Ask the backend for the block with this hash.
    Fetch { hash: String, call: BackendCall },
    /// The lookup is over.
    Done(RawBlockReply),
}

/// The feerate given for every target, and the floor.
pub const FEERATE_FLOOR: u32 = 1000;

/// The confirmation targets of the fee table, in order.
pub open spec fn fee_targets() -> Seq<u32> {
    seq![2u32, 6u32, 12u32, 100u32]
}

/// The host's answer when there is no block: no hash and no bytes.
pub open spec fn no_block() -> RawBlockReply {
    RawBlockReply { blockhash: None, block: None }
}

/// The backend call for the chain information; it takes no parameters.
pub fn chain_info_call() -> (r: BackendCall)
    ensures
        r.method == BackendMethod::GetBlockchainInfo,
        r.params@.len() == 0,
{
    BackendCall { method: BackendMethod::GetBlockchainInfo, params: Vec::new() }
}

/// Maps the backend's chain information to the host's; a reply without a
/// result is malformed, as the backend always has this answer.
pub fn chain_info_reply(env: Envelope<BlockchainInfo>) -> (r: Result<ChainInfoReply, BridgeError>)
    ensures
        env.result is None <==> r == Err::<ChainInfoReply, BridgeError>(BridgeError::MalformedResponse),
        env.result is Some ==> (r matches Ok(c) && c.chain == env.result->Some_0.chain
            && c.headercount == env.result->Some_0.height
            && c.blockcount == env.result->Some_0.validated
            && c.ibd == env.result->Some_0.ibd),
{
    match env.result {
        Some(info) => Ok(
            ChainInfoReply {
                chain: info.chain,
                headercount: info.height,
                blockcount: info.validated,
                ibd: info.ibd,
            },
        ),
        None => Err(BridgeError::MalformedResponse),
    }
}

/// The backend call that publishes the host's transaction; a request without
/// a transaction is refused before any call.
pub fn send_raw_transaction_call(p: &HostParams) -> (r: Result<BackendCall, BridgeError>)
    ensures
        p.tx is None <==> r is Err,
        r is Err ==> r->Err_0 == BridgeError::BadRequest,
        r matches Ok(c) ==> c.method == BackendMethod::SendRawTransaction
            && c.params@.len() == 1 && c.params@[0]@ == p.tx->Some_0@,
{
    match &p.tx {
        Some(tx) => Ok(BackendCall { method: BackendMethod::SendRawTransaction, params: vec![tx.clone()] }),
        None => Err(BridgeError::BadRequest),
    }
}

/// Maps the backend's answer to a published transaction: success exactly when
/// it reported no error, and that error as the message otherwise.
pub fn send_raw_transaction_reply(env: Envelope<String>) -> (r: SendReply)
    ensures
        r.success == env.error is None,
        r.errmsg == env.error,
{
    match env.error {
        None => SendReply { success: true, errmsg: None },
        Some(e) => SendReply { success: false, errmsg: Some(e) },
    }
}

/// The backend call that looks up an output; a request without both the
/// transaction id and the output index is refused before any call.
pub fn utxo_call(p: &HostParams) -> (r: Result<BackendCall, BridgeError>)
    ensures
        (p.txid is None || p.vout is None) <==> r is Err,
        r is Err ==> r->Err_0 == BridgeError::BadRequest,
        r matches Ok(c) ==> c.method == BackendMethod::GetTxOut && c.params@.len() == 2
            && c.params@[0]@ == p.txid->Some_0@ && c.params@[1]@ == p.vout->Some_0@,
{
    match (&p.txid, &p.vout) {
        (Some(txid), Some(vout)) => Ok(
            BackendCall { method: BackendMethod::GetTxOut, params: vec![txid.clone(), vout.clone()] },
        ),
        _ => Err(BridgeError::BadRequest),
    }
}

/// Maps the backend's output lookup: the output's amount and script when
/// there is one, both absent otherwise.
pub fn utxo_reply(env: Envelope<UtxoLookup>) -> (r: UtxoReply)
    ensures
        (env.result matches Some(l) && l.txout is Some) ==> r.amount == Some(
            env.result->Some_0.txout->Some_0.value,
        ) && r.script == Some(env.result->Some_0.txout->Some_0.script_pubkey),
        !(env.result matches Some(l) && l.txout is Some) ==> r.amount is None && r.script is None,
{
    match env.result {
        Some(UtxoLookup { txout: Some(out) }) => UtxoReply {
            amount: Some(out.value),
            script: Some(out.script_pubkey),
        },
        _ => UtxoReply { amount: None, script: None },
    }
}

/// The fee table: a fixed answer, not an estimate. Every target in
/// 2, 6, 12 and 100 blocks gets the floor of 1000 sat/kWU.
pub fn estimate_fees() -> (r: FeeEstimate)
    ensures
        r.feerate_floor == FEERATE_FLOOR,
        r.feerates@.len() == fee_targets().len(),
        forall|i: int| 0 <= i < r.feerates@.len() ==> (#[trigger] r.feerates@[i]).blocks == fee_targets()[i]
            && r.feerates@[i].feerate == r.feerate_floor,
{
    let mut feerates: Vec<FeeRate> = Vec::new();
    feerates.push(FeeRate { blocks: 2, feerate: FEERATE_FLOOR });
    feerates.push(FeeRate { blocks: 6, feerate: FEERATE_FLOOR });
    feerates.push(FeeRate { blocks: 12, feerate: FEERATE_FLOOR });
    feerates.push(FeeRate { blocks: 100, feerate: FEERATE_FLOOR });
    FeeEstimate { feerate_floor: FEERATE_FLOOR, feerates }
}

/// The backend call for the hash of the block at `height`.
pub fn block_hash_call(height: u64) -> (r: BackendCall)
    ensures
        r.method == BackendMethod::GetBlockHash,
        r.params@.len() == 1,
        r.params@[0]@ == decimal(height as nat),
{
    BackendCall { method: BackendMethod::GetBlockHash, params: vec![decimal_text(height)] }
}

/// The backend call for the raw bytes of the block with hash `hash`.
pub fn block_call(hash: &String) -> (r: BackendCall)
    ensures
        r.method == BackendMethod::GetBlock,
        r.params@.len() == 2,
        r.params@[0]@ == quoted(hash@),
        r.params@[1]@ == decimal(0),
{
    BackendCall { method: BackendMethod::GetBlock, params: vec![quote(hash.as_str()), decimal_text(0)] }
}

/// Decides the block lookup's next step from the backend's answer for the
/// hash: fetch that block, or report no block when there is no hash.
pub fn after_block_hash(env: Envelope<String>) -> (r: BlockStep)
    ensures
        env.result is None ==> r == BlockStep::Done(no_block()),
        env.result matches Some(h) ==> r matches BlockStep::Fetch { hash, call }
            && hash == env.result->Some_0
            && call.method == BackendMethod::GetBlock
            && call.params@.len() == 2
            && call.params@[0]@ == quoted(hash@)
            && call.params@[1]@ == decimal(0),
{
    match env.result {
        Some(hash) => {
            let call = block_call(&hash);
            BlockStep::Fetch { hash, call }
        },
        None => BlockStep::Done(RawBlockReply { blockhash: None, block: None }),
    }
}

/// Maps the backend's block to the host's: the hash and the block's bytes in
/// hexadecimal, or both absent when the backend has no such block.
pub fn block_reply(hash: String, env: Envelope<Vec<u8>>) -> (r: RawBlockReply)
    ensures
        env.result is None ==> r == no_block(),
        env.result is Some ==> r.blockhash == Some(hash)
            && (r.block matches Some(b) && b@ == hex_of(env.result->Some_0@)),
{
    match env.result {
        Some(bytes) => RawBlockReply { blockhash: Some(hash), block: Some(to_hex(&bytes)) },
        None => RawBlockReply { blockhash: None, block: None },
    }
}

} // verus!

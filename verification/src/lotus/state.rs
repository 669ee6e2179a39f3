//! What the node reports of a computed state: the trace of every message
//! and what it cost.

use crate::lotus::chain::{Message, CID};
use vstd::prelude::*;

verus! {

#[allow(non_snake_case)]
#[derive(Debug, Clone)]
pub struct MessageRct {
    pub ExitCode: Option<i8>,
    pub Return: Option<String>,
    pub GasUsed: Option<i64>,
}

#[allow(non_snake_case)]
pub struct GasCharge {
    pub Name: String,
    pub tg: Option<i64>,
    pub cg: Option<i64>,
    pub sg: Option<i64>,
    pub vtg: Option<i64>,
    pub vcg: Option<i64>,
    pub vsg: Option<i64>,
    pub tt: Option<i64>,
    /// Further values by name.
    pub ex: Option<Vec<(String, i64)>>,
}

#[allow(non_snake_case)]
pub struct GasCost {
    pub Message: CID,
    pub GasUsed: Option<u64>,
    pub BaseFeeBurn: Option<u64>,
    pub OverEstimationBurn: Option<u64>,
    pub MinerPenalty: Option<u64>,
    pub MinerTip: Option<u64>,
    pub Refund: Option<u64>,
    pub TotalCost: Option<u64>,
}

#[allow(non_snake_case)]
pub struct ExecutionTrace {
    pub Msg: Message,
    pub MsgRct: MessageRct,
    pub Error: Option<String>,
    pub Duration: i64,
    pub Subcalls: Option<Vec<ExecutionTrace>>,
    pub GasCharges: Option<Vec<GasCharge>>,
}

#[allow(non_snake_case)]
pub struct InvocResult {
    pub Msg: Message,
    pub Duration: i64,
    pub MsgCid: CID,
    pub MsgRct: MessageRct,
    pub ExecutionTrace: ExecutionTrace,
    pub Error: Option<String>,
}

#[allow(non_snake_case)]
pub struct State {
    pub Root: CID,
    pub Trace: Vec<InvocResult>,
}

} // verus!

use vstd::prelude::*;

verus! {

/// The fixed table of passthrough methods: the chain read-side calls that
/// the router forwards to the chain RPC with their raw parameters
/// unchanged, returning the upstream response. `sendTransaction` is the
/// one guided method and is not in this table.
pub fn passthrough_methods() -> (r: Vec<&'static str>)
    ensures
        r@.len() == 51,
        r@[0]@ == "getAccountInfo"@,
        r@[1]@ == "getBalance"@,
        r@[2]@ == "getBlock"@,
        r@[3]@ == "getBlockCommitment"@,
        r@[4]@ == "getBlockHeight"@,
        r@[5]@ == "getBlockProduction"@,
        r@[6]@ == "getBlockTime"@,
        r@[7]@ == "getBlocks"@,
        r@[8]@ == "getBlocksWithLimit"@,
        r@[9]@ == "getClusterNodes"@,
        r@[10]@ == "getEpochInfo"@,
        r@[11]@ == "getEpochSchedule"@,
        r@[12]@ == "getFeeForMessage"@,
        r@[13]@ == "getFirstAvailableBlock"@,
        r@[14]@ == "getGenesisHash"@,
        r@[15]@ == "getHealth"@,
        r@[16]@ == "getHighestSnapshotSlot"@,
        r@[17]@ == "getIdentity"@,
        r@[18]@ == "getInflationGovernor"@,
        r@[19]@ == "getInflationRate"@,
        r@[20]@ == "getInflationReward"@,
        r@[21]@ == "getLargestAccounts"@,
        r@[22]@ == "getLatestBlockhash"@,
        r@[23]@ == "getLeaderSchedule"@,
        r@[24]@ == "getMaxRetransmitSlot"@,
        r@[25]@ == "getMaxShredInsertSlot"@,
        r@[26]@ == "getMinimumBalanceForRentExemption"@,
        r@[27]@ == "getMultipleAccounts"@,
        r@[28]@ == "getProgramAccounts"@,
        r@[29]@ == "getRecentPerformanceSamples"@,
        r@[30]@ == "getRecentPrioritizationFees"@,
        r@[31]@ == "getSignatureStatuses"@,
        r@[32]@ == "getSignaturesForAddress"@,
        r@[33]@ == "getSlot"@,
        r@[34]@ == "getSlotLeader"@,
        r@[35]@ == "getSlotLeaders"@,
        r@[36]@ == "getStakeActivation"@,
        r@[37]@ == "getStakeMinimumDelegation"@,
        r@[38]@ == "getSupply"@,
        r@[39]@ == "getTokenAccountBalance"@,
        r@[40]@ == "getTokenAccountsByDelegate"@,
        r@[41]@ == "getTokenAccountsByOwner"@,
        r@[42]@ == "getTokenLargestAccounts"@,
        r@[43]@ == "getTokenSupply"@,
        r@[44]@ == "getTransactionCount"@,
        r@[45]@ == "getVersion"@,
        r@[46]@ == "getVoteAccounts"@,
        r@[47]@ == "isBlockhashValid"@,
        r@[48]@ == "minimumLedgerSlot"@,
        r@[49]@ == "requestAirdrop"@,
        r@[50]@ == "simulateTransaction"@,
{
    let mut r: Vec<&'static str> = Vec::new();
    r.push("getAccountInfo");
    r.push("getBalance");
    r.push("getBlock");
    r.push("getBlockCommitment");
    r.push("getBlockHeight");
    r.push("getBlockProduction");
    r.push("getBlockTime");
    r.push("getBlocks");
    r.push("getBlocksWithLimit");
    r.push("getClusterNodes");
    r.push("getEpochInfo");
    r.push("getEpochSchedule");
    r.push("getFeeForMessage");
    r.push("getFirstAvailableBlock");
    r.push("getGenesisHash");
    r.push("getHealth");
    r.push("getHighestSnapshotSlot");
    r.push("getIdentity");
    r.push("getInflationGovernor");
    r.push("getInflationRate");
    r.push("getInflationReward");
    r.push("getLargestAccounts");
    r.push("getLatestBlockhash");
    r.push("getLeaderSchedule");
    r.push("getMaxRetransmitSlot");
    r.push("getMaxShredInsertSlot");
    r.push("getMinimumBalanceForRentExemption");
    r.push("getMultipleAccounts");
    r.push("getProgramAccounts");
    r.push("getRecentPerformanceSamples");
    r.push("getRecentPrioritizationFees");
    r.push("getSignatureStatuses");
    r.push("getSignaturesForAddress");
    r.push("getSlot");
    r.push("getSlotLeader");
    r.push("getSlotLeaders");
    r.push("getStakeActivation");
    r.push("getStakeMinimumDelegation");
    r.push("getSupply");
    r.push("getTokenAccountBalance");
    r.push("getTokenAccountsByDelegate");
    r.push("getTokenAccountsByOwner");
    r.push("getTokenLargestAccounts");
    r.push("getTokenSupply");
    r.push("getTransactionCount");
    r.push("getVersion");
    r.push("getVoteAccounts");
    r.push("isBlockhashValid");
    r.push("minimumLedgerSlot");
    r.push("requestAirdrop");
    r.push("simulateTransaction");
    r
}

} // verus!

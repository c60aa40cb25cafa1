use jsonrpc_filter::bisect_set::BisectSet;

fn fixture() -> BisectSet {
    let names = [
        "chain_containsTransaction",
        "chain_executeTransaction",
        "chain_executeVM",
        "chain_getAsset",
        "chain_getAssetSchemeByTracker",
        "chain_getAssetSchemeByType",
        "chain_getBalance",
        "chain_getBestBlockId",
        "chain_getBestBlockNumber",
        "chain_getBlockByHash",
        "chain_getBlockByNumber",
        "chain_getBlockHash",
        "chain_getBlockTransactionCountByHash",
        "chain_getGenesisAccounts",
        "chain_getMiningReward",
        "chain_getNetworkId",
        "chain_getNumberOfShards",
        "chain_getRegularKey",
        "chain_getRegularKeyOwner",
        "chain_getSeq",
        "chain_getShardIdByHash",
        "chain_getShardOwners",
        "chain_getShardRoot",
        "chain_getShardUsers",
        "chain_getText",
        "chain_getTransaction",
        "chain_getTransactionByTracker",
        "chain_isAssetSpent",
        "commitHash",
        "engine_getBlockReward",
        "engine_getCoinbase",
        "engine_getCustomActionData",
        "engine_getRecommendedConfimation",
        "mempool_getErrorHint",
        "mempool_getPendingTransactions",
        "mempool_getPendingTransactionsCount",
        "mempool_getTransactionResultsByTracker",
        "mempool_sendSignedTransaction",
        "ping",
        "version",
    ];
    BisectSet::from_iter(names.iter().map(|s| s.to_string()).collect())
}

#[test]
fn bisect_test() {
    let allowed_list = fixture();
    assert!(allowed_list.contains("chain_containsTransaction"));
    assert!(allowed_list.contains("chain_executeTransaction"));
    assert!(allowed_list.contains("chain_executeVM"));
    assert!(allowed_list.contains("chain_getAsset"));
    assert!(allowed_list.contains("chain_getAssetSchemeByTracker"));
    assert!(allowed_list.contains("chain_getAssetSchemeByType"));
    assert!(allowed_list.contains("chain_getBalance"));
    assert!(allowed_list.contains("chain_getBestBlockId"));
    assert!(allowed_list.contains("chain_getBestBlockNumber"));
    assert!(allowed_list.contains("chain_getBlockByHash"));
    assert!(allowed_list.contains("chain_getBlockByNumber"));
    assert!(allowed_list.contains("chain_getBlockHash"));
    assert!(allowed_list.contains("chain_getBlockTransactionCountByHash"));
    assert!(allowed_list.contains("chain_getGenesisAccounts"));
    assert!(allowed_list.contains("chain_getMiningReward"));
    assert!(allowed_list.contains("chain_getNetworkId"));
    assert!(allowed_list.contains("chain_getNumberOfShards"));
    assert!(allowed_list.contains("chain_getRegularKey"));
    assert!(allowed_list.contains("chain_getRegularKeyOwner"));
    assert!(allowed_list.contains("chain_getSeq"));
    assert!(allowed_list.contains("chain_getShardIdByHash"));
    assert!(allowed_list.contains("chain_getShardOwners"));
    assert!(allowed_list.contains("chain_getShardRoot"));
    assert!(allowed_list.contains("chain_getShardUsers"));
    assert!(allowed_list.contains("chain_getText"));
    assert!(allowed_list.contains("chain_getTransaction"));
    assert!(allowed_list.contains("chain_getTransactionByTracker"));
    assert!(allowed_list.contains("chain_isAssetSpent"));
    assert!(allowed_list.contains("commitHash"));
    assert!(allowed_list.contains("engine_getBlockReward"));
    assert!(allowed_list.contains("engine_getCoinbase"));
    assert!(allowed_list.contains("engine_getCustomActionData"));
    assert!(allowed_list.contains("engine_getRecommendedConfimation"));
    assert!(allowed_list.contains("mempool_getErrorHint"));
    assert!(allowed_list.contains("mempool_getPendingTransactions"));
    assert!(allowed_list.contains("mempool_getPendingTransactionsCount"));
    assert!(allowed_list.contains("mempool_getTransactionResultsByTracker"));
    assert!(allowed_list.contains("mempool_sendSignedTransaction"));
    assert!(allowed_list.contains("ping"));
    assert!(allowed_list.contains("version"));
    assert!(!allowed_list.contains("non exist"));
}

#[test]
fn membership_matches_input_on_empty_set() {
    let set = BisectSet::from_iter(Vec::new());
    assert_eq!(set.len(), 0);
    assert!(!set.contains(""));
    assert!(!set.contains("ping"));
}

#[test]
fn membership_matches_input_on_singleton() {
    let set = BisectSet::from_iter(vec!["ping".to_string()]);
    assert!(set.contains("ping"));
    assert!(!set.contains(""));
    assert!(!set.contains("pong"));
}

#[test]
fn membership_tolerates_duplicates() {
    let set = BisectSet::from_iter(vec![
        "ping".to_string(),
        "version".to_string(),
        "ping".to_string(),
    ]);
    assert_eq!(set.len(), 3);
    assert!(set.contains("ping"));
    assert!(set.contains("version"));
    assert!(!set.contains("pin"));
}

#[test]
fn absent_strings_are_rejected_including_prefixes_and_suffixes() {
    let set = BisectSet::from_iter(vec!["ping".to_string(), "version".to_string()]);
    assert!(!set.contains(""));
    assert!(!set.contains("pin"));
    assert!(!set.contains("ing"));
    assert!(!set.contains("pings"));
    assert!(!set.contains("aping"));
    assert!(!set.contains("versio"));
    assert!(!set.contains("ersion"));
}

#[test]
fn unsorted_input_is_sorted_on_construction() {
    let set = BisectSet::from_iter(vec![
        "zebra".to_string(),
        "alpha".to_string(),
        "mike".to_string(),
    ]);
    assert!(set.contains("zebra"));
    assert!(set.contains("alpha"));
    assert!(set.contains("mike"));
    assert!(!set.contains("m"));
}

#[test]
fn contains_is_idempotent() {
    let set = fixture();
    let first = set.contains("ping");
    let second = set.contains("ping");
    assert_eq!(first, second);
    let first_absent = set.contains("non exist");
    let second_absent = set.contains("non exist");
    assert_eq!(first_absent, second_absent);
    assert!(first);
    assert!(!first_absent);
}

#[test]
fn small_sets_answer_correctly() {
    for n in 0..3usize {
        let names: Vec<String> = (0..n).map(|k| format!("method{}", k)).collect();
        let set = BisectSet::from_iter(names);
        for k in 0..n {
            assert!(set.contains(&format!("method{}", k)));
        }
        assert!(!set.contains("methodx"));
        assert!(!set.contains(""));
    }
}

use btcdb::datastore::{BlockStats, DataStore, RpcBlockStats, INSERT_BLOCKSTATS_SQL};

fn sample_stats() -> RpcBlockStats {
    RpcBlockStats {
        avg_fee: 1_234,
        avg_fee_rate: 5,
        avg_tx_size: 512,
        block_hash: "00000000000000000002a7c4c1e48d76c5a37902165a270156b7a8d72728a054".to_string(),
        height: 842_209,
        ins: 9_000,
        max_fee: 1_000_000,
        max_fee_rate: 900,
        max_tx_size: 99_000,
        median_fee: 1_000,
        median_time: 1_715_000_000,
        median_tx_size: 250,
        min_fee: 100,
        min_fee_rate: 1,
        min_tx_size: 150,
        outs: 12_000,
        subsidy: 312_500_000,
        sw_total_size: 1_500_000,
        sw_total_weight: 3_990_000,
        sw_txs: 3_000,
        time: 1_715_000_600,
        total_out: 900_000_000_000,
        total_size: 1_600_000,
        total_weight: 3_999_000,
        total_fee: 25_000_000,
        txs: 3_100,
        utxo_increase: -250,
        utxo_size_inc: 4_096,
    }
}

#[test]
fn datastore_defaults() {
    let ds = DataStore::default();
    assert!(ds.client.is_none());
    assert_eq!(ds.host, "localhost");
    assert_eq!(ds.dbname, "bitcoin");
    assert_eq!(ds.schema, "public");
    assert_eq!(ds.username, "rpc");
    assert_eq!(ds.password, "YOURPASSWORD");
}

#[test]
fn connection_string_names_every_parameter() {
    let ds = DataStore::default();
    assert_eq!(ds.connection_string(), "host=localhost user=rpc password=YOURPASSWORD dbname=bitcoin");
}

#[test]
fn schema_script_names_the_schema_twice() {
    let mut ds = DataStore::default();
    ds.schema = "chain".to_string();
    let sql = ds.initsql();
    assert!(sql.starts_with("create schema if not exists chain;\n        set search_path to chain, public;\n"));
    assert!(sql.contains("create table if not exists public.blockstats"));
    assert!(sql.contains("owner to steve;"));
    assert!(sql.contains("grant delete, insert, select on public.blockstats to rpc;"));
    assert_eq!(sql.matches("not null").count(), 28);
}

#[test]
fn insert_statement_has_one_placeholder_per_parameter() {
    assert!(INSERT_BLOCKSTATS_SQL.starts_with("INSERT INTO public.blockstats ("));
    assert!(INSERT_BLOCKSTATS_SQL.contains("$28"));
    assert!(!INSERT_BLOCKSTATS_SQL.contains("$29"));
}

#[test]
fn stats_from_rpc_keep_every_value() {
    let b = BlockStats::from_rpc(sample_stats());
    assert_eq!(b.height, 842_209);
    assert_eq!(b.avgfee, 1_234);
    assert_eq!(b.avgtxsize, 512);
    assert_eq!(b.ins, 9_000);
    assert_eq!(b.subsidy, 312_500_000);
    assert_eq!(b.totalfee, 25_000_000);
    assert_eq!(b.utxo_increase, (-250i64) as u64);
    assert_eq!(b.utxo_increase, u64::MAX - 249);
    assert_eq!(b.utxo_size_inc, 4_096);
    assert_eq!(b.mintxsize, 150);
}

#[test]
fn stored_row_gives_back_the_reported_values() {
    let row = BlockStats::from_rpc(sample_stats()).insert_params();
    assert_eq!(row.height, 842_209);
    assert_eq!(row.blockhash, "00000000000000000002a7c4c1e48d76c5a37902165a270156b7a8d72728a054");
    assert_eq!(row.utxo_increase, -250);
    assert_eq!(row.utxo_size_inc, 4_096);
    assert_eq!(row.total_out, 900_000_000_000);
    assert_eq!(row.mediantime, 1_715_000_000);
    assert_eq!(row.subsidy, 312_500_000);
    assert_eq!(row.avgtxsize, 512);
}

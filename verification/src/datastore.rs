use vstd::prelude::*;
use crate::config::default_sql_settings;

verus! {

#[verifier::external_type_specification]
#[verifier::external_body]
pub struct ExPostgresClient(tokio_postgres::Client);

/// Opening of the schema script, before the schema name.
pub const SCHEMA_SQL_HEAD: &'static str = "create schema if not exists ";

/// Part of the schema script between the two mentions of the schema name.
pub const SCHEMA_SQL_SEARCH_PATH: &'static str = ";\n        set search_path to ";

/// Rest of the schema script: the `blockstats` table, its owner and its grants.
pub const SCHEMA_SQL_TABLE: &'static str = ", public;\n        create table if not exists public.blockstats\n        (\n            height         bigint         not null,\n            blockhash      text           not null,\n            avgfee         bigint         not null,\n            avgfeerate     bigint         not null,\n            avgtxsize      bigint         not null,\n            ins            bigint         not null,\n            outs           bigint         not null,\n            subsidy        float          not null,\n            swtotal_size   bigint         not null,\n            swtotal_weight bigint         not null,\n            swtxs          bigint         not null,\n            time           bigint         not null,\n            total_out      bigint         not null,\n            total_size     bigint         not null,\n            total_weight   bigint         not null,\n            totalfee       float          not null,\n            txs            bigint         not null,\n            utxo_increase  bigint         not null,\n            utxo_size_inc  bigint         not null,\n            maxfee         bigint         not null,\n            maxfeerate     bigint         not null,\n            maxtxsize      bigint         not null,\n            medianfee      bigint         not null,\n            mediantime     bigint         not null,\n            mediantxsize   bigint         not null,\n            minfee         bigint         not null,\n            minfeerate     bigint         not null,\n            mintxsize      bigint         not null\n        );\n        \n        alter table public.blockstats\n            owner to steve;\n        \n        grant delete, insert, select on public.blockstats to rpc;\n        ";

/// Statement that inserts one row of block statistics; its 28 parameters are
/// the fields of `BlockStatsRow` in declaration order.
pub const INSERT_BLOCKSTATS_SQL: &'static str = "INSERT INTO public.blockstats (\n                height\n                , blockhash\n                , avgfee\n                , avgfeerate\n                , avgtxsize\n\n                , ins\n                , outs\n                , subsidy\n                , swtotal_size\n                , swtotal_weight\n                \n                , swtxs\n                , time\n                , total_out\n                , total_size\n                , total_weight\n                \n                , totalfee\n                , txs\n                , utxo_increase\n                , utxo_size_inc\n                , maxfee\n                \n                , maxfeerate\n                , maxtxsize\n                , medianfee\n                , mediantime\n                , mediantxsize\n                \n                , minfee\n                , minfeerate\n                , mintxsize\n            ) VALUES (\n                $1, $2, $3, $4, $5, $6, $7, $8, $9, $10, $11, $12, $13, $14, $15, $16, $17, $18, \n                $19, $20, $21, $22, $23, $24, $25, $26, $27, $28\n            )";

/// The script that creates `schema` and the `blockstats` table.
pub open spec fn schema_script(schema: Seq<char>) -> Seq<char> {
    SCHEMA_SQL_HEAD@ + schema + SCHEMA_SQL_SEARCH_PATH@ + schema + SCHEMA_SQL_TABLE@
}

/// The connection parameters of the SQL data store, and the connection once made.
#[derive(Debug)]
pub struct DataStore {
    pub client: Option<tokio_postgres::Client>,
    pub host: String,
    pub dbname: String,
    pub schema: String,
    pub username: String,
    pub password: String,
}

impl Default for DataStore {
    /// Connection parameters of the built-in SQL configuration, not yet connected.
    fn default() -> (ds: Self)
        ensures
            ds.client is None,
            ds.host@ == default_sql_settings().host,
            ds.dbname@ == default_sql_settings().dbname,
            ds.schema@ == default_sql_settings().schema,
            ds.username@ == default_sql_settings().username,
            ds.password@ == default_sql_settings().password,
    {
        DataStore {
            client: None,
            dbname: String::from_str("bitcoin"),
            schema: String::from_str("public"),
            host: String::from_str("localhost"),
            username: String::from_str("rpc"),
            password: String::from_str("YOURPASSWORD"),
        }
    }
}

impl DataStore {
    /// The connection string handed to the database driver.
    pub fn connection_string(&self) -> (s: String)
        ensures
            s@ == "host="@ + self.host@ + " user="@ + self.username@ + " password="@
                + self.password@ + " dbname="@ + self.dbname@,
    {
        let mut s = String::from_str("host=");
        s.append(self.host.as_str());
        s.append(" user=");
        s.append(self.username.as_str());
        s.append(" password=");
        s.append(self.password.as_str());
        s.append(" dbname=");
        s.append(self.dbname.as_str());
        s
    }

    /// ensure the requisite SQL schema and tables are in place
    pub fn initsql(&self) -> (script: String)
        ensures
            script@ == schema_script(self.schema@),
    {
        let mut script = String::from_str(SCHEMA_SQL_HEAD);
        script.append(self.schema.as_str());
        script.append(SCHEMA_SQL_SEARCH_PATH);
        script.append(self.schema.as_str());
        script.append(SCHEMA_SQL_TABLE);
        script
    }
}


/// The 64-bit pattern of a signed 32-bit count, read as unsigned
/// (what `as u64` gives for an `i32`).
pub open spec fn unsigned_bits(x: int) -> int {
    if x >= 0 {
        x
    } else {
        x + 0x1_0000_0000_0000_0000
    }
}

/// A 64-bit unsigned pattern read as signed (what `as i64` gives for a `u64`).
pub open spec fn signed_bits(x: int) -> int {
    if x <= 0x7fff_ffff_ffff_ffff {
        x
    } else {
        x - 0x1_0000_0000_0000_0000
    }
}

proof fn lemma_i32_as_u64(x: i32)
    ensures
        (x as u64) == unsigned_bits(x as int),
{
    assert(x >= 0 ==> (x as u64) == x) by (bit_vector);
    assert(x < 0 ==> (x as u64) == x + 0x1_0000_0000_0000_0000) by (bit_vector);
}

proof fn lemma_u64_as_i64(x: u64)
    ensures
        (x as i64) == signed_bits(x as int),
{
    assert(x <= 0x7fff_ffff_ffff_ffff ==> (x as i64) == x) by (bit_vector);
    assert(x > 0x7fff_ffff_ffff_ffff ==> (x as i64) == x - 0x1_0000_0000_0000_0000) by (bit_vector);
}

/// Block statistics as the Bitcoin RPC server reports them (`getblockstats`),
/// with amounts in satoshis and the block hash in hexadecimal.
pub struct RpcBlockStats {
    pub avg_fee: u64,
    pub avg_fee_rate: u64,
    pub avg_tx_size: u32,
    pub block_hash: String,
    pub height: u64,
    pub ins: usize,
    pub max_fee: u64,
    pub max_fee_rate: u64,
    pub max_tx_size: u32,
    pub median_fee: u64,
    pub median_time: u64,
    pub median_tx_size: u32,
    pub min_fee: u64,
    pub min_fee_rate: u64,
    pub min_tx_size: u32,
    pub outs: usize,
    pub subsidy: u64,
    pub sw_total_size: usize,
    pub sw_total_weight: usize,
    pub sw_txs: usize,
    pub time: u64,
    pub total_out: u64,
    pub total_size: usize,
    pub total_weight: usize,
    pub total_fee: u64,
    pub txs: usize,
    pub utxo_increase: i32,
    pub utxo_size_inc: i32,
}

/// Statistics of one block, as stored in the `blockstats` table.
/// `subsidy` and `totalfee` are in satoshis.
pub struct BlockStats {
    pub height: u64,
    pub blockhash: String,
    pub avgfee: u64,
    pub avgfeerate: u64,
    pub avgtxsize: u32,
    pub ins: u64,
    pub outs: u64,
    pub subsidy: u64,
    pub swtotal_size: u64,
    pub swtotal_weight: u64,
    pub swtxs: u64,
    pub time: u64,
    pub total_out: u64,
    pub total_size: u64,
    pub total_weight: u64,
    pub totalfee: u64,
    pub txs: u64,
    pub utxo_increase: u64,
    pub utxo_size_inc: u64,
    pub maxfee: u64,
    pub maxfeerate: u64,
    pub maxtxsize: u64,
    pub medianfee: u64,
    pub mediantime: u64,
    pub mediantxsize: u64,
    pub minfee: u64,
    pub minfeerate: u64,
    pub mintxsize: u64,
}

/// The parameters of `INSERT_BLOCKSTATS_SQL`, in order. Counts and amounts
/// are stored as SQL `bigint`; `subsidy` and `totalfee` are satoshi amounts
/// that the store keeps as floating-point bitcoin values.
pub struct BlockStatsRow {
    pub height: i64,
    pub blockhash: String,
    pub avgfee: i64,
    pub avgfeerate: i64,
    pub avgtxsize: i64,
    pub ins: i64,
    pub outs: i64,
    pub subsidy: u64,
    pub swtotal_size: i64,
    pub swtotal_weight: i64,
    pub swtxs: i64,
    pub time: i64,
    pub total_out: i64,
    pub total_size: i64,
    pub total_weight: i64,
    pub totalfee: u64,
    pub txs: i64,
    pub utxo_increase: i64,
    pub utxo_size_inc: i64,
    pub maxfee: i64,
    pub maxfeerate: i64,
    pub maxtxsize: i64,
    pub medianfee: i64,
    pub mediantime: i64,
    pub mediantxsize: i64,
    pub minfee: i64,
    pub minfeerate: i64,
    pub mintxsize: i64,
}

/// `b` holds the statistics `s` reported by the RPC server: every count and
/// amount unchanged, and a negative 32-bit UTXO change kept as its 64-bit pattern.
pub open spec fn converted_from(b: BlockStats, s: RpcBlockStats) -> bool {
    &&& b.height == s.height
    &&& b.blockhash == s.block_hash
    &&& b.avgfee == s.avg_fee
    &&& b.avgfeerate == s.avg_fee_rate
    &&& b.avgtxsize == s.avg_tx_size
    &&& b.ins == s.ins
    &&& b.outs == s.outs
    &&& b.subsidy == s.subsidy
    &&& b.swtotal_size == s.sw_total_size
    &&& b.swtotal_weight == s.sw_total_weight
    &&& b.swtxs == s.sw_txs
    &&& b.time == s.time
    &&& b.total_out == s.total_out
    &&& b.total_size == s.total_size
    &&& b.total_weight == s.total_weight
    &&& b.totalfee == s.total_fee
    &&& b.txs == s.txs
    &&& b.utxo_increase == unsigned_bits(s.utxo_increase as int)
    &&& b.utxo_size_inc == unsigned_bits(s.utxo_size_inc as int)
    &&& b.maxfee == s.max_fee
    &&& b.maxfeerate == s.max_fee_rate
    &&& b.maxtxsize == s.max_tx_size
    &&& b.medianfee == s.median_fee
    &&& b.mediantime == s.median_time
    &&& b.mediantxsize == s.median_tx_size
    &&& b.minfee == s.min_fee
    &&& b.minfeerate == s.min_fee_rate
    &&& b.mintxsize == s.min_tx_size
}

/// `r` holds the statistics `b`, each 64-bit field read as a signed `bigint`.
pub open spec fn row_of(r: BlockStatsRow, b: BlockStats) -> bool {
    &&& r.height == signed_bits(b.height as int)
    &&& r.blockhash@ == b.blockhash@
    &&& r.avgfee == signed_bits(b.avgfee as int)
    &&& r.avgfeerate == signed_bits(b.avgfeerate as int)
    &&& r.avgtxsize == b.avgtxsize
    &&& r.ins == signed_bits(b.ins as int)
    &&& r.outs == signed_bits(b.outs as int)
    &&& r.subsidy == b.subsidy
    &&& r.swtotal_size == signed_bits(b.swtotal_size as int)
    &&& r.swtotal_weight == signed_bits(b.swtotal_weight as int)
    &&& r.swtxs == signed_bits(b.swtxs as int)
    &&& r.time == signed_bits(b.time as int)
    &&& r.total_out == signed_bits(b.total_out as int)
    &&& r.total_size == signed_bits(b.total_size as int)
    &&& r.total_weight == signed_bits(b.total_weight as int)
    &&& r.totalfee == b.totalfee
    &&& r.txs == signed_bits(b.txs as int)
    &&& r.utxo_increase == signed_bits(b.utxo_increase as int)
    &&& r.utxo_size_inc == signed_bits(b.utxo_size_inc as int)
    &&& r.maxfee == signed_bits(b.maxfee as int)
    &&& r.maxfeerate == signed_bits(b.maxfeerate as int)
    &&& r.maxtxsize == signed_bits(b.maxtxsize as int)
    &&& r.medianfee == signed_bits(b.medianfee as int)
    &&& r.mediantime == signed_bits(b.mediantime as int)
    &&& r.mediantxsize == signed_bits(b.mediantxsize as int)
    &&& r.minfee == signed_bits(b.minfee as int)
    &&& r.minfeerate == signed_bits(b.minfeerate as int)
    &&& r.mintxsize == signed_bits(b.mintxsize as int)
}

impl BlockStats {
    /// The statistics of a block as reported by the RPC server.
    pub fn from_rpc(stats: RpcBlockStats) -> (b: Self)
        ensures
            converted_from(b, stats),
            b.height == stats.height,
            b.blockhash@ == stats.block_hash@,
            b.avgfee == stats.avg_fee,
            b.avgfeerate == stats.avg_fee_rate,
            b.avgtxsize == stats.avg_tx_size,
            b.ins == stats.ins,
            b.outs == stats.outs,
            b.subsidy == stats.subsidy,
            b.swtotal_size == stats.sw_total_size,
            b.swtotal_weight == stats.sw_total_weight,
            b.swtxs == stats.sw_txs,
            b.time == stats.time,
            b.total_out == stats.total_out,
            b.total_size == stats.total_size,
            b.total_weight == stats.total_weight,
            b.totalfee == stats.total_fee,
            b.txs == stats.txs,
            b.utxo_increase == unsigned_bits(stats.utxo_increase as int),
            b.utxo_size_inc == unsigned_bits(stats.utxo_size_inc as int),
            b.maxfee == stats.max_fee,
            b.maxfeerate == stats.max_fee_rate,
            b.maxtxsize == stats.max_tx_size,
            b.medianfee == stats.median_fee,
            b.mediantime == stats.median_time,
            b.mediantxsize == stats.median_tx_size,
            b.minfee == stats.min_fee,
            b.minfeerate == stats.min_fee_rate,
            b.mintxsize == stats.min_tx_size,
    {
        proof {
            lemma_i32_as_u64(stats.utxo_increase);
            lemma_i32_as_u64(stats.utxo_size_inc);
        }
        Self {
            avgfee: stats.avg_fee,
            avgfeerate: stats.avg_fee_rate,
            avgtxsize: stats.avg_tx_size,
            blockhash: stats.block_hash,
            height: stats.height,
            ins: stats.ins as u64,
            maxfee: stats.max_fee,
            maxfeerate: stats.max_fee_rate,
            maxtxsize: stats.max_tx_size as u64,
            medianfee: stats.median_fee,
            mediantime: stats.median_time,
            mediantxsize: stats.median_tx_size as u64,
            minfee: stats.min_fee,
            minfeerate: stats.min_fee_rate,
            mintxsize: stats.min_tx_size as u64,
            outs: stats.outs as u64,
            subsidy: stats.subsidy,
            swtotal_size: stats.sw_total_size as u64,
            swtotal_weight: stats.sw_total_weight as u64,
            swtxs: stats.sw_txs as u64,
            time: stats.time,
            total_out: stats.total_out,
            total_size: stats.total_size as u64,
            total_weight: stats.total_weight as u64,
            totalfee: stats.total_fee,
            txs: stats.txs as u64,
            utxo_increase: stats.utxo_increase as u64,
            utxo_size_inc: stats.utxo_size_inc as u64,
        }
    }

    /// The parameters that insert these statistics with `INSERT_BLOCKSTATS_SQL`.
    pub fn insert_params(&self) -> (row: BlockStatsRow)
        ensures
            row_of(row, *self),
            row.height == signed_bits(self.height as int),
            row.blockhash@ == self.blockhash@,
            row.avgfee == signed_bits(self.avgfee as int),
            row.avgfeerate == signed_bits(self.avgfeerate as int),
            row.avgtxsize == self.avgtxsize,
            row.ins == signed_bits(self.ins as int),
            row.outs == signed_bits(self.outs as int),
            row.subsidy == self.subsidy,
            row.swtotal_size == signed_bits(self.swtotal_size as int),
            row.swtotal_weight == signed_bits(self.swtotal_weight as int),
            row.swtxs == signed_bits(self.swtxs as int),
            row.time == signed_bits(self.time as int),
            row.total_out == signed_bits(self.total_out as int),
            row.total_size == signed_bits(self.total_size as int),
            row.total_weight == signed_bits(self.total_weight as int),
            row.totalfee == self.totalfee,
            row.txs == signed_bits(self.txs as int),
            row.utxo_increase == signed_bits(self.utxo_increase as int),
            row.utxo_size_inc == signed_bits(self.utxo_size_inc as int),
            row.maxfee == signed_bits(self.maxfee as int),
            row.maxfeerate == signed_bits(self.maxfeerate as int),
            row.maxtxsize == signed_bits(self.maxtxsize as int),
            row.medianfee == signed_bits(self.medianfee as int),
            row.mediantime == signed_bits(self.mediantime as int),
            row.mediantxsize == signed_bits(self.mediantxsize as int),
            row.minfee == signed_bits(self.minfee as int),
            row.minfeerate == signed_bits(self.minfeerate as int),
            row.mintxsize == signed_bits(self.mintxsize as int),
    {
        proof {
            lemma_u64_as_i64(self.height);
            lemma_u64_as_i64(self.avgfee);
            lemma_u64_as_i64(self.avgfeerate);
            lemma_u64_as_i64(self.ins);
            lemma_u64_as_i64(self.outs);
            lemma_u64_as_i64(self.swtotal_size);
            lemma_u64_as_i64(self.swtotal_weight);
            lemma_u64_as_i64(self.swtxs);
            lemma_u64_as_i64(self.time);
            lemma_u64_as_i64(self.total_out);
            lemma_u64_as_i64(self.total_size);
            lemma_u64_as_i64(self.total_weight);
            lemma_u64_as_i64(self.txs);
            lemma_u64_as_i64(self.utxo_increase);
            lemma_u64_as_i64(self.utxo_size_inc);
            lemma_u64_as_i64(self.maxfee);
            lemma_u64_as_i64(self.maxfeerate);
            lemma_u64_as_i64(self.maxtxsize);
            lemma_u64_as_i64(self.medianfee);
            lemma_u64_as_i64(self.mediantime);
            lemma_u64_as_i64(self.mediantxsize);
            lemma_u64_as_i64(self.minfee);
            lemma_u64_as_i64(self.minfeerate);
            lemma_u64_as_i64(self.mintxsize);
        }
        BlockStatsRow {
            height: self.height as i64,
            blockhash: self.blockhash.clone(),
            avgfee: self.avgfee as i64,
            avgfeerate: self.avgfeerate as i64,
            avgtxsize: self.avgtxsize as i64,
            ins: self.ins as i64,
            outs: self.outs as i64,
            subsidy: self.subsidy,
            swtotal_size: self.swtotal_size as i64,
            swtotal_weight: self.swtotal_weight as i64,
            swtxs: self.swtxs as i64,
            time: self.time as i64,
            total_out: self.total_out as i64,
            total_size: self.total_size as i64,
            total_weight: self.total_weight as i64,
            totalfee: self.totalfee,
            txs: self.txs as i64,
            utxo_increase: self.utxo_increase as i64,
            utxo_size_inc: self.utxo_size_inc as i64,
            maxfee: self.maxfee as i64,
            maxfeerate: self.maxfeerate as i64,
            maxtxsize: self.maxtxsize as i64,
            medianfee: self.medianfee as i64,
            mediantime: self.mediantime as i64,
            mediantxsize: self.mediantxsize as i64,
            minfee: self.minfee as i64,
            minfeerate: self.minfeerate as i64,
            mintxsize: self.mintxsize as i64,
        }
    }
}

/// What is stored is what the RPC server reported: every count below 2^63
/// (all realistic ones) reaches the row unchanged, and a negative UTXO change
/// survives the round trip through the unsigned field.
pub proof fn lemma_stored_row_matches_rpc(s: RpcBlockStats, b: BlockStats, r: BlockStatsRow)
    requires
        converted_from(b, s),
        row_of(r, b),
    ensures
        s.height <= i64::MAX ==> r.height == s.height,
        r.blockhash@ == s.block_hash@,
        s.avg_fee <= i64::MAX ==> r.avgfee == s.avg_fee,
        s.avg_fee_rate <= i64::MAX ==> r.avgfeerate == s.avg_fee_rate,
        r.avgtxsize == s.avg_tx_size,
        s.ins <= i64::MAX ==> r.ins == s.ins,
        s.outs <= i64::MAX ==> r.outs == s.outs,
        r.subsidy == s.subsidy,
        s.sw_total_size <= i64::MAX ==> r.swtotal_size == s.sw_total_size,
        s.sw_total_weight <= i64::MAX ==> r.swtotal_weight == s.sw_total_weight,
        s.sw_txs <= i64::MAX ==> r.swtxs == s.sw_txs,
        s.time <= i64::MAX ==> r.time == s.time,
        s.total_out <= i64::MAX ==> r.total_out == s.total_out,
        s.total_size <= i64::MAX ==> r.total_size == s.total_size,
        s.total_weight <= i64::MAX ==> r.total_weight == s.total_weight,
        r.totalfee == s.total_fee,
        s.txs <= i64::MAX ==> r.txs == s.txs,
        r.utxo_increase == s.utxo_increase,
        r.utxo_size_inc == s.utxo_size_inc,
        s.max_fee <= i64::MAX ==> r.maxfee == s.max_fee,
        s.max_fee_rate <= i64::MAX ==> r.maxfeerate == s.max_fee_rate,
        r.maxtxsize == s.max_tx_size,
        s.median_fee <= i64::MAX ==> r.medianfee == s.median_fee,
        s.median_time <= i64::MAX ==> r.mediantime == s.median_time,
        r.mediantxsize == s.median_tx_size,
        s.min_fee <= i64::MAX ==> r.minfee == s.min_fee,
        s.min_fee_rate <= i64::MAX ==> r.minfeerate == s.min_fee_rate,
        r.mintxsize == s.min_tx_size,
{
}

/// Converting RPC statistics carries every reported value into the field of
/// the same name: counts and amounts unchanged, and a UTXO change that is
/// negative kept as the 64-bit pattern that reads back as the same number.
pub proof fn lemma_from_rpc_field_by_field(s: RpcBlockStats, b: BlockStats)
    requires
        converted_from(b, s),
    ensures
        b.height == s.height,
        b.blockhash@ == s.block_hash@,
        b.avgfee == s.avg_fee,
        b.avgfeerate == s.avg_fee_rate,
        b.avgtxsize == s.avg_tx_size,
        b.ins == s.ins,
        b.outs == s.outs,
        b.subsidy == s.subsidy,
        b.swtotal_size == s.sw_total_size,
        b.swtotal_weight == s.sw_total_weight,
        b.swtxs == s.sw_txs,
        b.time == s.time,
        b.total_out == s.total_out,
        b.total_size == s.total_size,
        b.total_weight == s.total_weight,
        b.totalfee == s.total_fee,
        b.txs == s.txs,
        s.utxo_increase >= 0 ==> b.utxo_increase == s.utxo_increase,
        s.utxo_increase < 0 ==> b.utxo_increase == s.utxo_increase + 0x1_0000_0000_0000_0000,
        s.utxo_size_inc >= 0 ==> b.utxo_size_inc == s.utxo_size_inc,
        s.utxo_size_inc < 0 ==> b.utxo_size_inc == s.utxo_size_inc + 0x1_0000_0000_0000_0000,
        b.maxfee == s.max_fee,
        b.maxfeerate == s.max_fee_rate,
        b.maxtxsize == s.max_tx_size,
        b.medianfee == s.median_fee,
        b.mediantime == s.median_time,
        b.mediantxsize == s.median_tx_size,
        b.minfee == s.min_fee,
        b.minfeerate == s.min_fee_rate,
        b.mintxsize == s.min_tx_size,
{
}

/// The insert row carries every field of the statistics into the parameter
/// of the same name: each value below 2^63 unchanged, each larger 64-bit value
/// as its signed reading, and the satoshi amounts and the hash as they are.
pub proof fn lemma_row_field_by_field(b: BlockStats, r: BlockStatsRow)
    requires
        row_of(r, b),
    ensures
        b.height <= i64::MAX ==> r.height == b.height,
        b.height > i64::MAX ==> r.height == b.height - 0x1_0000_0000_0000_0000,
        r.blockhash@ == b.blockhash@,
        b.avgfee <= i64::MAX ==> r.avgfee == b.avgfee,
        b.avgfee > i64::MAX ==> r.avgfee == b.avgfee - 0x1_0000_0000_0000_0000,
        b.avgfeerate <= i64::MAX ==> r.avgfeerate == b.avgfeerate,
        b.avgfeerate > i64::MAX ==> r.avgfeerate == b.avgfeerate - 0x1_0000_0000_0000_0000,
        r.avgtxsize == b.avgtxsize,
        b.ins <= i64::MAX ==> r.ins == b.ins,
        b.ins > i64::MAX ==> r.ins == b.ins - 0x1_0000_0000_0000_0000,
        b.outs <= i64::MAX ==> r.outs == b.outs,
        b.outs > i64::MAX ==> r.outs == b.outs - 0x1_0000_0000_0000_0000,
        r.subsidy == b.subsidy,
        b.swtotal_size <= i64::MAX ==> r.swtotal_size == b.swtotal_size,
        b.swtotal_size > i64::MAX ==> r.swtotal_size == b.swtotal_size - 0x1_0000_0000_0000_0000,
        b.swtotal_weight <= i64::MAX ==> r.swtotal_weight == b.swtotal_weight,
        b.swtotal_weight > i64::MAX ==> r.swtotal_weight == b.swtotal_weight - 0x1_0000_0000_0000_0000,
        b.swtxs <= i64::MAX ==> r.swtxs == b.swtxs,
        b.swtxs > i64::MAX ==> r.swtxs == b.swtxs - 0x1_0000_0000_0000_0000,
        b.time <= i64::MAX ==> r.time == b.time,
        b.time > i64::MAX ==> r.time == b.time - 0x1_0000_0000_0000_0000,
        b.total_out <= i64::MAX ==> r.total_out == b.total_out,
        b.total_out > i64::MAX ==> r.total_out == b.total_out - 0x1_0000_0000_0000_0000,
        b.total_size <= i64::MAX ==> r.total_size == b.total_size,
        b.total_size > i64::MAX ==> r.total_size == b.total_size - 0x1_0000_0000_0000_0000,
        b.total_weight <= i64::MAX ==> r.total_weight == b.total_weight,
        b.total_weight > i64::MAX ==> r.total_weight == b.total_weight - 0x1_0000_0000_0000_0000,
        r.totalfee == b.totalfee,
        b.txs <= i64::MAX ==> r.txs == b.txs,
        b.txs > i64::MAX ==> r.txs == b.txs - 0x1_0000_0000_0000_0000,
        b.utxo_increase <= i64::MAX ==> r.utxo_increase == b.utxo_increase,
        b.utxo_increase > i64::MAX ==> r.utxo_increase == b.utxo_increase - 0x1_0000_0000_0000_0000,
        b.utxo_size_inc <= i64::MAX ==> r.utxo_size_inc == b.utxo_size_inc,
        b.utxo_size_inc > i64::MAX ==> r.utxo_size_inc == b.utxo_size_inc - 0x1_0000_0000_0000_0000,
        b.maxfee <= i64::MAX ==> r.maxfee == b.maxfee,
        b.maxfee > i64::MAX ==> r.maxfee == b.maxfee - 0x1_0000_0000_0000_0000,
        b.maxfeerate <= i64::MAX ==> r.maxfeerate == b.maxfeerate,
        b.maxfeerate > i64::MAX ==> r.maxfeerate == b.maxfeerate - 0x1_0000_0000_0000_0000,
        b.maxtxsize <= i64::MAX ==> r.maxtxsize == b.maxtxsize,
        b.maxtxsize > i64::MAX ==> r.maxtxsize == b.maxtxsize - 0x1_0000_0000_0000_0000,
        b.medianfee <= i64::MAX ==> r.medianfee == b.medianfee,
        b.medianfee > i64::MAX ==> r.medianfee == b.medianfee - 0x1_0000_0000_0000_0000,
        b.mediantime <= i64::MAX ==> r.mediantime == b.mediantime,
        b.mediantime > i64::MAX ==> r.mediantime == b.mediantime - 0x1_0000_0000_0000_0000,
        b.mediantxsize <= i64::MAX ==> r.mediantxsize == b.mediantxsize,
        b.mediantxsize > i64::MAX ==> r.mediantxsize == b.mediantxsize - 0x1_0000_0000_0000_0000,
        b.minfee <= i64::MAX ==> r.minfee == b.minfee,
        b.minfee > i64::MAX ==> r.minfee == b.minfee - 0x1_0000_0000_0000_0000,
        b.minfeerate <= i64::MAX ==> r.minfeerate == b.minfeerate,
        b.minfeerate > i64::MAX ==> r.minfeerate == b.minfeerate - 0x1_0000_0000_0000_0000,
        b.mintxsize <= i64::MAX ==> r.mintxsize == b.mintxsize,
        b.mintxsize > i64::MAX ==> r.mintxsize == b.mintxsize - 0x1_0000_0000_0000_0000,
{
}

} // verus!

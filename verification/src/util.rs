use vstd::prelude::*;

use crate::datetime::{datetime_seconds_text, seconds_text, KLineDateTime};
use crate::item::{replace_args_spec, KLineItem, KLINE_ITEM_REPLACE_INTO_SQL_TEMPLATE};
use crate::query::{args_view, ArgValue, SqlArg, SqlEntity, SqlQuery};
use crate::text::{
    lemma_replace_absent, lemma_replace_concat, lemma_replace_leading_match, lemma_replace_other_first,
    lemma_replace_skip_prefix, replace_all, replace_spec,
};

verus! {

/// Where a table template takes the suffix of the table name.
pub const TABLE_SUFFIX_PLACEHOLDER: &'static str = "{{tbl_suffix}}";

/// Where a statement template takes the table name.
pub const TABLE_NAME_PLACEHOLDER: &'static str = "{{table_name}}";

/// The table template when no database is named.
pub const BARE_TABLE_TEMPLATE: &'static str = "`tbl_code_{{tbl_suffix}}`";

/// What follows the quoted database name in a table template.
pub const QUALIFIED_TABLE_TAIL: &'static str = "`.`tbl_code_{{tbl_suffix}}`";

/// Creates the table of a suffix when it does not exist.
pub const KLINE_TABLE_CREATE_SQL_TEMPLATE: &'static str = "
    CREATE TABLE IF NOT EXISTS {{table_name}} (
        `code` varchar(12) DEFAULT '' COMMENT '????????????',
        `datetime` datetime NOT NULL COMMENT '????????????????????????',
        `period` int(11) NOT NULL COMMENT '????????????.1??????1??????,5??????5??????,30??????30??????',
        `open` decimal(18,3) DEFAULT '0.000' COMMENT '?????????',
        `high` decimal(18,3) DEFAULT '0.000' COMMENT '??????',
        `low` decimal(18,3) DEFAULT '0.000' COMMENT '??????',
        `close` decimal(18,3) DEFAULT '0.000' COMMENT '?????????',
        `volume` int(11) DEFAULT '0' COMMENT '?????????',
        `total_volume` int(11) DEFAULT '0' COMMENT '????????????',
        `open_oi` int(11) DEFAULT '0' COMMENT 'K????????????????????????',
        `close_oi` int(11) DEFAULT '0' COMMENT 'K????????????????????????',
        `last_item_time` datetime(6) COMMENT '??????K???????????????????????????????????????, 1???????????????????????????Tick?????????, ???????????????????????????????????????',
        `update_time` datetime(6) NOT NULL DEFAULT CURRENT_TIMESTAMP(6) ON UPDATE CURRENT_TIMESTAMP(6) COMMENT '????????????',
        PRIMARY KEY (`code`, `datetime`, `period`),
        INDEX(`period`)
      ) ENGINE=InnoDB DEFAULT CHARSET=utf8
    ";

/// Bars of one period from a date-time on, oldest first.
pub const KLINE_ITEM_VEC_SQL_TEMPLATE: &'static str = "SELECT code,datetime,period,open,high,low,close,volume,total_volume,open_oi,close_oi,last_item_time FROM {{table_name}} WHERE datetime>=? AND period=? ORDER BY datetime LIMIT ?";

/// Bars of one period between two date-times, oldest first.
pub const KLINE_ITEM_VEC_RANGE_SQL_TEMPLATE: &'static str = "SELECT code,datetime,period,open,high,low,close,volume,total_volume,open_oi,close_oi,last_item_time FROM {{table_name}} WHERE datetime>=? AND datetime <=? AND period=? ORDER BY datetime LIMIT ?";

/// The oldest bars of one period, oldest first.
pub const KLINE_ITEM_VEC_OLDEST_SQL_TEMPLATE: &'static str = "SELECT code,datetime,period,open,high,low,close,volume,total_volume,open_oi,close_oi,last_item_time FROM {{table_name}} WHERE period=? ORDER BY datetime LIMIT ?";

/// The latest bars of one period, oldest first.
pub const KLINE_ITEM_VEC_LATEST_SQL_TEMPLATE: &'static str = "SELECT * FROM (SELECT code,datetime,period,open,high,low,close,volume,total_volume,open_oi,close_oi,last_item_time FROM {{table_name}} WHERE period=? ORDER BY datetime DESC LIMIT ?) AS T ORDER BY datetime";

/// The latest bars of one period of one instrument, oldest first.
pub const KLINE_ITEM_VEC_LATEST_BY_SYMBOL_SQL_TEMPLATE: &'static str = "SELECT * FROM (SELECT code,datetime,period,open,high,low,close,volume,total_volume,open_oi,close_oi,last_item_time FROM {{table_name}} WHERE code=? AND period=? ORDER BY datetime DESC LIMIT ?) AS T ORDER BY datetime";

/// The distinct instrument codes of a table.
pub const SYMBOL_VEC_SQL_TEMPLATE: &'static str = "SELECT DISTINCT code FROM {{table_name}}";

/// The table template of database `db`: the bare table when `db` is empty,
/// else the table qualified by the quoted database name.
pub open spec fn template_for(db: Seq<char>) -> Seq<char> {
    if db.len() == 0 {
        BARE_TABLE_TEMPLATE@
    } else {
        "`"@ + db + QUALIFIED_TABLE_TAIL@
    }
}

/// The table name that template `tmpl` gives for suffix `suffix`.
pub open spec fn table_name_spec(tmpl: Seq<char>, suffix: Seq<char>) -> Seq<char> {
    replace_spec(tmpl, TABLE_SUFFIX_PLACEHOLDER@, suffix)
}

/// Statement template `stmt` with the table name of template `tmpl` and
/// suffix `suffix` filled in.
pub open spec fn statement_spec(stmt: Seq<char>, tmpl: Seq<char>, suffix: Seq<char>) -> Seq<char> {
    replace_spec(stmt, TABLE_NAME_PLACEHOLDER@, table_name_spec(tmpl, suffix))
}

/// Names the per-suffix K-line tables of one database and builds the
/// statements that read and write them.
pub struct KLineItemUtil {
    tbl_tmpl: String,
}

impl View for KLineItemUtil {
    type V = Seq<char>;

    /// The table template, which holds the suffix placeholder.
    closed spec fn view(&self) -> Seq<char> {
        self.tbl_tmpl@
    }
}

impl KLineItemUtil {
    /// The tables of database `db`; an empty `db` names tables of the
    /// connection's current database.
    pub fn new(db: &str) -> (u: KLineItemUtil)
        ensures
            u@ == template_for(db@),
    {
        let tbl_tmpl = if db.is_empty() {
            BARE_TABLE_TEMPLATE.to_owned()
        } else {
            let mut t = "`".to_owned();
            t.append(db);
            t.append(QUALIFIED_TABLE_TAIL);
            t
        };
        KLineItemUtil { tbl_tmpl }
    }

    /// The name of the table of suffix `tbl_suffix`: every suffix
    /// placeholder of the template replaced by `tbl_suffix`.
    pub fn table_name(&self, tbl_suffix: &str) -> (t: String)
        ensures
            t@ == table_name_spec(self@, tbl_suffix@),
    {
        proof {
            reveal_strlit("{{tbl_suffix}}");
        }
        replace_all(self.tbl_tmpl.as_str(), TABLE_SUFFIX_PLACEHOLDER, tbl_suffix)
    }

    /// Statement template `stmt` with the table name of `tbl_suffix` filled in.
    fn statement(&self, stmt: &str, tbl_suffix: &str) -> (sql: String)
        ensures
            sql@ == statement_spec(stmt@, self@, tbl_suffix@),
    {
        let table_name = self.table_name(tbl_suffix);
        proof {
            reveal_strlit("{{table_name}}");
        }
        replace_all(stmt, TABLE_NAME_PLACEHOLDER, table_name.as_str())
    }

    /// The statement that creates the table of `tbl_suffix` when it does not
    /// exist, and the name of that table.
    pub fn create_table(&self, tbl_suffix: &str) -> (res: (String, SqlQuery))
        ensures
            res.0@ == table_name_spec(self@, tbl_suffix@),
            res.1.sql@ == statement_spec(KLINE_TABLE_CREATE_SQL_TEMPLATE@, self@, tbl_suffix@),
            args_view(res.1.args@) == Seq::<ArgValue>::empty(),
    {
        let table_name = self.table_name(tbl_suffix);
        let sql = self.statement(KLINE_TABLE_CREATE_SQL_TEMPLATE, tbl_suffix);
        let args: Vec<SqlArg> = Vec::new();
        assert(args_view(args@) =~= Seq::<ArgValue>::empty());
        (table_name, SqlQuery { sql, args })
    }

    /// The query for at most `limit` bars of `period` from `datetime` on,
    /// oldest first.
    pub fn item_vec_egt_dt(&self, tbl_suffix: &str, period: u16, datetime: &str, limit: u16) -> (q: SqlQuery)
        ensures
            q.sql@ == statement_spec(KLINE_ITEM_VEC_SQL_TEMPLATE@, self@, tbl_suffix@),
            args_view(q.args@) == seq![ArgValue::Text(datetime@), ArgValue::U16(period), ArgValue::U16(limit)],
    {
        let sql = self.statement(KLINE_ITEM_VEC_SQL_TEMPLATE, tbl_suffix);
        let args = vec![SqlArg::Text(datetime.to_owned()), SqlArg::U16(period), SqlArg::U16(limit)];
        assert(args_view(args@) =~= seq![ArgValue::Text(datetime@), ArgValue::U16(period), ArgValue::U16(limit)]);
        SqlQuery { sql, args }
    }

    /// `item_vec_egt_dt` from `datetime` written to the second.
    pub fn item_vec_egt_dt_by_datetime(&self, tbl_suffix: &str, period: u16, datetime: &KLineDateTime, limit: u16) -> (q: SqlQuery)
        requires
            datetime.wf(),
        ensures
            q.sql@ == statement_spec(KLINE_ITEM_VEC_SQL_TEMPLATE@, self@, tbl_suffix@),
            args_view(q.args@) == seq![
                ArgValue::Text(seconds_text(*datetime)),
                ArgValue::U16(period),
                ArgValue::U16(limit),
            ],
    {
        let text = datetime_seconds_text(datetime);
        self.item_vec_egt_dt(tbl_suffix, period, text.as_str(), limit)
    }

    /// The query for at most `limit` bars of `period` from `sdatetime` to
    /// `edatetime`, both included, oldest first.
    pub fn item_vec_range(
        &self,
        tbl_suffix: &str,
        period: u16,
        sdatetime: &str,
        edatetime: &str,
        limit: u16,
    ) -> (q: SqlQuery)
        ensures
            q.sql@ == statement_spec(KLINE_ITEM_VEC_RANGE_SQL_TEMPLATE@, self@, tbl_suffix@),
            args_view(q.args@) == seq![
                ArgValue::Text(sdatetime@),
                ArgValue::Text(edatetime@),
                ArgValue::U16(period),
                ArgValue::U16(limit),
            ],
    {
        let sql = self.statement(KLINE_ITEM_VEC_RANGE_SQL_TEMPLATE, tbl_suffix);
        let args = vec![
            SqlArg::Text(sdatetime.to_owned()),
            SqlArg::Text(edatetime.to_owned()),
            SqlArg::U16(period),
            SqlArg::U16(limit),
        ];
        assert(args_view(args@) =~= seq![
            ArgValue::Text(sdatetime@),
            ArgValue::Text(edatetime@),
            ArgValue::U16(period),
            ArgValue::U16(limit),
        ]);
        SqlQuery { sql, args }
    }

    /// `item_vec_range` between two date-times written to the second.
    pub fn item_vec_range_by_datetime(
        &self,
        tbl_suffix: &str,
        period: u16,
        sdatetime: &KLineDateTime,
        edatetime: &KLineDateTime,
        limit: u16,
    ) -> (q: SqlQuery)
        requires
            sdatetime.wf(),
            edatetime.wf(),
        ensures
            q.sql@ == statement_spec(KLINE_ITEM_VEC_RANGE_SQL_TEMPLATE@, self@, tbl_suffix@),
            args_view(q.args@) == seq![
                ArgValue::Text(seconds_text(*sdatetime)),
                ArgValue::Text(seconds_text(*edatetime)),
                ArgValue::U16(period),
                ArgValue::U16(limit),
            ],
    {
        let stext = datetime_seconds_text(sdatetime);
        let etext = datetime_seconds_text(edatetime);
        self.item_vec_range(tbl_suffix, period, stext.as_str(), etext.as_str(), limit)
    }

    /// The query for the `limit` oldest bars of `period`, oldest first.
    pub fn item_vec_oldest(&self, tbl_suffix: &str, period: u16, limit: u16) -> (q: SqlQuery)
        ensures
            q.sql@ == statement_spec(KLINE_ITEM_VEC_OLDEST_SQL_TEMPLATE@, self@, tbl_suffix@),
            args_view(q.args@) == seq![ArgValue::U16(period), ArgValue::U16(limit)],
    {
        let sql = self.statement(KLINE_ITEM_VEC_OLDEST_SQL_TEMPLATE, tbl_suffix);
        let args = vec![SqlArg::U16(period), SqlArg::U16(limit)];
        assert(args_view(args@) =~= seq![ArgValue::U16(period), ArgValue::U16(limit)]);
        SqlQuery { sql, args }
    }

    /// The query for the `limit` latest bars of `period`, oldest first.
    pub fn item_vec_latest(&self, tbl_suffix: &str, period: u16, limit: u16) -> (q: SqlQuery)
        ensures
            q.sql@ == statement_spec(KLINE_ITEM_VEC_LATEST_SQL_TEMPLATE@, self@, tbl_suffix@),
            args_view(q.args@) == seq![ArgValue::U16(period), ArgValue::U16(limit)],
    {
        let sql = self.statement(KLINE_ITEM_VEC_LATEST_SQL_TEMPLATE, tbl_suffix);
        let args = vec![SqlArg::U16(period), SqlArg::U16(limit)];
        assert(args_view(args@) =~= seq![ArgValue::U16(period), ArgValue::U16(limit)]);
        SqlQuery { sql, args }
    }

    /// The query for the `limit` latest bars of `period` of instrument
    /// `symbol`, oldest first.
    pub fn item_vec_latest_by_symbol(&self, tbl_suffix: &str, period: u16, symbol: &str, limit: u16) -> (q: SqlQuery)
        ensures
            q.sql@ == statement_spec(KLINE_ITEM_VEC_LATEST_BY_SYMBOL_SQL_TEMPLATE@, self@, tbl_suffix@),
            args_view(q.args@) == seq![ArgValue::Text(symbol@), ArgValue::U16(period), ArgValue::U16(limit)],
    {
        let sql = self.statement(KLINE_ITEM_VEC_LATEST_BY_SYMBOL_SQL_TEMPLATE, tbl_suffix);
        let args = vec![SqlArg::Text(symbol.to_owned()), SqlArg::U16(period), SqlArg::U16(limit)];
        assert(args_view(args@) =~= seq![ArgValue::Text(symbol@), ArgValue::U16(period), ArgValue::U16(limit)]);
        SqlQuery { sql, args }
    }

    /// The query for the distinct instrument codes of the table.
    pub fn symbol_vec(&self, tbl_suffix: &str) -> (q: SqlQuery)
        ensures
            q.sql@ == statement_spec(SYMBOL_VEC_SQL_TEMPLATE@, self@, tbl_suffix@),
            args_view(q.args@) == Seq::<ArgValue>::empty(),
    {
        let sql = self.statement(SYMBOL_VEC_SQL_TEMPLATE, tbl_suffix);
        let args: Vec<SqlArg> = Vec::new();
        assert(args_view(args@) =~= Seq::<ArgValue>::empty());
        SqlQuery { sql, args }
    }

    /// The keyed statement that writes `item` into the table of `tbl_suffix`.
    pub fn sql_entity_replace(&self, tbl_suffix: &str, key: &str, item: &KLineItem) -> (e: SqlEntity)
        ensures
            e.key@ == key@,
            e.sql@ == statement_spec(KLINE_ITEM_REPLACE_INTO_SQL_TEMPLATE@, self@, tbl_suffix@),
            args_view(e.args@) == replace_args_spec(*item),
            args_view(e.args@).len() == 12,
            args_view(e.args@)[0] == ArgValue::Text(item.code@),
            args_view(e.args@)[1] == ArgValue::DateTime(item.datetime),
            args_view(e.args@)[2] == ArgValue::I32(item.period),
            args_view(e.args@)[3] == ArgValue::Decimal(item.open),
            args_view(e.args@)[4] == ArgValue::Decimal(item.high),
            args_view(e.args@)[5] == ArgValue::Decimal(item.low),
            args_view(e.args@)[6] == ArgValue::Decimal(item.close),
            args_view(e.args@)[7] == ArgValue::I64(item.volume),
            args_view(e.args@)[8] == ArgValue::I64(item.total_volume),
            args_view(e.args@)[9] == ArgValue::I64(item.open_oi),
            args_view(e.args@)[10] == ArgValue::I64(item.close_oi),
            args_view(e.args@)[11] == ArgValue::DateTime(item.last_item_time),
    {
        let table_name = self.table_name(tbl_suffix);
        item.sql_entity_replace(key, table_name.as_str())
    }
}

/// `` `tbl_code_<suffix>` ``: the bare table of `suffix`, quoted.
pub open spec fn bare_table(suffix: Seq<char>) -> Seq<char> {
    "`tbl_code_"@ + suffix + "`"@
}

/// Filling the suffix placeholder of `"`tbl_code_"` + placeholder + `"`"`
/// gives the bare table of the suffix.
proof fn lemma_fill_bare(suffix: Seq<char>)
    ensures
        replace_spec("`tbl_code_"@ + TABLE_SUFFIX_PLACEHOLDER@ + "`"@, TABLE_SUFFIX_PLACEHOLDER@, suffix)
            == bare_table(suffix),
{
    let pat = TABLE_SUFFIX_PLACEHOLDER@;
    reveal_strlit("{{tbl_suffix}}");
    reveal_strlit("`tbl_code_");
    reveal_strlit("`");
    let p = "`tbl_code_"@;
    assert(pat[0] == '{');
    assert forall|i: int| 0 <= i < p.len() implies p[i] != pat[0] by {}
    assert(p + pat + "`"@ =~= p + (pat + "`"@));
    lemma_replace_skip_prefix(p, pat + "`"@, pat, suffix);
    lemma_replace_leading_match("`"@, pat, suffix);
    lemma_replace_absent("`"@, pat, suffix);
    assert(p + (suffix + "`"@) =~= bare_table(suffix));
}

/// Law: the table of `suffix` in database `db` is the bare table
/// `` `tbl_code_<suffix>` `` when `db` is empty, and otherwise that table
/// qualified by the quoted database name, `` `<db>`.`tbl_code_<suffix>` ``,
/// where suffix placeholders inside `db` itself are filled as well.
pub proof fn law_table_name(db: Seq<char>, suffix: Seq<char>)
    ensures
        table_name_spec(template_for(db), suffix) == (if db.len() == 0 {
            bare_table(suffix)
        } else {
            "`"@ + replace_spec(db, TABLE_SUFFIX_PLACEHOLDER@, suffix) + "`."@ + bare_table(suffix)
        }),
{
    let pat = TABLE_SUFFIX_PLACEHOLDER@;
    reveal_strlit("{{tbl_suffix}}");
    reveal_strlit("`tbl_code_{{tbl_suffix}}`");
    reveal_strlit("`.`tbl_code_{{tbl_suffix}}`");
    reveal_strlit("`tbl_code_");
    reveal_strlit("`.");
    reveal_strlit("`");
    let bare = "`tbl_code_"@ + pat + "`"@;
    assert(BARE_TABLE_TEMPLATE@ =~= bare);
    assert(QUALIFIED_TABLE_TAIL@ =~= "`."@ + bare);
    lemma_fill_bare(suffix);
    if db.len() > 0 {
        assert(pat[0] == '{');
        assert(!pat.contains('`')) by {
            if pat.contains('`') {
                let k = choose|k: int| 0 <= k < pat.len() && pat[k] == '`';
                assert(false);
            }
        }
        let tail = "`."@ + bare;
        assert("`"@ + db + tail =~= seq!['`'] + (db + tail));
        lemma_replace_other_first('`', db + tail, pat, suffix);
        assert(tail[0] == '`');
        lemma_replace_concat(db, tail, pat, suffix);
        assert("`."@ =~= seq!['`', '.']);
        lemma_replace_skip_prefix("`."@, bare, pat, suffix);
        assert(seq!['`'] + (replace_spec(db, pat, suffix) + ("`."@ + bare_table(suffix)))
            =~= "`"@ + replace_spec(db, pat, suffix) + "`."@ + bare_table(suffix));
    }
}

/// Law: for a database name without `{`, the table of `suffix` is
/// `` `<db>`.`tbl_code_<suffix>` ``.
pub proof fn law_table_name_plain_db(db: Seq<char>, suffix: Seq<char>)
    requires
        db.len() > 0,
        !db.contains('{'),
    ensures
        table_name_spec(template_for(db), suffix) == "`"@ + db + "`."@ + bare_table(suffix),
{
    law_table_name(db, suffix);
    reveal_strlit("{{tbl_suffix}}");
    assert forall|i: int| 0 <= i < db.len() implies db[i] != TABLE_SUFFIX_PLACEHOLDER@[0] by {
        assert(TABLE_SUFFIX_PLACEHOLDER@[0] == '{');
        if db[i] == '{' {
            assert(db.contains('{'));
        }
    }
    lemma_replace_absent(db, TABLE_SUFFIX_PLACEHOLDER@, suffix);
}

/// Law: a statement template that holds the table-name placeholder once, with
/// no other `{` before or after it, becomes the text before the placeholder,
/// the table name and the text after it; the table name is not scanned again.
pub proof fn law_statement_single_placeholder(pre: Seq<char>, post: Seq<char>, tmpl: Seq<char>, suffix: Seq<char>)
    requires
        !pre.contains('{'),
        !post.contains('{'),
    ensures
        statement_spec(pre + TABLE_NAME_PLACEHOLDER@ + post, tmpl, suffix) == pre + table_name_spec(tmpl, suffix) + post,
{
    let pat = TABLE_NAME_PLACEHOLDER@;
    let rep = table_name_spec(tmpl, suffix);
    reveal_strlit("{{table_name}}");
    assert(pat[0] == '{');
    assert forall|i: int| 0 <= i < pre.len() implies pre[i] != pat[0] by {
        if pre[i] == '{' {
            assert(pre.contains('{'));
        }
    }
    assert forall|i: int| 0 <= i < post.len() implies post[i] != pat[0] by {
        if post[i] == '{' {
            assert(post.contains('{'));
        }
    }
    assert(pre + pat + post =~= pre + (pat + post));
    lemma_replace_skip_prefix(pre, pat + post, pat, rep);
    lemma_replace_leading_match(post, pat, rep);
    lemma_replace_absent(post, pat, rep);
    assert(pre + (rep + post) =~= pre + rep + post);
}

/// Law: the statement for bars from a date-time on reads the table of the
/// suffix.
pub proof fn law_item_vec_statement(tmpl: Seq<char>, suffix: Seq<char>)
    ensures
        statement_spec(KLINE_ITEM_VEC_SQL_TEMPLATE@, tmpl, suffix)
            == "SELECT code,datetime,period,open,high,low,close,volume,total_volume,open_oi,close_oi,last_item_time FROM "@
            + table_name_spec(tmpl, suffix) + " WHERE datetime>=? AND period=? ORDER BY datetime LIMIT ?"@,
{
    let pre = "SELECT code,datetime,period,open,high,low,close,volume,total_volume,open_oi,close_oi,last_item_time FROM "@;
    let post = " WHERE datetime>=? AND period=? ORDER BY datetime LIMIT ?"@;
    reveal_strlit("SELECT code,datetime,period,open,high,low,close,volume,total_volume,open_oi,close_oi,last_item_time FROM ");
    reveal_strlit(" WHERE datetime>=? AND period=? ORDER BY datetime LIMIT ?");
    reveal_strlit("{{table_name}}");
    reveal_strlit("SELECT code,datetime,period,open,high,low,close,volume,total_volume,open_oi,close_oi,last_item_time FROM {{table_name}} WHERE datetime>=? AND period=? ORDER BY datetime LIMIT ?");
    assert(KLINE_ITEM_VEC_SQL_TEMPLATE@ =~= pre + TABLE_NAME_PLACEHOLDER@ + post);
    assert(!pre.contains('{'));
    assert(!post.contains('{'));
    law_statement_single_placeholder(pre, post, tmpl, suffix);
}

/// Law: the statement for bars between two date-times reads the table of the suffix.
pub proof fn law_item_vec_range_statement(tmpl: Seq<char>, suffix: Seq<char>)
    ensures
        statement_spec(KLINE_ITEM_VEC_RANGE_SQL_TEMPLATE@, tmpl, suffix)
            == "SELECT code,datetime,period,open,high,low,close,volume,total_volume,open_oi,close_oi,last_item_time FROM "@
            + table_name_spec(tmpl, suffix) + " WHERE datetime>=? AND datetime <=? AND period=? ORDER BY datetime LIMIT ?"@,
{
    let pre = "SELECT code,datetime,period,open,high,low,close,volume,total_volume,open_oi,close_oi,last_item_time FROM "@;
    let post = " WHERE datetime>=? AND datetime <=? AND period=? ORDER BY datetime LIMIT ?"@;
    reveal_strlit("SELECT code,datetime,period,open,high,low,close,volume,total_volume,open_oi,close_oi,last_item_time FROM ");
    reveal_strlit(" WHERE datetime>=? AND datetime <=? AND period=? ORDER BY datetime LIMIT ?");
    reveal_strlit("{{table_name}}");
    reveal_strlit("SELECT code,datetime,period,open,high,low,close,volume,total_volume,open_oi,close_oi,last_item_time FROM {{table_name}} WHERE datetime>=? AND datetime <=? AND period=? ORDER BY datetime LIMIT ?");
    assert(KLINE_ITEM_VEC_RANGE_SQL_TEMPLATE@ =~= pre + TABLE_NAME_PLACEHOLDER@ + post);
    assert(!pre.contains('{'));
    assert(!post.contains('{'));
    law_statement_single_placeholder(pre, post, tmpl, suffix);
}

/// Law: the statement for the oldest bars reads the table of the suffix.
pub proof fn law_item_vec_oldest_statement(tmpl: Seq<char>, suffix: Seq<char>)
    ensures
        statement_spec(KLINE_ITEM_VEC_OLDEST_SQL_TEMPLATE@, tmpl, suffix)
            == "SELECT code,datetime,period,open,high,low,close,volume,total_volume,open_oi,close_oi,last_item_time FROM "@
            + table_name_spec(tmpl, suffix) + " WHERE period=? ORDER BY datetime LIMIT ?"@,
{
    let pre = "SELECT code,datetime,period,open,high,low,close,volume,total_volume,open_oi,close_oi,last_item_time FROM "@;
    let post = " WHERE period=? ORDER BY datetime LIMIT ?"@;
    reveal_strlit("SELECT code,datetime,period,open,high,low,close,volume,total_volume,open_oi,close_oi,last_item_time FROM ");
    reveal_strlit(" WHERE period=? ORDER BY datetime LIMIT ?");
    reveal_strlit("{{table_name}}");
    reveal_strlit("SELECT code,datetime,period,open,high,low,close,volume,total_volume,open_oi,close_oi,last_item_time FROM {{table_name}} WHERE period=? ORDER BY datetime LIMIT ?");
    assert(KLINE_ITEM_VEC_OLDEST_SQL_TEMPLATE@ =~= pre + TABLE_NAME_PLACEHOLDER@ + post);
    assert(!pre.contains('{'));
    assert(!post.contains('{'));
    law_statement_single_placeholder(pre, post, tmpl, suffix);
}

/// Law: the statement for the latest bars reads the table of the suffix.
pub proof fn law_item_vec_latest_statement(tmpl: Seq<char>, suffix: Seq<char>)
    ensures
        statement_spec(KLINE_ITEM_VEC_LATEST_SQL_TEMPLATE@, tmpl, suffix)
            == "SELECT * FROM (SELECT code,datetime,period,open,high,low,close,volume,total_volume,open_oi,close_oi,last_item_time FROM "@
            + table_name_spec(tmpl, suffix) + " WHERE period=? ORDER BY datetime DESC LIMIT ?) AS T ORDER BY datetime"@,
{
    let pre = "SELECT * FROM (SELECT code,datetime,period,open,high,low,close,volume,total_volume,open_oi,close_oi,last_item_time FROM "@;
    let post = " WHERE period=? ORDER BY datetime DESC LIMIT ?) AS T ORDER BY datetime"@;
    reveal_strlit("SELECT * FROM (SELECT code,datetime,period,open,high,low,close,volume,total_volume,open_oi,close_oi,last_item_time FROM ");
    reveal_strlit(" WHERE period=? ORDER BY datetime DESC LIMIT ?) AS T ORDER BY datetime");
    reveal_strlit("{{table_name}}");
    reveal_strlit("SELECT * FROM (SELECT code,datetime,period,open,high,low,close,volume,total_volume,open_oi,close_oi,last_item_time FROM {{table_name}} WHERE period=? ORDER BY datetime DESC LIMIT ?) AS T ORDER BY datetime");
    assert(KLINE_ITEM_VEC_LATEST_SQL_TEMPLATE@ =~= pre + TABLE_NAME_PLACEHOLDER@ + post);
    assert(!pre.contains('{'));
    assert(!post.contains('{'));
    law_statement_single_placeholder(pre, post, tmpl, suffix);
}

/// Law: the statement for the latest bars of an instrument reads the table of the suffix.
pub proof fn law_item_vec_latest_by_symbol_statement(tmpl: Seq<char>, suffix: Seq<char>)
    ensures
        statement_spec(KLINE_ITEM_VEC_LATEST_BY_SYMBOL_SQL_TEMPLATE@, tmpl, suffix)
            == "SELECT * FROM (SELECT code,datetime,period,open,high,low,close,volume,total_volume,open_oi,close_oi,last_item_time FROM "@
            + table_name_spec(tmpl, suffix) + " WHERE code=? AND period=? ORDER BY datetime DESC LIMIT ?) AS T ORDER BY datetime"@,
{
    let pre = "SELECT * FROM (SELECT code,datetime,period,open,high,low,close,volume,total_volume,open_oi,close_oi,last_item_time FROM "@;
    let post = " WHERE code=? AND period=? ORDER BY datetime DESC LIMIT ?) AS T ORDER BY datetime"@;
    reveal_strlit("SELECT * FROM (SELECT code,datetime,period,open,high,low,close,volume,total_volume,open_oi,close_oi,last_item_time FROM ");
    reveal_strlit(" WHERE code=? AND period=? ORDER BY datetime DESC LIMIT ?) AS T ORDER BY datetime");
    reveal_strlit("{{table_name}}");
    reveal_strlit("SELECT * FROM (SELECT code,datetime,period,open,high,low,close,volume,total_volume,open_oi,close_oi,last_item_time FROM {{table_name}} WHERE code=? AND period=? ORDER BY datetime DESC LIMIT ?) AS T ORDER BY datetime");
    assert(KLINE_ITEM_VEC_LATEST_BY_SYMBOL_SQL_TEMPLATE@ =~= pre + TABLE_NAME_PLACEHOLDER@ + post);
    assert(!pre.contains('{'));
    assert(!post.contains('{'));
    law_statement_single_placeholder(pre, post, tmpl, suffix);
}

/// Law: the statement for the instrument codes reads the table of the suffix.
pub proof fn law_symbol_vec_statement(tmpl: Seq<char>, suffix: Seq<char>)
    ensures
        statement_spec(SYMBOL_VEC_SQL_TEMPLATE@, tmpl, suffix)
            == "SELECT DISTINCT code FROM "@
            + table_name_spec(tmpl, suffix) + ""@,
{
    let pre = "SELECT DISTINCT code FROM "@;
    let post = ""@;
    reveal_strlit("SELECT DISTINCT code FROM ");
    reveal_strlit("");
    reveal_strlit("{{table_name}}");
    reveal_strlit("SELECT DISTINCT code FROM {{table_name}}");
    assert(SYMBOL_VEC_SQL_TEMPLATE@ =~= pre + TABLE_NAME_PLACEHOLDER@ + post);
    assert(!pre.contains('{'));
    assert(!post.contains('{'));
    law_statement_single_placeholder(pre, post, tmpl, suffix);
}

/// Law: the statement that writes a bar writes into the table of the suffix.
pub proof fn law_replace_into_statement(tmpl: Seq<char>, suffix: Seq<char>)
    ensures
        statement_spec(KLINE_ITEM_REPLACE_INTO_SQL_TEMPLATE@, tmpl, suffix)
            == "REPLACE INTO "@
            + table_name_spec(tmpl, suffix) + "(code,datetime,period,open,high,low,close,volume,total_volume,open_oi,close_oi,last_item_time) VALUES(?,?,?,?,?,?,?,?,?,?,?,?)"@,
{
    let pre = "REPLACE INTO "@;
    let post = "(code,datetime,period,open,high,low,close,volume,total_volume,open_oi,close_oi,last_item_time) VALUES(?,?,?,?,?,?,?,?,?,?,?,?)"@;
    reveal_strlit("REPLACE INTO ");
    reveal_strlit("(code,datetime,period,open,high,low,close,volume,total_volume,open_oi,close_oi,last_item_time) VALUES(?,?,?,?,?,?,?,?,?,?,?,?)");
    reveal_strlit("{{table_name}}");
    reveal_strlit("REPLACE INTO {{table_name}}(code,datetime,period,open,high,low,close,volume,total_volume,open_oi,close_oi,last_item_time) VALUES(?,?,?,?,?,?,?,?,?,?,?,?)");
    assert(KLINE_ITEM_REPLACE_INTO_SQL_TEMPLATE@ =~= pre + TABLE_NAME_PLACEHOLDER@ + post);
    assert(!pre.contains('{'));
    assert(!post.contains('{'));
    law_statement_single_placeholder(pre, post, tmpl, suffix);
}

} // verus!

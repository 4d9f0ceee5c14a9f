use vstd::prelude::*;

use crate::datetime::{format_datetime, lemma_formats_differ, millis_text, seconds_text, KLineDateTime, MILLIS_FORMAT, SECONDS_FORMAT};
use crate::decimal::{decimal_text, decimal_to_string, DecimalValue};
use crate::query::{args_view, ArgValue, SqlArg, SqlEntity};
use crate::datetime::{lemma_millis_text_no_comma, lemma_seconds_text_no_comma};
use crate::decimal::lemma_decimal_text_no_comma;
use crate::text::{
    fields, i64_text, int_text, join_fields, lemma_char_no_comma, lemma_concat_no_comma, lemma_fields_concat,
    lemma_fields_join, lemma_fields_no_comma, lemma_int_text_no_comma, lemma_pad_no_comma, pad_left, push_i64, push_padded, replace_all,
    replace_spec,
};
use crate::util::TABLE_NAME_PLACEHOLDER;

verus! {

/// Writes one bar into its table, replacing a bar with the same key.
pub const KLINE_ITEM_REPLACE_INTO_SQL_TEMPLATE: &'static str = "REPLACE INTO {{table_name}}(code,datetime,period,open,high,low,close,volume,total_volume,open_oi,close_oi,last_item_time) VALUES(?,?,?,?,?,?,?,?,?,?,?,?)";

/// One K-line bar of an instrument.
#[derive(Clone, Debug)]
pub struct KLineItem {
    pub code: String,
    pub datetime: KLineDateTime,
    pub period: i32,
    pub open: DecimalValue,
    pub high: DecimalValue,
    pub low: DecimalValue,
    pub close: DecimalValue,
    pub volume: i64,
    pub total_volume: i64,
    pub open_oi: i64,
    pub close_oi: i64,
    pub last_item_time: KLineDateTime,
}

/// The one-line text of a bar: code, `|start|`, period right-aligned in three
/// characters, open, high, low, close, `v:` volume, `tv:` total volume, the
/// two open interests and `|last merged tick|` to the millisecond, separated
/// by commas.
pub open spec fn display_spec(item: KLineItem) -> Seq<char> {
    item.code@ + ",|"@ + seconds_text(item.datetime) + "|,"@
        + pad_left(int_text(item.period as int), 3) + ","@ + decimal_text(item.open)
        + ","@ + decimal_text(item.high) + ","@
        + decimal_text(item.low) + ","@
        + decimal_text(item.close) + ",v:"@ + int_text(item.volume as int)
        + ",tv:"@ + int_text(item.total_volume as int) + ","@ + int_text(item.open_oi as int) + ","@
        + int_text(item.close_oi as int) + ",|"@ + millis_text(item.last_item_time)
        + "|"@
}

/// The values bound to the placeholders of the write statement of a bar, in
/// column order.
pub open spec fn replace_args_spec(item: KLineItem) -> Seq<ArgValue> {
    seq![
        ArgValue::Text(item.code@),
        ArgValue::DateTime(item.datetime),
        ArgValue::I32(item.period),
        ArgValue::Decimal(item.open),
        ArgValue::Decimal(item.high),
        ArgValue::Decimal(item.low),
        ArgValue::Decimal(item.close),
        ArgValue::I64(item.volume),
        ArgValue::I64(item.total_volume),
        ArgValue::I64(item.open_oi),
        ArgValue::I64(item.close_oi),
        ArgValue::DateTime(item.last_item_time),
    ]
}

/// Law: each value bound to the write statement is the field of the bar that
/// its column names, in the column order of the statement: code, start,
/// period, open, high, low, close, volume, total volume, opening and closing
/// open interest, last merged tick.
pub proof fn law_replace_args_columns(item: KLineItem)
    ensures
        replace_args_spec(item).len() == 12,
        replace_args_spec(item)[0] == ArgValue::Text(item.code@),
        replace_args_spec(item)[1] == ArgValue::DateTime(item.datetime),
        replace_args_spec(item)[2] == ArgValue::I32(item.period),
        replace_args_spec(item)[3] == ArgValue::Decimal(item.open),
        replace_args_spec(item)[4] == ArgValue::Decimal(item.high),
        replace_args_spec(item)[5] == ArgValue::Decimal(item.low),
        replace_args_spec(item)[6] == ArgValue::Decimal(item.close),
        replace_args_spec(item)[7] == ArgValue::I64(item.volume),
        replace_args_spec(item)[8] == ArgValue::I64(item.total_volume),
        replace_args_spec(item)[9] == ArgValue::I64(item.open_oi),
        replace_args_spec(item)[10] == ArgValue::I64(item.close_oi),
        replace_args_spec(item)[11] == ArgValue::DateTime(item.last_item_time),
{
}

/// The `k`-th comma-separated field of `s`, counted from the end (the last
/// field is the first from the end).
pub open spec fn field_from_end(s: Seq<char>, k: int) -> Seq<char> {
    fields(s)[fields(s).len() - k]
}

/// The eleven fields that follow the code in the one-line text of a bar.
pub open spec fn display_tail_fields(item: KLineItem) -> Seq<Seq<char>> {
    seq![
        seq!['|'] + seconds_text(item.datetime) + seq!['|'],
        pad_left(int_text(item.period as int), 3),
        decimal_text(item.open),
        decimal_text(item.high),
        decimal_text(item.low),
        decimal_text(item.close),
        seq!['v', ':'] + int_text(item.volume as int),
        seq!['t', 'v', ':'] + int_text(item.total_volume as int),
        int_text(item.open_oi as int),
        int_text(item.close_oi as int),
        seq!['|'] + millis_text(item.last_item_time) + seq!['|'],
    ]
}

/// Eleven parts joined by commas.
proof fn lemma_join_eleven(t: Seq<Seq<char>>)
    requires
        t.len() == 11,
    ensures
        join_fields(t) == t[0] + seq![','] + t[1] + seq![','] + t[2] + seq![','] + t[3] + seq![','] + t[4]
            + seq![','] + t[5] + seq![','] + t[6] + seq![','] + t[7] + seq![','] + t[8] + seq![','] + t[9]
            + seq![','] + t[10],
{
    let c = seq![','];
    let p1 = t.take(1);
    let p2 = t.take(2);
    let p3 = t.take(3);
    let p4 = t.take(4);
    let p5 = t.take(5);
    let p6 = t.take(6);
    let p7 = t.take(7);
    let p8 = t.take(8);
    let p9 = t.take(9);
    let p10 = t.take(10);
    assert(p2.drop_last() =~= p1);
    assert(p3.drop_last() =~= p2);
    assert(p4.drop_last() =~= p3);
    assert(p5.drop_last() =~= p4);
    assert(p6.drop_last() =~= p5);
    assert(p7.drop_last() =~= p6);
    assert(p8.drop_last() =~= p7);
    assert(p9.drop_last() =~= p8);
    assert(p10.drop_last() =~= p9);
    assert(t.drop_last() =~= p10);
    assert(join_fields(p1) == t[0]);
    assert(join_fields(p2) == join_fields(p1) + c + t[1]);
    assert(join_fields(p3) == join_fields(p2) + c + t[2]);
    assert(join_fields(p4) == join_fields(p3) + c + t[3]);
    assert(join_fields(p5) == join_fields(p4) + c + t[4]);
    assert(join_fields(p6) == join_fields(p5) + c + t[5]);
    assert(join_fields(p7) == join_fields(p6) + c + t[6]);
    assert(join_fields(p8) == join_fields(p7) + c + t[7]);
    assert(join_fields(p9) == join_fields(p8) + c + t[8]);
    assert(join_fields(p10) == join_fields(p9) + c + t[9]);
    assert(join_fields(t) == join_fields(p10) + c + t[10]);
}

/// Regrouping the pieces of the one-line text around its commas.
#[verifier::rlimit(50)]
proof fn lemma_regroup(
    code: Seq<char>,
    sec: Seq<char>,
    pad: Seq<char>,
    o: Seq<char>,
    h: Seq<char>,
    l: Seq<char>,
    cl: Seq<char>,
    vol: Seq<char>,
    tv: Seq<char>,
    ooi: Seq<char>,
    coi: Seq<char>,
    mil: Seq<char>,
)
    ensures
        code + seq![',', '|'] + sec + seq!['|', ','] + pad + seq![','] + o + seq![','] + h + seq![','] + l
            + seq![','] + cl + seq![',', 'v', ':'] + vol + seq![',', 't', 'v', ':'] + tv + seq![','] + ooi
            + seq![','] + coi + seq![',', '|'] + mil + seq!['|'] == code + seq![','] + ((seq!['|'] + sec
            + seq!['|']) + seq![','] + pad + seq![','] + o + seq![','] + h + seq![','] + l + seq![','] + cl
            + seq![','] + (seq!['v', ':'] + vol) + seq![','] + (seq!['t', 'v', ':'] + tv) + seq![','] + ooi
            + seq![','] + coi + seq![','] + (seq!['|'] + mil + seq!['|'])),
{
    let lhs = code + seq![',', '|'] + sec + seq!['|', ','] + pad + seq![','] + o + seq![','] + h + seq![','] + l
        + seq![','] + cl + seq![',', 'v', ':'] + vol + seq![',', 't', 'v', ':'] + tv + seq![','] + ooi
        + seq![','] + coi + seq![',', '|'] + mil + seq!['|'];
    let rhs = code + seq![','] + ((seq!['|'] + sec + seq!['|']) + seq![','] + pad + seq![','] + o + seq![',']
        + h + seq![','] + l + seq![','] + cl + seq![','] + (seq!['v', ':'] + vol) + seq![','] + (seq![
        't',
        'v',
        ':',
    ] + tv) + seq![','] + ooi + seq![','] + coi + seq![','] + (seq!['|'] + mil + seq!['|']));
    assert(lhs =~= rhs);
}

/// The one-line text is the code, a comma, and the eleven tail fields joined
/// by commas.
proof fn lemma_display_shape(item: KLineItem)
    ensures
        display_spec(item) == item.code@ + seq![','] + join_fields(display_tail_fields(item)),
{
    let t = display_tail_fields(item);
    lemma_join_eleven(t);
    reveal_strlit(",|");
    reveal_strlit("|,");
    reveal_strlit(",");
    reveal_strlit(",v:");
    reveal_strlit(",tv:");
    reveal_strlit("|");
    assert(",|"@ =~= seq![',', '|']);
    assert("|,"@ =~= seq!['|', ',']);
    assert(","@ =~= seq![',']);
    assert(",v:"@ =~= seq![',', 'v', ':']);
    assert(",tv:"@ =~= seq![',', 't', 'v', ':']);
    assert("|"@ =~= seq!['|']);
    lemma_regroup(
        item.code@,
        seconds_text(item.datetime),
        pad_left(int_text(item.period as int), 3),
        decimal_text(item.open),
        decimal_text(item.high),
        decimal_text(item.low),
        decimal_text(item.close),
        int_text(item.volume as int),
        int_text(item.total_volume as int),
        int_text(item.open_oi as int),
        int_text(item.close_oi as int),
        millis_text(item.last_item_time),
    );
}

/// Every tail field is free of commas.
proof fn lemma_display_tail_no_comma(item: KLineItem)
    ensures
        forall|i: int|
            0 <= i < display_tail_fields(item).len() ==> !(#[trigger] display_tail_fields(item)[i]).contains(','),
{
    lemma_char_no_comma('|');
    lemma_char_no_comma('v');
    lemma_char_no_comma('t');
    lemma_char_no_comma(':');
    lemma_seconds_text_no_comma(item.datetime);
    lemma_millis_text_no_comma(item.last_item_time);
    lemma_concat_no_comma(seq!['|'], seconds_text(item.datetime));
    lemma_concat_no_comma(seq!['|'] + seconds_text(item.datetime), seq!['|']);
    lemma_concat_no_comma(seq!['|'], millis_text(item.last_item_time));
    lemma_concat_no_comma(seq!['|'] + millis_text(item.last_item_time), seq!['|']);
    lemma_int_text_no_comma(item.period as int);
    lemma_pad_no_comma(int_text(item.period as int), 3, ' ');
    lemma_decimal_text_no_comma(item.open);
    lemma_decimal_text_no_comma(item.high);
    lemma_decimal_text_no_comma(item.low);
    lemma_decimal_text_no_comma(item.close);
    lemma_int_text_no_comma(item.volume as int);
    lemma_int_text_no_comma(item.total_volume as int);
    lemma_int_text_no_comma(item.open_oi as int);
    lemma_int_text_no_comma(item.close_oi as int);
    assert(seq!['v', ':'] =~= seq!['v'] + seq![':']);
    lemma_concat_no_comma(seq!['v'], seq![':']);
    lemma_concat_no_comma(seq!['v', ':'], int_text(item.volume as int));
    assert(seq!['t', 'v', ':'] =~= seq!['t'] + seq!['v', ':']);
    lemma_concat_no_comma(seq!['t'], seq!['v', ':']);
    lemma_concat_no_comma(seq!['t', 'v', ':'], int_text(item.total_volume as int));
}

/// Law: the one-line text of a bar, cut at its commas, ends with eleven
/// fields, whatever the code holds: `|start|` to the second, the period
/// right-aligned in three characters, the open, high, low and close prices,
/// `v:` and the volume, `tv:` and the total volume, the opening and then the
/// closing open interest, and `|last merged tick|` to the millisecond. What
/// comes before them is the code: when the code holds no comma it is the
/// first of twelve fields.
pub proof fn law_display_fields(item: KLineItem)
    ensures
        fields(display_spec(item)).len() == fields(item.code@).len() + 11,
        field_from_end(display_spec(item), 11) == seq!['|'] + seconds_text(item.datetime) + seq!['|'],
        field_from_end(display_spec(item), 10) == pad_left(int_text(item.period as int), 3),
        field_from_end(display_spec(item), 9) == decimal_text(item.open),
        field_from_end(display_spec(item), 8) == decimal_text(item.high),
        field_from_end(display_spec(item), 7) == decimal_text(item.low),
        field_from_end(display_spec(item), 6) == decimal_text(item.close),
        field_from_end(display_spec(item), 5) == seq!['v', ':'] + int_text(item.volume as int),
        field_from_end(display_spec(item), 4) == seq!['t', 'v', ':'] + int_text(item.total_volume as int),
        field_from_end(display_spec(item), 3) == int_text(item.open_oi as int),
        field_from_end(display_spec(item), 2) == int_text(item.close_oi as int),
        field_from_end(display_spec(item), 1) == seq!['|'] + millis_text(item.last_item_time) + seq!['|'],
        !item.code@.contains(',') ==> fields(display_spec(item)).len() == 12 && fields(display_spec(item))[0]
            == item.code@,
{
    let t = display_tail_fields(item);
    lemma_display_shape(item);
    lemma_display_tail_no_comma(item);
    lemma_fields_join(t);
    lemma_fields_concat(item.code@, join_fields(t));
    if !item.code@.contains(',') {
        lemma_fields_no_comma(item.code@);
    }
}

impl KLineItem {
    /// Both date-times are valid and all four prices are in range.
    pub open spec fn wf(self) -> bool {
        &&& self.datetime.wf()
        &&& self.last_item_time.wf()
        &&& self.open.wf()
        &&& self.high.wf()
        &&& self.low.wf()
        &&& self.close.wf()
    }

    /// Whether both date-times and all four prices are valid (`wf`).
    pub fn is_valid(&self) -> (b: bool)
        ensures
            b == self.wf(),
    {
        self.datetime.is_valid() && self.last_item_time.is_valid() && self.open.is_valid() && self.high.is_valid()
            && self.low.is_valid() && self.close.is_valid()
    }

    /// An empty bar of `code` starting at `datetime`: prices, volumes and
    /// open interests are zero and the last merged tick is the start.
    pub fn new(code: &str, datetime: &KLineDateTime, period: i32) -> (item: KLineItem)
        ensures
            item.code@ == code@,
            item.datetime == *datetime,
            item.period == period,
            item.open == DecimalValue::zero_spec(),
            item.high == DecimalValue::zero_spec(),
            item.low == DecimalValue::zero_spec(),
            item.close == DecimalValue::zero_spec(),
            item.volume == 0,
            item.total_volume == 0,
            item.open_oi == 0,
            item.close_oi == 0,
            item.last_item_time == *datetime,
    {
        KLineItem {
            code: code.to_owned(),
            datetime: *datetime,
            period,
            open: DecimalValue::zero(),
            high: DecimalValue::zero(),
            low: DecimalValue::zero(),
            close: DecimalValue::zero(),
            volume: 0,
            total_volume: 0,
            open_oi: 0,
            close_oi: 0,
            last_item_time: *datetime,
        }
    }

    /// The one-line text of the bar (see `display_spec`).
    pub fn to_string(&self) -> (s: String)
        requires
            self.wf(),
        ensures
            s@ == display_spec(*self),
            fields(s@).len() == fields(self.code@).len() + 11,
            field_from_end(s@, 11) == seq!['|'] + seconds_text(self.datetime) + seq!['|'],
            field_from_end(s@, 10) == pad_left(int_text(self.period as int), 3),
            field_from_end(s@, 9) == decimal_text(self.open),
            field_from_end(s@, 8) == decimal_text(self.high),
            field_from_end(s@, 7) == decimal_text(self.low),
            field_from_end(s@, 6) == decimal_text(self.close),
            field_from_end(s@, 5) == seq!['v', ':'] + int_text(self.volume as int),
            field_from_end(s@, 4) == seq!['t', 'v', ':'] + int_text(self.total_volume as int),
            field_from_end(s@, 3) == int_text(self.open_oi as int),
            field_from_end(s@, 2) == int_text(self.close_oi as int),
            field_from_end(s@, 1) == seq!['|'] + millis_text(self.last_item_time) + seq!['|'],
            !self.code@.contains(',') ==> fields(s@).len() == 12 && fields(s@)[0] == self.code@,
    {
        proof {
            lemma_formats_differ();
        }
        let mut out = self.code.clone();
        out.append(",|");
        out.append(format_datetime(&self.datetime, SECONDS_FORMAT).as_str());
        out.append("|,");
        let period = i64_text(self.period as i64);
        push_padded(&mut out, period.as_str(), 3);
        out.append(",");
        out.append(decimal_to_string(&self.open).as_str());
        out.append(",");
        out.append(decimal_to_string(&self.high).as_str());
        out.append(",");
        out.append(decimal_to_string(&self.low).as_str());
        out.append(",");
        out.append(decimal_to_string(&self.close).as_str());
        out.append(",v:");
        push_i64(&mut out, self.volume);
        out.append(",tv:");
        push_i64(&mut out, self.total_volume);
        out.append(",");
        push_i64(&mut out, self.open_oi);
        out.append(",");
        push_i64(&mut out, self.close_oi);
        out.append(",|");
        out.append(format_datetime(&self.last_item_time, MILLIS_FORMAT).as_str());
        out.append("|");
        assert(out@ =~= display_spec(*self));
        proof {
            law_display_fields(*self);
        }
        out
    }

    /// The keyed statement that writes the bar into table `table_name`.
    pub fn sql_entity_replace(&self, key: &str, table_name: &str) -> (e: SqlEntity)
        ensures
            e.key@ == key@,
            e.sql@ == replace_spec(KLINE_ITEM_REPLACE_INTO_SQL_TEMPLATE@, TABLE_NAME_PLACEHOLDER@, table_name@),
            args_view(e.args@) == replace_args_spec(*self),
            args_view(e.args@).len() == 12,
            args_view(e.args@)[0] == ArgValue::Text(self.code@),
            args_view(e.args@)[1] == ArgValue::DateTime(self.datetime),
            args_view(e.args@)[2] == ArgValue::I32(self.period),
            args_view(e.args@)[3] == ArgValue::Decimal(self.open),
            args_view(e.args@)[4] == ArgValue::Decimal(self.high),
            args_view(e.args@)[5] == ArgValue::Decimal(self.low),
            args_view(e.args@)[6] == ArgValue::Decimal(self.close),
            args_view(e.args@)[7] == ArgValue::I64(self.volume),
            args_view(e.args@)[8] == ArgValue::I64(self.total_volume),
            args_view(e.args@)[9] == ArgValue::I64(self.open_oi),
            args_view(e.args@)[10] == ArgValue::I64(self.close_oi),
            args_view(e.args@)[11] == ArgValue::DateTime(self.last_item_time),
    {
        proof {
            reveal_strlit("{{table_name}}");
        }
        let sql = replace_all(KLINE_ITEM_REPLACE_INTO_SQL_TEMPLATE, TABLE_NAME_PLACEHOLDER, table_name);
        let args = vec![
            SqlArg::Text(self.code.clone()),
            SqlArg::DateTime(self.datetime),
            SqlArg::I32(self.period),
            SqlArg::Decimal(self.open),
            SqlArg::Decimal(self.high),
            SqlArg::Decimal(self.low),
            SqlArg::Decimal(self.close),
            SqlArg::I64(self.volume),
            SqlArg::I64(self.total_volume),
            SqlArg::I64(self.open_oi),
            SqlArg::I64(self.close_oi),
            SqlArg::DateTime(self.last_item_time),
        ];
        assert(args_view(args@) =~= replace_args_spec(*self));
        proof {
            law_replace_args_columns(*self);
        }
        SqlEntity { key: key.to_owned(), sql, args }
    }
}

} // verus!

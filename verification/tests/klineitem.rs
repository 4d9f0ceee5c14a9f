use klineitem::datetime::{datetime_seconds_text, KLineDateTime};
use klineitem::decimal::DecimalValue;
use klineitem::item::KLineItem;
use klineitem::query::{SqlArg, SqlQuery};
use klineitem::registry::KLineItemUtils;
use klineitem::text::{i64_text, replace_all};
use klineitem::util::KLineItemUtil;

const COLUMNS: &str = "code,datetime,period,open,high,low,close,volume,total_volume,open_oi,close_oi,last_item_time";
const TABLE: &str = "`hqdb`.`tbl_code_agL9`";

fn text(s: &str) -> SqlArg {
    SqlArg::Text(s.to_string())
}

fn dt(year: i32, month: u32, day: u32, hour: u32, minute: u32, second: u32) -> KLineDateTime {
    KLineDateTime::from_ymd_hms(year, month, day, hour, minute, second)
}

fn check(q: &SqlQuery, sql: &str, args: Vec<SqlArg>) {
    assert_eq!(q.sql, sql);
    assert_eq!(q.args, args);
}

#[test]
fn test_kline_item_vec() {
    let kline_db_util = KLineItemUtil::new("hqdb");
    let q = kline_db_util.item_vec_egt_dt("agL9", 1, "2022-05-13", 10);
    check(
        &q,
        &format!("SELECT {} FROM {} WHERE datetime>=? AND period=? ORDER BY datetime LIMIT ?", COLUMNS, TABLE),
        vec![text("2022-05-13"), SqlArg::U16(1), SqlArg::U16(10)],
    );
}

#[test]
fn test_kline_item_vec_range() {
    let kiu = KLineItemUtil::new("hqdb");
    let q = kiu.item_vec_range("agL9", 1, "2022-06-20 09:01:00", "2022-06-20 15:00:00", 500);
    check(
        &q,
        &format!(
            "SELECT {} FROM {} WHERE datetime>=? AND datetime <=? AND period=? ORDER BY datetime LIMIT ?",
            COLUMNS, TABLE
        ),
        vec![text("2022-06-20 09:01:00"), text("2022-06-20 15:00:00"), SqlArg::U16(1), SqlArg::U16(500)],
    );
}

#[test]
fn test_kline_item_vec_range_by_time() {
    let kiu = KLineItemUtil::new("hqdb");
    let sdatetime = dt(2022, 6, 20, 9, 1, 0);
    let edatetime = dt(2022, 6, 20, 15, 1, 0);
    let q = kiu.item_vec_range_by_datetime("agL9", 1, &sdatetime, &edatetime, 500);
    check(
        &q,
        &format!(
            "SELECT {} FROM {} WHERE datetime>=? AND datetime <=? AND period=? ORDER BY datetime LIMIT ?",
            COLUMNS, TABLE
        ),
        vec![text("2022-06-20 09:01:00"), text("2022-06-20 15:01:00"), SqlArg::U16(1), SqlArg::U16(500)],
    );
}

#[test]
fn test_item_vec_oldest() {
    let kiu = KLineItemUtil::new("hqdb");
    let q = kiu.item_vec_oldest("agL9", 5, 100);
    check(
        &q,
        &format!("SELECT {} FROM {} WHERE period=? ORDER BY datetime LIMIT ?", COLUMNS, TABLE),
        vec![SqlArg::U16(5), SqlArg::U16(100)],
    );
}

#[test]
fn test_item_vec_latest() {
    let kiu = KLineItemUtil::new("hqdb");
    let q = kiu.item_vec_latest("agL9", 1, 10);
    check(
        &q,
        &format!(
            "SELECT * FROM (SELECT {} FROM {} WHERE period=? ORDER BY datetime DESC LIMIT ?) AS T ORDER BY datetime",
            COLUMNS, TABLE
        ),
        vec![SqlArg::U16(1), SqlArg::U16(10)],
    );
}

#[test]
fn test_kline_item_vec_range_by_time_zero() {
    let kiu = KLineItemUtil::new("hqdb");
    let sdatetime = dt(2022, 6, 20, 9, 1, 0);
    let edatetime = dt(2022, 6, 20, 8, 1, 0);
    let q = kiu.item_vec_range_by_datetime("agL9", 1, &sdatetime, &edatetime, 500);
    check(
        &q,
        &format!(
            "SELECT {} FROM {} WHERE datetime>=? AND datetime <=? AND period=? ORDER BY datetime LIMIT ?",
            COLUMNS, TABLE
        ),
        vec![text("2022-06-20 09:01:00"), text("2022-06-20 08:01:00"), SqlArg::U16(1), SqlArg::U16(500)],
    );
}

#[test]
fn test_kline_item_vec_latest_by_symbol() {
    let kline_db_util = KLineItemUtil::new("hqdb");
    let q = kline_db_util.item_vec_latest_by_symbol("agL9", 5, "agL9", 5);
    check(
        &q,
        &format!(
            "SELECT * FROM (SELECT {} FROM {} WHERE code=? AND period=? ORDER BY datetime DESC LIMIT ?) AS T ORDER BY datetime",
            COLUMNS, TABLE
        ),
        vec![text("agL9"), SqlArg::U16(5), SqlArg::U16(5)],
    );
}

#[test]
fn test_symbol_vec() {
    let kline_db_util = KLineItemUtil::new("hqdb");
    let q = kline_db_util.symbol_vec("agL9");
    check(&q, "SELECT DISTINCT code FROM `hqdb`.`tbl_code_agL9`", vec![]);
}

#[test]
fn table_name_of_a_database() {
    assert_eq!(KLineItemUtil::new("hqdb").table_name("agL9"), "`hqdb`.`tbl_code_agL9`");
    assert_eq!(KLineItemUtil::new("hqdb").table_name(""), "`hqdb`.`tbl_code_`");
}

#[test]
fn table_name_without_database() {
    assert_eq!(KLineItemUtil::new("").table_name("rbL9"), "`tbl_code_rbL9`");
}

#[test]
fn table_name_fills_placeholders_inside_the_database_name() {
    let u = KLineItemUtil::new("db{{tbl_suffix}}");
    assert_eq!(u.table_name("x"), "`dbx`.`tbl_code_x`");
}

#[test]
fn replace_matches_left_to_right_without_overlap() {
    assert_eq!(replace_all("aaaa", "aa", "b"), "bb");
    assert_eq!(replace_all("aaa", "aa", "b"), "ba");
    assert_eq!(replace_all("abc", "x", "y"), "abc");
    assert_eq!(replace_all("", "x", "y"), "");
    assert_eq!(replace_all("xx", "x", "x"), "xx");
    assert_eq!(replace_all("a{{t}}b{{t}}", "{{t}}", "-"), "a-b-");
    assert_eq!(replace_all("é{{t}}ü", "{{t}}", "ß"), "éßü");
    for (s, p, r) in [("abab", "ab", "ba"), ("mississippi", "ss", "S"), ("aaaaa", "aa", "aaa")] {
        assert_eq!(replace_all(s, p, r), s.replace(p, r));
    }
}

#[test]
fn integers_in_decimal() {
    assert_eq!(i64_text(0), "0");
    assert_eq!(i64_text(7), "7");
    assert_eq!(i64_text(-120), "-120");
    assert_eq!(i64_text(i64::MAX), i64::MAX.to_string());
    assert_eq!(i64_text(i64::MIN), i64::MIN.to_string());
}

#[test]
fn datetime_text_to_the_second() {
    assert_eq!(datetime_seconds_text(&dt(2022, 5, 13, 0, 0, 0)), "2022-05-13 00:00:00");
    let leap = KLineDateTime { year: 2016, month: 12, day: 31, hour: 23, minute: 59, second: 59, nano: 1_000_000_000 };
    assert_eq!(datetime_seconds_text(&leap), "2016-12-31 23:59:60");
}

#[test]
fn create_table_statement_and_name() {
    let (name, q) = KLineItemUtil::new("hqdb").create_table("agL9");
    assert_eq!(name, TABLE);
    assert!(q.sql.starts_with("\n    CREATE TABLE IF NOT EXISTS `hqdb`.`tbl_code_agL9` (\n"));
    assert!(q.sql.contains("PRIMARY KEY (`code`, `datetime`, `period`)"));
    assert!(!q.sql.contains("{{"));
    assert!(q.args.is_empty());
}

fn sample_item() -> KLineItem {
    let mut item = KLineItem::new("agL9", &dt(2022, 6, 20, 9, 1, 0), 1);
    item.open = DecimalValue { negative: false, magnitude: 5123, scale: 0 };
    item.high = DecimalValue { negative: false, magnitude: 51305, scale: 1 };
    item.low = DecimalValue { negative: true, magnitude: 5, scale: 3 };
    item.close = DecimalValue { negative: false, magnitude: 5125, scale: 0 };
    item.volume = 42;
    item.total_volume = 1000;
    item.open_oi = 300;
    item.close_oi = -12;
    item.last_item_time = KLineDateTime { year: 2022, month: 6, day: 20, hour: 9, minute: 1, second: 59, nano: 500_000_000 };
    item
}

#[test]
fn new_item_is_empty() {
    let start = dt(2022, 6, 20, 9, 1, 0);
    let item = KLineItem::new("agL9", &start, 5);
    assert_eq!(item.code, "agL9");
    assert_eq!(item.datetime, start);
    assert_eq!(item.last_item_time, start);
    assert_eq!(item.period, 5);
    assert_eq!(item.open, DecimalValue::zero());
    assert_eq!(item.close, DecimalValue::zero());
    assert_eq!((item.volume, item.total_volume, item.open_oi, item.close_oi), (0, 0, 0, 0));
    assert_eq!(item.to_string(), "agL9,|2022-06-20 09:01:00|,  5,0,0,0,0,v:0,tv:0,0,0,|2022-06-20 09:01:00.000|");
}

#[test]
fn item_display_line() {
    assert_eq!(
        sample_item().to_string(),
        "agL9,|2022-06-20 09:01:00|,  1,5123,5130.5,-0.005,5125,v:42,tv:1000,300,-12,|2022-06-20 09:01:59.500|"
    );
    let mut wide = sample_item();
    wide.period = 1440;
    assert!(wide.to_string().contains("|,1440,"));
    wide.period = -3;
    assert!(wide.to_string().contains("|, -3,"));
}

#[test]
fn item_write_statement() {
    let item = sample_item();
    let e = KLineItemUtil::new("hqdb").sql_entity_replace("agL9", "k1", &item);
    assert_eq!(e.key, "k1");
    assert_eq!(
        e.sql,
        format!("REPLACE INTO {}({}) VALUES(?,?,?,?,?,?,?,?,?,?,?,?)", TABLE, COLUMNS)
    );
    assert_eq!(
        e.args,
        vec![
            text("agL9"),
            SqlArg::DateTime(item.datetime),
            SqlArg::I32(1),
            SqlArg::Decimal(item.open),
            SqlArg::Decimal(item.high),
            SqlArg::Decimal(item.low),
            SqlArg::Decimal(item.close),
            SqlArg::I64(42),
            SqlArg::I64(1000),
            SqlArg::I64(300),
            SqlArg::I64(-12),
            SqlArg::DateTime(item.last_item_time),
        ]
    );
    let direct = item.sql_entity_replace("k1", "t");
    assert_eq!(direct.sql, format!("REPLACE INTO t({}) VALUES(?,?,?,?,?,?,?,?,?,?,?,?)", COLUMNS));
    assert_eq!(direct.args, e.args);
}

#[test]
fn registry_lookup_after_init() {
    let mut utils = KLineItemUtils::new();
    assert!(!utils.has_default());
    assert!(!utils.contains_key("hqdb"));
    utils.init_one_util("hqdb", true);
    utils.init_one_util("", false);
    assert!(utils.has_default());
    assert!(utils.contains_key("hqdb"));
    assert!(utils.contains_key(""));
    assert!(!utils.contains_key("other"));
    assert_eq!(utils.default().table_name("agL9"), TABLE);
    assert_eq!(utils.by_key("hqdb").table_name("agL9"), TABLE);
    assert_eq!(utils.by_key("").table_name("agL9"), "`tbl_code_agL9`");
}

#[test]
fn registry_default_moves_with_the_last_default_init() {
    let mut utils = KLineItemUtils::new();
    utils.init_one_util("a", true);
    utils.init_one_util("b", false);
    assert_eq!(utils.default().table_name("s"), "`a`.`tbl_code_s`");
    utils.init_one_util("b", true);
    assert_eq!(utils.default().table_name("s"), "`b`.`tbl_code_s`");
    assert_eq!(utils.by_key("a").table_name("s"), "`a`.`tbl_code_s`");
}

#[test]
fn validity_of_values() {
    assert!(dt(2024, 2, 29, 23, 59, 59).is_valid());
    assert!(!dt(2023, 2, 29, 0, 0, 0).is_valid());
    assert!(!dt(1900, 2, 29, 0, 0, 0).is_valid());
    assert!(dt(2000, 2, 29, 0, 0, 0).is_valid());
    assert!(!dt(2022, 4, 31, 0, 0, 0).is_valid());
    assert!(!dt(2022, 13, 1, 0, 0, 0).is_valid());
    assert!(!dt(2022, 1, 0, 0, 0, 0).is_valid());
    assert!(!dt(2022, 1, 1, 24, 0, 0).is_valid());
    let mut leap = dt(2022, 1, 1, 0, 0, 59);
    leap.nano = 1_500_000_000;
    assert!(leap.is_valid());
    leap.second = 58;
    assert!(!leap.is_valid());
    assert!(DecimalValue { negative: true, magnitude: (1u128 << 96) - 1, scale: 28 }.is_valid());
    assert!(!DecimalValue { negative: false, magnitude: 1u128 << 96, scale: 0 }.is_valid());
    assert!(!DecimalValue { negative: false, magnitude: 1, scale: 29 }.is_valid());
    assert!(sample_item().is_valid());
    let mut bad = sample_item();
    bad.low = DecimalValue { negative: false, magnitude: 1, scale: 40 };
    assert!(!bad.is_valid());
}

#[test]
fn datetime_text_outside_four_digit_years() {
    assert_eq!(datetime_seconds_text(&dt(999, 1, 2, 3, 4, 5)), "0999-01-02 03:04:05");
    assert_eq!(datetime_seconds_text(&dt(0, 1, 1, 0, 0, 0)), "0000-01-01 00:00:00");
    assert_eq!(datetime_seconds_text(&dt(-1, 12, 31, 23, 59, 59)), "-0001-12-31 23:59:59");
    assert_eq!(datetime_seconds_text(&dt(12345, 6, 7, 8, 9, 10)), "+12345-06-07 08:09:10");
    assert_eq!(datetime_seconds_text(&dt(-262143, 1, 1, 0, 0, 0)), "-262143-01-01 00:00:00");
}

#[test]
fn datetime_text_drops_fractions_of_a_second() {
    let mut t = dt(2022, 6, 20, 9, 1, 0);
    t.nano = 999_999_999;
    assert_eq!(datetime_seconds_text(&t), "2022-06-20 09:01:00");
    let mut item = KLineItem::new("x", &dt(2022, 6, 20, 9, 1, 0), 1);
    item.last_item_time.nano = 1_234_567;
    assert!(item.to_string().ends_with("|2022-06-20 09:01:00.001|"));
    item.last_item_time = KLineDateTime { year: 2022, month: 6, day: 30, hour: 23, minute: 59, second: 59, nano: 1_987_000_000 };
    assert!(item.to_string().ends_with("|2022-06-30 23:59:60.987|"));
}

fn price_text(negative: bool, magnitude: u128, scale: u32) -> String {
    let mut item = KLineItem::new("x", &dt(2022, 6, 20, 9, 1, 0), 1);
    item.open = DecimalValue { negative, magnitude, scale };
    let line = item.to_string();
    let rest = &line["x,|2022-06-20 09:01:00|,  1,".len()..];
    rest[..rest.find(',').unwrap()].to_string()
}

#[test]
fn decimal_text_of_prices() {
    assert_eq!(price_text(false, 0, 0), "0");
    assert_eq!(price_text(true, 0, 0), "-0");
    assert_eq!(price_text(false, 0, 3), "0.000");
    assert_eq!(price_text(true, 0, 2), "-0.00");
    assert_eq!(price_text(false, 12345, 2), "123.45");
    assert_eq!(price_text(true, 12345, 5), "-0.12345");
    assert_eq!(price_text(false, 5, 3), "0.005");
    assert_eq!(price_text(false, 1200, 0), "1200");
    assert_eq!(price_text(false, (1u128 << 96) - 1, 0), "79228162514264337593543950335");
    assert_eq!(price_text(false, (1u128 << 96) - 1, 28), "7.9228162514264337593543950335");
}

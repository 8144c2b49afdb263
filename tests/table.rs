use taxscale::decimal::Decimal;
use taxscale::examples::Matches;
use taxscale::formula::{Formula, FormulaParseError};
use taxscale::load::{canton_policy, is_married, is_single};
use taxscale::schema::{Group, Location, Scale, ScaleEntry, TableType, Target, TaxType};
use taxscale::table::{
    EvalMethod, EvalPolicy, RawTable, Table, TableBund, TableError, TableFlattax, TableFormel,
    TableFreiburg, TableShapeError, TableZuerich,
};

fn dec(text: &str) -> Decimal {
    Decimal::parse(text).unwrap()
}

fn row(formula: &str, taxes: &str, percent: &str, amount: &str) -> ScaleEntry {
    ScaleEntry {
        formula: formula.to_string(),
        taxes: dec(taxes),
        percent: dec(percent),
        amount: dec(amount),
    }
}

fn scale(table_type: TableType, table: Vec<ScaleEntry>) -> Scale {
    Scale {
        location: Location {
            bfs_id: 0,
            bfs_name: String::new(),
            canton_id: 1,
            canton: "ZH".to_string(),
            city: String::new(),
            tax_location_id: 0,
            zip_code: String::new(),
        },
        group: vec![Group::Alle],
        splitting: dec("0"),
        table_type,
        target: Target::Kanton,
        tax_type: TaxType::EinkommensSteuer,
        table,
    }
}

#[test]
fn bund_rows_become_entries() {
    let t = TableBund::try_from(&[row("", "0", "5", "0"), row("", "500", "10", "10000")]).unwrap();
    assert_eq!(t.0.len(), 2);
    assert_eq!(t.0[1].bracket_start, dec("10000"));
    assert_eq!(t.0[1].base_tax, dec("500"));
    assert_eq!(t.0[1].marginal_rate, dec("10"));
}

#[test]
fn bund_rejects_a_formula_naming_its_row() {
    let r = TableBund::try_from(&[row("", "0", "5", "0"), row("$wert$", "500", "10", "10000")]);
    assert_eq!(
        r.unwrap_err(),
        TableError::Shape(TableShapeError::NonEmptyFormula { row: 1 })
    );
}

#[test]
fn first_bad_row_is_reported() {
    let r = TableFreiburg::try_from(&[
        row("", "0", "1", "0"),
        row("", "3", "2", "100"),
        row("x", "0", "3", "200"),
    ]);
    assert_eq!(
        r.unwrap_err(),
        TableError::Shape(TableShapeError::NonZeroTaxes { row: 1 })
    );
}

#[test]
fn flattax_rate_and_errors() {
    assert_eq!(TableFlattax::try_from(&[row("", "0", "8", "0")]).unwrap().0, dec("8"));
    assert_eq!(
        TableFlattax::try_from(&[]).unwrap_err(),
        TableError::Shape(TableShapeError::RowCount { rows: 0 })
    );
    assert_eq!(
        TableFlattax::try_from(&[row("", "0", "8", "1")]).unwrap_err(),
        TableError::Shape(TableShapeError::NonZeroAmount { row: 0 })
    );
    assert_eq!(
        TableFlattax::try_from(&[row("1", "0", "8", "0")]).unwrap_err(),
        TableError::Shape(TableShapeError::NonEmptyFormula { row: 0 })
    );
}

#[test]
fn formel_reads_formulas() {
    let t = TableFormel::try_from(&[row("", "0", "0", "0"), row("$wert$ * 0.1", "0", "0", "500")])
        .unwrap();
    assert_eq!(t.0[0].formula, Formula::Const(Decimal::zero()));
    assert_eq!(
        t.0[1].formula,
        Formula::Mul(Box::new(Formula::Input), Box::new(Formula::Const(dec("0.1"))))
    );
    assert_eq!(
        TableFormel::try_from(&[row("$wert$", "0", "2", "0")]).unwrap_err(),
        TableError::Shape(TableShapeError::NonZeroPercent { row: 0 })
    );
    assert_eq!(
        TableFormel::try_from(&[row("", "0", "0", "0"), row("(", "0", "0", "9")]).unwrap_err(),
        TableError::Formula { row: 1, error: FormulaParseError::Malformed }
    );
}

#[test]
fn zuerich_wide_band_is_unbounded() {
    let t = TableZuerich::try_from(&[row("", "0", "2", "10000"), row("", "0", "10", "10000000")])
        .unwrap();
    assert_eq!(t.0[0].bracket_len, Some(dec("10000")));
    assert_eq!(t.0[1].bracket_len, None);
    assert_eq!(t.0[1].marginal_rate, dec("10"));
}

#[test]
fn unknown_table_type_is_refused() {
    let r = RawTable::try_from(&scale(TableType::Unknown, vec![]));
    assert_eq!(r.unwrap_err(), TableError::UnsupportedTableType);
}

#[test]
fn table_keeps_its_policy() {
    let t = Table::try_from(
        &scale(TableType::Flattax, vec![row("", "0", "8", "0")]),
        EvalPolicy::Round100,
    )
    .unwrap();
    assert_eq!(t.policy(), EvalPolicy::Round100);
    assert!(matches!(t.raw(), RawTable::Flattax(TableFlattax(rate)) if *rate == dec("8")));
}

#[test]
fn eval_methods_by_policy() {
    assert_eq!(EvalPolicy::Raw.eval_method(), EvalMethod::AtIncome);
    assert_eq!(EvalPolicy::Raw.eval_split_method(false), EvalMethod::SplitIncome);
    assert_eq!(EvalPolicy::Round100.eval_method(), EvalMethod::AtFlooredIncome);
    assert_eq!(
        EvalPolicy::Round100.eval_split_method(false),
        EvalMethod::SplitAverageRate
    );
    assert_eq!(
        EvalPolicy::DoubleRound100.eval_split_method(false),
        EvalMethod::SplitFlooredAverageRate
    );
    assert_eq!(EvalPolicy::Valais.eval_split_method(false), EvalMethod::SplitIncome);
    assert_eq!(
        EvalPolicy::NoSplitRound100.eval_split_method(true),
        EvalMethod::AtFlooredIncome
    );
}

#[test]
fn zero_split_matches_single_evaluation() {
    for p in [
        EvalPolicy::Raw,
        EvalPolicy::Round100,
        EvalPolicy::DoubleRound100,
        EvalPolicy::NoSplitRaw,
        EvalPolicy::NoSplitRound100,
        EvalPolicy::Valais,
    ] {
        assert_eq!(p.eval_split_method(true), p.eval_method());
    }
}

#[test]
fn canton_policies() {
    assert_eq!(canton_policy("GE").unwrap(), EvalPolicy::Raw);
    assert_eq!(canton_policy("UR").unwrap(), EvalPolicy::NoSplitRaw);
    assert_eq!(canton_policy("AG").unwrap(), EvalPolicy::Round100);
    assert_eq!(canton_policy("VD").unwrap(), EvalPolicy::DoubleRound100);
    assert_eq!(canton_policy("CH").unwrap(), EvalPolicy::NoSplitRound100);
    assert_eq!(canton_policy("VS").unwrap(), EvalPolicy::Valais);
    assert_eq!(canton_policy("XX").unwrap_err().canton, "XX");
    assert!(canton_policy("ZHZ").is_err());
}

#[test]
fn single_and_married_groups() {
    assert!(is_single(&[Group::Alle]));
    assert!(is_married(&[Group::Alle]));
    assert!(is_single(&[Group::LedigAlleine]));
    assert!(!is_married(&[Group::LedigAlleine]));
    assert!(!is_single(&[Group::LedigAlleine, Group::Verheiratet]));
    assert!(is_married(&[Group::LedigAlleine, Group::Verheiratet]));
    assert!(!is_single(&[]));
    assert!(!is_married(&[Group::LedigMitKinder]));
}

#[test]
fn group_names() {
    assert_eq!(Group::from_name("ALLE").unwrap(), Group::Alle);
    assert_eq!(
        Group::from_name("TYP_UEBRIGE_DAUERND_BEDUERFTIGT").unwrap(),
        Group::TypUebrigeDauernBeduerftigt
    );
    assert_eq!("VERHEIRATET".parse::<Group>().unwrap(), Group::Verheiratet);
    assert_eq!(Group::from_name("alle").unwrap_err().name, "alle");
}

#[test]
fn matches_add_up() {
    let mut m = Matches::default();
    m.add_assign(Matches::of_example(true, false, true));
    m.add_assign(Matches::of_example(true, true, false));
    assert_eq!(m.income_simple_tax_canton, 2);
    assert_eq!(m.income_simple_tax_city, 1);
    assert_eq!(m.income_tax_canton, 1);
}

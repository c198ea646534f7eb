use databend_ops::physical_plan::{PhysicalPlan, TableScan};
use databend_ops::schema::{DataField, DataSchema};
use databend_ops::text::{decimal, eq_ignore_ascii_case};

fn schema(names: &[&str]) -> DataSchema<u8> {
    DataSchema {
        fields: names
            .iter()
            .enumerate()
            .map(|(i, name)| DataField {
                name: name.to_string(),
                data_type: i as u8,
            })
            .collect(),
    }
}

fn scan(source: u32) -> PhysicalPlan<u32> {
    PhysicalPlan::TableScan(TableScan { source })
}

#[test]
fn decimal_writes_numerals() {
    assert_eq!(decimal(0), "0");
    assert_eq!(decimal(9), "9");
    assert_eq!(decimal(10), "10");
    assert_eq!(decimal(507), "507");
    for n in [1usize, 42, 99, 100, 101, 1_234_567_890, usize::MAX] {
        assert_eq!(decimal(n), n.to_string());
    }
}

#[test]
fn decimal_numerals_are_distinct() {
    let numerals: Vec<String> = (0..300).map(decimal).collect();
    for i in 0..numerals.len() {
        for j in 0..i {
            assert_ne!(numerals[i], numerals[j]);
        }
    }
}

#[test]
fn ascii_case_is_ignored() {
    assert!(eq_ignore_ascii_case("_block_name", "_BLOCK_Name"));
    assert!(eq_ignore_ascii_case("", ""));
    assert!(!eq_ignore_ascii_case("_block_name", "_block_nam"));
    assert!(!eq_ignore_ascii_case("_block_name", "_block-name"));
    assert!(!eq_ignore_ascii_case("@[`{", "`{@["));
    assert!(eq_ignore_ascii_case("azAZ", "AZaz"));
}

#[test]
fn other_letters_keep_their_case() {
    assert!(eq_ignore_ascii_case("\u{e9}A", "\u{e9}a"));
    assert!(!eq_ignore_ascii_case("\u{e9}", "\u{c9}"));
    for (a, b) in [("k", "\u{212a}"), ("Ferr\u{f6}s", "FERR\u{f6}S"), ("Ferr\u{f6}s", "FERR\u{d6}S")] {
        assert_eq!(eq_ignore_ascii_case(a, b), a.eq_ignore_ascii_case(b));
    }
}

#[test]
fn index_of_gives_the_first_field() {
    let schema = schema(&["1", "2", "3", "2"]);
    assert_eq!(schema.num_fields(), 4);
    assert_eq!(schema.index_of(&"1".to_string()), Some(0));
    assert_eq!(schema.index_of(&"2".to_string()), Some(1));
    assert_eq!(schema.index_of(&"3".to_string()), Some(2));
    assert_eq!(schema.index_of(&"4".to_string()), None);
}

#[test]
fn projection_follows_the_output() {
    let input = schema(&["0", "1", "2", "3"]);
    assert_eq!(schema(&["3", "1"]).projection_from(&input), Ok(vec![3, 1]));
    assert_eq!(schema(&["2", "2"]).projection_from(&input), Ok(vec![2, 2]));
    assert_eq!(schema(&[]).projection_from(&input), Ok(vec![]));
}

#[test]
fn projection_names_the_first_missing_field() {
    let input = schema(&["0", "1"]);
    assert_eq!(
        schema(&["1", "7", "9"]).projection_from(&input),
        Err("7".to_string())
    );
    assert_eq!(schema(&["5"]).projection_from(&schema(&[])), Err("5".to_string()));
}

#[test]
fn sources_come_in_traversal_order() {
    let plan = PhysicalPlan::Operator(vec![
        scan(1),
        PhysicalPlan::Operator(vec![]),
        PhysicalPlan::Operator(vec![scan(2), PhysicalPlan::Operator(vec![scan(3)])]),
        scan(4),
    ]);
    let mut sources = vec![0];
    plan.collect_read_sources(&mut sources);
    assert_eq!(sources, vec![0, 1, 2, 3, 4]);
}

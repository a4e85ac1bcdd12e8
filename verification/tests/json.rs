use mandygif::json::{parse_json, render_json, Json, Member};
use mandygif::numeral::{read_fraction, write_fraction};
use mandygif::Fraction;

fn member(name: &str, value: Json) -> Member {
    Member { name: name.to_string(), value }
}

#[test]
fn text_becomes_a_tree() {
    let tree = parse_json("{\"b\":[1,-2,0.5,true,null],\"a\":\"x\\ny\"}\n");
    let expected = Json::Object(vec![
        member(
            "b",
            Json::List(vec![
                Json::Number("1".to_string()),
                Json::Number("-2".to_string()),
                Json::Number("0.5".to_string()),
                Json::Bool(true),
                Json::Null,
            ]),
        ),
        member("a", Json::Text("x\ny".to_string())),
    ]);
    assert_eq!(tree, Some(expected));
}

#[test]
fn what_is_not_json_gives_no_tree() {
    assert_eq!(parse_json("starting up"), None);
    assert_eq!(parse_json("{\"a\":"), None);
    assert_eq!(parse_json(""), None);
}

#[test]
fn a_tree_becomes_one_line_of_text() {
    let tree = Json::Object(vec![
        member("z", Json::Number("0.800000".to_string())),
        member("a", Json::Text("two\nlines".to_string())),
        member("n", Json::List(vec![Json::Null, Json::Bool(false), Json::Number("12".to_string())])),
    ]);
    assert_eq!(
        render_json(&tree),
        Some("{\"z\":0.8,\"a\":\"two\\nlines\",\"n\":[null,false,12]}".to_string())
    );
}

#[test]
fn a_literal_that_is_no_number_cannot_be_written() {
    assert_eq!(render_json(&Json::Number("12abc".to_string())), None);
    assert_eq!(render_json(&Json::List(vec![Json::Number("".to_string())])), None);
}

#[test]
fn small_numbers_come_back_with_an_exponent() {
    let text = render_json(&Json::Number("0.000001".to_string())).unwrap();
    assert_eq!(parse_json(&text), Some(Json::Number("1e-6".to_string())));
}

fn proportions_come_back(from: u32, to: u32) {
    for m in from..to {
        let q = Fraction::from_millionths(m).unwrap();
        let text = render_json(&Json::Number(write_fraction(q))).unwrap();
        match parse_json(&text) {
            Some(Json::Number(literal)) => {
                assert_eq!(read_fraction(&literal), Some(q), "{} came back as {}", m, literal)
            }
            other => panic!("{} came back as {:?}", m, other),
        }
    }
}

#[test]
fn every_proportion_survives_the_wire_first_quarter() {
    proportions_come_back(0, 250_000);
}

#[test]
fn every_proportion_survives_the_wire_second_quarter() {
    proportions_come_back(250_000, 500_000);
}

#[test]
fn every_proportion_survives_the_wire_third_quarter() {
    proportions_come_back(500_000, 750_000);
}

#[test]
fn every_proportion_survives_the_wire_last_quarter() {
    proportions_come_back(750_000, 1_000_001);
}

#[test]
fn an_object_that_names_a_member_twice_cannot_be_written() {
    let twice = Json::Object(vec![
        member("a", Json::Null),
        member("b", Json::Bool(true)),
        member("a", Json::Null),
    ]);
    assert_eq!(render_json(&twice), None);
    let nested = Json::List(vec![Json::Object(vec![member("k", twice)])]);
    assert_eq!(render_json(&nested), None);
    let once = Json::Object(vec![member("a", Json::Null), member("b", Json::Bool(true))]);
    assert_eq!(render_json(&once), Some("{\"a\":null,\"b\":true}".to_string()));
}

#[test]
fn text_with_a_member_named_twice_keeps_the_last_value() {
    assert_eq!(
        parse_json("{\"a\":1,\"b\":2,\"a\":3}"),
        Some(Json::Object(vec![
            member("a", Json::Number("3".to_string())),
            member("b", Json::Number("2".to_string())),
        ]))
    );
}

#[test]
fn trees_come_back_from_their_text() {
    let tree = Json::Object(vec![
        member("empty list", Json::List(vec![])),
        member("empty object", Json::Object(vec![])),
        member("", Json::Text("\u{0}\u{1f}\"\\/\u{7f}\u{2028}é😀".to_string())),
        member(
            "deep",
            Json::List(vec![Json::List(vec![Json::Object(vec![member(
                "x",
                Json::Number("-12".to_string()),
            )])])]),
        ),
    ]);
    let text = render_json(&tree).unwrap();
    assert!(!text.contains('\n'));
    assert_eq!(parse_json(&text), Some(tree));
}

#[test]
fn integer_literals_are_written_as_they_stand() {
    for literal in [
        "0",
        "7",
        "4294967295",
        "9223372036854775807",
        "9223372036854775808",
        "18446744073709551615",
        "-1",
        "-2147483648",
        "-9223372036854775807",
        "-9223372036854775808",
    ] {
        assert_eq!(
            render_json(&Json::Number(literal.to_string())),
            Some(literal.to_string()),
            "for {}",
            literal
        );
    }
    let list = Json::List(vec![Json::Number("12".to_string()), Json::Number("-3".to_string())]);
    assert_eq!(render_json(&list), Some("[12,-3]".to_string()));
}

#[test]
fn other_literals_are_read_or_refused_by_the_writer() {
    assert_eq!(
        render_json(&Json::Number("18446744073709551616".to_string())),
        Some("1.8446744073709552e+19".to_string())
    );
    assert_eq!(
        render_json(&Json::Number("-9223372036854775809".to_string())),
        Some("-9.223372036854776e+18".to_string())
    );
    assert_eq!(render_json(&Json::Number("-0".to_string())), Some("-0.0".to_string()));
    for refused in ["", "-", "01", "-01", "+1", "1.", ".5", " 1", "1 ", "0x10"] {
        assert_eq!(render_json(&Json::Number(refused.to_string())), None, "for {:?}", refused);
    }
}

#[test]
fn point_literals_are_always_written() {
    for literal in ["0.000000", "0.000001", "0.800000", "1.000000", "9.999999"] {
        assert!(render_json(&Json::Number(literal.to_string())).is_some(), "for {}", literal);
    }
}

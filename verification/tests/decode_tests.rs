use powerlifting_lookup::api_reader::{decode_next_index, decode_record_page};
use powerlifting_lookup::json::JsonValue;
use powerlifting_lookup::powerlifter::{Powerlifter, ROW_LEN};

fn s(x: &str) -> JsonValue {
    JsonValue::Str(x.to_string())
}

fn obj(fields: Vec<(&str, JsonValue)>) -> JsonValue {
    JsonValue::Obj(fields.into_iter().map(|(k, v)| (k.to_string(), v)).collect())
}

/// A row in which every slot is well typed and every optional slot is null.
fn plain_row() -> Vec<JsonValue> {
    vec![
        JsonValue::UInt(41),
        JsonValue::UInt(1),
        s("John Doe"),
        s("johndoe"),
        JsonValue::Null,
        JsonValue::Null,
        JsonValue::Null,
        JsonValue::Null,
        s("USAPL"),
        s("2019-11-02"),
        s("USA"),
        JsonValue::Null,
        s("johndoe"),
        s("M"),
        s("Raw"),
        s("24"),
        JsonValue::Null,
        s("92,5"),
        s("93"),
        s("300"),
        s("200"),
        s("340"),
        s("840"),
        s("520,31"),
    ]
}

fn page(rows: Vec<JsonValue>) -> JsonValue {
    obj(vec![("total_length", JsonValue::UInt(424242)), ("rows", JsonValue::Arr(rows))])
}

#[test]
fn row_has_twenty_four_slots() {
    assert_eq!(ROW_LEN, 24);
    assert_eq!(plain_row().len(), ROW_LEN);
}

#[test]
fn row_decodes_to_named_fields_by_position() {
    let rec = Powerlifter::from_row(&plain_row()).unwrap();
    assert_eq!(rec.sorted_index, 41);
    assert_eq!(rec.rank, 1);
    assert_eq!(rec.name, "John Doe");
    assert_eq!(rec.username, "johndoe");
    assert_eq!(rec.federation, "USAPL");
    assert_eq!(rec.date, "2019-11-02");
    assert_eq!(rec.meet_country, "USA");
    assert_eq!(rec.path, "johndoe");
    assert_eq!(rec.sex, "M");
    assert_eq!(rec.equipment, "Raw");
    assert_eq!(rec.age, "24");
    assert_eq!(rec.bodyweight, "92,5");
    assert_eq!(rec.weightclass, "93");
    assert_eq!(rec.squat, "300");
    assert_eq!(rec.bench, "200");
    assert_eq!(rec.deadlift, "340");
    assert_eq!(rec.total, "840");
    assert_eq!(rec.points, "520,31");
}

#[test]
fn null_in_an_optional_slot_decodes_to_an_absent_field() {
    let mut row = plain_row();
    row[4] = s("@johndoe");
    let rec = Powerlifter::from_row(&row).unwrap();
    assert_eq!(rec.instagram, Some("@johndoe".to_string()));
    assert_eq!(rec.color, None);
    assert_eq!(rec.lifter_country, None);
    assert_eq!(rec.lifter_state, None);
    assert_eq!(rec.meet_state, None);
    assert_eq!(rec.division, None);
}

#[test]
fn null_in_a_required_slot_fails_the_whole_row() {
    let mut row = plain_row();
    row[8] = JsonValue::Null;
    assert_eq!(Powerlifter::from_row(&row), None);
}

#[test]
fn wrong_slot_type_fails_the_whole_row() {
    let mut row = plain_row();
    row[2] = JsonValue::UInt(3);
    assert_eq!(Powerlifter::from_row(&row), None);
}

#[test]
fn boolean_or_nested_value_in_any_slot_fails_the_row() {
    let mut row = plain_row();
    row[13] = JsonValue::Bool(true);
    assert_eq!(Powerlifter::from_row(&row), None);
    let mut row = plain_row();
    row[0] = JsonValue::Arr(vec![JsonValue::UInt(41)]);
    assert_eq!(Powerlifter::from_row(&row), None);
    let mut row = plain_row();
    row[4] = JsonValue::Obj(vec![("x".to_string(), JsonValue::Null)]);
    assert_eq!(Powerlifter::from_row(&row), None);
}

#[test]
fn negative_or_fractional_number_fails_an_integer_slot() {
    // The application maps any JSON number that is not an unsigned
    // integer to `Other`, which no slot accepts.
    let mut row = plain_row();
    row[1] = JsonValue::Other;
    assert_eq!(Powerlifter::from_row(&row), None);
}

#[test]
fn integer_slot_too_large_for_u32_fails_the_row() {
    let mut row = plain_row();
    row[0] = JsonValue::UInt(4294967296);
    assert_eq!(Powerlifter::from_row(&row), None);
}

#[test]
fn wrong_row_length_fails_the_row() {
    let mut short = plain_row();
    short.pop();
    assert_eq!(Powerlifter::from_row(&short), None);
    let mut long = plain_row();
    long.push(JsonValue::Null);
    assert_eq!(Powerlifter::from_row(&long), None);
}

#[test]
fn next_index_decodes_from_the_named_field() {
    let body = obj(vec![("next_index", JsonValue::UInt(42))]);
    assert_eq!(decode_next_index(&body), Some(42));
}

#[test]
fn next_index_ignores_extra_fields() {
    let body = obj(vec![("other", s("x")), ("next_index", JsonValue::UInt(7))]);
    assert_eq!(decode_next_index(&body), Some(7));
}

#[test]
fn next_index_missing_field_is_no_match() {
    let body = obj(vec![("other", JsonValue::UInt(42))]);
    assert_eq!(decode_next_index(&body), None);
}

#[test]
fn next_index_of_wrong_type_is_no_match() {
    assert_eq!(decode_next_index(&obj(vec![("next_index", s("42"))])), None);
    assert_eq!(decode_next_index(&obj(vec![("next_index", JsonValue::Other)])), None);
}

#[test]
fn next_index_body_that_is_no_object_is_no_match() {
    assert_eq!(decode_next_index(&JsonValue::Str("oops".to_string())), None);
    assert_eq!(decode_next_index(&JsonValue::Arr(vec![JsonValue::UInt(42)])), None);
}

#[test]
fn page_with_one_row_decodes_to_its_record() {
    let body = page(vec![JsonValue::Arr(plain_row())]);
    let rec = decode_record_page(&body).unwrap();
    assert_eq!(rec.rank, 1);
    assert_eq!(rec.federation, "USAPL");
}

#[test]
fn page_with_zero_rows_is_no_match_not_an_error() {
    let body = page(vec![]);
    assert_eq!(decode_record_page(&body), None);
}

#[test]
fn page_takes_the_first_of_several_rows() {
    let mut second = plain_row();
    second[1] = JsonValue::UInt(2);
    second[2] = s("Jane Roe");
    let body = page(vec![JsonValue::Arr(plain_row()), JsonValue::Arr(second)]);
    let rec = decode_record_page(&body).unwrap();
    assert_eq!(rec.name, "John Doe");
}

#[test]
fn page_with_a_malformed_later_row_fails_whole_decode() {
    let mut bad = plain_row();
    bad[2] = JsonValue::Null;
    let body = page(vec![JsonValue::Arr(plain_row()), JsonValue::Arr(bad)]);
    assert_eq!(decode_record_page(&body), None);
}

#[test]
fn page_with_a_row_that_is_no_array_fails_whole_decode() {
    let body = page(vec![s("not a row")]);
    assert_eq!(decode_record_page(&body), None);
}

#[test]
fn page_without_total_length_is_no_match() {
    let body = obj(vec![("rows", JsonValue::Arr(vec![JsonValue::Arr(plain_row())]))]);
    assert_eq!(decode_record_page(&body), None);
}

#[test]
fn page_without_rows_is_no_match() {
    let body = obj(vec![("total_length", JsonValue::UInt(1))]);
    assert_eq!(decode_record_page(&body), None);
}

#[test]
fn page_whose_rows_field_is_no_array_is_no_match() {
    let body = obj(vec![("total_length", JsonValue::UInt(1)), ("rows", s("nope"))]);
    assert_eq!(decode_record_page(&body), None);
}

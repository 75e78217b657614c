use ion_macro_table::IonType;
use ion_macro_table::LazyRawTextWriter_1_1;

#[test]
fn write_list() {
    let mut writer = LazyRawTextWriter_1_1::new();
    // An empty list, then growing lists, then a list of lists.
    writer.begin_list();
    writer.end_list();
    writer.begin_list();
    writer.write_i64(1);
    writer.end_list();
    writer.begin_list();
    writer.write_i64(1);
    writer.write_i64(2);
    writer.end_list();
    writer.begin_list();
    for pair in [[1, 2], [3, 4], [5, 6]] {
        writer.begin_list();
        writer.write_i64(pair[0]);
        writer.write_i64(pair[1]);
        writer.end_list();
    }
    writer.end_list();
    let encoded_text = writer.close();
    println!("{encoded_text}");
    let expected_ion = "$ion_1_1 [] [1] [1, 2] [[1, 2], [3, 4], [5, 6]] ";
    assert_eq!(encoded_text, expected_ion);
}

#[test]
fn write_sexp() {
    let mut writer = LazyRawTextWriter_1_1::new();
    writer.begin_sexp();
    writer.end_sexp();
    writer.begin_sexp();
    writer.write_i64(1);
    writer.end_sexp();
    writer.begin_sexp();
    writer.write_i64(1);
    writer.write_i64(2);
    writer.end_sexp();
    writer.begin_sexp();
    for pair in [[1, 2], [3, 4], [5, 6]] {
        writer.begin_sexp();
        writer.write_i64(pair[0]);
        writer.write_i64(pair[1]);
        writer.end_sexp();
    }
    writer.end_sexp();
    let encoded_text = writer.close();
    println!("{encoded_text}");
    let expected_ion = "$ion_1_1 () (1) (1 2) ((1 2) (3 4) (5 6)) ";
    assert_eq!(encoded_text, expected_ion);
}

#[test]
fn write_struct() {
    let mut writer = LazyRawTextWriter_1_1::new();
    let field_lists: [&[(&str, i64)]; 4] = [
        &[],
        &[("foo", 1)],
        &[("foo", 1), ("bar", 2)],
        &[("foo", 1), ("bar", 2), ("baz", 3)],
    ];
    for fields in field_lists {
        writer.begin_struct();
        for (name, value) in fields {
            writer.field_name(name);
            writer.write_i64(*value);
        }
        writer.end_struct();
    }
    // A struct whose `quux` field holds another struct.
    writer.begin_struct();
    writer.field_name("quux");
    writer.begin_struct();
    writer.field_name("quuz");
    writer.write_i64(4);
    writer.end_struct();
    writer.end_struct();
    let encoded_text = writer.close();
    println!("{encoded_text}");
    let expected_ion = "$ion_1_1 {} {foo: 1} {foo: 1, bar: 2} {foo: 1, bar: 2, baz: 3} {quux: {quuz: 4}} ";
    assert_eq!(encoded_text, expected_ion);
}

#[test]
fn writer_renders_scalars() {
    let mut writer = LazyRawTextWriter_1_1::new();
    writer.write_null(IonType::String);
    writer.write_bool(true);
    writer.write_bool(false);
    writer.write_i64(1);
    writer.write_i64(0);
    writer.write_i64(-42);
    writer.write_i64(i64::MAX);
    writer.write_i64(i64::MIN);
    writer.write_string("foo");
    writer.write_symbol("foo");
    let encoded_text = writer.close();
    assert_eq!(
        encoded_text,
        "$ion_1_1 null.string true false 1 0 -42 \
         9223372036854775807 -9223372036854775808 \"foo\" foo "
    );
}

#[test]
fn writer_renders_typed_nulls() {
    let mut writer = LazyRawTextWriter_1_1::new();
    writer.write_null(IonType::Null);
    writer.write_null(IonType::Int);
    writer.write_null(IonType::SExp);
    let encoded_text = writer.close();
    assert_eq!(encoded_text, "$ion_1_1 null null.int null.sexp ");
}

#[test]
fn writer_mixes_containers_and_scalars() {
    let mut writer = LazyRawTextWriter_1_1::new();
    writer.begin_list();
    writer.write_string("a");
    writer.begin_sexp();
    writer.write_symbol("plus");
    writer.write_i64(1);
    writer.end_sexp();
    writer.begin_struct();
    writer.field_name("k");
    writer.write_bool(false);
    writer.end_struct();
    writer.end_list();
    assert_eq!(writer.output(), "$ion_1_1 [\"a\", (plus 1), {k: false}] ");
    writer.write_i64(7);
    let encoded_text = writer.close();
    assert_eq!(encoded_text, "$ion_1_1 [\"a\", (plus 1), {k: false}] 7 ");
}

use hello_wasm::double_name;

#[test]
fn double_name_joins_with_one_space() {
    assert_eq!(double_name("ab"), "ab ab");
}

#[test]
fn double_name_of_empty_is_one_space() {
    assert_eq!(double_name(""), " ");
}

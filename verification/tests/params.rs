use pinboard_rs::api::ParamValue;

#[test]
fn bool_str() {
    let items = &[(true, "true"), (false, "false")];

    for (i, s) in items {
        assert_eq!((*i).as_value(), *s);
    }
}

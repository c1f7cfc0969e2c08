use blockfrost::api::settings::{QueryOrder, QueryParameters};

fn assert_same(left: &QueryParameters, right: &QueryParameters) {
    assert_eq!(left.count, right.count);
    assert_eq!(left.page, right.page);
    assert_eq!(left.order, right.order);
    assert_eq!(left.from, right.from);
    assert_eq!(left.to, right.to);
}

#[test]
fn default_parameters_are_all_absent() {
    let parameters = QueryParameters::default();
    assert_eq!(parameters.count, None);
    assert_eq!(parameters.page, None);
    assert_eq!(parameters.order, None);
    assert_eq!(parameters.from, None);
    assert_eq!(parameters.to, None);
}

#[test]
fn count_set_then_unset() {
    let mut parameters = QueryParameters::default();
    parameters.set_count(10);
    assert_eq!(parameters.count, Some(10));
    parameters.unset_count();
    assert_eq!(parameters.count, None);
}

#[test]
fn page_set_then_unset() {
    let mut parameters = QueryParameters::default();
    parameters.set_page(2);
    assert_eq!(parameters.page, Some(2));
    parameters.unset_page();
    assert_eq!(parameters.page, None);
}

#[test]
fn order_set_then_unset() {
    let mut parameters = QueryParameters::default();
    parameters.set_order(QueryOrder::Descending);
    assert_eq!(parameters.order, Some(QueryOrder::Descending));
    parameters.set_order(QueryOrder::Ascending);
    assert_eq!(parameters.order, Some(QueryOrder::Ascending));
    parameters.unset_order();
    assert_eq!(parameters.order, None);
}

#[test]
fn from_set_then_unset() {
    let mut parameters = QueryParameters::default();
    parameters.set_from(String::from("8788591"));
    assert_eq!(parameters.from, Some(String::from("8788591")));
    parameters.unset_from();
    assert_eq!(parameters.from, None);
}

#[test]
fn to_set_then_unset() {
    let mut parameters = QueryParameters::default();
    parameters.set_to(String::from("9999269:10"));
    assert_eq!(parameters.to, Some(String::from("9999269:10")));
    parameters.unset_to();
    assert_eq!(parameters.to, None);
}

#[test]
fn extreme_values_are_stored_as_given() {
    let mut parameters = QueryParameters::default();
    parameters.set_count(0).set_page(0);
    assert_eq!(parameters.count, Some(0));
    assert_eq!(parameters.page, Some(0));
    parameters.set_count(u8::MAX).set_page(u64::MAX);
    assert_eq!(parameters.count, Some(255));
    assert_eq!(parameters.page, Some(18_446_744_073_709_551_615));
    parameters.set_from(String::new()).set_to(String::new());
    assert_eq!(parameters.from, Some(String::new()));
    assert_eq!(parameters.to, Some(String::new()));
}

#[test]
fn a_later_set_replaces_an_earlier_one() {
    let mut parameters = QueryParameters::default();
    parameters.set_count(1).set_count(2);
    assert_eq!(parameters.count, Some(2));
    parameters.set_from(String::from("a")).set_from(String::from("b"));
    assert_eq!(parameters.from, Some(String::from("b")));
}

#[test]
fn unset_of_an_absent_field_leaves_it_absent() {
    let mut parameters = QueryParameters::default();
    parameters.unset_count().unset_page().unset_order().unset_from().unset_to();
    assert_same(&parameters, &QueryParameters::default());
}

#[test]
fn count_and_page_chain_in_either_order() {
    let mut first = QueryParameters::default();
    first.set_count(1).set_page(2);
    let mut second = QueryParameters::default();
    second.set_page(2).set_count(1);
    assert_eq!(first.count, Some(1));
    assert_eq!(first.page, Some(2));
    assert_same(&first, &second);
}

#[test]
fn setters_of_all_fields_chain_in_either_order() {
    let mut first = QueryParameters::default();
    first
        .set_count(9)
        .set_page(8)
        .set_order(QueryOrder::Descending)
        .set_from(String::from("lo"))
        .set_to(String::from("hi"));
    let mut second = QueryParameters::default();
    second
        .set_to(String::from("hi"))
        .set_from(String::from("lo"))
        .set_order(QueryOrder::Descending)
        .set_page(8)
        .set_count(9);
    assert_eq!(first.count, Some(9));
    assert_eq!(first.page, Some(8));
    assert_eq!(first.order, Some(QueryOrder::Descending));
    assert_eq!(first.from, Some(String::from("lo")));
    assert_eq!(first.to, Some(String::from("hi")));
    assert_same(&first, &second);
}

#[test]
fn each_setter_leaves_the_other_fields_alone() {
    let mut parameters = QueryParameters::default();
    parameters.set_count(1);
    assert_eq!(
        (parameters.page, parameters.order, parameters.from.clone(), parameters.to.clone()),
        (None, None, None, None)
    );
    parameters.set_page(2).set_order(QueryOrder::Ascending);
    parameters.set_from(String::from("f")).set_to(String::from("t"));
    parameters.unset_page();
    assert_eq!(parameters.count, Some(1));
    assert_eq!(parameters.page, None);
    assert_eq!(parameters.order, Some(QueryOrder::Ascending));
    assert_eq!(parameters.from, Some(String::from("f")));
    assert_eq!(parameters.to, Some(String::from("t")));
    parameters.unset_from();
    assert_eq!(parameters.to, Some(String::from("t")));
    assert_eq!(parameters.from, None);
    parameters.unset_order().unset_to().unset_count();
    assert_same(&parameters, &QueryParameters::default());
}

#[test]
fn setters_return_the_receiver() {
    let mut parameters = QueryParameters::default();
    let returned = parameters.set_count(4);
    returned.page = Some(6);
    assert_eq!(parameters.count, Some(4));
    assert_eq!(parameters.page, Some(6));
}

#[test]
fn cloned_parameters_hold_the_same_fields() {
    let mut parameters = QueryParameters::default();
    parameters.set_count(1).set_order(QueryOrder::Descending).set_to(String::from("end"));
    let mut copy = parameters.clone();
    assert_same(&parameters, &copy);
    copy.unset_to();
    assert_eq!(parameters.to, Some(String::from("end")));
}

#[test]
fn default_order_renders_asc() {
    assert_eq!(QueryOrder::default(), QueryOrder::Ascending);
    assert_eq!(QueryOrder::default().to_string(), "asc");
    assert_eq!(QueryOrder::default().as_str(), "asc");
}

#[test]
fn descending_order_renders_desc() {
    assert_eq!(QueryOrder::Descending.to_string(), "desc");
    assert_eq!(QueryOrder::Descending.as_str(), "desc");
}

#[test]
fn ascending_order_renders_asc() {
    assert_eq!(QueryOrder::Ascending.to_string(), "asc");
    assert_eq!(QueryOrder::Ascending.as_str(), "asc");
}

use om_rs::options::{set_option, write_options};

fn set(options: &[(&str, &str)]) -> Vec<(String, String)> {
    let mut r: Vec<(String, String)> = Vec::new();
    for (name, value) in options {
        set_option(&mut r, name, value);
    }
    r
}

#[test]
fn options_keep_the_order_of_their_names() {
    let options = set(&[("stopTime", "1"), ("stepSize", "0.002")]);
    assert_eq!(write_options(&options), "stopTime=1,stepSize=0.002");
    assert_eq!(write_options(&vec![]), "");
    assert_eq!(write_options(&set(&[("a", "")])), "a=");
}

#[test]
fn the_last_value_of_a_name_wins() {
    let options = set(&[("a", "1"), ("b", "2"), ("a", "3")]);
    assert_eq!(write_options(&options), "a=3,b=2");
}

#[test]
fn no_name_occurs_twice() {
    let options = set(&[("a", "1"), ("a", "2"), ("b", "1"), ("a", "1"), ("b", "5")]);
    assert_eq!(options.len(), 2);
}

#[test]
fn other_values_stay() {
    let mut options = set(&[("a", "1"), ("b", "2")]);
    set_option(&mut options, "c", "3");
    assert_eq!(options[0], ("a".to_string(), "1".to_string()));
    assert_eq!(options[1], ("b".to_string(), "2".to_string()));
}

#[test]
fn options_are_read_back() {
    let options = set(&[("a", "1"), ("b", "x=y")]);
    let text = write_options(&options);
    let read: Vec<&str> = text.split(',').collect();
    assert_eq!(read, vec!["a=1", "b=x=y"]);
}

#[test]
fn options_are_set_in_one_go_or_in_two() {
    let (a, b) = ([("a", "1"), ("b", "2")], [("b", "3"), ("c", "4"), ("a", "5")]);
    let mut in_two = set(&a);
    for (name, value) in b {
        set_option(&mut in_two, name, value);
    }
    let all = [a[0], a[1], b[0], b[1], b[2]];
    assert_eq!(in_two, set(&all));
    assert_eq!(write_options(&in_two), "a=5,b=3,c=4");
}

#[test]
fn setting_twice_changes_no_value() {
    let once = [("a", "1"), ("b", "2"), ("a", "3")];
    let twice = [once[0], once[1], once[2], once[0], once[1], once[2]];
    assert_eq!(set(&twice), set(&once));
    assert_eq!(write_options(&set(&twice)), "a=3,b=2");
}

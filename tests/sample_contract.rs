use contract_diagram::sample_contract::{Contract, SomeStruct};

#[test]
fn new_holds_the_count() {
    assert_eq!(Contract::new(7).show_amount(), 7);
}

#[test]
fn add_adds_the_amount() {
    let mut c = Contract::new(10);
    c.add(5);
    assert_eq!(c.show_amount(), 15);
}

#[test]
fn add_of_two_adds_it_twice() {
    let mut c = Contract::new(10);
    c.add(2);
    assert_eq!(c.show_amount(), 14);
}

#[test]
fn add_amount_adds_once() {
    let mut c = Contract::new(1);
    c.add_amount(2);
    assert_eq!(c.show_amount(), 3);
}

#[test]
fn add_two_adds_two() {
    assert_eq!(SomeStruct::add_two(40), 42);
}

#[test]
fn default_contract_is_empty() {
    assert_eq!(Contract::default().show_amount(), 0);
}

use starkli::call::{join_calldata, Call};
use starkli::felt::Felt;

fn call() -> Call {
    Call::new(
        "0x049d36570d4e46f48e99674bd3fcc84644ddd6b96f7c741b1562b82f9e004dc7".to_string(),
        "balanceOf".to_string(),
        vec!["0x1".to_string(), "u256:5".to_string()],
    )
}

#[test]
fn a_call_keeps_what_was_written() {
    let call = call();
    assert_eq!(
        call.contract_address(),
        "0x049d36570d4e46f48e99674bd3fcc84644ddd6b96f7c741b1562b82f9e004dc7"
    );
    assert_eq!(call.selector(), "balanceOf");
    assert_eq!(call.calldata(), &vec!["0x1".to_string(), "u256:5".to_string()]);
}

#[test]
fn an_empty_answer_is_shown_as_an_empty_list() {
    assert_eq!(call().run(&Vec::new()), vec!["[]".to_string()]);
}

#[test]
fn an_answer_of_one_element_has_no_comma() {
    assert_eq!(
        call().run(&vec![Felt::from_u64(0xab)]),
        vec![
            "[".to_string(),
            "    \"0x00000000000000000000000000000000000000000000000000000000000000ab\"".to_string(),
            "]".to_string(),
        ]
    );
}

#[test]
fn the_elements_of_an_answer_are_separated_by_commas() {
    assert_eq!(
        call().run(&vec![Felt::from_u64(1), Felt::from_u64(0), Felt::from_u64(u64::MAX)]),
        vec![
            "[".to_string(),
            "    \"0x0000000000000000000000000000000000000000000000000000000000000001\",".to_string(),
            "    \"0x0000000000000000000000000000000000000000000000000000000000000000\",".to_string(),
            "    \"0x000000000000000000000000000000000000000000000000ffffffffffffffff\"".to_string(),
            "]".to_string(),
        ]
    );
}

#[test]
fn calldata_is_joined_in_the_order_of_the_arguments() {
    let f = Felt::from_u64;
    let parts = vec![vec![f(1)], vec![], vec![f(2), f(3)], vec![f(4)]];
    assert_eq!(join_calldata(&parts), vec![f(1), f(2), f(3), f(4)]);
    assert_eq!(join_calldata(&Vec::new()), Vec::new());
    assert_eq!(join_calldata(&vec![vec![], vec![]]), Vec::new());
}

use pixel_engine::input_stack::InputStack;

#[test]
fn initially_empty() {
    let input_stack = InputStack::<u32>::new();
    assert_eq!(input_stack.top(), None);
}

#[test]
fn item_is_on_top_after_being_pushed() {
    let mut input_stack = InputStack::<u32>::new();

    input_stack.push(32);

    assert_eq!(input_stack.top(), Some(&32));
}

#[test]
fn item_in_middle_can_be_removed() {
    let mut input_stack = InputStack::<u32>::new();

    input_stack.push(1);
    input_stack.push(2);
    input_stack.remove(&1);

    assert_eq!(input_stack.top(), Some(&2));
}

#[test]
fn removing_a_missing_item_changes_nothing() {
    let mut input_stack = InputStack::<u32>::new();

    input_stack.push(1);
    input_stack.push(2);
    input_stack.remove(&7);

    assert_eq!(input_stack.top(), Some(&2));
}

use debot_browser::input::{action_input, has_words, split_words, ActionInputError};
use debot_browser::registry::{same_text, Registry};
use debot_browser::router::{Router, Step};
use debot_browser::routing::{classify, hex_text, interface_reply, reply_function, Route, RoutingError, DEBOT_WC};
use debot_browser::state::{ActiveState, STATE_EXIT};

fn route_of(step: Step) -> String {
    match step {
        Step::Route(m) => m,
        Step::Prompt(n) => panic!("expected a message, got a menu of {}", n),
        Step::Shutdown => panic!("expected a message, got shutdown"),
    }
}

#[test]
fn switch_to_context_clears_actions() {
    let mut s: ActiveState<&str> = ActiveState::new();
    s.switch(1);
    assert_eq!(s.show_action("a"), 1);
    assert_eq!(s.show_action("b"), 2);
    s.switch(2);
    assert_eq!(s.state_id, 2);
    assert!(s.active_actions.is_empty());
    assert_eq!(s.show_action("c"), 1);
    assert_eq!(s.show_action("d"), 2);
    assert_eq!(s.show_action("e"), 3);
    assert_eq!(s.active_actions, vec!["c", "d", "e"]);
}

#[test]
fn switch_to_exit_keeps_actions() {
    let mut s: ActiveState<&str> = ActiveState::new();
    s.switch(1);
    s.show_action("a");
    s.show_action("b");
    s.switch(STATE_EXIT);
    assert_eq!(s.state_id, STATE_EXIT);
    assert_eq!(s.active_actions, vec!["a", "b"]);
    assert_eq!(s.menu_size(), None);
}

#[test]
fn exit_context_shuts_down_after_queue_drains() {
    let mut s: ActiveState<&str> = ActiveState::new();
    s.switch(1);
    s.show_action("a");
    s.send("m1".to_string());
    s.switch(STATE_EXIT);
    let mut r = Router::new();
    r.collect(&mut s);
    assert_eq!(route_of(r.next_step(&s)), "m1");
    assert!(matches!(r.next_step(&s), Step::Shutdown));
}

#[test]
fn no_actions_shuts_down() {
    let s: ActiveState<&str> = ActiveState::new();
    let mut r = Router::new();
    assert!(matches!(r.next_step(&s), Step::Shutdown));
    assert_eq!(s.select_action("1"), None);
}

#[test]
fn queue_is_first_in_first_out_and_breadth_first() {
    let mut root: ActiveState<&str> = ActiveState::new();
    let mut other: ActiveState<&str> = ActiveState::new();
    root.switch(1);
    root.show_action("a");
    root.send("q1".to_string());
    root.send("q2".to_string());
    let mut r = Router::new();
    r.collect(&mut root);
    assert!(root.msg_queue.is_empty());
    // routing q1 makes another session react
    assert_eq!(route_of(r.next_step(&root)), "q1");
    other.send("r1a".to_string());
    other.send("r1b".to_string());
    r.collect(&mut other);
    // routing q2 makes the root react
    assert_eq!(route_of(r.next_step(&root)), "q2");
    root.send("r2".to_string());
    r.collect(&mut root);
    assert_eq!(route_of(r.next_step(&root)), "r1a");
    assert_eq!(route_of(r.next_step(&root)), "r1b");
    assert_eq!(route_of(r.next_step(&root)), "r2");
    assert!(matches!(r.next_step(&root), Step::Prompt(1)));
}

#[test]
fn never_prompts_with_queued_messages() {
    let mut s: ActiveState<&str> = ActiveState::new();
    s.switch(3);
    s.show_action("a");
    s.send("m".to_string());
    let mut r = Router::new();
    r.collect(&mut s);
    assert!(matches!(r.next_step(&s), Step::Route(_)));
    assert!(matches!(r.next_step(&s), Step::Prompt(1)));
}

#[test]
fn transfer_scenario_routes_then_shuts_down() {
    let mut s: ActiveState<&str> = ActiveState::new();
    let mut r = Router::new();
    s.switch(1);
    assert_eq!(s.show_action("Transfer"), 1);
    r.collect(&mut s);
    assert!(matches!(r.next_step(&s), Step::Prompt(1)));
    assert_eq!(s.select_action("1\n"), Some(Ok(0)));
    // the engine reacts to the chosen action
    s.send("env".to_string());
    s.switch(STATE_EXIT);
    r.collect(&mut s);
    assert_eq!(route_of(r.next_step(&s)), "env");
    assert!(matches!(r.next_step(&s), Step::Shutdown));
}

#[test]
fn bad_index_input_reprompts() {
    let mut s: ActiveState<&str> = ActiveState::new();
    s.switch(1);
    s.show_action("a");
    s.show_action("b");
    assert_eq!(s.select_action("abc"), Some(Err(ActionInputError::NotANumber)));
    assert_eq!(s.select_action("99"), Some(Err(ActionInputError::OutOfRange)));
    assert_eq!(s.select_action("0"), Some(Err(ActionInputError::NoSuchAction)));
    assert_eq!(s.select_action("  \t"), Some(Err(ActionInputError::NoInput)));
    assert_eq!(s.active_actions, vec!["a", "b"]);
    assert_eq!(s.state_id, 1);
    assert_eq!(s.select_action(" 2 extra"), Some(Ok(1)));
}

fn chosen(line: &str, max: usize) -> Result<usize, ActionInputError> {
    action_input(line, max).map(|(n, _, _)| n)
}

#[test]
fn action_input_reads_first_word() {
    assert_eq!(chosen("3", 5), Ok(3));
    assert_eq!(chosen("  +4  x", 5), Ok(4));
    assert_eq!(chosen("\t5\n", 5), Ok(5));
    assert_eq!(chosen("6", 5), Err(ActionInputError::OutOfRange));
    assert_eq!(chosen("", 5), Err(ActionInputError::NoInput));
    assert_eq!(chosen("+", 5), Err(ActionInputError::NotANumber));
    assert_eq!(chosen("-1", 5), Err(ActionInputError::NotANumber));
    assert_eq!(chosen("1a", 5), Err(ActionInputError::NotANumber));
    assert_eq!(chosen("99999999999999999999999", 5), Err(ActionInputError::NotANumber));
    assert_eq!(chosen("18446744073709551615", usize::MAX), Ok(usize::MAX));
    assert_eq!(chosen("0", 5), Err(ActionInputError::NoSuchAction));
}

#[test]
fn action_input_returns_words() {
    let (n, argc, argv) = action_input("2 x\n", 3).unwrap();
    assert_eq!(n, 2);
    assert_eq!(argc, 2);
    assert_eq!(argv, vec!["2".to_string(), "x".to_string()]);
}

#[test]
fn action_input_error_texts() {
    assert_eq!(action_input("abc\n", 2).unwrap_err().message(), "Oops! Invalid action. Try again, please.");
    assert_eq!(action_input("99\n", 2).unwrap_err().message(), "Auch! Invalid action. Try again, please.");
}

#[test]
fn split_words_on_unicode_spaces() {
    assert_eq!(split_words(""), Vec::<String>::new());
    assert_eq!(split_words(" \t "), Vec::<String>::new());
    assert_eq!(split_words("a"), vec!["a".to_string()]);
    assert_eq!(
        split_words("  ab\u{3000}c d\n"),
        vec!["ab".to_string(), "c".to_string(), "d".to_string()]
    );
}

#[test]
fn error_messages() {
    assert_eq!(ActionInputError::NotANumber.message(), "Oops! Invalid action. Try again, please.");
    assert_eq!(ActionInputError::OutOfRange.message(), "Auch! Invalid action. Try again, please.");
    assert_eq!(ActionInputError::NoSuchAction.message(), "Invalid action. Try again.");
    assert_eq!(ActionInputError::NoInput.message(), "No action entered. Try again, please.");
    assert_eq!(RoutingError::NoSeparator.message(), "destination address has no workchain");
    assert_eq!(RoutingError::BadWorkchain.message(), "invalid workchain in destination address");
}

#[test]
fn has_words_skips_unicode_spaces() {
    assert!(!has_words(""));
    assert!(!has_words(" \t\r\n\u{3000}\u{a0}"));
    assert!(has_words("  x "));
}

#[test]
fn classify_capability_call() {
    let dst = format!("{}:{}", DEBOT_WC, "abcd");
    match classify(&dst, "0:src") {
        Ok(Route::Interface { id, debot }) => {
            assert_eq!(id, "abcd");
            assert_eq!(debot, "0:src");
        }
        _ => panic!("expected a capability call"),
    }
}

#[test]
fn classify_bot_message() {
    match classify("0:1234", "0:src") {
        Ok(Route::Debot { addr }) => assert_eq!(addr, "0:1234"),
        _ => panic!("expected a bot message"),
    }
    match classify("+127:1", "x") {
        Ok(Route::Debot { addr }) => assert_eq!(addr, "+127:1"),
        _ => panic!("expected a bot message"),
    }
    match classify("-128:1", "x") {
        Ok(Route::Debot { addr }) => assert_eq!(addr, "-128:1"),
        _ => panic!("expected a bot message"),
    }
}

#[test]
fn classify_errors() {
    assert!(matches!(classify("0abc", "x"), Err(RoutingError::NoSeparator)));
    assert!(matches!(classify(":abc", "x"), Err(RoutingError::BadWorkchain)));
    assert!(matches!(classify("128:abc", "x"), Err(RoutingError::BadWorkchain)));
    assert!(matches!(classify("-129:abc", "x"), Err(RoutingError::BadWorkchain)));
    assert!(matches!(classify("x1:abc", "x"), Err(RoutingError::BadWorkchain)));
}

#[test]
fn capability_id_stops_at_next_colon() {
    match classify("-31:ab:cd", "s") {
        Ok(Route::Interface { id, .. }) => assert_eq!(id, "ab"),
        _ => panic!("expected a capability call"),
    }
}

#[test]
fn unknown_capability_is_dropped() {
    let r = interface_reply::<u8>(None);
    assert!(matches!(r, Ok(None)));
}

#[test]
fn capability_error_is_passed_on() {
    let r = interface_reply::<u8>(Some(Err("boom".to_string())));
    assert!(matches!(r, Err(ref e) if e == "boom"));
}

#[test]
fn capability_reply_names_function_in_hex() {
    match interface_reply(Some(Ok((0x1a2bu32, 7u8)))) {
        Ok(Some(reply)) => {
            assert_eq!(reply.function, Some("0x1a2b".to_string()));
            assert_eq!(reply.output, 7);
        }
        _ => panic!("expected a reply"),
    }
    match interface_reply(Some(Ok((0u32, 9u8)))) {
        Ok(Some(reply)) => {
            assert_eq!(reply.function, None);
            assert_eq!(reply.output, 9);
        }
        _ => panic!("expected a reply"),
    }
}

#[test]
fn reply_function_hex() {
    assert_eq!(reply_function(0), None);
    assert_eq!(reply_function(255), Some("0xff".to_string()));
    assert_eq!(reply_function(16), Some("0x10".to_string()));
    assert_eq!(reply_function(u32::MAX), Some("0xffffffff".to_string()));
}

#[test]
fn registry_lookup_or_create() {
    let mut reg = Registry::new();
    assert_eq!(reg.find("0:a"), None);
    assert_eq!(reg.add("0:a".to_string()), 0);
    assert_eq!(reg.add("0:b".to_string()), 1);
    assert_eq!(reg.find("0:a"), Some(0));
    assert_eq!(reg.find("0:b"), Some(1));
    assert_eq!(reg.find("0:c"), None);
    assert_eq!(reg.len(), 2);
}

#[test]
fn same_text_compares_characters() {
    assert!(same_text("", ""));
    assert!(same_text("0:ab", "0:ab"));
    assert!(!same_text("0:ab", "0:ac"));
    assert!(!same_text("0:ab", "0:abc"));
}

#[test]
fn take_messages_keeps_order() {
    let mut s: ActiveState<u8> = ActiveState::new();
    s.send("a".to_string());
    s.send("b".to_string());
    let mut q = std::collections::VecDeque::new();
    q.push_back("z".to_string());
    s.take_messages(&mut q);
    assert_eq!(q, vec!["z".to_string(), "a".to_string(), "b".to_string()]);
    assert!(s.msg_queue.is_empty());
}

#[test]
fn action_at_is_one_based() {
    let mut s: ActiveState<&str> = ActiveState::new();
    s.show_action("a");
    s.show_action("b");
    assert_eq!(s.action_at(0), None);
    assert_eq!(s.action_at(1), Some(&"a"));
    assert_eq!(s.action_at(2), Some(&"b"));
    assert_eq!(s.action_at(3), None);
}

#[test]
fn hex_text_matches_lower_hex() {
    for n in [0u32, 1, 9, 10, 15, 16, 255, 256, 0xdead_beef, u32::MAX] {
        assert_eq!(hex_text(n), format!("{:x}", n));
    }
}

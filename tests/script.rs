use node_simulator::script::{remove_comments, remove_dummy_char_from_usage_string};

#[test]
fn comments_are_cut_from_a_line() {
    assert_eq!("add node --id 1 ", remove_comments("add node --id 1 // first node"));
    assert_eq!("", remove_comments("// a whole comment"));
    assert_eq!("step 5", remove_comments("step 5"));
    assert_eq!("a/b ", remove_comments("a/b // c // d"));
    assert_eq!("/", remove_comments("/"));
    assert_eq!("", remove_comments(""));
}

#[test]
fn usage_lines_lose_the_placeholder() {
    assert_eq!(
        "error: unrecognized subcommand\nUsage: <COMMAND>\n",
        remove_dummy_char_from_usage_string(
            "error: unrecognized subcommand\nUsage: @ <COMMAND>".to_string()
        )
    );
    assert_eq!("a\n\nb\n", remove_dummy_char_from_usage_string("a\r\n\nb\n".to_string()));
    assert_eq!("@x\n", remove_dummy_char_from_usage_string("@@ x".to_string()));
    assert_eq!("", remove_dummy_char_from_usage_string(String::new()));
    assert_eq!("\n", remove_dummy_char_from_usage_string("\n".to_string()));
}

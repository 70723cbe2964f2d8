use maelstrom_rust::tag_of;

#[test]
fn single_word_is_lower_cased() {
    assert_eq!(tag_of("Init"), "init");
    assert_eq!(tag_of("Echo"), "echo");
    assert_eq!(tag_of("Topology"), "topology");
}

#[test]
fn words_are_joined_by_underscores() {
    assert_eq!(tag_of("EchoOk"), "echo_ok");
    assert_eq!(tag_of("InitOk"), "init_ok");
    assert_eq!(tag_of("BroadcastOk"), "broadcast_ok");
    assert_eq!(tag_of("ReadOk"), "read_ok");
    assert_eq!(tag_of("CompareAndSwapOk"), "compare_and_swap_ok");
}

#[test]
fn tag_is_not_the_name_itself() {
    assert_ne!(tag_of("EchoOk"), "EchoOk");
    assert_ne!(tag_of("Init"), "Init");
}

#[test]
fn empty_name_gives_empty_tag() {
    assert_eq!(tag_of(""), "");
}

#[test]
fn same_name_gives_same_tag() {
    assert_eq!(tag_of("GenerateOk"), tag_of("GenerateOk"));
}

#[test]
fn digits_and_runs_of_capitals_are_words_of_their_own() {
    assert_eq!(tag_of("Echo2"), "echo_2");
    assert_eq!(tag_of("HTTPRequest"), "http_request");
    assert_eq!(tag_of("InitXX"), "init_xx");
    assert_eq!(tag_of("A"), "a");
}

fn capitalised(word: &str) -> String {
    let mut letters = word.chars();
    match letters.next() {
        Some(first) => first.to_uppercase().chain(letters).collect(),
        None => String::new(),
    }
}

#[test]
fn every_pascal_name_gives_its_words_joined_by_underscores() {
    let words = ["init", "echo", "ok", "read", "compare", "and", "swap", "kv", "topology"];
    for first in words {
        assert_eq!(tag_of(&capitalised(first)), first);
        for second in words {
            let name = format!("{}{}", capitalised(first), capitalised(second));
            assert_eq!(tag_of(&name), format!("{}_{}", first, second), "{}", name);
            for third in words {
                let name = format!("{}{}", name, capitalised(third));
                assert_eq!(tag_of(&name), format!("{}_{}_{}", first, second, third), "{}", name);
            }
        }
    }
}

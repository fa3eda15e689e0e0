use first_word::first_word;

#[test]
fn hello_world() {
    assert_eq!(first_word("Hello world"), "Hello");
}

#[test]
fn helo_world() {
    assert_eq!(first_word("Helo world"), "Helo");
}

#[test]
fn single_word() {
    assert_eq!(first_word("single"), "single");
}

#[test]
fn empty_buffer() {
    assert_eq!(first_word(""), "");
    assert_eq!(first_word("").len(), 0);
}

#[test]
fn leading_space() {
    assert_eq!(first_word(" abc"), "");
    assert_eq!(first_word(" abc").len(), 0);
}

#[test]
fn no_space_returns_whole_buffer() {
    assert_eq!(first_word("abcdef"), "abcdef");
    assert_eq!(first_word("a"), "a");
}

#[test]
fn truncates_at_first_space_only() {
    assert_eq!(first_word("a b c"), "a");
    assert_eq!(first_word("one  two"), "one");
    assert_eq!(first_word("tab\tkept unless space"), "tab\tkept");
}

#[test]
fn view_into_owned_buffer() {
    let buffer = String::from("alpha beta");
    let word = first_word(&buffer);
    assert_eq!(word, "alpha");
}

#[test]
fn space_only_and_trailing_space() {
    assert_eq!(first_word(" "), "");
    assert_eq!(first_word("word "), "word");
}

#[test]
fn non_ascii_characters() {
    assert_eq!(first_word("héllo wörld"), "héllo");
    assert_eq!(first_word("日本語 text"), "日本語");
}

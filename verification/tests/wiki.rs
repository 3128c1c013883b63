use lotr_mod_bot::wiki::{capitalize, page_name, split_words, wiki_url, WIKI_BASE};

fn strings(words: &[&str]) -> Vec<String> {
    words.iter().map(|w| w.to_string()).collect()
}

#[test]
fn split_words_cuts_at_white_space() {
    assert_eq!(split_words("the one ring"), strings(&["the", "one", "ring"]));
    assert_eq!(split_words("  minas\t tirith\n"), strings(&["minas", "tirith"]));
    assert_eq!(split_words("gondor"), strings(&["gondor"]));
}

#[test]
fn split_words_of_nothing_is_empty() {
    assert_eq!(split_words(""), Vec::<String>::new());
    assert_eq!(split_words(" \t\r\n"), Vec::<String>::new());
}

#[test]
fn split_words_knows_white_space_beyond_ascii() {
    assert_eq!(split_words("a\u{3000}b\u{a0}c\u{2003}d"), strings(&["a", "b", "c", "d"]));
    assert_eq!(split_words("\u{e9}t\u{e9} \u{fc}ber"), strings(&["\u{e9}t\u{e9}", "\u{fc}ber"]));
}

#[test]
fn split_words_agrees_with_split_whitespace() {
    let text = " The  Lord\tof the\u{2028}Rings \u{1680} mod ";
    let expected: Vec<String> = text.split_whitespace().map(|w| w.to_string()).collect();
    assert_eq!(split_words(text), expected);
}

#[test]
fn capitalize_raises_a_small_first_letter() {
    assert_eq!(capitalize("ring"), Some("Ring".to_string()));
    assert_eq!(capitalize("a"), Some("A".to_string()));
    assert_eq!(capitalize("z"), Some("Z".to_string()));
    assert_eq!(capitalize("mOrDoR"), Some("MOrDoR".to_string()));
}

#[test]
fn capitalize_keeps_other_ascii_first_characters() {
    assert_eq!(capitalize("Ring"), Some("Ring".to_string()));
    assert_eq!(capitalize("1.7.10"), Some("1.7.10".to_string()));
    assert_eq!(capitalize("`x"), Some("`x".to_string()));
    assert_eq!(capitalize("{x"), Some("{x".to_string()));
    assert_eq!(capitalize("\u{7f}"), Some("\u{7f}".to_string()));
}

#[test]
fn capitalize_keeps_what_follows_the_first_character() {
    assert_eq!(capitalize("th\u{e9}oden"), Some("Th\u{e9}oden".to_string()));
}

#[test]
fn capitalize_refuses_empty_and_non_ascii_starts() {
    assert_eq!(capitalize(""), None);
    assert_eq!(capitalize("\u{e9}owyn"), None);
    assert_eq!(capitalize("\u{80}"), None);
}

#[test]
fn page_name_joins_capitals_by_underscores() {
    assert_eq!(page_name(&strings(&["the", "one", "ring"])), Some("The_One_Ring".to_string()));
    assert_eq!(page_name(&strings(&["gondor"])), Some("Gondor".to_string()));
    assert_eq!(page_name(&strings(&[])), Some(String::new()));
}

#[test]
fn page_name_refuses_a_word_without_ascii_start() {
    assert_eq!(page_name(&strings(&["the", "\u{e9}owyn"])), None);
    assert_eq!(page_name(&strings(&["the", ""])), None);
}

#[test]
fn wiki_url_names_the_page() {
    assert_eq!(WIKI_BASE, "https://lotrminecraftmod.fandom.com/");
    assert_eq!(
        wiki_url("the one ring"),
        Some("https://lotrminecraftmod.fandom.com/The_One_Ring".to_string())
    );
    assert_eq!(
        wiki_url("  minas   tirith "),
        Some("https://lotrminecraftmod.fandom.com/Minas_Tirith".to_string())
    );
}

#[test]
fn wiki_url_without_words_is_the_base() {
    assert_eq!(wiki_url(""), Some("https://lotrminecraftmod.fandom.com/".to_string()));
    assert_eq!(wiki_url("   "), Some("https://lotrminecraftmod.fandom.com/".to_string()));
}

#[test]
fn wiki_url_refuses_a_word_without_ascii_start() {
    assert_eq!(wiki_url("the \u{e9}owyn"), None);
}

//! Links into the wiki: the words of a request become the name of a page.
//!
//! The words are the runs of characters between white space. Each word gets
//! a capital first letter, and the words are joined by underscores, so that
//! `the one ring` names the page `The_One_Ring`.

use vstd::prelude::*;
use vstd::string::{StrSliceExecFns, StringExecFns, StringSliceAdditionalSpecFns};

verus! {

/// The address under which the wiki's pages stand.
pub const WIKI_BASE: &'static str = "https://lotrminecraftmod.fandom.com/";

/// What joins the words of a page's name.
pub const WORD_JOINT: &'static str = "_";

/// Whether a character has Unicode's `White_Space` property.
pub uninterp spec fn is_white_space(c: char) -> bool;

/// `char::is_whitespace` of std: whether the character has Unicode's
/// `White_Space` property. The contract gives that answer a name and says
/// nothing of which characters have the property.
pub assume_specification[ char::is_whitespace ](c: char) -> (b: bool)
    ensures
        b == is_white_space(c),
;

/// `String::push` of std: appends one character to the end of the string.
#[verifier::external_body]
fn push_char(text: &mut String, c: char)
    ensures
        final(text)@ == old(text)@.push(c),
{
    text.push(c);
}

/// Each part with the separator before it, one after the other.
pub open spec fn separated(parts: Seq<Seq<char>>, sep: Seq<char>) -> Seq<char>
    decreases parts.len(),
{
    if parts.len() == 0 {
        Seq::empty()
    } else {
        sep + parts.first() + separated(parts.drop_first(), sep)
    }
}

/// The parts one after the other, with the separator between each two.
pub open spec fn joined(parts: Seq<Seq<char>>, sep: Seq<char>) -> Seq<char> {
    if parts.len() == 0 {
        Seq::empty()
    } else {
        parts.first() + separated(parts.drop_first(), sep)
    }
}

/// `itertools::free::join`: writes the items one after the other into a new
/// string, with `sep` between each two; no items give the empty string. The
/// function sizes its buffer by the separator's length in bytes times the
/// number of items left after the first, so the contract asks that this
/// product fits.
#[verifier::external_body]
fn join_with(parts: &Vec<String>, sep: &str) -> (text: String)
    requires
        sep.spec_bytes().len() * parts@.len() <= usize::MAX,
    ensures
        text@ == joined(parts.deep_view(), sep@),
{
    itertools::free::join(parts, sep)
}

/// The word `open`, if it has begun.
pub open spec fn finished(open: Seq<char>) -> Seq<Seq<char>> {
    if open.len() == 0 {
        Seq::empty()
    } else {
        seq![open]
    }
}

/// The words that `text` holds when the word `open` has begun before it.
pub open spec fn words_after(open: Seq<char>, text: Seq<char>) -> Seq<Seq<char>>
    decreases text.len(),
{
    if text.len() == 0 {
        finished(open)
    } else if is_white_space(text.first()) {
        finished(open) + words_after(Seq::empty(), text.drop_first())
    } else {
        words_after(open.push(text.first()), text.drop_first())
    }
}

/// The words of a text: its longest runs of characters that are not white
/// space, in their order.
pub open spec fn words(text: Seq<char>) -> Seq<Seq<char>> {
    words_after(Seq::empty(), text)
}

/// Whether a sequence of characters can be a word: it is not empty and holds
/// no white space.
pub open spec fn is_word(word: Seq<char>) -> bool {
    word.len() > 0 && forall|i: int| 0 <= i < word.len() ==> !is_white_space(#[trigger] word[i])
}

/// Where the word that has begun holds no white space, every word that
/// follows from it is a word.
proof fn lemma_words_after_are_words(begun: Seq<char>, text: Seq<char>)
    requires
        forall|i: int| 0 <= i < begun.len() ==> !is_white_space(#[trigger] begun[i]),
    ensures
        forall|i: int|
            0 <= i < words_after(begun, text).len() ==> is_word(
                #[trigger] words_after(begun, text)[i],
            ),
    decreases text.len(),
{
    let found = words_after(begun, text);
    if text.len() == 0 {
        assert forall|i: int| 0 <= i < found.len() implies is_word(#[trigger] found[i]) by {
            assert(found[i] == begun);
        }
    } else if is_white_space(text.first()) {
        let after = words_after(Seq::empty(), text.drop_first());
        lemma_words_after_are_words(Seq::empty(), text.drop_first());
        assert forall|i: int| 0 <= i < found.len() implies is_word(#[trigger] found[i]) by {
            if i < finished(begun).len() {
                assert(found[i] == begun);
            } else {
                assert(found[i] == after[i - finished(begun).len()]);
            }
        }
    } else {
        let longer = begun.push(text.first());
        assert forall|i: int| 0 <= i < longer.len() implies !is_white_space(
            #[trigger] longer[i],
        ) by {
            if i < begun.len() {
                assert(longer[i] == begun[i]);
            }
        }
        lemma_words_after_are_words(longer, text.drop_first());
        assert(found == words_after(longer, text.drop_first()));
    }
}

/// Every word of a text has at least one character and holds no white
/// space.
pub proof fn law_words_hold_no_white_space(text: Seq<char>)
    ensures
        forall|i: int| 0 <= i < words(text).len() ==> is_word(#[trigger] words(text)[i]),
{
    lemma_words_after_are_words(Seq::empty(), text);
}

/// One step through a text: a white space ends the word that has begun, and
/// any other character goes on with it.
proof fn lemma_words_step(done: Seq<Seq<char>>, begun: Seq<char>, rest: Seq<char>)
    requires
        rest.len() > 0,
    ensures
        is_white_space(rest.first()) ==> done + words_after(begun, rest) == (done + finished(
            begun,
        )) + words_after(Seq::empty(), rest.drop_first()),
        !is_white_space(rest.first()) ==> done + words_after(begun, rest) == done + words_after(
            begun.push(rest.first()),
            rest.drop_first(),
        ),
{
    if is_white_space(rest.first()) {
        let after = words_after(Seq::empty(), rest.drop_first());
        assert(words_after(begun, rest) == finished(begun) + after);
        assert(done + (finished(begun) + after) =~= (done + finished(begun)) + after);
    }
}

/// Splits a text into its words.
pub fn split_words(text: &str) -> (found: Vec<String>)
    ensures
        found.deep_view() == words(text@),
{
    let mut found: Vec<String> = Vec::new();
    let mut word = String::new();
    let ghost mut done: Seq<Seq<char>> = Seq::empty();
    assert(found.deep_view() =~= done);
    assert(text@.skip(0) =~= text@);
    assert(done + words(text@) =~= words(text@));
    for c in it: text.chars()
        invariant
            it.seq() == text@,
            found.deep_view() == done,
            words(text@) == done + words_after(word@, text@.skip(it.index() as int)),
    {
        proof {
            let rest = text@.skip(it.index() as int);
            assert(rest.first() == c);
            assert(rest.drop_first() =~= text@.skip(it.index() + 1));
            lemma_words_step(done, word@, rest);
        }
        if c.is_whitespace() {
            proof {
                done = done + finished(word@);
            }
            if !word.as_str().is_empty() {
                found.push(word);
                word = String::new();
            }
            assert(found.deep_view() =~= done);
            assert(word@ =~= Seq::<char>::empty());
        } else {
            push_char(&mut word, c);
        }
    }
    proof {
        assert(text@.skip(text@.len() as int).len() == 0);
        done = done + finished(word@);
    }
    if !word.as_str().is_empty() {
        found.push(word);
    }
    assert(found.deep_view() =~= done);
    found
}

/// Whether a character is one of the 128 of ASCII.
pub open spec fn is_ascii_char(c: char) -> bool {
    c <= '\u{7f}'
}

/// The upper-case form of an ASCII character: the capital of a small letter,
/// and any other character itself.
pub open spec fn ascii_upper(c: char) -> char {
    if 'a' <= c <= 'z' {
        ((c as u8) - 32) as u8 as char
    } else {
        c
    }
}

/// Whether a word can get a capital: it has a first character, and that
/// character is one of ASCII.
pub open spec fn can_capitalize(word: Seq<char>) -> bool {
    word.len() > 0 && is_ascii_char(word.first())
}

/// A word with its first character in upper case.
pub open spec fn capitalized(word: Seq<char>) -> Seq<char> {
    seq![ascii_upper(word.first())] + word.drop_first()
}

/// Puts the first character of a word in upper case. Returns nothing for a
/// word that is empty or does not begin with an ASCII character.
pub fn capitalize(word: &str) -> (capital: Option<String>)
    ensures
        match capital {
            Some(text) => can_capitalize(word@) && text@ == capitalized(word@),
            None => !can_capitalize(word@),
        },
{
    if word.is_empty() {
        return None;
    }
    let first = word.get_char(0);
    if first > '\u{7f}' {
        return None;
    }
    let upper = if 'a' <= first && first <= 'z' {
        ((first as u8) - 32) as char
    } else {
        first
    };
    let mut text = String::new();
    push_char(&mut text, upper);
    text.append(word.substring_char(1, word.unicode_len()));
    assert(text@ =~= capitalized(word@));
    Some(text)
}

/// The name of the page that a sequence of words asks for: the words, each
/// with a capital, joined by underscores. There is none where a word cannot
/// get a capital.
pub open spec fn page_name_of(words: Seq<Seq<char>>) -> Option<Seq<char>> {
    if forall|i: int| 0 <= i < words.len() ==> can_capitalize(#[trigger] words[i]) {
        Some(joined(words.map_values(|w: Seq<char>| capitalized(w)), WORD_JOINT@))
    } else {
        None
    }
}

/// Builds the name of a page from the words of a request.
pub fn page_name(words: &Vec<String>) -> (name: Option<String>)
    ensures
        match name {
            Some(text) => page_name_of(words.deep_view()) == Some(text@),
            None => page_name_of(words.deep_view()) is None,
        },
{
    let ghost plain = words.deep_view();
    let mut capitals: Vec<String> = Vec::new();
    let mut i: usize = 0;
    while i < words.len()
        invariant
            i <= words.len(),
            plain == words.deep_view(),
            capitals.len() == i,
            forall|j: int| 0 <= j < i ==> can_capitalize(#[trigger] plain[j]),
            forall|j: int| 0 <= j < i ==> (#[trigger] capitals@[j])@ == capitalized(plain[j]),
        decreases words.len() - i,
    {
        match capitalize(words[i].as_str()) {
            Some(capital) => {
                capitals.push(capital);
            },
            None => {
                assert(!can_capitalize(plain[i as int]));
                return None;
            },
        }
        i += 1;
    }
    proof {
        reveal_strlit("_");
        assert(vstd::string::is_ascii(WORD_JOINT));
        vstd::string::is_ascii_spec_bytes(WORD_JOINT);
        assert(WORD_JOINT.spec_bytes().len() == 1);
        assert(capitals.deep_view() =~= plain.map_values(
            |w: Seq<char>| capitalized(w),
        ));
    }
    Some(join_with(&capitals, WORD_JOINT))
}

/// The address of the page that a request asks for: the wiki's address
/// followed by the page's name.
pub open spec fn wiki_url_of(request: Seq<char>) -> Option<Seq<char>> {
    match page_name_of(words(request)) {
        Some(name) => Some(WIKI_BASE@ + name),
        None => None,
    }
}

/// Turns the text of a request into the address of a wiki page. A request
/// without words gives the wiki's own address. Returns nothing where a word
/// of the request does not begin with an ASCII character.
pub fn wiki_url(request: &str) -> (url: Option<String>)
    ensures
        match url {
            Some(text) => wiki_url_of(request@) == Some(text@),
            None => wiki_url_of(request@) is None,
        },
{
    let found = split_words(request);
    match page_name(&found) {
        Some(name) => {
            let mut text = String::from_str(WIKI_BASE);
            text.append(name.as_str());
            Some(text)
        },
        None => None,
    }
}

} // verus!

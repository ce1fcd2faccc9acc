use term_chat::wrap::wrap_text;

fn lines(text: &str, width: usize) -> Vec<String> {
    wrap_text(text, width)
}

#[test]
fn zero_width_returns_single_line() {
    let r = lines("hello\nworld", 0);
    assert_eq!(r, vec!["hello\nworld".to_string()]);
}

#[test]
fn zero_width_keeps_empty_text() {
    let r = lines("", 0);
    assert_eq!(r, vec!["".to_string()]);
}

#[test]
fn empty_text_is_one_empty_line() {
    let r = lines("", 10);
    assert_eq!(r, vec!["".to_string()]);
}

#[test]
fn greedy_wrap_exact() {
    let r = lines("hello world", 5);
    assert_eq!(r, vec!["hello".to_string(), " worl".to_string(), "d".to_string()]);
}

#[test]
fn newlines_split_paragraphs_and_blank_lines_stay() {
    let r = lines("ab\n\ncd", 10);
    assert_eq!(r, vec!["ab".to_string(), "".to_string(), "cd".to_string()]);
}

#[test]
fn wide_characters_count_double() {
    // Each CJK character has display width 2, so width 2 takes one per line.
    let r = lines("\u{4f60}\u{597d}", 2);
    assert_eq!(r, vec!["\u{4f60}".to_string(), "\u{597d}".to_string()]);
}

#[test]
fn wide_characters_fit_two_per_width_four() {
    let r = lines("\u{4f60}\u{597d}\u{5417}", 4);
    assert_eq!(r, vec!["\u{4f60}\u{597d}".to_string(), "\u{5417}".to_string()]);
}

#[test]
fn character_wider_than_width_stands_alone() {
    // A double-width character cannot fit a width-1 line; the empty line in
    // front is the flushed (still empty) accumulator.
    let r = lines("\u{4f60}", 1);
    assert_eq!(r, vec!["".to_string(), "\u{4f60}".to_string()]);
}

#[test]
fn rejoined_lines_keep_every_character() {
    let text = "the quick brown fox\njumps over the lazy dog";
    let r = lines(text, 4);
    let joined: String = r.concat();
    let stripped: String = text.chars().filter(|c| *c != '\n').collect();
    assert_eq!(joined, stripped);
}

#[test]
fn no_line_is_wider_than_the_width() {
    let text = "a bb ccc dddd eeeee ffffff\u{4f60}\u{597d} ggg";
    for width in 2..12usize {
        for line in lines(text, width) {
            let w: usize = line
                .chars()
                .map(|c| unicode_width::UnicodeWidthChar::width(c).unwrap_or(1))
                .sum();
            assert!(w <= width, "line {:?} wider than {}", line, width);
        }
    }
}

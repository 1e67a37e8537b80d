use qmem::text::is_whitespace;
use qmem::note::Note;
use qmem::search::select_matching;
use qmem::text::{is_blank_text, lowered_chars, occurs, same_text};

#[test]
fn blank_texts() {
    assert!(is_blank_text(""));
    assert!(is_blank_text(" \n\t\r"));
    assert!(is_blank_text("\u{3000}\u{feff}\u{a0}"));
    assert!(!is_blank_text(" a "));
    assert!(!is_blank_text("\u{200b}"));
    assert!(is_blank_text("\u{85}\u{2028}\u{205f}\u{1680}"));
    assert!(!is_blank_text("\u{180e}"));
}

#[test]
fn lowering_touches_ascii_letters_only() {
    assert_eq!(lowered_chars("AbZ-ÉÅ１"), vec!['a', 'b', 'z', '-', 'É', 'Å', '１']);
}

#[test]
fn occurrence() {
    let hay: Vec<char> = "abcabd".chars().collect();
    assert!(occurs(&"abd".chars().collect(), &hay));
    assert!(occurs(&Vec::new(), &hay));
    assert!(!occurs(&"abe".chars().collect(), &hay));
    assert!(!occurs(&"abcabdx".chars().collect(), &hay));
}

#[test]
fn text_equality() {
    assert!(same_text("新規", "新規"));
    assert!(!same_text("a", "A"));
}

fn note(id: i64, body: &str, created_at: i64) -> Note {
    Note { id, body: body.to_string(), created_at, updated_at: created_at }
}

#[test]
fn selecting_matching_rows() {
    let rows = vec![note(1, "Alpha", 5), note(2, "beta", 9), note(3, "ALPHABET", 5), note(4, "gamma", 1)];
    let out = select_matching(&rows, "alpha");
    let ids: Vec<i64> = out.iter().map(|n| n.id).collect();
    assert_eq!(ids, vec![3, 1]);
    let all: Vec<i64> = select_matching(&rows, "").iter().map(|n| n.id).collect();
    assert_eq!(all, vec![2, 3, 1, 4]);
}

#[test]
fn whitespace_property() {
    for c in ['\t', '\n', '\u{b}', '\u{c}', '\r', ' ', '\u{85}', '\u{a0}', '\u{1680}', '\u{2000}', '\u{200a}', '\u{2028}', '\u{2029}', '\u{202f}', '\u{205f}', '\u{3000}'] {
        assert!(is_whitespace(c));
        assert_eq!(is_whitespace(c), c.is_whitespace());
    }
    for c in ['a', '\u{200b}', '\u{180e}', '\u{feff}', '\u{2060}'] {
        assert!(!is_whitespace(c));
        assert_eq!(is_whitespace(c), c.is_whitespace());
    }
}

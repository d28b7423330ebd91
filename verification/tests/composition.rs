use umlautkey::de::methods::IncrementalBuffer;
use umlautkey::de::rules::{get_default_rules, Action, Definition};

fn typed(keys: &str) -> String {
    let rules = get_default_rules();
    let mut buffer = IncrementalBuffer::new(&rules);
    for c in keys.chars() {
        buffer.push(c);
    }
    buffer.view().to_string()
}

#[test]
fn readme_table() {
    assert_eq!(typed("ae"), "ä");
    assert_eq!(typed("aee"), "ae");
    assert_eq!(typed("oe"), "ö");
    assert_eq!(typed("oee"), "oe");
    assert_eq!(typed("ue"), "ü");
    assert_eq!(typed("uee"), "ue");
    assert_eq!(typed("ss"), "ß");
    assert_eq!(typed("sss"), "ss");
    assert_eq!(typed("$"), "€");
}

#[test]
fn composition_inside_words() {
    assert_eq!(typed("Maedchen"), "Mädchen");
    assert_eq!(typed("Strasse"), "Straße");
    assert_eq!(typed("Uebung"), "Übung");
    assert_eq!(typed("schoen"), "schön");
}

#[test]
fn second_e_keeps_its_case() {
    assert_eq!(typed("aeE"), "aE");
    assert_eq!(typed("AEe"), "Ae");
    assert_eq!(typed("OeE"), "OE");
}

#[test]
fn third_s_restores_lower_case() {
    assert_eq!(typed("SSS"), "ss");
    assert_eq!(typed("SsS"), "ss");
}

#[test]
fn euro_keeps_the_text_before_it() {
    assert_eq!(typed("a$"), "a€");
    assert_eq!(typed("5$"), "5€");
    assert_eq!(typed("$$"), "€€");
    assert_eq!(typed("ae$"), "ä€");
}

#[test]
fn e_without_vowel_is_plain() {
    assert_eq!(typed("e"), "e");
    assert_eq!(typed("be"), "be");
    assert_eq!(typed("E"), "E");
}

#[test]
fn s_after_other_key_is_plain() {
    assert_eq!(typed("s"), "s");
    assert_eq!(typed("as"), "as");
}

#[test]
fn plain_keys_pass_through() {
    assert_eq!(typed("hello world 123"), "hello world 123");
    assert_eq!(typed(""), "");
}

#[test]
fn clear_resets_history_and_text() {
    let rules = get_default_rules();
    let mut buffer = IncrementalBuffer::new(&rules);
    buffer.push('a');
    buffer.clear();
    assert_eq!(buffer.view(), "");
    // The `a` is forgotten: the `e` is not composed with it.
    buffer.push('e');
    assert_eq!(buffer.view(), "e");
}

#[test]
fn empty_definition_composes_nothing_but_undo_and_euro() {
    let rules = Definition::new();
    let mut buffer = IncrementalBuffer::new(&rules);
    for c in "aess".chars() {
        buffer.push(c);
    }
    assert_eq!(buffer.view(), "aess");
    buffer.push('$');
    assert_eq!(buffer.view(), "aess€");
}

#[test]
fn definition_insert_and_get() {
    let mut rules = Definition::new();
    assert!(rules.get('x').is_none());
    rules.insert('x', Action::ModifyToEszett);
    assert_eq!(rules.get('x'), Some(&Action::ModifyToEszett));
    rules.insert('x', Action::ModifyToUmlaut);
    assert_eq!(rules.get('x'), Some(&Action::ModifyToUmlaut));
    assert!(rules.get('y').is_none());
}

#[test]
fn default_rules_content() {
    let rules = get_default_rules();
    assert_eq!(rules.get('e'), Some(&Action::ModifyToUmlaut));
    assert_eq!(rules.get('E'), Some(&Action::ModifyToUmlaut));
    assert_eq!(rules.get('s'), Some(&Action::ModifyToEszett));
    assert_eq!(rules.get('S'), Some(&Action::ModifyToEszett));
    assert!(rules.get('a').is_none());
}

#[test]
fn custom_trigger_key() {
    // `x` composes umlauts under this table, `e` does nothing special.
    let mut rules = Definition::new();
    rules.insert('x', Action::ModifyToUmlaut);
    let mut buffer = IncrementalBuffer::new(&rules);
    buffer.push('a');
    buffer.push('X');
    assert_eq!(buffer.view(), "ä");
}

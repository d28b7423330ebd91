use vstd::prelude::*;
use crate::de::rules::{Action, Definition};
use crate::text::{
    ascii_lower, ends_in, pop_last, is_uppercase, string_clear, string_ends_with, string_pop,
    string_push, to_ascii_lowercase,
};

verus! {

/// The composed letter that a trigger of `Action::ModifyToUmlaut` makes of
/// the key typed before it.
pub open spec fn umlaut_of(c: char) -> Option<char> {
    if c == 'a' {
        Some('ä')
    } else if c == 'A' {
        Some('Ä')
    } else if c == 'o' {
        Some('ö')
    } else if c == 'O' {
        Some('Ö')
    } else if c == 'u' {
        Some('ü')
    } else if c == 'U' {
        Some('Ü')
    } else {
        None
    }
}

/// The plain vowel of a composed umlaut letter: what a further `e` restores.
pub open spec fn vowel_of(c: char) -> Option<char> {
    if c == 'ä' {
        Some('a')
    } else if c == 'Ä' {
        Some('A')
    } else if c == 'ü' {
        Some('u')
    } else if c == 'Ü' {
        Some('U')
    } else if c == 'ö' {
        Some('o')
    } else if c == 'Ö' {
        Some('O')
    } else {
        None
    }
}

/// What a key `ch` whose lower-case form `key` is looked up in `rules` does
/// to the output `out`, given the keys `hist` typed through the rules before.
pub open spec fn rule_output(
    rules: Map<char, Action>,
    hist: Seq<char>,
    out: Seq<char>,
    ch: char,
    key: char,
) -> Seq<char> {
    if rules.contains_key(key) {
        match rules[key] {
            Action::ModifyToUmlaut => {
                if hist.len() > 0 && umlaut_of(hist.last()) is Some {
                    pop_last(out).push(umlaut_of(hist.last())->0)
                } else {
                    out.push(ch)
                }
            },
            Action::ModifyToEszett => {
                if hist.len() > 0 && (hist.last() == 's' || hist.last() == 'S') {
                    pop_last(out).push('ß')
                } else {
                    out.push(ch)
                }
            },
        }
    } else {
        out.push(ch)
    }
}

/// One key `ch` typed into a buffer with history `hist` and output `out`:
/// the new history and the new output.
///
/// - `$` types `€`;
/// - an `e` right after a composed umlaut restores the plain vowel and
///   appends the `e` as typed;
/// - an `s` right after `ß` turns it back into `ss`;
/// - every other key goes through the rules and is recorded in the history.
pub open spec fn step(rules: Map<char, Action>, hist: Seq<char>, out: Seq<char>, ch: char) -> (
    Seq<char>,
    Seq<char>,
) {
    let key = ascii_lower(ch);
    if key == '$' {
        (hist, out.push('€'))
    } else if key == 'e' && out.len() > 0 && vowel_of(out.last()) is Some {
        (hist, out.drop_last().push(vowel_of(out.last())->0).push(ch))
    } else if key == 's' && ends_in(out, 'ß') {
        (hist, out.drop_last().push('s').push('s'))
    } else {
        (hist.push(ch), rule_output(rules, hist, out, ch, key))
    }
}

/// The history and output after typing every key of `input`, in order,
/// starting from history `hist` and output `out`.
pub open spec fn run(rules: Map<char, Action>, hist: Seq<char>, out: Seq<char>, input: Seq<char>) -> (
    Seq<char>,
    Seq<char>,
)
    decreases input.len(),
{
    if input.len() == 0 {
        (hist, out)
    } else {
        let before = run(rules, hist, out, input.drop_last());
        step(rules, before.0, before.1, input.last())
    }
}

/// The text that typing `input` into an empty buffer produces.
pub open spec fn transform(rules: Map<char, Action>, input: Seq<char>) -> Seq<char> {
    run(rules, Seq::empty(), Seq::empty(), input).1
}

/// A buffer that composes umlauts, eszett and euro signs key by key.
pub struct IncrementalBuffer<'def> {
    definition: &'def Definition,
    input_history: Vec<char>,
    output: String,
}

impl<'def> IncrementalBuffer<'def> {
    /// The rules the buffer applies.
    pub closed spec fn rules(&self) -> Map<char, Action> {
        self.definition@
    }

    /// The keys typed so far that went through the rules.
    pub closed spec fn history(&self) -> Seq<char> {
        self.input_history@
    }

    /// The composed text.
    pub closed spec fn output(&self) -> Seq<char> {
        self.output@
    }

    /// An empty buffer that applies `definition`.
    pub fn new(definition: &'def Definition) -> (b: Self)
        ensures
            b.rules() == definition@,
            b.history() == Seq::<char>::empty(),
            b.output() == Seq::<char>::empty(),
    {
        Self { definition, input_history: Vec::new(), output: String::new() }
    }

    /// Types one key.
    pub fn push(&mut self, ch: char)
        ensures
            final(self).rules() == old(self).rules(),
            (final(self).history(), final(self).output()) == step(
                old(self).rules(),
                old(self).history(),
                old(self).output(),
                ch,
            ),
    {
        let lowercase_ch = to_ascii_lowercase(ch);

        if lowercase_ch == '$' {
            string_push(&mut self.output, '€');
            return;
        }
        if lowercase_ch == 'e' && (string_ends_with(&self.output, 'ä') || string_ends_with(
            &self.output,
            'Ä',
        )) {
            let is_upper = string_ends_with(&self.output, 'Ä');
            string_pop(&mut self.output);
            string_push(&mut self.output, if is_upper { 'A' } else { 'a' });
            string_push(&mut self.output, if is_uppercase(ch) { 'E' } else { 'e' });
            return;
        }
        if lowercase_ch == 'e' && (string_ends_with(&self.output, 'ü') || string_ends_with(
            &self.output,
            'Ü',
        )) {
            let is_upper = string_ends_with(&self.output, 'Ü');
            string_pop(&mut self.output);
            string_push(&mut self.output, if is_upper { 'U' } else { 'u' });
            string_push(&mut self.output, if is_uppercase(ch) { 'E' } else { 'e' });
            return;
        }
        if lowercase_ch == 'e' && (string_ends_with(&self.output, 'ö') || string_ends_with(
            &self.output,
            'Ö',
        )) {
            let is_upper = string_ends_with(&self.output, 'Ö');
            string_pop(&mut self.output);
            string_push(&mut self.output, if is_upper { 'O' } else { 'o' });
            string_push(&mut self.output, if is_uppercase(ch) { 'E' } else { 'e' });
            return;
        }
        if lowercase_ch == 's' && string_ends_with(&self.output, 'ß') {
            string_pop(&mut self.output);
            string_push(&mut self.output, 's');
            string_push(&mut self.output, 's');
            return;
        }
        if let Some(action) = self.definition.get(lowercase_ch) {
            match action {
                Action::ModifyToUmlaut => {
                    // The key typed before this one decides the umlaut.
                    if let Some(last) = self.input_history.last() {
                        let last_char: char = *last;
                        match last_char {
                            'a' => {
                                string_pop(&mut self.output);
                                string_push(&mut self.output, 'ä');
                            },
                            'A' => {
                                string_pop(&mut self.output);
                                string_push(&mut self.output, 'Ä');
                            },
                            'o' => {
                                string_pop(&mut self.output);
                                string_push(&mut self.output, 'ö');
                            },
                            'O' => {
                                string_pop(&mut self.output);
                                string_push(&mut self.output, 'Ö');
                            },
                            'u' => {
                                string_pop(&mut self.output);
                                string_push(&mut self.output, 'ü');
                            },
                            'U' => {
                                string_pop(&mut self.output);
                                string_push(&mut self.output, 'Ü');
                            },
                            _ => {
                                string_push(&mut self.output, ch);
                            },
                        }
                    } else {
                        string_push(&mut self.output, ch);
                    }
                },
                Action::ModifyToEszett => {
                    let last: Option<char> = match self.input_history.last() {
                        Some(c) => Some(*c),
                        None => None,
                    };
                    if last == Some('s') {
                        string_pop(&mut self.output);
                        string_push(&mut self.output, 'ß');
                    } else if last == Some('S') {
                        string_pop(&mut self.output);
                        string_push(&mut self.output, 'ß');
                    } else {
                        string_push(&mut self.output, ch);
                    }
                },
            }
        } else {
            // A key that no rule names.
            string_push(&mut self.output, ch);
        }
        self.input_history.push(ch);
    }

    /// The composed text.
    pub fn view(&self) -> (s: &str)
        ensures
            s@ == self.output(),
    {
        self.output.as_str()
    }

    /// Forgets the history and the composed text.
    pub fn clear(&mut self)
        ensures
            final(self).rules() == old(self).rules(),
            final(self).history() == Seq::<char>::empty(),
            final(self).output() == Seq::<char>::empty(),
    {
        self.input_history.clear();
        string_clear(&mut self.output);
    }
}

} // verus!

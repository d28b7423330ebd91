//! What typing sequences of keys does, stated over the composition model.
use vstd::prelude::*;
use crate::de::methods::{run, step, umlaut_of, vowel_of};
use crate::de::rules::{default_rules, Action};
use crate::text::{ascii_lower, ends_in};

verus! {

/// `c` is `e` or `E`.
pub open spec fn is_e(c: char) -> bool {
    c == 'e' || c == 'E'
}

/// `c` is `s` or `S`.
pub open spec fn is_s(c: char) -> bool {
    c == 's' || c == 'S'
}

proof fn lemma_default_rules_facts()
    ensures
        default_rules().contains_key('e'),
        default_rules()['e'] == Action::ModifyToUmlaut,
        default_rules().contains_key('s'),
        default_rules()['s'] == Action::ModifyToEszett,
        forall|c: char| #[trigger] default_rules().contains_key(c) <==> (is_e(c) || is_s(c)),
{
}

proof fn lemma_run_two(rules: Map<char, Action>, h: Seq<char>, o: Seq<char>, a: char, b: char)
    ensures
        run(rules, h, o, seq![a, b]) == {
            let p = step(rules, h, o, a);
            step(rules, p.0, p.1, b)
        },
{
    assert(seq![a, b].drop_last() =~= seq![a]);
    assert(seq![a].drop_last() =~= Seq::<char>::empty());
    assert(run(rules, h, o, Seq::<char>::empty()) == (h, o));
    assert(run(rules, h, o, seq![a]) == step(rules, h, o, a));
}

proof fn lemma_run_three(
    rules: Map<char, Action>,
    h: Seq<char>,
    o: Seq<char>,
    a: char,
    b: char,
    c: char,
)
    ensures
        run(rules, h, o, seq![a, b, c]) == {
            let p = run(rules, h, o, seq![a, b]);
            step(rules, p.0, p.1, c)
        },
{
    assert(seq![a, b, c].drop_last() =~= seq![a, b]);
}

/// A vowel `a`, `o` or `u` (in either case) followed by `e` (in either case)
/// becomes the umlaut of the vowel, whatever was typed before.
pub proof fn lemma_vowel_e_composes(h: Seq<char>, o: Seq<char>, v: char, e: char)
    requires
        umlaut_of(v) is Some,
        is_e(e),
    ensures
        run(default_rules(), h, o, seq![v, e]) == (h.push(v).push(e), o.push(umlaut_of(v)->0)),
{
    lemma_default_rules_facts();
    lemma_run_two(default_rules(), h, o, v, e);
    assert(h.push(v).last() == v);
    assert(o.push(v).drop_last() =~= o);
}

/// A second `e` after a composed umlaut restores the vowel and keeps the
/// `e` as typed: `a`, `e`, `e` gives `ae`.
pub proof fn lemma_second_e_restores(h: Seq<char>, o: Seq<char>, v: char, e1: char, e2: char)
    requires
        umlaut_of(v) is Some,
        is_e(e1),
        is_e(e2),
    ensures
        run(default_rules(), h, o, seq![v, e1, e2]) == (h.push(v).push(e1), o.push(v).push(e2)),
{
    lemma_vowel_e_composes(h, o, v, e1);
    lemma_run_three(default_rules(), h, o, v, e1, e2);
    let out = o.push(umlaut_of(v)->0);
    assert(out.last() == umlaut_of(v)->0);
    assert(vowel_of(umlaut_of(v)->0) == Some(v));
    assert(out.drop_last() =~= o);
}

/// `c` is one of the vowels that an `e` turns into an umlaut: `a`, `o`, `u`
/// in either case.
pub open spec fn is_umlaut_vowel(c: char) -> bool {
    c == 'a' || c == 'A' || c == 'o' || c == 'O' || c == 'u' || c == 'U'
}

/// Exactly the vowels `a`, `o`, `u` (in either case) have an umlaut.
pub proof fn lemma_umlaut_vowels_exactly()
    ensures
        forall|c: char| #[trigger] umlaut_of(c) is Some <==> is_umlaut_vowel(c),
{
}

/// The umlaut of each vowel, for a vowel followed by `e` (in either case),
/// whatever was typed before: `ae` gives `ä`, `Ae` gives `Ä`, `oe` gives
/// `ö`, `Oe` gives `Ö`, `ue` gives `ü`, `Ue` gives `Ü`.
pub proof fn lemma_umlaut_table(h: Seq<char>, o: Seq<char>, e: char)
    requires
        is_e(e),
    ensures
        run(default_rules(), h, o, seq!['a', e]).1 == o.push('ä'),
        run(default_rules(), h, o, seq!['A', e]).1 == o.push('Ä'),
        run(default_rules(), h, o, seq!['o', e]).1 == o.push('ö'),
        run(default_rules(), h, o, seq!['O', e]).1 == o.push('Ö'),
        run(default_rules(), h, o, seq!['u', e]).1 == o.push('ü'),
        run(default_rules(), h, o, seq!['U', e]).1 == o.push('Ü'),
{
    lemma_vowel_e_composes(h, o, 'a', e);
    lemma_vowel_e_composes(h, o, 'A', e);
    lemma_vowel_e_composes(h, o, 'o', e);
    lemma_vowel_e_composes(h, o, 'O', e);
    lemma_vowel_e_composes(h, o, 'u', e);
    lemma_vowel_e_composes(h, o, 'U', e);
}

/// After a vowel and `e` composed, a further `e` gives back the vowel and the
/// `e` as typed, for each of `a`, `o`, `u` in either case.
pub proof fn lemma_second_e_table(h: Seq<char>, o: Seq<char>, v: char, e1: char, e2: char)
    requires
        is_umlaut_vowel(v),
        is_e(e1),
        is_e(e2),
    ensures
        run(default_rules(), h, o, seq![v, e1, e2]) == (h.push(v).push(e1), o.push(v).push(e2)),
{
    lemma_second_e_restores(h, o, v, e1, e2);
}

/// An `e` (in either case) typed after any other key than `a`, `o`, `u` (in
/// either case) is typed as it is: both keys are appended unchanged. The
/// keys excluded besides the vowels are those with a meaning of their own
/// (`e`, `s`, `$`) and the composed umlauts, after which an `e` undoes the
/// composition.
pub proof fn lemma_e_after_other_key_is_plain(h: Seq<char>, o: Seq<char>, v: char, e: char)
    requires
        is_e(e),
        !is_umlaut_vowel(v),
        !is_e(v),
        !is_s(v),
        v != '$',
        v != 'ä' && v != 'Ä' && v != 'ö' && v != 'Ö' && v != 'ü' && v != 'Ü',
    ensures
        run(default_rules(), h, o, seq![v, e]) == (h.push(v).push(e), o.push(v).push(e)),
{
    lemma_default_rules_facts();
    lemma_run_two(default_rules(), h, o, v, e);
    assert(h.push(v).last() == v);
    assert(o.push(v).last() == v);
    let key = ascii_lower(v);
    assert(key != 'e' && key != 's' && key != '$');
    assert(!default_rules().contains_key(key));
}

/// Two `s` (in any case) become `ß`, unless the text already ends with `ß`
/// or the key typed before them was an `s` too.
pub proof fn lemma_double_s_composes(h: Seq<char>, o: Seq<char>, s1: char, s2: char)
    requires
        is_s(s1),
        is_s(s2),
        !ends_in(o, 'ß'),
        !(h.len() > 0 && is_s(h.last())),
    ensures
        run(default_rules(), h, o, seq![s1, s2]) == (h.push(s1).push(s2), o.push('ß')),
{
    lemma_default_rules_facts();
    lemma_run_two(default_rules(), h, o, s1, s2);
    assert(h.push(s1).last() == s1);
    assert(o.push(s1).drop_last() =~= o);
}

/// A third `s` after `ß` turns it back into `ss`, in lower case.
pub proof fn lemma_third_s_restores(h: Seq<char>, o: Seq<char>, s1: char, s2: char, s3: char)
    requires
        is_s(s1),
        is_s(s2),
        is_s(s3),
        !ends_in(o, 'ß'),
        !(h.len() > 0 && is_s(h.last())),
    ensures
        run(default_rules(), h, o, seq![s1, s2, s3]) == (h.push(s1).push(s2), o.push('s').push(
            's',
        )),
{
    lemma_double_s_composes(h, o, s1, s2);
    lemma_run_three(default_rules(), h, o, s1, s2, s3);
    assert(o.push('ß').drop_last() =~= o);
}

/// `$` types `€` after the text, and leaves the history as it is.
pub proof fn lemma_dollar_gives_euro(rules: Map<char, Action>, h: Seq<char>, o: Seq<char>)
    ensures
        run(rules, h, o, seq!['$']) == (h, o.push('€')),
{
    assert(seq!['$'].drop_last() =~= Seq::<char>::empty());
    assert(run(rules, h, o, Seq::<char>::empty()) == (h, o));
}

/// Keys that are neither `$`, `e` nor `s` (in any case) and that no rule
/// names go through unchanged: each is appended to the history and to the
/// text.
pub proof fn lemma_plain_keys_pass_through(
    rules: Map<char, Action>,
    h: Seq<char>,
    o: Seq<char>,
    input: Seq<char>,
)
    requires
        forall|i: int|
            0 <= i < input.len() ==> {
                let key = #[trigger] ascii_lower(input[i]);
                &&& key != '$'
                &&& key != 'e'
                &&& key != 's'
                &&& !rules.contains_key(key)
            },
    ensures
        run(rules, h, o, input) == (h + input, o + input),
    decreases input.len(),
{
    if input.len() == 0 {
        assert(h + input =~= h);
        assert(o + input =~= o);
    } else {
        let prefix = input.drop_last();
        assert forall|i: int| 0 <= i < prefix.len() implies {
            let key = #[trigger] ascii_lower(prefix[i]);
            &&& key != '$'
            &&& key != 'e'
            &&& key != 's'
            &&& !rules.contains_key(key)
        } by {
            assert(prefix[i] == input[i]);
        }
        lemma_plain_keys_pass_through(rules, h, o, prefix);
        assert(input.last() == input[input.len() - 1]);
        assert((h + prefix).push(input.last()) =~= h + input);
        assert((o + prefix).push(input.last()) =~= o + input);
    }
}

} // verus!

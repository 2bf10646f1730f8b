//! The key notation reads back what it prints.
use vstd::prelude::*;
use crate::flow::{apply_modifiers, code_spec, code_text, function_code, is_key_sep, key_spec, key_text, name_chars, named_code, no_modifiers, normalized_name, shifted, split_parts, drop_leading_f, FlowKey, FlowKeyCode, FlowModifiers, KeyParseErrorView};
use crate::text::{all_digits, decimal, digit_char, digits_value, is_ascii_digit, is_ascii_lower, is_unicode_whitespace, lemma_end_non_ws_unique, lemma_first_non_ws_unique, lower_char, lower_seq, trim_seq, unsigned_literal};

verus! {

/// A key code that prints to text reading back as the same code: a space,
/// a printable ASCII character other than `+` and `-`, a named key, or a
/// function key from F1 to F24.
pub open spec fn canonical_code(c: FlowKeyCode) -> bool {
    match c {
        FlowKeyCode::Char(ch) => ch == ' ' || ((ch as u32) < 128 && !is_unicode_whitespace(ch)
            && !is_key_sep(ch)),
        FlowKeyCode::F(n) => 1 <= n <= 24,
        _ => true,
    }
}

/// A key whose printed form reads back as itself: a canonical code, and
/// with shift held neither Tab (read as BackTab) nor a lowercase letter
/// (read as its uppercase).
pub open spec fn canonical_key(k: FlowKey) -> bool {
    &&& canonical_code(k.code)
    &&& !(k.modifiers.shift && k.code == FlowKeyCode::Tab)
    &&& !(k.modifiers.shift && k.code is Char && is_ascii_lower(k.code->Char_0))
}

/// ASCII letters and digits: no whitespace, no separator, kept in names.
pub open spec fn is_word_char(c: char) -> bool {
    ('a' <= c <= 'z') || ('A' <= c <= 'Z') || ('0' <= c <= '9')
}

pub open spec fn is_word(s: Seq<char>) -> bool {
    s.len() > 0 && forall|i: int| 0 <= i < s.len() ==> is_word_char(#[trigger] s[i])
}

proof fn lemma_trim_noop(s: Seq<char>)
    requires
        s.len() > 0,
        !is_unicode_whitespace(s[0]),
        !is_unicode_whitespace(s[s.len() - 1]),
    ensures
        trim_seq(s) == s,
{
    lemma_end_non_ws_unique(s, s.len() as int);
    let p = s.subrange(0, s.len() as int);
    assert(p =~= s);
    lemma_first_non_ws_unique(p, 0);
    assert(s.subrange(0, s.len() as int) =~= s);
}

proof fn lemma_name_chars_word(s: Seq<char>)
    requires
        forall|i: int| 0 <= i < s.len() ==> is_word_char(#[trigger] s[i]),
    ensures
        name_chars(s) == s,
    decreases s.len(),
{
    if s.len() > 0 {
        assert forall|i: int| 0 <= i < s.drop_last().len() implies is_word_char(
            #[trigger] s.drop_last()[i],
        ) by {
            assert(s.drop_last()[i] == s[i]);
        }
        lemma_name_chars_word(s.drop_last());
        assert(is_word_char(s[s.len() - 1]));
        assert(s.drop_last().push(s.last()) =~= s);
    }
}

/// Splitting after appending a word without separators extends the last part.
proof fn lemma_split_append_word(a: Seq<char>, w: Seq<char>)
    requires
        forall|i: int| 0 <= i < w.len() ==> !is_key_sep(#[trigger] w[i]),
    ensures
        split_parts(a + w) == split_parts(a).update(
            split_parts(a).len() - 1,
            split_parts(a).last() + w,
        ),
        split_parts(a).len() >= 1,
    decreases w.len(),
{
    lemma_split_len(a);
    if w.len() == 0 {
        assert(a + w =~= a);
        assert(split_parts(a).last() + w =~= split_parts(a).last());
        assert(split_parts(a).update(split_parts(a).len() - 1, split_parts(a).last()) =~= split_parts(
            a,
        ));
    } else {
        let w0 = w.drop_last();
        assert forall|i: int| 0 <= i < w0.len() implies !is_key_sep(#[trigger] w0[i]) by {
            assert(w0[i] == w[i]);
        }
        lemma_split_append_word(a, w0);
        assert((a + w).drop_last() =~= a + w0);
        assert((a + w).last() == w.last());
        assert(!is_key_sep(w[w.len() - 1]));
        let sp = split_parts(a);
        let r0 = sp.update(sp.len() - 1, sp.last() + w0);
        assert(r0.last() == sp.last() + w0);
        assert((sp.last() + w0).push(w.last()) =~= sp.last() + w);
        assert(r0.update(r0.len() - 1, r0.last().push(w.last())) =~= sp.update(
            sp.len() - 1,
            sp.last() + w,
        ));
    }
}

proof fn lemma_split_len(t: Seq<char>)
    ensures
        split_parts(t).len() >= 1,
    decreases t.len(),
{
    if t.len() > 0 {
        lemma_split_len(t.drop_last());
    }
}

/// Splitting after appending a word and a `+`: the word fills the last
/// (empty) part and a new empty part starts.
proof fn lemma_split_append_modifier(a: Seq<char>, w: Seq<char>, names: Seq<Seq<char>>)
    requires
        split_parts(a) == names.push(Seq::<char>::empty()),
        forall|i: int| 0 <= i < w.len() ==> !is_key_sep(#[trigger] w[i]),
    ensures
        split_parts(a + (w + seq!['+'])) == names.push(w).push(Seq::<char>::empty()),
{
    lemma_split_append_word(a, w);
    let aw = a + w;
    assert(a + (w + seq!['+']) =~= aw.push('+'));
    assert(aw.push('+').drop_last() =~= aw);
    assert(split_parts(a).last() + w =~= w);
    assert(split_parts(aw) =~= names.push(w));
}

pub open spec fn mods_prefix(m: FlowModifiers) -> Seq<char> {
    (if m.ctrl {
        "Ctrl+"@
    } else {
        Seq::<char>::empty()
    }) + (if m.alt {
        "Alt+"@
    } else {
        Seq::<char>::empty()
    }) + (if m.shift {
        "Shift+"@
    } else {
        Seq::<char>::empty()
    })
}

pub open spec fn mod_names(m: FlowModifiers) -> Seq<Seq<char>> {
    (if m.ctrl {
        seq!["Ctrl"@]
    } else {
        Seq::<Seq<char>>::empty()
    }) + (if m.alt {
        seq!["Alt"@]
    } else {
        Seq::<Seq<char>>::empty()
    }) + (if m.shift {
        seq!["Shift"@]
    } else {
        Seq::<Seq<char>>::empty()
    })
}

proof fn lemma_modifier_literals()
    ensures
        "Ctrl+"@ == "Ctrl"@ + seq!['+'],
        "Alt+"@ == "Alt"@ + seq!['+'],
        "Shift+"@ == "Shift"@ + seq!['+'],
        "Ctrl"@ == seq!['C', 't', 'r', 'l'],
        "Alt"@ == seq!['A', 'l', 't'],
        "Shift"@ == seq!['S', 'h', 'i', 'f', 't'],
        lower_seq("Ctrl"@) == "ctrl"@,
        lower_seq("Alt"@) == "alt"@,
        lower_seq("Shift"@) == "shift"@,
        is_word("Ctrl"@),
        is_word("Alt"@),
        is_word("Shift"@),
{
    reveal_strlit("Ctrl+");
    reveal_strlit("Alt+");
    reveal_strlit("Shift+");
    reveal_strlit("Ctrl");
    reveal_strlit("Alt");
    reveal_strlit("Shift");
    reveal_strlit("ctrl");
    reveal_strlit("alt");
    reveal_strlit("shift");
    assert("Ctrl+"@ =~= "Ctrl"@ + seq!['+']);
    assert("Alt+"@ =~= "Alt"@ + seq!['+']);
    assert("Shift+"@ =~= "Shift"@ + seq!['+']);
    assert("Ctrl"@ =~= seq!['C', 't', 'r', 'l']);
    assert("Alt"@ =~= seq!['A', 'l', 't']);
    assert("Shift"@ =~= seq!['S', 'h', 'i', 'f', 't']);
    assert(lower_seq("Ctrl"@) =~= "ctrl"@);
    assert(lower_seq("Alt"@) =~= "alt"@);
    assert(lower_seq("Shift"@) =~= "shift"@);
}

proof fn lemma_word_no_sep(w: Seq<char>)
    requires
        is_word(w),
    ensures
        forall|i: int| 0 <= i < w.len() ==> !is_key_sep(#[trigger] w[i]),
        forall|i: int| 0 <= i < w.len() ==> !is_unicode_whitespace(#[trigger] w[i]),
        trim_seq(w) == w,
        name_chars(w) == w,
{
    assert forall|i: int| 0 <= i < w.len() implies !is_key_sep(#[trigger] w[i]) && !is_unicode_whitespace(w[i]) by {
        assert(is_word_char(w[i]));
    }
    lemma_trim_noop(w);
    lemma_name_chars_word(w);
}

/// The modifier prefix splits into the modifier names and an empty part.
proof fn lemma_split_mods_prefix(m: FlowModifiers)
    ensures
        split_parts(mods_prefix(m)) == mod_names(m).push(Seq::<char>::empty()),
{
    lemma_modifier_literals();
    lemma_word_no_sep("Ctrl"@);
    lemma_word_no_sep("Alt"@);
    lemma_word_no_sep("Shift"@);
    let e = Seq::<char>::empty();
    let n0 = Seq::<Seq<char>>::empty();
    assert(split_parts(e) =~= n0.push(e));
    let p1 = if m.ctrl { "Ctrl+"@ } else { e };
    let n1 = if m.ctrl { seq!["Ctrl"@] } else { n0 };
    if m.ctrl {
        lemma_split_append_modifier(e, "Ctrl"@, n0);
        assert(e + ("Ctrl"@ + seq!['+']) =~= p1);
        assert(n0.push("Ctrl"@) =~= n1);
    }
    assert(split_parts(p1) == n1.push(e));
    let p2 = p1 + if m.alt { "Alt+"@ } else { e };
    let n2 = n1 + if m.alt { seq!["Alt"@] } else { n0 };
    if m.alt {
        lemma_split_append_modifier(p1, "Alt"@, n1);
        assert(n1.push("Alt"@) =~= n2);
    } else {
        assert(p2 =~= p1);
        assert(n2 =~= n1);
    }
    assert(split_parts(p2) == n2.push(e));
    let p3 = p2 + if m.shift { "Shift+"@ } else { e };
    let n3 = n2 + if m.shift { seq!["Shift"@] } else { n0 };
    if m.shift {
        lemma_split_append_modifier(p2, "Shift"@, n2);
        assert(n2.push("Shift"@) =~= n3);
    } else {
        assert(p3 =~= p2);
        assert(n3 =~= n2);
    }
    assert(p3 =~= mods_prefix(m));
    assert(n3 =~= mod_names(m));
}

/// The modifier names read back as the modifiers.
proof fn lemma_apply_mod_names(m: FlowModifiers)
    ensures
        apply_modifiers(mod_names(m), no_modifiers()) == Ok::<FlowModifiers, Seq<char>>(m),
{
    lemma_modifier_literals();
    lemma_word_no_sep("Ctrl"@);
    lemma_word_no_sep("Alt"@);
    lemma_word_no_sep("Shift"@);
    lemma_name_literals();
    let n0 = Seq::<Seq<char>>::empty();
    let s_part = if m.shift { seq!["Shift"@] } else { n0 };
    let a_part = if m.alt { seq!["Alt"@] } else { n0 };
    let c_part = if m.ctrl { seq!["Ctrl"@] } else { n0 };
    let m2 = FlowModifiers { ctrl: m.ctrl, alt: m.alt, shift: false };
    let m1 = FlowModifiers { ctrl: m.ctrl, alt: false, shift: false };
    // shift part
    assert(apply_modifiers(n0, m) == Ok::<FlowModifiers, Seq<char>>(m));
    assert(apply_modifiers(n0, m2) == Ok::<FlowModifiers, Seq<char>>(m2));
    if m.shift {
        assert(s_part.drop_first() =~= n0);
        assert(s_part[0] == "Shift"@);
        assert(lower_seq(trim_seq(s_part[0])) == "shift"@);
        assert("shift"@ != "c"@ && "shift"@ != "ctrl"@ && "shift"@ != "control"@);
        assert("shift"@ != "a"@ && "shift"@ != "alt"@);
    }
    assert(apply_modifiers(s_part, m2) == Ok::<FlowModifiers, Seq<char>>(m));
    // alt part
    if m.alt {
        assert((a_part + s_part).drop_first() =~= s_part);
        assert((a_part + s_part)[0] == "Alt"@);
        assert(lower_seq(trim_seq("Alt"@)) == "alt"@);
        assert("alt"@ != "c"@ && "alt"@ != "ctrl"@ && "alt"@ != "control"@);
    } else {
        assert(a_part + s_part =~= s_part);
    }
    assert(apply_modifiers(a_part + s_part, m1) == Ok::<FlowModifiers, Seq<char>>(m));
    // ctrl part
    if m.ctrl {
        assert((c_part + a_part + s_part).drop_first() =~= a_part + s_part);
        assert((c_part + a_part + s_part)[0] == "Ctrl"@);
        assert(lower_seq(trim_seq("Ctrl"@)) == "ctrl"@);
    } else {
        assert(c_part + a_part + s_part =~= a_part + s_part);
    }
    assert(c_part + a_part + s_part =~= mod_names(m));
}

pub(crate) proof fn lemma_decimal_digits(n: nat)
    ensures
        all_digits(decimal(n)),
        digits_value(decimal(n)) == n,
        decimal(n).len() >= 1,
    decreases n,
{
    let k = n % 10;
    assert(((digit_char(k) as u32) - ('0' as u32)) as nat == k);
    assert(is_ascii_digit(digit_char(k)));
    if n < 10 {
        assert(decimal(n).drop_last() =~= Seq::<char>::empty());
        assert(digits_value(decimal(n)) == digits_value(Seq::<char>::empty()) * 10 + k);
    } else {
        lemma_decimal_digits(n / 10);
        let d = decimal(n / 10);
        assert(decimal(n).drop_last() =~= d);
        assert(decimal(n).last() == digit_char(k));
        assert(n == (n / 10) * 10 + k);
        assert(digits_value(decimal(n)) == digits_value(d) * 10 + k);
        assert forall|i: int| 0 <= i < decimal(n).len() implies is_ascii_digit(
            #[trigger] decimal(n)[i],
        ) by {
            if i < d.len() {
                assert(decimal(n)[i] == d[i]);
            }
        }
    }
}

/// Facts about the printed form of a canonical code: where trimming and
/// splitting leave it whole, and that it reads back as the code.
proof fn lemma_code_text(c: FlowKeyCode)
    requires
        canonical_code(c),
    ensures
        code_text(c).len() > 0,
        !is_unicode_whitespace(code_text(c)[0]),
        !is_unicode_whitespace(code_text(c)[code_text(c).len() - 1]),
        forall|i: int| 0 <= i < code_text(c).len() ==> !is_key_sep(#[trigger] code_text(c)[i]),
        code_spec(code_text(c)) == Ok::<FlowKeyCode, KeyParseErrorView>(c),
{
    lemma_name_literals();
    match c {
        FlowKeyCode::Char(ch) => {
            if ch == ' ' {
                assert(lower_seq("Space"@) =~= "space"@);
                named_word("Space"@, "space"@, c);
            } else {
                let t = seq![ch];
                lemma_trim_noop(t);
            }
        },
        FlowKeyCode::Enter => {
            assert(lower_seq("Enter"@) =~= "enter"@);
            named_word("Enter"@, "enter"@, c);
        },
        FlowKeyCode::Esc => {
            assert(lower_seq("Esc"@) =~= "esc"@);
            named_word("Esc"@, "esc"@, c);
        },
        FlowKeyCode::Tab => {
            assert(lower_seq("Tab"@) =~= "tab"@);
            named_word("Tab"@, "tab"@, c);
        },
        FlowKeyCode::BackTab => {
            assert(lower_seq("BackTab"@) =~= "backtab"@);
            named_word("BackTab"@, "backtab"@, c);
        },
        FlowKeyCode::Up => {
            assert(lower_seq("Up"@) =~= "up"@);
            named_word("Up"@, "up"@, c);
        },
        FlowKeyCode::Down => {
            assert(lower_seq("Down"@) =~= "down"@);
            named_word("Down"@, "down"@, c);
        },
        FlowKeyCode::Left => {
            assert(lower_seq("Left"@) =~= "left"@);
            named_word("Left"@, "left"@, c);
        },
        FlowKeyCode::Right => {
            assert(lower_seq("Right"@) =~= "right"@);
            named_word("Right"@, "right"@, c);
        },
        FlowKeyCode::Home => {
            assert(lower_seq("Home"@) =~= "home"@);
            named_word("Home"@, "home"@, c);
        },
        FlowKeyCode::End => {
            assert(lower_seq("End"@) =~= "end"@);
            named_word("End"@, "end"@, c);
        },
        FlowKeyCode::PageUp => {
            assert(lower_seq("PageUp"@) =~= "pageup"@);
            named_word("PageUp"@, "pageup"@, c);
        },
        FlowKeyCode::PageDown => {
            assert(lower_seq("PageDown"@) =~= "pagedown"@);
            named_word("PageDown"@, "pagedown"@, c);
        },
        FlowKeyCode::Backspace => {
            assert(lower_seq("Backspace"@) =~= "backspace"@);
            named_word("Backspace"@, "backspace"@, c);
        },
        FlowKeyCode::Delete => {
            assert(lower_seq("Delete"@) =~= "delete"@);
            named_word("Delete"@, "delete"@, c);
        },
        FlowKeyCode::Insert => {
            assert(lower_seq("Insert"@) =~= "insert"@);
            named_word("Insert"@, "insert"@, c);
        },
        FlowKeyCode::F(n) => {
            reveal_strlit("F");
            let d = decimal(n as nat);
            lemma_decimal_digits(n as nat);
            let t = "F"@ + d;
            assert(t[0] == 'F');
            assert forall|i: int| 0 <= i < t.len() implies is_word_char(#[trigger] t[i]) by {
                if i > 0 {
                    assert(t[i] == d[i - 1]);
                    assert(is_ascii_digit(d[i - 1]));
                }
            }
            lemma_word_no_sep(t);
            let low = lower_seq(t);
            assert(low[0] == 'f');
            assert(low.drop_first() =~= d) by {
                assert forall|i: int| 0 <= i < d.len() implies low.drop_first()[i] == d[i] by {
                    assert(low.drop_first()[i] == lower_char(t[i + 1]));
                    assert(t[i + 1] == d[i]);
                    assert(is_ascii_digit(d[i]));
                }
            }
            assert(drop_leading_f(low.drop_first()) == low.drop_first()) by {
                assert(is_ascii_digit(d[0]));
            }
            assert(drop_leading_f(low) == d);
            assert(d[0] != '+') by {
                assert(is_ascii_digit(d[0]));
            }
            assert(unsigned_literal(d) == Some(n as nat));
            assert(named_code(low) is None) by {
                assert(low[0] == 'f');
            }
            assert(function_code(low) == Some(FlowKeyCode::F(n)));
            assert(t.len() >= 2);
        },
    }
}

/// A named key's printed word reads back through its lowercase name.
proof fn named_word(word: Seq<char>, lower: Seq<char>, c: FlowKeyCode)
    requires
        is_word(word),
        word.len() >= 2,
        lower_seq(word) == lower,
        named_code(lower) == Some(c),
        code_text(c) == word,
    ensures
        code_text(c).len() > 0,
        !is_unicode_whitespace(code_text(c)[0]),
        !is_unicode_whitespace(code_text(c)[code_text(c).len() - 1]),
        forall|i: int| 0 <= i < code_text(c).len() ==> !is_key_sep(#[trigger] code_text(c)[i]),
        code_spec(code_text(c)) == Ok::<FlowKeyCode, KeyParseErrorView>(c),
{
    lemma_word_no_sep(word);
    assert(normalized_name(word) == lower);
}

/// The notation reads back what it prints: printing a key and reading the
/// text gives the same key, for every key whose printed form is unambiguous
/// (`canonical_key`).
pub proof fn law_key_text_round_trip(k: FlowKey)
    requires
        canonical_key(k),
    ensures
        key_spec(key_text(k)) == Ok::<FlowKey, KeyParseErrorView>(k),
{
    let m = k.modifiers;
    let c = code_text(k.code);
    lemma_code_text(k.code);
    let p = mods_prefix(m);
    let text = p + c;
    assert(key_text(k) =~= text);
    lemma_modifier_literals();
    assert(p.len() > 0 ==> !is_unicode_whitespace(p[0])) by {
        if m.ctrl {
            assert(p[0] == 'C');
        } else if m.alt {
            assert(p[0] == 'A');
        } else if m.shift {
            assert(p[0] == 'S');
        } else {
            assert(p.len() == 0);
        }
    }
    assert(!is_unicode_whitespace(text[0])) by {
        if p.len() == 0 {
            assert(text[0] == c[0]);
        } else {
            assert(text[0] == p[0]);
        }
    }
    assert(text[text.len() - 1] == c[c.len() - 1]);
    lemma_trim_noop(text);
    lemma_split_mods_prefix(m);
    lemma_split_append_word(p, c);
    let names = mod_names(m);
    let parts = split_parts(text);
    assert(Seq::<char>::empty() + c =~= c);
    assert(parts =~= names.push(c));
    assert(parts.drop_last() =~= names);
    assert(parts.last() == c);
    lemma_apply_mod_names(m);
    assert(shifted(k.code, m) == k.code);
}

/// The names of the key notation, character by character.
proof fn lemma_name_literals()
    ensures
        "Enter"@ == seq!['E', 'n', 't', 'e', 'r'],
        "Esc"@ == seq!['E', 's', 'c'],
        "Tab"@ == seq!['T', 'a', 'b'],
        "BackTab"@ == seq!['B', 'a', 'c', 'k', 'T', 'a', 'b'],
        "Up"@ == seq!['U', 'p'],
        "Down"@ == seq!['D', 'o', 'w', 'n'],
        "Left"@ == seq!['L', 'e', 'f', 't'],
        "Right"@ == seq!['R', 'i', 'g', 'h', 't'],
        "Home"@ == seq!['H', 'o', 'm', 'e'],
        "End"@ == seq!['E', 'n', 'd'],
        "PageUp"@ == seq!['P', 'a', 'g', 'e', 'U', 'p'],
        "PageDown"@ == seq!['P', 'a', 'g', 'e', 'D', 'o', 'w', 'n'],
        "Backspace"@ == seq!['B', 'a', 'c', 'k', 's', 'p', 'a', 'c', 'e'],
        "Delete"@ == seq!['D', 'e', 'l', 'e', 't', 'e'],
        "Insert"@ == seq!['I', 'n', 's', 'e', 'r', 't'],
        "Space"@ == seq!['S', 'p', 'a', 'c', 'e'],
        "enter"@ == seq!['e', 'n', 't', 'e', 'r'],
        "return"@ == seq!['r', 'e', 't', 'u', 'r', 'n'],
        "esc"@ == seq!['e', 's', 'c'],
        "escape"@ == seq!['e', 's', 'c', 'a', 'p', 'e'],
        "tab"@ == seq!['t', 'a', 'b'],
        "backtab"@ == seq!['b', 'a', 'c', 'k', 't', 'a', 'b'],
        "up"@ == seq!['u', 'p'],
        "down"@ == seq!['d', 'o', 'w', 'n'],
        "left"@ == seq!['l', 'e', 'f', 't'],
        "right"@ == seq!['r', 'i', 'g', 'h', 't'],
        "home"@ == seq!['h', 'o', 'm', 'e'],
        "end"@ == seq!['e', 'n', 'd'],
        "pageup"@ == seq!['p', 'a', 'g', 'e', 'u', 'p'],
        "pgup"@ == seq!['p', 'g', 'u', 'p'],
        "pagedown"@ == seq!['p', 'a', 'g', 'e', 'd', 'o', 'w', 'n'],
        "pgdn"@ == seq!['p', 'g', 'd', 'n'],
        "backspace"@ == seq!['b', 'a', 'c', 'k', 's', 'p', 'a', 'c', 'e'],
        "bspace"@ == seq!['b', 's', 'p', 'a', 'c', 'e'],
        "delete"@ == seq!['d', 'e', 'l', 'e', 't', 'e'],
        "del"@ == seq!['d', 'e', 'l'],
        "insert"@ == seq!['i', 'n', 's', 'e', 'r', 't'],
        "ins"@ == seq!['i', 'n', 's'],
        "space"@ == seq!['s', 'p', 'a', 'c', 'e'],
        "c"@ == seq!['c'],
        "ctrl"@ == seq!['c', 't', 'r', 'l'],
        "control"@ == seq!['c', 'o', 'n', 't', 'r', 'o', 'l'],
        "a"@ == seq!['a'],
        "alt"@ == seq!['a', 'l', 't'],
        "s"@ == seq!['s'],
        "shift"@ == seq!['s', 'h', 'i', 'f', 't'],
{
    reveal_strlit("Enter");
    reveal_strlit("Esc");
    reveal_strlit("Tab");
    reveal_strlit("BackTab");
    reveal_strlit("Up");
    reveal_strlit("Down");
    reveal_strlit("Left");
    reveal_strlit("Right");
    reveal_strlit("Home");
    reveal_strlit("End");
    reveal_strlit("PageUp");
    reveal_strlit("PageDown");
    reveal_strlit("Backspace");
    reveal_strlit("Delete");
    reveal_strlit("Insert");
    reveal_strlit("Space");
    reveal_strlit("enter");
    reveal_strlit("return");
    reveal_strlit("esc");
    reveal_strlit("escape");
    reveal_strlit("tab");
    reveal_strlit("backtab");
    reveal_strlit("up");
    reveal_strlit("down");
    reveal_strlit("left");
    reveal_strlit("right");
    reveal_strlit("home");
    reveal_strlit("end");
    reveal_strlit("pageup");
    reveal_strlit("pgup");
    reveal_strlit("pagedown");
    reveal_strlit("pgdn");
    reveal_strlit("backspace");
    reveal_strlit("bspace");
    reveal_strlit("delete");
    reveal_strlit("del");
    reveal_strlit("insert");
    reveal_strlit("ins");
    reveal_strlit("space");
    reveal_strlit("c");
    reveal_strlit("ctrl");
    reveal_strlit("control");
    reveal_strlit("a");
    reveal_strlit("alt");
    reveal_strlit("s");
    reveal_strlit("shift");
    assert("Enter"@ =~= seq!['E', 'n', 't', 'e', 'r']);
    assert("Esc"@ =~= seq!['E', 's', 'c']);
    assert("Tab"@ =~= seq!['T', 'a', 'b']);
    assert("BackTab"@ =~= seq!['B', 'a', 'c', 'k', 'T', 'a', 'b']);
    assert("Up"@ =~= seq!['U', 'p']);
    assert("Down"@ =~= seq!['D', 'o', 'w', 'n']);
    assert("Left"@ =~= seq!['L', 'e', 'f', 't']);
    assert("Right"@ =~= seq!['R', 'i', 'g', 'h', 't']);
    assert("Home"@ =~= seq!['H', 'o', 'm', 'e']);
    assert("End"@ =~= seq!['E', 'n', 'd']);
    assert("PageUp"@ =~= seq!['P', 'a', 'g', 'e', 'U', 'p']);
    assert("PageDown"@ =~= seq!['P', 'a', 'g', 'e', 'D', 'o', 'w', 'n']);
    assert("Backspace"@ =~= seq!['B', 'a', 'c', 'k', 's', 'p', 'a', 'c', 'e']);
    assert("Delete"@ =~= seq!['D', 'e', 'l', 'e', 't', 'e']);
    assert("Insert"@ =~= seq!['I', 'n', 's', 'e', 'r', 't']);
    assert("Space"@ =~= seq!['S', 'p', 'a', 'c', 'e']);
    assert("enter"@ =~= seq!['e', 'n', 't', 'e', 'r']);
    assert("return"@ =~= seq!['r', 'e', 't', 'u', 'r', 'n']);
    assert("esc"@ =~= seq!['e', 's', 'c']);
    assert("escape"@ =~= seq!['e', 's', 'c', 'a', 'p', 'e']);
    assert("tab"@ =~= seq!['t', 'a', 'b']);
    assert("backtab"@ =~= seq!['b', 'a', 'c', 'k', 't', 'a', 'b']);
    assert("up"@ =~= seq!['u', 'p']);
    assert("down"@ =~= seq!['d', 'o', 'w', 'n']);
    assert("left"@ =~= seq!['l', 'e', 'f', 't']);
    assert("right"@ =~= seq!['r', 'i', 'g', 'h', 't']);
    assert("home"@ =~= seq!['h', 'o', 'm', 'e']);
    assert("end"@ =~= seq!['e', 'n', 'd']);
    assert("pageup"@ =~= seq!['p', 'a', 'g', 'e', 'u', 'p']);
    assert("pgup"@ =~= seq!['p', 'g', 'u', 'p']);
    assert("pagedown"@ =~= seq!['p', 'a', 'g', 'e', 'd', 'o', 'w', 'n']);
    assert("pgdn"@ =~= seq!['p', 'g', 'd', 'n']);
    assert("backspace"@ =~= seq!['b', 'a', 'c', 'k', 's', 'p', 'a', 'c', 'e']);
    assert("bspace"@ =~= seq!['b', 's', 'p', 'a', 'c', 'e']);
    assert("delete"@ =~= seq!['d', 'e', 'l', 'e', 't', 'e']);
    assert("del"@ =~= seq!['d', 'e', 'l']);
    assert("insert"@ =~= seq!['i', 'n', 's', 'e', 'r', 't']);
    assert("ins"@ =~= seq!['i', 'n', 's']);
    assert("space"@ =~= seq!['s', 'p', 'a', 'c', 'e']);
    assert("c"@ =~= seq!['c']);
    assert("ctrl"@ =~= seq!['c', 't', 'r', 'l']);
    assert("control"@ =~= seq!['c', 'o', 'n', 't', 'r', 'o', 'l']);
    assert("a"@ =~= seq!['a']);
    assert("alt"@ =~= seq!['a', 'l', 't']);
    assert("s"@ =~= seq!['s']);
    assert("shift"@ =~= seq!['s', 'h', 'i', 'f', 't']);
}

} // verus!

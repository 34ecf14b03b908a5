//! The credential set and the environment file that persists it: one
//! `KEY=VALUE` line per entry, in insertion order, with no quoting and no
//! escaping.

use vstd::prelude::*;
use vstd::string::*;
use crate::text::{chars_of, is_line_break, line_break, slice_of};

verus! {

/// A character that the file format gives a meaning to, or that a reader of
/// the file would take for quoting: none may occur in a key or a value.
pub open spec fn is_reserved(c: char) -> bool {
    c == '=' || c == '"' || c == '\'' || is_line_break(c)
}

/// No character of `s` is reserved.
pub open spec fn plain(s: Seq<char>) -> bool {
    forall|i: int| 0 <= i < s.len() ==> !is_reserved(#[trigger] s[i])
}

/// A key is not empty and holds no reserved character.
pub open spec fn valid_key(key: Seq<char>) -> bool {
    key.len() > 0 && plain(key)
}

/// A value holds no reserved character; it may be empty.
pub open spec fn valid_value(value: Seq<char>) -> bool {
    plain(value)
}

/// Some entry of `entries` has the key `key`.
pub open spec fn has_key(entries: Seq<(Seq<char>, Seq<char>)>, key: Seq<char>) -> bool {
    exists|i: int| 0 <= i < entries.len() && (#[trigger] entries[i]).0 == key
}

/// Every key and every value of `entries` is valid.
pub open spec fn valid_lines(entries: Seq<(Seq<char>, Seq<char>)>) -> bool {
    forall|i: int|
        0 <= i < entries.len() ==> valid_key((#[trigger] entries[i]).0) && valid_value(
            entries[i].1,
        )
}

/// No key occurs twice in `entries`.
pub open spec fn distinct_keys(entries: Seq<(Seq<char>, Seq<char>)>) -> bool {
    forall|i: int, j: int|
        0 <= i < j < entries.len() ==> (#[trigger] entries[i]).0 != (#[trigger] entries[j]).0
}

/// The invariant of a credential set.
pub open spec fn valid_entries(entries: Seq<(Seq<char>, Seq<char>)>) -> bool {
    valid_lines(entries) && distinct_keys(entries)
}

/// The line that persists one entry.
pub open spec fn line_of(key: Seq<char>, value: Seq<char>) -> Seq<char> {
    key + seq!['='] + value + seq!['\n']
}

/// The text of the environment file that holds `entries`.
pub open spec fn render_entries(entries: Seq<(Seq<char>, Seq<char>)>) -> Seq<char>
    decreases entries.len(),
{
    if entries.len() == 0 {
        Seq::empty()
    } else {
        render_entries(entries.drop_last()) + line_of(entries.last().0, entries.last().1)
    }
}

/// The credential set that `text` persists: the valid entries whose rendering
/// is `text`, if there are any.
pub open spec fn parse_entries(text: Seq<char>) -> Option<Seq<(Seq<char>, Seq<char>)>> {
    if exists|e: Seq<(Seq<char>, Seq<char>)>| valid_entries(e) && #[trigger] render_entries(e) == text {
        Some(
            choose|e: Seq<(Seq<char>, Seq<char>)>|
                valid_entries(e) && #[trigger] render_entries(e) == text,
        )
    } else {
        None
    }
}

/// Why a credential set refuses an entry or a file.
#[derive(Clone, Copy, PartialEq, Eq, Structural, Debug)]
pub enum CredentialError {
    /// The key is empty or holds a reserved character.
    InvalidKey,
    /// The value holds a reserved character.
    InvalidValue,
    /// The set already holds the key.
    DuplicateKey,
    /// The text is not the rendering of any credential set.
    Malformed,
}

/// The reason for which `entries` refuses the entry `key`, `value`, if it does.
pub open spec fn rejection(
    entries: Seq<(Seq<char>, Seq<char>)>,
    key: Seq<char>,
    value: Seq<char>,
) -> Option<CredentialError> {
    if !valid_key(key) {
        Some(CredentialError::InvalidKey)
    } else if !valid_value(value) {
        Some(CredentialError::InvalidValue)
    } else if has_key(entries, key) {
        Some(CredentialError::DuplicateKey)
    } else {
        None
    }
}

/// Whether `c` is reserved.
pub fn reserved(c: char) -> (b: bool)
    ensures
        b == is_reserved(c),
{
    c == '=' || c == '"' || c == '\'' || line_break(c)
}

/// Whether no character of `s` is reserved.
pub fn is_plain(s: &str) -> (b: bool)
    ensures
        b == plain(s@),
{
    let chars = chars_of(s);
    let mut i: usize = 0;
    while i < chars.len()
        invariant
            chars@ == s@,
            i <= chars.len(),
            forall|j: int| 0 <= j < i ==> !is_reserved(#[trigger] s@[j]),
        decreases chars.len() - i,
    {
        if reserved(chars[i]) {
            return false;
        }
        i += 1;
    }
    true
}

/// An ordered set of key and value pairs with unique keys.
#[derive(Debug)]
pub struct CredentialSet {
    entries: Vec<(String, String)>,
}

impl View for CredentialSet {
    type V = Seq<(Seq<char>, Seq<char>)>;

    closed spec fn view(&self) -> Seq<(Seq<char>, Seq<char>)> {
        views_of(self.entries@)
    }
}

spec fn views_of(entries: Seq<(String, String)>) -> Seq<(Seq<char>, Seq<char>)> {
    Seq::new(entries.len(), |i: int| (entries[i].0@, entries[i].1@))
}

impl CredentialSet {
    #[verifier::type_invariant]
    spec fn well_formed(&self) -> bool {
        valid_entries(self@)
    }

    /// The empty set.
    pub fn new() -> (set: CredentialSet)
        ensures
            set@ == Seq::<(Seq<char>, Seq<char>)>::empty(),
    {
        CredentialSet { entries: Vec::new() }
    }

    /// The number of entries.
    pub fn len(&self) -> (n: usize)
        ensures
            n == self@.len(),
            valid_entries(self@),
    {
        proof {
            use_type_invariant(self);
        }
        self.entries.len()
    }

    /// The key of entry `i`.
    pub fn key(&self, i: usize) -> (key: &String)
        requires
            i < self@.len(),
        ensures
            key@ == self@[i as int].0,
    {
        &self.entries[i].0
    }

    /// The value of entry `i`.
    pub fn value(&self, i: usize) -> (value: &String)
        requires
            i < self@.len(),
        ensures
            value@ == self@[i as int].1,
    {
        &self.entries[i].1
    }

    /// The position of the entry with the key `key`.
    pub fn position(&self, key: &str) -> (at: Option<usize>)
        ensures
            match at {
                Some(i) => i < self@.len() && self@[i as int].0 == key@,
                None => !has_key(self@, key@),
            },
    {
        let wanted = key.to_owned();
        let mut i: usize = 0;
        while i < self.entries.len()
            invariant
                wanted@ == key@,
                i <= self.entries@.len(),
                forall|j: int| 0 <= j < i ==> (#[trigger] self@[j]).0 != key@,
            decreases self.entries@.len() - i,
        {
            if self.entries[i].0 == wanted {
                return Some(i);
            }
            i += 1;
        }
        None
    }

    /// A copy of the value stored under `key`.
    pub fn get(&self, key: &str) -> (value: Option<String>)
        ensures
            match value {
                Some(v) => exists|i: int| 0 <= i < self@.len() && self@[i] == (key@, v@),
                None => !has_key(self@, key@),
            },
    {
        match self.position(key) {
            Some(i) => {
                let v = self.entries[i].1.clone();
                assert(self@[i as int] == (key@, v@));
                Some(v)
            },
            None => None,
        }
    }

    /// Appends the entry `key`, `value`, unless the key or the value is
    /// invalid or the key is already there; the set is then left as it was.
    pub fn insert(&mut self, key: &str, value: &str) -> (done: Result<(), CredentialError>)
        ensures
            match rejection(old(self)@, key@, value@) {
                Some(e) => done == Err::<(), CredentialError>(e) && final(self)@ == old(self)@,
                None => done == Ok::<(), CredentialError>(()) && final(self)@ == old(self)@.push(
                    (key@, value@),
                ),
            },
            valid_entries(final(self)@),
    {
        proof {
            use_type_invariant(&*self);
        }
        if key.unicode_len() == 0 || !is_plain(key) {
            return Err(CredentialError::InvalidKey);
        }
        if !is_plain(value) {
            return Err(CredentialError::InvalidValue);
        }
        if self.position(key).is_some() {
            return Err(CredentialError::DuplicateKey);
        }
        let ghost before = self@;
        let mut taken = CredentialSet::new();
        std::mem::swap(self, &mut taken);
        let mut entries = taken.entries;
        entries.push((key.to_owned(), value.to_owned()));
        proof {
            let after = before.push((key@, value@));
            assert(views_of(entries@) =~= after);
            assert forall|i: int, j: int| 0 <= i < j < after.len() implies (#[trigger] after[i]).0
                != (#[trigger] after[j]).0 by {
                if j == before.len() {
                    assert(before[i].0 != key@);
                }
            }
        }
        *self = CredentialSet { entries };
        Ok(())
    }

    /// The text of the environment file that persists this set.
    pub fn render(&self) -> (text: String)
        ensures
            text@ == render_entries(self@),
            valid_entries(self@),
    {
        proof {
            use_type_invariant(self);
        }
        let mut text = String::new();
        let mut i: usize = 0;
        while i < self.entries.len()
            invariant
                i <= self.entries@.len(),
                self@.len() == self.entries@.len(),
                text@ == render_entries(self@.take(i as int)),
            decreases self.entries@.len() - i,
        {
            let ghost before = text@;
            text.append(self.entries[i].0.as_str());
            text.append("=");
            text.append(self.entries[i].1.as_str());
            text.append("\n");
            proof {
                reveal_strlit("=");
                reveal_strlit("\n");
                let head = self@.take(i as int + 1);
                assert(head.drop_last() =~= self@.take(i as int));
                assert(head.last() == self@[i as int]);
                assert(text@ =~= before + line_of(self@[i as int].0, self@[i as int].1));
            }
            i += 1;
        }
        assert(self@.take(i as int) =~= self@);
        text
    }

    /// Reads back what `render` wrote: the set whose rendering is `text`.
    /// Any other text is refused.
    pub fn parse(text: &str) -> (read: Result<CredentialSet, CredentialError>)
        ensures
            match read {
                Ok(set) => parse_entries(text@) == Some(set@) && valid_entries(set@)
                    && render_entries(set@) == text@,
                Err(e) => e == CredentialError::Malformed && parse_entries(text@) is None,
            },
    {
        let chars = chars_of(text);
        let n: usize = chars.len();
        let mut set = CredentialSet::new();
        let mut pos: usize = 0;
        assert(text@.subrange(0, n as int) =~= text@);
        assert(Seq::<(Seq<char>, Seq<char>)>::empty() + scan(text@).unwrap() =~= scan(
            text@,
        ).unwrap());
        while pos < n
            invariant
                chars@ == text@,
                n == text@.len(),
                pos <= n,
                valid_entries(set@),
                render_entries(set@) == text@.subrange(0, pos as int),
                scan(text@) == extend(set@, scan(text@.subrange(pos as int, n as int))),
            decreases n - pos,
        {
            let ghost rest = text@.subrange(pos as int, n as int);
            let ghost before = set@;
            let eol: usize = find(&chars, pos, n, '\n');
            proof {
                lemma_first_of(rest, '\n', eol - pos);
            }
            if eol == n {
                proof {
                    lemma_refused(text@);
                }
                return Err(CredentialError::Malformed);
            }
            let eq: usize = find(&chars, pos, eol, '=');
            proof {
                lemma_first_of(rest.subrange(0, eol - pos), '=', eq - pos);
            }
            if eq == eol {
                proof {
                    lemma_refused(text@);
                }
                return Err(CredentialError::Malformed);
            }
            let key = slice_of(text, pos, eq);
            let value = slice_of(text, eq + 1, eol);
            proof {
                assert(rest.subrange(0, eq - pos) =~= key@);
                assert(rest.subrange(eq - pos + 1, eol - pos) =~= value@);
                assert(rest.subrange(eol - pos + 1, rest.len() as int) =~= text@.subrange(
                    eol + 1,
                    n as int,
                ));
            }
            match set.insert(key.as_str(), value.as_str()) {
                Ok(()) => {},
                Err(_) => {
                    proof {
                        lemma_duplicate_refused(text@, before, key@, value@);
                    }
                    return Err(CredentialError::Malformed);
                },
            }
            proof {
                let tail = scan(text@.subrange(eol + 1, n as int));
                if tail is Some {
                    assert(before + (seq![(key@, value@)] + tail.unwrap()) =~= set@
                        + tail.unwrap());
                }
                assert(text@.subrange(0, eol + 1) =~= text@.subrange(0, pos as int) + line_of(
                    key@,
                    value@,
                ));
                assert(set@.drop_last() =~= before);
            }
            pos = eol + 1;
        }
        proof {
            assert(text@.subrange(0, n as int) =~= text@);
            assert(set@ + Seq::<(Seq<char>, Seq<char>)>::empty() =~= set@);
            lemma_render_then_parse(set@);
        }
        Ok(set)
    }
}

/// The first position of `v` in `from..to` that holds `c`, or `to`.
fn find(v: &Vec<char>, from: usize, to: usize, c: char) -> (at: usize)
    requires
        from <= to <= v@.len(),
    ensures
        from <= at <= to,
        forall|j: int| from <= j < at ==> v@[j] != c,
        at < to ==> v@[at as int] == c,
{
    let mut at: usize = from;
    while at < to
        invariant
            from <= at <= to <= v@.len(),
            forall|j: int| from <= j < at ==> v@[j] != c,
        decreases to - at,
    {
        if v[at] == c {
            return at;
        }
        at += 1;
    }
    at
}

/// The first position of `s` that holds `c`, or the length of `s`.
spec fn first_of(s: Seq<char>, c: char) -> nat
    decreases s.len(),
{
    if s.len() == 0 || s[0] == c {
        0
    } else {
        1 + first_of(s.drop_first(), c)
    }
}

/// `entries` followed by what `more` holds.
spec fn extend(
    entries: Seq<(Seq<char>, Seq<char>)>,
    more: Option<Seq<(Seq<char>, Seq<char>)>>,
) -> Option<Seq<(Seq<char>, Seq<char>)>> {
    match more {
        Some(tail) => Some(entries + tail),
        None => None,
    }
}

/// The lines of `text`, read from the front: each one a key without `=`, the
/// `=`, a value, and the line break. Keys may repeat.
spec fn scan(text: Seq<char>) -> Option<Seq<(Seq<char>, Seq<char>)>>
    decreases text.len(),
{
    if text.len() == 0 {
        Some(Seq::empty())
    } else {
        let eol = first_of(text, '\n') as int;
        if eol >= text.len() {
            None
        } else {
            let eq = first_of(text.subrange(0, eol), '=') as int;
            if eq >= eol {
                None
            } else {
                let key = text.subrange(0, eq);
                let value = text.subrange(eq + 1, eol);
                if valid_key(key) && valid_value(value) {
                    extend(seq![(key, value)], scan(text.subrange(eol + 1, text.len() as int)))
                } else {
                    None
                }
            }
        }
    }
}

proof fn lemma_first_of(s: Seq<char>, c: char, at: int)
    requires
        0 <= at <= s.len(),
        forall|j: int| 0 <= j < at ==> s[j] != c,
        at < s.len() ==> s[at] == c,
    ensures
        first_of(s, c) == at,
    decreases s.len(),
{
    if s.len() > 0 && s[0] != c {
        lemma_first_of(s.drop_first(), c, at - 1);
    }
}

proof fn lemma_render_prepend(first: (Seq<char>, Seq<char>), rest: Seq<(Seq<char>, Seq<char>)>)
    ensures
        render_entries(seq![first] + rest) == line_of(first.0, first.1) + render_entries(rest),
    decreases rest.len(),
{
    let all = seq![first] + rest;
    if rest.len() == 0 {
        assert(all.drop_last() =~= Seq::<(Seq<char>, Seq<char>)>::empty());
        assert(render_entries(all.drop_last()) =~= Seq::<char>::empty());
        assert(all.last() == first);
        assert(render_entries(all) =~= line_of(first.0, first.1) + render_entries(rest));
    } else {
        lemma_render_prepend(first, rest.drop_last());
        assert(all.drop_last() =~= seq![first] + rest.drop_last());
        assert(render_entries(all) =~= line_of(first.0, first.1) + render_entries(rest));
    }
}

/// Reading the rendering of valid lines from the front gives the lines back.
proof fn lemma_scan_of_render(entries: Seq<(Seq<char>, Seq<char>)>)
    requires
        valid_lines(entries),
    ensures
        scan(render_entries(entries)) == Some(entries),
    decreases entries.len(),
{
    if entries.len() > 0 {
        let first = entries[0];
        let rest = entries.drop_first();
        let key = first.0;
        let value = first.1;
        assert(entries =~= seq![first] + rest);
        lemma_render_prepend(first, rest);
        lemma_scan_of_render(rest);
        let text = render_entries(entries);
        let width: int = key.len() as int;
        let eol: int = width + 1 + value.len();
        assert(valid_key(key) && valid_value(value));
        assert forall|j: int| 0 <= j < eol implies text[j] != '\n' by {
            if j < width {
                assert(text[j] == key[j]);
            } else if j > width {
                assert(text[j] == value[j - width - 1]);
            }
        }
        lemma_first_of(text, '\n', eol);
        let line = text.subrange(0, eol);
        assert forall|j: int| 0 <= j < width implies line[j] != '=' by {
            assert(line[j] == key[j]);
        }
        lemma_first_of(line, '=', width);
        assert(text.subrange(0, width) =~= key);
        assert(text.subrange(width + 1, eol) =~= value);
        assert(text.subrange(eol + 1, text.len() as int) =~= render_entries(rest));
    }
}

/// A text whose lines hold a key twice, or that has no lines to read, is the
/// rendering of no credential set.
proof fn lemma_refused(text: Seq<char>)
    requires
        scan(text) matches Some(lines) ==> !distinct_keys(lines),
    ensures
        parse_entries(text) is None,
{
    assert forall|e: Seq<(Seq<char>, Seq<char>)>| valid_entries(e) implies #[trigger] render_entries(
        e,
    ) != text by {
        lemma_scan_of_render(e);
    }
}

proof fn lemma_duplicate_refused(
    text: Seq<char>,
    before: Seq<(Seq<char>, Seq<char>)>,
    key: Seq<char>,
    value: Seq<char>,
)
    requires
        rejection(before, key, value) is Some,
        scan(text) is Some ==> valid_key(key) && valid_value(value) && exists|
            tail: Seq<(Seq<char>, Seq<char>)>,
        |
            scan(text) == Some(before + (seq![(key, value)] + tail)),
    ensures
        parse_entries(text) is None,
{
    if scan(text) is Some {
        let lines = scan(text).unwrap();
        let i: int = choose|i: int| 0 <= i < before.len() && (#[trigger] before[i]).0 == key;
        assert(lines[i].0 == key);
        assert(lines[before.len() as int].0 == key);
    }
    lemma_refused(text);
}

/// Rendering loses nothing: a set with valid keys and values is read back
/// from its own rendering, entry for entry and in the same order.
pub proof fn lemma_render_then_parse(entries: Seq<(Seq<char>, Seq<char>)>)
    requires
        valid_entries(entries),
    ensures
        parse_entries(render_entries(entries)) == Some(entries),
{
    let text = render_entries(entries);
    let found = choose|e: Seq<(Seq<char>, Seq<char>)>|
        valid_entries(e) && #[trigger] render_entries(e) == text;
    lemma_scan_of_render(entries);
    lemma_scan_of_render(found);
}

} // verus!

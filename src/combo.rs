//! A single key combination: one non-modifier key plus the four modifier
//! flags, parsed from text such as `ctrl+alt+del`.

use vstd::prelude::*;

use crate::keys::{key_code_from_name, key_code_of, VK_LWIN, VK_RWIN};
use crate::text::{
    chars_of, is_word, lemma_split_plus_nonempty, lower_of, lowercase_chars, split_on_plus,
    split_plus, trim, trim_chars,
};

verus! {

broadcast use vstd::seq_lib::group_to_multiset_ensures;

/// Why a combination string was rejected.
#[derive(Debug, Clone, Copy, PartialEq, Eq, Structural)]
pub enum ParseError {
    /// The input holds no characters at all.
    Empty,
    /// Only modifier names were given.
    NoKey,
    /// More than one non-modifier name was given.
    MultipleKeys,
    /// The one non-modifier name is not in the key table.
    UnknownKey,
}

/// The text that describes each error.
pub open spec fn error_text(e: ParseError) -> Seq<char> {
    match e {
        ParseError::Empty => "Empty key combination"@,
        ParseError::NoKey => "No key specified"@,
        ParseError::MultipleKeys => "Multiple keys specified"@,
        ParseError::UnknownKey => "Unknown key"@,
    }
}

impl ParseError {
    /// A sentence describing the error.
    pub fn message(&self) -> (r: &'static str)
        ensures
            r@ == error_text(*self),
    {
        match self {
            ParseError::Empty => "Empty key combination",
            ParseError::NoKey => "No key specified",
            ParseError::MultipleKeys => "Multiple keys specified",
            ParseError::UnknownKey => "Unknown key",
        }
    }
}

/// The five fields that decide what a combination matches.
pub struct ComboModel {
    pub key: u16,
    pub shift: bool,
    pub ctrl: bool,
    pub alt: bool,
    pub win: bool,
}

/// A key combination. `string_repr` is the text it was parsed from; the
/// other fields are what that text denotes.
#[derive(Debug, Clone)]
pub struct KeyCombo {
    pub key: u16,
    pub shift: bool,
    pub ctrl: bool,
    pub alt: bool,
    pub win: bool,
    pub string_repr: String,
}

/// Where the non-modifier name of a combination stands while its tokens are read.
pub enum KeySlot {
    Missing,
    One(Seq<char>),
    Many,
}

/// What the tokens read so far have set.
pub struct TokenSummary {
    pub shift: bool,
    pub ctrl: bool,
    pub alt: bool,
    pub win: bool,
    pub key: KeySlot,
}

/// A token as the parser compares it: trimmed, then lower-cased.
pub open spec fn normalize(t: Seq<char>) -> Seq<char> {
    lower_of(trim(t))
}

pub open spec fn names_left_meta(w: Seq<char>) -> bool {
    w == "lwin"@ || w == "super"@
}

pub open spec fn names_modifier(w: Seq<char>) -> bool {
    w == "shift"@ || w == "ctrl"@ || w == "control"@ || w == "alt"@ || names_left_meta(w)
        || w == "rwin"@
}

/// The effect of one normalized token.
pub open spec fn read_token(acc: TokenSummary, w: Seq<char>) -> TokenSummary {
    if w == "shift"@ {
        TokenSummary { shift: true, ..acc }
    } else if w == "ctrl"@ || w == "control"@ {
        TokenSummary { ctrl: true, ..acc }
    } else if w == "alt"@ {
        TokenSummary { alt: true, ..acc }
    } else if names_left_meta(w) || w == "rwin"@ {
        TokenSummary { win: true, ..acc }
    } else {
        TokenSummary {
            key: match acc.key {
                KeySlot::Missing => KeySlot::One(w),
                _ => KeySlot::Many,
            },
            ..acc
        }
    }
}

/// The summary of the normalized tokens `ws`, read left to right.
pub open spec fn read_words(ws: Seq<Seq<char>>) -> TokenSummary
    decreases ws.len(),
{
    if ws.len() == 0 {
        TokenSummary { shift: false, ctrl: false, alt: false, win: false, key: KeySlot::Missing }
    } else {
        read_token(read_words(ws.drop_last()), ws.last())
    }
}

/// The summary of the raw tokens `ts`, each normalized, read left to right.
pub open spec fn read_tokens(ts: Seq<Seq<char>>) -> TokenSummary
    decreases ts.len(),
{
    if ts.len() == 0 {
        TokenSummary { shift: false, ctrl: false, alt: false, win: false, key: KeySlot::Missing }
    } else {
        read_token(read_tokens(ts.drop_last()), normalize(ts.last()))
    }
}

/// Each raw token normalized.
pub open spec fn normalized(ts: Seq<Seq<char>>) -> Seq<Seq<char>> {
    ts.map_values(|t: Seq<char>| normalize(t))
}

/// The character sequences held by `ws`.
pub open spec fn views(ws: Seq<Vec<char>>) -> Seq<Seq<char>> {
    ws.map_values(|w: Vec<char>| w@)
}

pub open spec fn bare_meta(key: u16) -> ComboModel {
    ComboModel { key, shift: false, ctrl: false, alt: false, win: true }
}

/// What the normalized tokens `ws` denote as a combination. A sole `lwin`
/// (or `super`) or `rwin` token names the meta key itself, with the meta
/// flag set; otherwise modifier names set their flag and exactly one other
/// token must name a key of the table.
pub open spec fn combo_of_words(ws: Seq<Seq<char>>) -> Result<ComboModel, ParseError> {
    if ws.len() == 1 && names_left_meta(ws[0]) {
        Ok(bare_meta(VK_LWIN))
    } else if ws.len() == 1 && ws[0] == "rwin"@ {
        Ok(bare_meta(VK_RWIN))
    } else {
        let acc = read_words(ws);
        match acc.key {
            KeySlot::Missing => Err(ParseError::NoKey),
            KeySlot::Many => Err(ParseError::MultipleKeys),
            KeySlot::One(w) => match key_code_of(w) {
                None => Err(ParseError::UnknownKey),
                Some(code) => Ok(
                    ComboModel { key: code, shift: acc.shift, ctrl: acc.ctrl, alt: acc.alt, win: acc.win },
                ),
            },
        }
    }
}

/// What the text `s` denotes as a combination: its `+`-separated tokens,
/// each trimmed and lower-cased, read as `combo_of_words` says.
pub open spec fn parse_combo(s: Seq<char>) -> Result<ComboModel, ParseError> {
    if s.len() == 0 {
        Err(ParseError::Empty)
    } else {
        combo_of_words(normalized(split_plus(s)))
    }
}

impl KeyCombo {
    pub open spec fn model(&self) -> ComboModel {
        ComboModel {
            key: self.key,
            shift: self.shift,
            ctrl: self.ctrl,
            alt: self.alt,
            win: self.win,
        }
    }

    /// The combination's fields are what its text denotes.
    pub open spec fn wf(&self) -> bool {
        parse_combo(self.string_repr@) == Ok::<ComboModel, ParseError>(self.model())
    }

    pub open spec fn matches_spec(&self, key: u16, shift: bool, ctrl: bool, alt: bool, win: bool) -> bool {
        self.key == key && self.shift == shift && self.ctrl == ctrl && self.alt == alt && self.win
            == win
    }

    /// Parses `s`: split on `+`, each token trimmed and lower-cased; modifier
    /// tokens set their flag, and exactly one other token names the key.
    pub fn from_string(s: &str) -> (r: Result<Self, ParseError>)
        ensures
            r matches Ok(c) ==> parse_combo(s@) == Ok::<ComboModel, ParseError>(c.model())
                && c.string_repr@ == s@ && c.wf(),
            r matches Err(e) ==> parse_combo(s@) == Err::<ComboModel, ParseError>(e),
    {
        let chars = chars_of(s);
        if chars.len() == 0 {
            return Err(ParseError::Empty);
        }
        let raw = split_on_plus(&chars);
        let ghost ts = split_plus(s@);
        let mut words: Vec<Vec<char>> = Vec::new();
        let mut i: usize = 0;
        while i < raw.len()
            invariant
                raw@.len() == ts.len(),
                forall|j: int| 0 <= j < raw@.len() ==> #[trigger] raw@[j]@ == ts[j],
                i <= raw@.len(),
                words@.len() == i,
                forall|j: int| 0 <= j < i ==> #[trigger] words@[j]@ == normalize(ts[j]),
            decreases raw@.len() - i,
        {
            let trimmed = trim_chars(&raw[i]);
            words.push(lowercase_chars(&trimmed));
            i = i + 1;
        }
        assert(views(words@) =~= normalized(ts));
        KeyCombo::from_words(&words, String::from_str(s))
    }

    /// The combination that the normalized (trimmed, lower-cased) tokens
    /// `words` denote, recorded with the text `string_repr`.
    pub fn from_words(words: &Vec<Vec<char>>, string_repr: String) -> (r: Result<Self, ParseError>)
        ensures
            r matches Ok(c) ==> combo_of_words(views(words@)) == Ok::<ComboModel, ParseError>(
                c.model(),
            ) && c.string_repr == string_repr,
            r matches Err(e) ==> combo_of_words(views(words@)) == Err::<ComboModel, ParseError>(e),
    {
        let ghost ws = views(words@);
        if words.len() == 1 {
            if is_word(&words[0], "lwin") || is_word(&words[0], "super") {
                return Ok(
                    KeyCombo {
                        key: VK_LWIN,
                        shift: false,
                        ctrl: false,
                        alt: false,
                        win: true,
                        string_repr,
                    },
                );
            }
            if is_word(&words[0], "rwin") {
                return Ok(
                    KeyCombo {
                        key: VK_RWIN,
                        shift: false,
                        ctrl: false,
                        alt: false,
                        win: true,
                        string_repr,
                    },
                );
            }
        }
        let mut shift = false;
        let mut ctrl = false;
        let mut alt = false;
        let mut win = false;
        let mut key_at: Option<usize> = None;
        let mut k: usize = 0;
        while k < words.len()
            invariant
                ws == views(words@),
                !(ws.len() == 1 && (names_left_meta(ws[0]) || ws[0] == "rwin"@)),
                k <= words@.len(),
                ({
                    let acc = read_words(ws.subrange(0, k as int));
                    &&& acc.shift == shift
                    &&& acc.ctrl == ctrl
                    &&& acc.alt == alt
                    &&& acc.win == win
                    &&& match key_at {
                        None => acc.key == KeySlot::Missing,
                        Some(p) => p < k && acc.key == KeySlot::One(ws[p as int]),
                    }
                }),
            decreases words@.len() - k,
        {
            assert(ws.subrange(0, k + 1).drop_last() =~= ws.subrange(0, k as int));
            let w = &words[k];
            if is_word(w, "shift") {
                shift = true;
            } else if is_word(w, "ctrl") || is_word(w, "control") {
                ctrl = true;
            } else if is_word(w, "alt") {
                alt = true;
            } else if is_word(w, "lwin") || is_word(w, "super") || is_word(w, "rwin") {
                win = true;
            } else {
                if key_at.is_some() {
                    proof {
                        lemma_many_stays(ws, k as int + 1);
                    }
                    return Err(ParseError::MultipleKeys);
                }
                key_at = Some(k);
            }
            k = k + 1;
        }
        assert(ws.subrange(0, words@.len() as int) =~= ws);
        match key_at {
            None => Err(ParseError::NoKey),
            Some(p) => match key_code_from_name(&words[p]) {
                None => Err(ParseError::UnknownKey),
                Some(code) => Ok(KeyCombo { key: code, shift, ctrl, alt, win, string_repr }),
            },
        }
    }

    /// Whether this combination is exactly the given key and modifier state.
    pub fn matches(&self, key: u16, shift: bool, ctrl: bool, alt: bool, win: bool) -> (r: bool)
        ensures
            r == self.matches_spec(key, shift, ctrl, alt, win),
    {
        self.key == key && self.shift == shift && self.ctrl == ctrl && self.alt == alt && self.win
            == win
    }
}

/// Once two non-modifier tokens have been read, more tokens keep it so.
proof fn lemma_many_stays(ts: Seq<Seq<char>>, k: int)
    requires
        0 <= k <= ts.len(),
        read_words(ts.subrange(0, k)).key == KeySlot::Many,
    ensures
        read_words(ts).key == KeySlot::Many,
    decreases ts.len() - k,
{
    if k < ts.len() {
        assert(ts.subrange(0, k + 1).drop_last() =~= ts.subrange(0, k));
        lemma_many_stays(ts, k + 1);
    } else {
        assert(ts.subrange(0, k) =~= ts);
    }
}

proof fn lemma_read_token_commutes(acc: TokenSummary, x: Seq<char>, y: Seq<char>)
    ensures
        read_token(read_token(acc, x), y) == read_token(read_token(acc, y), x),
{
}

/// Moving one token to the end leaves the summary unchanged.
proof fn lemma_move_to_end(p: Seq<Seq<char>>, x: Seq<char>, q: Seq<Seq<char>>)
    ensures
        read_tokens(p + seq![x] + q) == read_tokens(p + q + seq![x]),
    decreases q.len(),
{
    if q.len() == 0 {
        assert(p + seq![x] + q =~= p + q + seq![x]);
    } else {
        let q2 = q.drop_last();
        let y = q.last();
        let base = read_tokens(p + q2);
        assert((p + seq![x] + q).drop_last() =~= p + seq![x] + q2);
        assert((p + seq![x] + q).last() == y);
        lemma_move_to_end(p, x, q2);
        assert((p + q2 + seq![x]).drop_last() =~= p + q2);
        assert((p + q2 + seq![x]).last() == x);
        assert(read_tokens(p + q2 + seq![x]) == read_token(base, normalize(x)));
        assert(read_tokens(p + seq![x] + q) == read_token(
            read_token(base, normalize(x)),
            normalize(y),
        ));
        lemma_read_token_commutes(base, normalize(x), normalize(y));
        assert((p + q).drop_last() =~= p + q2);
        assert((p + q).last() == y);
        assert(read_tokens(p + q) == read_token(base, normalize(y)));
        assert((p + q + seq![x]).drop_last() =~= p + q);
        assert((p + q + seq![x]).last() == x);
    }
}

/// Token sequences that hold the same tokens, in any order, read alike.
proof fn lemma_read_tokens_permutation(a: Seq<Seq<char>>, b: Seq<Seq<char>>)
    requires
        a.to_multiset() == b.to_multiset(),
    ensures
        read_tokens(a) == read_tokens(b),
    decreases a.len(),
{
    broadcast use vstd::seq_lib::to_multiset_len, vstd::seq_lib::to_multiset_contains, vstd::seq_lib::to_multiset_remove, vstd::seq_lib::to_multiset_build;

    if a.len() == 0 {
        vstd::seq_lib::to_multiset_len(a);
        vstd::seq_lib::to_multiset_len(b);
        assert(a =~= b);
    } else {
        let x = a.last();
        let a2 = a.drop_last();
        assert(a2.push(x) =~= a);
        assert(a.to_multiset().count(x) > 0);
        assert(b.contains(x));
        let j = choose|j: int| 0 <= j < b.len() && b[j] == x;
        let b2 = b.remove(j);
        assert(b2.to_multiset() == b.to_multiset().remove(x));
        assert(a2.to_multiset() =~= a.to_multiset().remove(x));
        lemma_read_tokens_permutation(a2, b2);
        let front = b.subrange(0, j);
        let back = b.subrange(j + 1, b.len() as int);
        assert(b =~= front + seq![x] + back);
        assert(b2 =~= front + back);
        lemma_move_to_end(front, x, back);
        assert((front + back + seq![x]).drop_last() =~= b2);
    }
}

/// Only the empty text splits into one empty piece.
proof fn lemma_split_plus_empty_piece(s: Seq<char>)
    requires
        s.len() > 0,
    ensures
        split_plus(s) != seq![Seq::<char>::empty()],
{
    lemma_split_plus_nonempty(s.drop_last());
    let p = split_plus(s.drop_last());
    if s.last() == '+' {
        assert(split_plus(s).len() == p.len() + 1);
    } else {
        assert(split_plus(s).last() == p.last().push(s.last()));
        assert(split_plus(s).last().len() > 0);
    }
}

/// Reading raw tokens is reading their normalized forms.
proof fn lemma_read_tokens_words(ts: Seq<Seq<char>>)
    ensures
        read_tokens(ts) == read_words(normalized(ts)),
    decreases ts.len(),
{
    if ts.len() > 0 {
        lemma_read_tokens_words(ts.drop_last());
        assert(normalized(ts).drop_last() =~= normalized(ts.drop_last()));
    }
}

/// Parsing ignores the order of the `+`-separated tokens: two texts whose
/// tokens are the same up to order denote the same combination, or fail alike.
pub proof fn lemma_parse_ignores_token_order(s1: Seq<char>, s2: Seq<char>)
    requires
        split_plus(s1).to_multiset() == split_plus(s2).to_multiset(),
    ensures
        parse_combo(s1) == parse_combo(s2),
{
    broadcast use vstd::seq_lib::to_multiset_len, vstd::seq_lib::to_multiset_contains;

    let t1 = split_plus(s1);
    let t2 = split_plus(s2);
    lemma_split_plus_nonempty(s1);
    lemma_split_plus_nonempty(s2);
    vstd::seq_lib::to_multiset_len(t1);
    vstd::seq_lib::to_multiset_len(t2);
    if t1.len() == 1 {
        assert(t1.to_multiset().count(t1[0]) > 0);
        assert(t2.contains(t1[0]));
        assert(t1 =~= t2);
    } else {
        lemma_read_tokens_permutation(t1, t2);
        lemma_read_tokens_words(t1);
        lemma_read_tokens_words(t2);
    }
    if s1.len() == 0 && s2.len() > 0 {
        lemma_split_plus_empty_piece(s2);
        assert(t2 =~= t1);
    }
    if s2.len() == 0 && s1.len() > 0 {
        lemma_split_plus_empty_piece(s1);
        assert(t2 =~= t1);
    }
}

/// Parsing a combination's own text again gives an equal combination.
pub proof fn lemma_reparse_equal(c: KeyCombo, again: KeyCombo)
    requires
        c.wf(),
        again.wf(),
        again.string_repr@ == c.string_repr@,
    ensures
        again.model() == c.model(),
{
}

impl PartialEq for KeyCombo {
    fn eq(&self, other: &KeyCombo) -> (r: bool) {
        self.key == other.key && self.shift == other.shift && self.ctrl == other.ctrl && self.alt
            == other.alt && self.win == other.win
    }
}

impl vstd::std_specs::cmp::PartialEqSpecImpl for KeyCombo {
    open spec fn obeys_eq_spec() -> bool {
        true
    }

    open spec fn eq_spec(&self, other: &KeyCombo) -> bool {
        self.model() == other.model()
    }
}

} // verus!

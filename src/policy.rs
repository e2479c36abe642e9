//! The allow/block policy: a blacklist and a whitelist of exact
//! combinations, the whitelist taking precedence.

use vstd::prelude::*;

use crate::combo::{bare_meta, parse_combo, ComboModel, KeyCombo, ParseError};
use crate::keys::{VK_LWIN, VK_RWIN};

verus! {

/// Whether some entry of `list` is exactly the given key and modifier state.
pub open spec fn any_matches(
    list: Seq<KeyCombo>,
    key: u16,
    shift: bool,
    ctrl: bool,
    alt: bool,
    win: bool,
) -> bool {
    exists|i: int| 0 <= i < list.len() && #[trigger] list[i].matches_spec(key, shift, ctrl, alt, win)
}

/// The models of the entries of `list`.
pub open spec fn models(list: Seq<KeyCombo>) -> Seq<ComboModel> {
    list.map_values(|c: KeyCombo| c.model())
}

/// The error of the first text in `ss` that does not parse, if one does not.
pub open spec fn first_error(ss: Seq<Seq<char>>) -> Option<ParseError>
    decreases ss.len(),
{
    if ss.len() == 0 {
        None
    } else {
        match parse_combo(ss[0]) {
            Err(e) => Some(e),
            Ok(_) => first_error(ss.drop_first()),
        }
    }
}

pub open spec fn texts(ss: Seq<String>) -> Seq<Seq<char>> {
    ss.map_values(|s: String| s@)
}

/// A policy: which combinations to block, and which to let through whatever
/// the blacklist says.
#[derive(Debug, Clone)]
pub struct KeyConfig {
    /// Key combinations that should be blocked
    pub blacklist: Vec<KeyCombo>,
    /// Key combinations that should be explicitly allowed (overrides blacklist)
    pub whitelist: Vec<KeyCombo>,
}

impl KeyConfig {
    /// The decision for a key press: blocked when a blacklist entry matches
    /// it exactly and no whitelist entry does.
    pub open spec fn blocks(&self, key: u16, shift: bool, ctrl: bool, alt: bool, win: bool) -> bool {
        !any_matches(self.whitelist@, key, shift, ctrl, alt, win) && any_matches(
            self.blacklist@,
            key,
            shift,
            ctrl,
            alt,
            win,
        )
    }

    /// The starting policy: the bare meta keys blocked, nothing whitelisted.
    pub open spec fn is_default(&self) -> bool {
        &&& models(self.blacklist@) == seq![bare_meta(VK_LWIN), bare_meta(VK_RWIN)]
        &&& self.whitelist@.len() == 0
        &&& self.blacklist@[0].string_repr@ == "lwin"@
        &&& self.blacklist@[1].string_repr@ == "rwin"@
    }

    /// Every entry is what its text denotes.
    pub open spec fn wf(&self) -> bool {
        (forall|i: int| 0 <= i < self.blacklist@.len() ==> #[trigger] self.blacklist@[i].wf())
            && (forall|i: int| 0 <= i < self.whitelist@.len() ==> #[trigger] self.whitelist@[i].wf())
    }

    /// Whether to block this key press: a whitelist match allows it, else a
    /// blacklist match blocks it, else it is allowed.
    pub fn should_block(&self, key: u16, shift: bool, ctrl: bool, alt: bool, win: bool) -> (r: bool)
        ensures
            r == self.blocks(key, shift, ctrl, alt, win),
    {
        let mut i: usize = 0;
        while i < self.whitelist.len()
            invariant
                i <= self.whitelist@.len(),
                forall|j: int|
                    0 <= j < i ==> !(#[trigger] self.whitelist@[j].matches_spec(
                        key,
                        shift,
                        ctrl,
                        alt,
                        win,
                    )),
            decreases self.whitelist@.len() - i,
        {
            if self.whitelist[i].matches(key, shift, ctrl, alt, win) {
                return false;
            }
            i = i + 1;
        }
        let mut k: usize = 0;
        while k < self.blacklist.len()
            invariant
                k <= self.blacklist@.len(),
                !any_matches(self.whitelist@, key, shift, ctrl, alt, win),
                forall|j: int|
                    0 <= j < k ==> !(#[trigger] self.blacklist@[j].matches_spec(
                        key,
                        shift,
                        ctrl,
                        alt,
                        win,
                    )),
            decreases self.blacklist@.len() - k,
        {
            if self.blacklist[k].matches(key, shift, ctrl, alt, win) {
                return true;
            }
            k = k + 1;
        }
        false
    }

    /// Builds a policy from the texts of its two lists. Fails with the error
    /// of the first text that does not parse, blacklist first.
    pub fn from_lists(blacklist: &Vec<String>, whitelist: &Vec<String>) -> (r: Result<
        KeyConfig,
        ParseError,
    >)
        ensures
            r is Ok <==> first_error(texts(blacklist@)) is None && first_error(texts(whitelist@)) is None,
            r matches Err(e) ==> (first_error(texts(blacklist@)) == Some(e) || (first_error(
                texts(blacklist@),
            ) is None && first_error(texts(whitelist@)) == Some(e))),
            r matches Ok(c) ==> c.wf() && reprs(c.blacklist@) == texts(blacklist@) && reprs(
                c.whitelist@,
            ) == texts(whitelist@),
    {
        let black = parse_all(blacklist)?;
        let white = parse_all(whitelist)?;
        Ok(KeyConfig { blacklist: black, whitelist: white })
    }
}

/// The texts the entries of `list` were parsed from.
pub open spec fn reprs(list: Seq<KeyCombo>) -> Seq<Seq<char>> {
    list.map_values(|c: KeyCombo| c.string_repr@)
}

/// Parses every text of `ss`, stopping at the first that fails.
pub fn parse_all(ss: &Vec<String>) -> (r: Result<Vec<KeyCombo>, ParseError>)
    ensures
        r is Ok <==> first_error(texts(ss@)) is None,
        r matches Err(e) ==> first_error(texts(ss@)) == Some(e),
        r matches Ok(v) ==> reprs(v@) == texts(ss@) && forall|i: int|
            0 <= i < v@.len() ==> #[trigger] v@[i].wf(),
{
    let mut out: Vec<KeyCombo> = Vec::new();
    let mut i: usize = 0;
    assert(texts(ss@).subrange(0, ss@.len() as int) =~= texts(ss@));
    while i < ss.len()
        invariant
            i <= ss@.len(),
            out@.len() == i,
            forall|j: int|
                #![trigger out@[j]]
                0 <= j < i ==> out@[j].wf() && out@[j].string_repr@ == ss@[j]@,
            first_error(texts(ss@)) == first_error(texts(ss@).subrange(i as int, ss@.len() as int)),
        decreases ss@.len() - i,
    {
        let ghost rest = texts(ss@).subrange(i as int, ss@.len() as int);
        assert(rest[0] == ss@[i as int]@);
        assert(rest.drop_first() =~= texts(ss@).subrange(i + 1, ss@.len() as int));
        match KeyCombo::from_string(ss[i].as_str()) {
            Ok(c) => {
                out.push(c);
            },
            Err(e) => {
                return Err(e);
            },
        }
        i = i + 1;
    }
    assert(reprs(out@) =~= texts(ss@));
    Ok(out)
}

impl Default for KeyConfig {
    /// The starting policy: the bare left and right meta keys are blocked,
    /// nothing is whitelisted.
    fn default() -> (r: KeyConfig)
        ensures
            r.is_default(),
    {
        let left = KeyCombo {
            key: VK_LWIN,
            shift: false,
            ctrl: false,
            alt: false,
            win: true,
            string_repr: String::from_str("lwin"),
        };
        let right = KeyCombo {
            key: VK_RWIN,
            shift: false,
            ctrl: false,
            alt: false,
            win: true,
            string_repr: String::from_str("rwin"),
        };
        let r = KeyConfig { blacklist: vec![left, right], whitelist: Vec::new() };
        assert(models(r.blacklist@) =~= seq![bare_meta(VK_LWIN), bare_meta(VK_RWIN)]);
        r
    }
}

/// A whitelist entry that matches a key press exactly allows it, whatever
/// the blacklist holds.
pub proof fn lemma_whitelist_wins(
    cfg: KeyConfig,
    i: int,
    key: u16,
    shift: bool,
    ctrl: bool,
    alt: bool,
    win: bool,
)
    requires
        0 <= i < cfg.whitelist@.len(),
        cfg.whitelist@[i].matches_spec(key, shift, ctrl, alt, win),
    ensures
        !cfg.blocks(key, shift, ctrl, alt, win),
{
}

/// A key press that no entry of either list matches is allowed.
pub proof fn lemma_default_allow(
    cfg: KeyConfig,
    key: u16,
    shift: bool,
    ctrl: bool,
    alt: bool,
    win: bool,
)
    requires
        forall|i: int|
            0 <= i < cfg.whitelist@.len() ==> !#[trigger] cfg.whitelist@[i].matches_spec(
                key,
                shift,
                ctrl,
                alt,
                win,
            ),
        forall|i: int|
            0 <= i < cfg.blacklist@.len() ==> !#[trigger] cfg.blacklist@[i].matches_spec(
                key,
                shift,
                ctrl,
                alt,
                win,
            ),
    ensures
        !cfg.blocks(key, shift, ctrl, alt, win),
{
}

/// With the bare left meta key as the only blacklist entry and an empty
/// whitelist, the bare left meta key press is blocked, while a press of any
/// other key with meta held is allowed.
pub proof fn lemma_bare_meta_blacklist(cfg: KeyConfig)
    requires
        models(cfg.blacklist@) == seq![bare_meta(VK_LWIN)],
        cfg.whitelist@.len() == 0,
    ensures
        cfg.blocks(VK_LWIN, false, false, false, true),
        forall|key: u16, shift: bool, ctrl: bool, alt: bool|
            key != VK_LWIN ==> !#[trigger] cfg.blocks(key, shift, ctrl, alt, true),
{
    assert(models(cfg.blacklist@).len() == cfg.blacklist@.len());
    assert(cfg.blacklist@[0].model() == models(cfg.blacklist@)[0]);
    assert(cfg.blacklist@[0].matches_spec(VK_LWIN, false, false, false, true));
}

} // verus!

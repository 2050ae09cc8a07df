//! Shortcut descriptors: the textual form `"<modifier>+<key>"`, its parsed
//! form, and the platform defaults used when no valid descriptor is given.

use crate::text::{
    fold_case, folded, lemma_folded_sole_plus, lemma_folded_subrange,
    lemma_split_at_sole_separator, lemma_split_two_pieces, lowercase, sole_separator, spells,
    split, split_on,
};
use vstd::prelude::*;

verus! {

/// A keyboard qualifier key.
#[derive(Clone, Copy, Debug, PartialEq, Eq, Structural)]
pub enum Modifier {
    Meta,
    Control,
    Alt,
    Shift,
}

/// The primary key of a shortcut.
#[derive(Clone, Copy, Debug, PartialEq, Eq, Structural)]
pub enum Key {
    Space,
}

/// A global shortcut: an optional modifier held together with a key.
#[derive(Clone, Copy, Debug, PartialEq, Eq, Structural)]
pub struct ShortcutSpec {
    pub modifier: Option<Modifier>,
    pub key: Key,
}

/// The platform families that differ in their default shortcut.
#[derive(Clone, Copy, Debug, PartialEq, Eq, Structural)]
pub enum Platform {
    /// The family whose convention is the command key.
    MacOs,
    /// Every other platform.
    Other,
}

/// The lower-case token that names a modifier in a descriptor.
pub open spec fn modifier_token(m: Modifier) -> Seq<char> {
    match m {
        Modifier::Meta => "cmd"@,
        Modifier::Control => "ctrl"@,
        Modifier::Alt => "alt"@,
        Modifier::Shift => "shift"@,
    }
}

/// The lower-case token that names a key in a descriptor.
pub open spec fn key_token(k: Key) -> Seq<char> {
    match k {
        Key::Space => "space"@,
    }
}

/// The modifier that `token` names, if it is exactly one of the modifier
/// tokens.
pub open spec fn modifier_of(token: Seq<char>) -> Option<Modifier> {
    if token == modifier_token(Modifier::Meta) {
        Some(Modifier::Meta)
    } else if token == modifier_token(Modifier::Control) {
        Some(Modifier::Control)
    } else if token == modifier_token(Modifier::Alt) {
        Some(Modifier::Alt)
    } else if token == modifier_token(Modifier::Shift) {
        Some(Modifier::Shift)
    } else {
        None
    }
}

/// The key that `token` names, if it is exactly one of the key tokens.
pub open spec fn key_of(token: Seq<char>) -> Option<Key> {
    if token == key_token(Key::Space) {
        Some(Key::Space)
    } else {
        None
    }
}

/// What a descriptor parses to.
///
/// The descriptor is folded to lower case and split on `+`. It parses when
/// there are exactly two pieces, the first naming a modifier and the second
/// naming a key.
pub open spec fn parsed(s: Seq<char>) -> Option<(Option<Modifier>, Key)> {
    let pieces = split_on(folded(s), '+');
    if pieces.len() != 2 {
        None
    } else {
        match (modifier_of(pieces[0]), key_of(pieces[1])) {
            (Some(m), Some(k)) => Some((Some(m), k)),
            _ => None,
        }
    }
}

/// The default shortcut of a platform.
pub open spec fn default_spec(platform: Platform) -> ShortcutSpec {
    match platform {
        Platform::MacOs => ShortcutSpec { modifier: Some(Modifier::Meta), key: Key::Space },
        Platform::Other => ShortcutSpec { modifier: Some(Modifier::Control), key: Key::Space },
    }
}

/// The descriptor of a platform's default shortcut.
pub open spec fn default_descriptor(platform: Platform) -> Seq<char> {
    match platform {
        Platform::MacOs => "cmd+space"@,
        Platform::Other => "ctrl+space"@,
    }
}

/// The shortcut in force for a configured descriptor (if any) on a platform:
/// the descriptor's parse where it has one, the platform default otherwise.
pub open spec fn resolved(configured: Option<&str>, platform: Platform) -> ShortcutSpec {
    match configured {
        Some(s) => match parsed(s@) {
            Some((modifier, key)) => ShortcutSpec { modifier, key },
            None => default_spec(platform),
        },
        None => default_spec(platform),
    }
}

impl ShortcutSpec {
    /// A shortcut of `modifier` and `key`.
    pub fn new(modifier: Option<Modifier>, key: Key) -> (r: ShortcutSpec)
        ensures
            r == (ShortcutSpec { modifier, key }),
    {
        ShortcutSpec { modifier, key }
    }

    /// Whether `self` and `other` are the same shortcut.
    pub fn same_as(&self, other: &ShortcutSpec) -> (r: bool)
        ensures
            r == (*self == *other),
    {
        *self == *other
    }
}

/// The modifier named by a lower-case token.
pub fn modifier_named(token: &Vec<char>) -> (r: Option<Modifier>)
    ensures
        r == modifier_of(token@),
{
    if spells(token, "cmd") {
        Some(Modifier::Meta)
    } else if spells(token, "ctrl") {
        Some(Modifier::Control)
    } else if spells(token, "alt") {
        Some(Modifier::Alt)
    } else if spells(token, "shift") {
        Some(Modifier::Shift)
    } else {
        None
    }
}

/// The key named by a lower-case token.
pub fn key_named(token: &Vec<char>) -> (r: Option<Key>)
    ensures
        r == key_of(token@),
{
    if spells(token, "space") {
        Some(Key::Space)
    } else {
        None
    }
}

/// Parses a descriptor of the form `"<modifier>+<key>"`, ignoring case.
///
/// Returns `None` unless the descriptor holds exactly one `+`, with a
/// modifier token before it and a key token after it.
pub fn parse_shortcut(shortcut_str: &str) -> (r: Option<(Option<Modifier>, Key)>)
    ensures
        r == parsed(shortcut_str@),
{
    let lowered = lowercase(shortcut_str);
    let parts = split(&lowered, '+');
    if parts.len() != 2 {
        return None;
    }
    let modifier = match modifier_named(&parts[0]) {
        Some(m) => m,
        None => return None,
    };
    let key = match key_named(&parts[1]) {
        Some(k) => k,
        None => return None,
    };
    Some((Some(modifier), key))
}

/// The default shortcut of `platform`: Meta+Space where the command key is
/// the convention, Control+Space elsewhere.
pub fn default_shortcut(platform: Platform) -> (r: ShortcutSpec)
    ensures
        r == default_spec(platform),
{
    match platform {
        Platform::MacOs => ShortcutSpec::new(Some(Modifier::Meta), Key::Space),
        Platform::Other => ShortcutSpec::new(Some(Modifier::Control), Key::Space),
    }
}

/// The descriptor of the default shortcut of `platform`.
pub fn default_shortcut_str(platform: Platform) -> (r: &'static str)
    ensures
        r@ == default_descriptor(platform),
{
    match platform {
        Platform::MacOs => "cmd+space",
        Platform::Other => "ctrl+space",
    }
}

/// The shortcut to register: the configured descriptor where one is given
/// and parses, the default of `platform` otherwise.
pub fn resolve_shortcut(configured: Option<&str>, platform: Platform) -> (r: ShortcutSpec)
    ensures
        r == resolved(configured, platform),
{
    let descriptor = match configured {
        Some(s) => s,
        None => default_shortcut_str(platform),
    };
    proof {
        law_default_descriptor_parses(platform);
    }
    match parse_shortcut(descriptor) {
        Some((modifier, key)) => ShortcutSpec::new(modifier, key),
        None => default_shortcut(platform),
    }
}

/// The tokens are lower-case words without a `+`, and no two modifiers share
/// a token.
pub proof fn lemma_tokens(m: Modifier, k: Key)
    ensures
        modifier_of(modifier_token(m)) == Some(m),
        key_of(key_token(k)) == Some(k),
        folded(modifier_token(m)) == modifier_token(m),
        folded(key_token(k)) == key_token(k),
        forall|j: int| 0 <= j < modifier_token(m).len() ==> modifier_token(m)[j] != '+',
        forall|j: int| 0 <= j < key_token(k).len() ==> key_token(k)[j] != '+',
{
    reveal_strlit("cmd");
    reveal_strlit("ctrl");
    reveal_strlit("alt");
    reveal_strlit("shift");
    reveal_strlit("space");
    assert("cmd"@[0] != "alt"@[0]);
    assert(folded(modifier_token(m)) =~= modifier_token(m));
    assert(folded(key_token(k)) =~= key_token(k));
}

/// A descriptor with a single `+` parses to what its two sides name, case
/// ignored, and does not parse if either side names nothing.
pub proof fn law_parse_by_sides(s: Seq<char>, at: int)
    requires
        sole_separator(s, '+', at),
    ensures
        parsed(s) == match (
            modifier_of(folded(s.subrange(0, at))),
            key_of(folded(s.subrange(at + 1, s.len() as int))),
        ) {
            (Some(m), Some(k)) => Some((Some(m), k)),
            _ => None,
        },
{
    lemma_folded_sole_plus(s, at);
    lemma_split_at_sole_separator(folded(s), '+', at);
    lemma_folded_subrange(s, 0, at);
    lemma_folded_subrange(s, at + 1, s.len() as int);
}

/// Every spelling of `<modifier>+<key>`, in any mix of upper and lower
/// case, parses to that modifier and that key.
pub proof fn law_named_shortcut_parses(s: Seq<char>, m: Modifier, k: Key)
    requires
        folded(s) == modifier_token(m) + seq!['+'] + key_token(k),
    ensures
        parsed(s) == Some((Some(m), k)),
{
    let t = folded(s);
    let at = modifier_token(m).len() as int;
    lemma_tokens(m, k);
    assert(sole_separator(t, '+', at));
    lemma_split_at_sole_separator(t, '+', at);
    assert(t.subrange(0, at) == modifier_token(m));
    assert(t.subrange(at + 1, t.len() as int) == key_token(k));
}

/// A descriptor that does not hold exactly one `+` does not parse.
pub proof fn law_shape_required(s: Seq<char>)
    requires
        forall|at: int| !sole_separator(s, '+', at),
    ensures
        parsed(s) is None,
{
    if split_on(folded(s), '+').len() == 2 {
        let at = lemma_split_two_pieces(folded(s), '+');
        lemma_folded_sole_plus(s, at);
    }
}

/// A descriptor whose modifier side or key side names nothing does not
/// parse.
pub proof fn law_unknown_token_rejected(s: Seq<char>, at: int)
    requires
        sole_separator(s, '+', at),
        modifier_of(folded(s.subrange(0, at))) is None || key_of(
            folded(s.subrange(at + 1, s.len() as int)),
        ) is None,
    ensures
        parsed(s) is None,
{
    law_parse_by_sides(s, at);
}

/// Two descriptors that differ only in the case of their letters parse
/// alike.
pub proof fn law_case_insensitive(s: Seq<char>, t: Seq<char>)
    requires
        s.len() == t.len(),
        forall|i: int| 0 <= i < s.len() ==> fold_case(s[i]) == fold_case(t[i]),
    ensures
        parsed(s) == parsed(t),
{
    assert(folded(s) =~= folded(t));
}

/// A parse never yields a shortcut without a modifier.
pub proof fn law_parse_has_modifier(s: Seq<char>)
    ensures
        parsed(s) matches Some((modifier, _)) ==> modifier is Some,
{
}

/// The descriptor of a platform's default shortcut parses to that shortcut.
pub proof fn law_default_descriptor_parses(platform: Platform)
    ensures
        parsed(default_descriptor(platform)) == Some(
            (default_spec(platform).modifier, default_spec(platform).key),
        ),
{
    reveal_strlit("cmd+space");
    reveal_strlit("ctrl+space");
    reveal_strlit("cmd");
    reveal_strlit("ctrl");
    reveal_strlit("space");
    let m = default_spec(platform).modifier->0;
    let d = default_descriptor(platform);
    assert(d =~= modifier_token(m) + seq!['+'] + key_token(Key::Space));
    assert(folded(d) =~= d);
    law_named_shortcut_parses(d, m, Key::Space);
}

} // verus!

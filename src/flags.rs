//! How optional fields become argument tokens: presence flags, single-value
//! flags and paired `key=value` flags, emitted in a declared order.

use vstd::prelude::*;
use crate::traits::opt_chars;
use crate::traits::strings_view;

verus! {

/// A presence flag: its name when set, nothing otherwise.
pub open spec fn presence_flag(name: Seq<char>, set: bool) -> Seq<Seq<char>> {
    if set {
        seq![name]
    } else {
        seq![]
    }
}

/// A single-value flag: its name then the value, when set.
pub open spec fn value_flag(name: Seq<char>, value: Option<Seq<char>>) -> Seq<Seq<char>> {
    match value {
        Some(v) => seq![name, v],
        None => seq![],
    }
}

/// The second token of a paired flag.
pub open spec fn pair_text(key: Seq<char>, value: Seq<char>) -> Seq<char> {
    key + seq!['='] + value
}

/// A paired flag: its name then `key=value`, when set.
pub open spec fn paired_flag(name: Seq<char>, pair: Option<(Seq<char>, Seq<char>)>) -> Seq<Seq<char>> {
    match pair {
        Some((k, v)) => seq![name, pair_text(k, v)],
        None => seq![],
    }
}

/// The characters of a pair of strings.
pub open spec fn opt_pair_chars(o: Option<(String, String)>) -> Option<(Seq<char>, Seq<char>)> {
    match o {
        Some((k, v)) => Some((k@, v@)),
        None => None,
    }
}

/// The digit for a value below ten.
pub open spec fn digit_char(d: nat) -> char {
    if d == 0 { '0' }
    else if d == 1 { '1' }
    else if d == 2 { '2' }
    else if d == 3 { '3' }
    else if d == 4 { '4' }
    else if d == 5 { '5' }
    else if d == 6 { '6' }
    else if d == 7 { '7' }
    else if d == 8 { '8' }
    else { '9' }
}

/// The canonical decimal form of a number: no sign, no leading zeros.
pub open spec fn decimal(n: nat) -> Seq<char>
    decreases n,
{
    if n < 10 {
        seq![digit_char(n)]
    } else {
        decimal(n / 10) + seq![digit_char(n % 10)]
    }
}

/// The decimal form of an optional number.
pub open spec fn opt_decimal(o: Option<u16>) -> Option<Seq<char>> {
    match o {
        Some(n) => Some(decimal(n as nat)),
        None => None,
    }
}

/// The tokens of each flag in turn.
pub open spec fn flatten(segments: Seq<Seq<Seq<char>>>) -> Seq<Seq<char>>
    decreases segments.len(),
{
    if segments.len() == 0 {
        seq![]
    } else {
        flatten(segments.drop_last()) + segments.last()
    }
}

/// Flags that give no tokens give an empty argument list.
pub proof fn lemma_flatten_unset(segments: Seq<Seq<Seq<char>>>)
    requires
        forall|i: int| 0 <= i < segments.len() ==> #[trigger] segments[i].len() == 0,
    ensures
        flatten(segments) == Seq::<Seq<char>>::empty(),
    decreases segments.len(),
{
    if segments.len() > 0 {
        let n = segments.len() - 1;
        assert(segments[n].len() == 0);
        lemma_flatten_unset(segments.drop_last());
        assert(flatten(segments) =~= Seq::<Seq<char>>::empty());
    }
}

/// Where the tokens of flag `k` start.
pub open spec fn offset_of(segments: Seq<Seq<Seq<char>>>, k: int) -> int {
    flatten(segments.take(k)).len() as int
}

fn digit_str(d: u16) -> (r: &'static str)
    requires
        d < 10,
    ensures
        r@ == seq![digit_char(d as nat)],
{
    proof {
        reveal_strlit("0");
        reveal_strlit("1");
        reveal_strlit("2");
        reveal_strlit("3");
        reveal_strlit("4");
        reveal_strlit("5");
        reveal_strlit("6");
        reveal_strlit("7");
        reveal_strlit("8");
        reveal_strlit("9");
    }
    let r = if d == 0 { "0" }
    else if d == 1 { "1" }
    else if d == 2 { "2" }
    else if d == 3 { "3" }
    else if d == 4 { "4" }
    else if d == 5 { "5" }
    else if d == 6 { "6" }
    else if d == 7 { "7" }
    else if d == 8 { "8" }
    else { "9" };
    assert(r@ =~= seq![digit_char(d as nat)]);
    r
}

/// A number in its canonical decimal form.
pub fn decimal_string(n: u16) -> (r: String)
    ensures
        r@ == decimal(n as nat),
    decreases n,
{
    if n < 10 {
        String::from_str(digit_str(n))
    } else {
        let mut r = decimal_string(n / 10);
        r.append(digit_str(n % 10));
        r
    }
}

/// The second token of a paired flag: the key, `=`, then the value.
pub fn pair_token(key: &str, value: &str) -> (r: String)
    ensures
        r@ == pair_text(key@, value@),
{
    let mut r = String::from_str(key);
    r.append("=");
    r.append(value);
    proof {
        reveal_strlit("=");
    }
    assert(r@ =~= pair_text(key@, value@));
    r
}

/// Argument tokens under construction, with the flags that gave them.
pub struct ArgumentList {
    tokens: Vec<String>,
    segments: Ghost<Seq<Seq<Seq<char>>>>,
}

impl ArgumentList {
    /// The tokens of each flag added so far, in order.
    pub closed spec fn segments(&self) -> Seq<Seq<Seq<char>>> {
        self.segments@
    }

    /// The tokens are those of the recorded flags, in order.
    pub closed spec fn wf(&self) -> bool {
        strings_view(self.tokens@) == flatten(self.segments@)
    }

    proof fn lemma_extend(&self, old_tokens: Seq<String>, added: Seq<String>, seg: Seq<Seq<char>>)
        requires
            strings_view(old_tokens) == flatten(self.segments@),
            strings_view(added) == seg,
        ensures
            strings_view(old_tokens + added) == flatten(self.segments@.push(seg)),
    {
        assert(self.segments@.push(seg).drop_last() =~= self.segments@);
        assert(strings_view(old_tokens + added) =~= strings_view(old_tokens) + seg);
    }

    /// An empty list.
    pub fn new() -> (r: ArgumentList)
        ensures
            r.wf(),
            r.segments() == Seq::<Seq<Seq<char>>>::empty(),
    {
        let r = ArgumentList { tokens: Vec::new(), segments: Ghost(Seq::empty()) };
        assert(strings_view(r.tokens@) =~= flatten(r.segments@));
        r
    }

    /// Adds a presence flag.
    pub fn presence(&mut self, name: &str, set: bool)
        requires
            old(self).wf(),
        ensures
            final(self).wf(),
            final(self).segments() == old(self).segments().push(presence_flag(name@, set)),
    {
        let ghost old_tokens = self.tokens@;
        let mut added: Vec<String> = Vec::new();
        if set {
            added.push(String::from_str(name));
        }
        proof {
            assert(strings_view(added@) =~= presence_flag(name@, set));
            self.lemma_extend(old_tokens, added@, presence_flag(name@, set));
        }
        self.tokens.append(&mut added);
        self.segments = Ghost(self.segments@.push(presence_flag(name@, set)));
    }

    /// Adds a single-value flag.
    pub fn value(&mut self, name: &str, value: &Option<String>)
        requires
            old(self).wf(),
        ensures
            final(self).wf(),
            final(self).segments() == old(self).segments().push(value_flag(name@, opt_chars(*value))),
    {
        let ghost old_tokens = self.tokens@;
        let ghost seg = value_flag(name@, opt_chars(*value));
        let mut added: Vec<String> = Vec::new();
        match value {
            Some(v) => {
                added.push(String::from_str(name));
                added.push(v.clone());
            },
            None => {},
        }
        proof {
            assert(strings_view(added@) =~= seg);
            self.lemma_extend(old_tokens, added@, seg);
        }
        self.tokens.append(&mut added);
        self.segments = Ghost(self.segments@.push(seg));
    }

    /// Adds a single-value flag whose value is a number.
    pub fn number(&mut self, name: &str, value: Option<u16>)
        requires
            old(self).wf(),
        ensures
            final(self).wf(),
            final(self).segments() == old(self).segments().push(value_flag(name@, opt_decimal(value))),
    {
        let text = match value {
            Some(n) => Some(decimal_string(n)),
            None => None,
        };
        self.value(name, &text);
    }

    /// Adds a paired flag, its second token `key=value`.
    pub fn pair(&mut self, name: &str, pair: &Option<(String, String)>)
        requires
            old(self).wf(),
        ensures
            final(self).wf(),
            final(self).segments() == old(self).segments().push(paired_flag(name@, opt_pair_chars(*pair))),
    {
        let text = match pair {
            Some((k, v)) => Some(pair_token(k.as_str(), v.as_str())),
            None => None,
        };
        proof {
            assert(value_flag(name@, opt_chars(text)) == paired_flag(name@, opt_pair_chars(*pair)));
        }
        self.value(name, &text);
    }

    /// The tokens, in the order their flags were added.
    pub fn into_vec(self) -> (r: Vec<String>)
        requires
            self.wf(),
        ensures
            strings_view(r@) == flatten(self.segments()),
    {
        self.tokens
    }
}

proof fn lemma_flatten_take(segments: Seq<Seq<Seq<char>>>, k: int)
    requires
        0 <= k < segments.len(),
    ensures
        flatten(segments.take(k + 1)) == flatten(segments.take(k)) + segments[k],
{
    assert(segments.take(k + 1).drop_last() =~= segments.take(k));
}

proof fn lemma_flatten_prefix(segments: Seq<Seq<Seq<char>>>, k: int)
    requires
        0 <= k <= segments.len(),
    ensures
        flatten(segments).subrange(0, offset_of(segments, k)) == flatten(segments.take(k)),
        offset_of(segments, k) <= flatten(segments).len(),
    decreases segments.len() - k,
{
    if k == segments.len() {
        assert(segments.take(k) =~= segments);
        assert(flatten(segments).subrange(0, offset_of(segments, k)) =~= flatten(segments));
    } else {
        lemma_flatten_prefix(segments, k + 1);
        lemma_flatten_take(segments, k);
        let whole = flatten(segments);
        let upto = flatten(segments.take(k + 1));
        assert(whole.subrange(0, offset_of(segments, k)) =~= upto.subrange(0, offset_of(segments, k)));
        assert(upto.subrange(0, offset_of(segments, k)) =~= flatten(segments.take(k)));
    }
}

/// A flag's tokens stand together in the argument list, in the place that
/// follows the tokens of every flag declared before it.
pub proof fn lemma_flag_in_place(segments: Seq<Seq<Seq<char>>>, k: int)
    requires
        0 <= k < segments.len(),
    ensures
        offset_of(segments, k) + segments[k].len() <= flatten(segments).len(),
        flatten(segments).subrange(offset_of(segments, k), offset_of(segments, k) + segments[k].len())
            == segments[k],
        forall|j: int| 0 <= j < k ==> offset_of(segments, j) + segments[j].len() <= offset_of(segments, k),
{
    lemma_flatten_prefix(segments, k + 1);
    lemma_flatten_take(segments, k);
    let upto = flatten(segments.take(k + 1));
    let start = offset_of(segments, k);
    assert(flatten(segments).subrange(start, start + segments[k].len())
        =~= upto.subrange(start, start + segments[k].len()));
    assert(upto.subrange(start, start + segments[k].len()) =~= segments[k]);
    assert forall|j: int| 0 <= j < k implies offset_of(segments, j) + segments[j].len() <= offset_of(segments, k) by {
        lemma_offsets_grow(segments, j, k);
    }
}

proof fn lemma_offsets_grow(segments: Seq<Seq<Seq<char>>>, j: int, k: int)
    requires
        0 <= j < k <= segments.len(),
    ensures
        offset_of(segments, j) + segments[j].len() <= offset_of(segments, k),
    decreases k - j,
{
    lemma_flatten_take(segments, j);
    if j + 1 < k {
        lemma_offsets_grow(segments, j + 1, k);
        lemma_flatten_take(segments, j + 1);
    }
}

/// A single-value flag set to `v` puts its name at its place in the
/// argument list and `v` right after it.
pub proof fn lemma_value_flag_tokens(segments: Seq<Seq<Seq<char>>>, k: int, name: Seq<char>, v: Seq<char>)
    requires
        0 <= k < segments.len(),
        segments[k] == value_flag(name, Some(v)),
    ensures
        offset_of(segments, k) + 1 < flatten(segments).len(),
        flatten(segments)[offset_of(segments, k)] == name,
        flatten(segments)[offset_of(segments, k) + 1] == v,
{
    lemma_flag_in_place(segments, k);
    let start = offset_of(segments, k);
    let part = flatten(segments).subrange(start, start + 2);
    assert(part[0] == name);
    assert(part[1] == v);
}

/// The second token of a paired flag is the key, a single `=`, then the
/// value: where neither holds `=`, it is the token's only `=`, and cutting
/// there gives the key and the value back.
pub proof fn lemma_pair_text(key: Seq<char>, value: Seq<char>)
    ensures
        pair_text(key, value).len() == key.len() + 1 + value.len(),
        pair_text(key, value).subrange(0, key.len() as int) == key,
        pair_text(key, value)[key.len() as int] == '=',
        pair_text(key, value).subrange(key.len() as int + 1, pair_text(key, value).len() as int) == value,
        !key.contains('=') && !value.contains('=') ==> forall|i: int|
            0 <= i < pair_text(key, value).len() && #[trigger] pair_text(key, value)[i] == '=' ==> i == key.len(),
{
    let t = pair_text(key, value);
    assert(t.subrange(0, key.len() as int) =~= key);
    assert(t.subrange(key.len() as int + 1, t.len() as int) =~= value);
    if !key.contains('=') && !value.contains('=') {
        assert forall|i: int| 0 <= i < t.len() && #[trigger] t[i] == '=' implies i == key.len() by {
            if i < key.len() {
                assert(key[i] == '=');
            } else if i > key.len() {
                assert(value[i - key.len() - 1] == '=');
            }
        }
    }
}

} // verus!

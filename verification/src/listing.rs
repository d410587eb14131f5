use vstd::prelude::*;
use crate::feed::Feed;
use pinyin::ToPinyin;

verus! {

/// The plain pinyin of a character, as UTF-8 bytes, or `None` for a
/// character that has none.
pub uninterp spec fn pinyin_of(c: char) -> Option<Seq<u8>>;

/// `ToPinyin::to_pinyin` on a character, then `Pinyin::plain`: the
/// romanisation without tone marks, from the tables of the pinyin crate.
#[verifier::external_body]
fn plain_pinyin(c: char) -> (plain: Option<Vec<u8>>)
    ensures
        match plain {
            Some(bytes) => pinyin_of(c) == Some(bytes@),
            None => pinyin_of(c) is None,
        },
{
    match c.to_pinyin() {
        Some(p) => Some(p.plain().as_bytes().to_vec()),
        None => None,
    }
}

/// One character of a title as the listing orders it: by its pinyin where
/// it has one, else by itself.
#[derive(Clone, Debug, PartialEq, Eq)]
pub enum KeyPart {
    Plain(char),
    Pinyin(Vec<u8>),
}

/// A `KeyPart` as a mathematical value.
pub enum PartView {
    Plain(char),
    Pinyin(Seq<u8>),
}

impl View for KeyPart {
    type V = PartView;

    open spec fn view(&self) -> PartView {
        match self {
            KeyPart::Plain(c) => PartView::Plain(*c),
            KeyPart::Pinyin(bytes) => PartView::Pinyin(bytes@),
        }
    }
}

/// The views of the parts of a key.
pub open spec fn key_view(key: Seq<KeyPart>) -> Seq<PartView> {
    Seq::new(key.len(), |i: int| key[i]@)
}

/// The part that stands for one character.
pub open spec fn spec_part_of(c: char) -> PartView {
    match pinyin_of(c) {
        Some(bytes) => PartView::Pinyin(bytes),
        None => PartView::Plain(c),
    }
}

/// The key by which a title is ordered: one part for each character.
pub open spec fn spec_title_key(title: Seq<char>) -> Seq<PartView> {
    Seq::new(title.len(), |i: int| spec_part_of(title[i]))
}

/// `a` comes before `b` in the order of byte strings, looking from index
/// `i` on: the first byte that differs decides, and a proper prefix comes
/// first.
pub open spec fn bytes_lt_from(a: Seq<u8>, b: Seq<u8>, i: int) -> bool
    decreases a.len() - i,
{
    if i >= b.len() {
        false
    } else if i >= a.len() {
        true
    } else if a[i] != b[i] {
        a[i] < b[i]
    } else {
        bytes_lt_from(a, b, i + 1)
    }
}

/// The order of parts: a plain character before any pinyin, characters by
/// code point, pinyin by its bytes.
pub open spec fn spec_part_lt(a: PartView, b: PartView) -> bool {
    match (a, b) {
        (PartView::Plain(x), PartView::Plain(y)) => (x as u32) < (y as u32),
        (PartView::Plain(_), PartView::Pinyin(_)) => true,
        (PartView::Pinyin(_), PartView::Plain(_)) => false,
        (PartView::Pinyin(x), PartView::Pinyin(y)) => bytes_lt_from(x, y, 0),
    }
}

/// `a` comes before `b` in the order of keys, looking from index `i` on:
/// the first part that differs decides, and a proper prefix comes first.
pub open spec fn key_lt_from(a: Seq<PartView>, b: Seq<PartView>, i: int) -> bool
    decreases a.len() - i,
{
    if i >= b.len() {
        false
    } else if i >= a.len() {
        true
    } else if spec_part_lt(a[i], b[i]) {
        true
    } else if spec_part_lt(b[i], a[i]) {
        false
    } else {
        key_lt_from(a, b, i + 1)
    }
}

/// The title `a` is listed before the title `b`.
pub open spec fn title_lt(a: Seq<char>, b: Seq<char>) -> bool {
    key_lt_from(spec_title_key(a), spec_title_key(b), 0)
}

/// Of two byte strings at most one comes before the other.
pub proof fn lemma_bytes_lt_asymmetric(a: Seq<u8>, b: Seq<u8>, i: int)
    requires
        0 <= i,
    ensures
        !(bytes_lt_from(a, b, i) && bytes_lt_from(b, a, i)),
    decreases a.len() - i,
{
    if i < a.len() && i < b.len() && a[i] == b[i] {
        lemma_bytes_lt_asymmetric(a, b, i + 1);
    }
}

/// Of two parts at most one comes before the other.
pub proof fn lemma_part_lt_asymmetric(a: PartView, b: PartView)
    ensures
        !(spec_part_lt(a, b) && spec_part_lt(b, a)),
{
    match (a, b) {
        (PartView::Pinyin(x), PartView::Pinyin(y)) => {
            lemma_bytes_lt_asymmetric(x, y, 0);
        },
        _ => {},
    }
}

/// Of two keys at most one comes before the other.
pub proof fn lemma_key_lt_asymmetric(a: Seq<PartView>, b: Seq<PartView>, i: int)
    requires
        0 <= i,
    ensures
        !(key_lt_from(a, b, i) && key_lt_from(b, a, i)),
    decreases a.len() - i,
{
    if i < a.len() && i < b.len() {
        lemma_part_lt_asymmetric(a[i], b[i]);
        if !spec_part_lt(a[i], b[i]) && !spec_part_lt(b[i], a[i]) {
            lemma_key_lt_asymmetric(a, b, i + 1);
        }
    }
}

/// Where `c` comes before `a`, any `b` comes before `a` or after `c`: the
/// order of byte strings leaves no third way.
pub proof fn lemma_bytes_lt_between(a: Seq<u8>, b: Seq<u8>, c: Seq<u8>, i: int)
    requires
        0 <= i,
        bytes_lt_from(c, a, i),
    ensures
        bytes_lt_from(b, a, i) || bytes_lt_from(c, b, i),
    decreases a.len() - i,
{
    if i < a.len() && i < b.len() && i < c.len() && c[i] == a[i] && b[i] == a[i] {
        lemma_bytes_lt_between(a, b, c, i + 1);
    }
}

/// Where `c` comes before `a`, any `b` comes before `a` or after `c`.
pub proof fn lemma_part_lt_between(a: PartView, b: PartView, c: PartView)
    requires
        spec_part_lt(c, a),
    ensures
        spec_part_lt(b, a) || spec_part_lt(c, b),
{
    match (a, b, c) {
        (PartView::Pinyin(x), PartView::Pinyin(y), PartView::Pinyin(z)) => {
            lemma_bytes_lt_between(x, y, z, 0);
        },
        _ => {},
    }
}

/// Where `c` comes before `a`, any `b` comes before `a` or after `c`.
pub proof fn lemma_key_lt_between(a: Seq<PartView>, b: Seq<PartView>, c: Seq<PartView>, i: int)
    requires
        0 <= i,
        key_lt_from(c, a, i),
    ensures
        key_lt_from(b, a, i) || key_lt_from(c, b, i),
    decreases a.len() - i,
{
    if i < a.len() && i < b.len() && i < c.len() {
        if spec_part_lt(c[i], a[i]) {
            lemma_part_lt_between(a[i], b[i], c[i]);
        } else {
            if spec_part_lt(a[i], b[i]) {
                lemma_part_lt_between(b[i], c[i], a[i]);
            }
            if spec_part_lt(b[i], c[i]) {
                lemma_part_lt_between(c[i], a[i], b[i]);
            }
            if !spec_part_lt(b[i], a[i]) && !spec_part_lt(c[i], b[i]) {
                lemma_key_lt_between(a, b, c, i + 1);
            }
        }
    }
}

/// The listing order is a strict weak order of titles: no title comes
/// before itself; of two titles at most one comes before the other; and
/// where `a` does not come after `b`, nor `b` after `c`, `a` does not come
/// after `c`.
pub proof fn lemma_title_order(a: Seq<char>, b: Seq<char>, c: Seq<char>)
    ensures
        !title_lt(a, a),
        !(title_lt(a, b) && title_lt(b, a)),
        !title_lt(b, a) && !title_lt(c, b) ==> !title_lt(c, a),
{
    lemma_key_lt_asymmetric(spec_title_key(a), spec_title_key(a), 0);
    lemma_key_lt_asymmetric(spec_title_key(a), spec_title_key(b), 0);
    if title_lt(c, a) {
        lemma_key_lt_between(spec_title_key(a), spec_title_key(b), spec_title_key(c), 0);
    }
}

/// Compares two byte strings as Rust orders strings.
pub fn bytes_lt(a: &Vec<u8>, b: &Vec<u8>) -> (lt: bool)
    ensures
        lt == bytes_lt_from(a@, b@, 0),
{
    let mut i: usize = 0;
    while i < a.len() && i < b.len()
        invariant
            i <= a@.len(),
            i <= b@.len(),
            bytes_lt_from(a@, b@, 0) == bytes_lt_from(a@, b@, i as int),
        decreases a@.len() - i,
    {
        if a[i] != b[i] {
            return a[i] < b[i];
        }
        i = i + 1;
    }
    i < b.len()
}

/// Compares two parts.
pub fn part_lt(a: &KeyPart, b: &KeyPart) -> (lt: bool)
    ensures
        lt == spec_part_lt(a@, b@),
{
    match a {
        KeyPart::Plain(x) => match b {
            KeyPart::Plain(y) => (*x as u32) < (*y as u32),
            KeyPart::Pinyin(_) => true,
        },
        KeyPart::Pinyin(x) => match b {
            KeyPart::Plain(_) => false,
            KeyPart::Pinyin(y) => bytes_lt(x, y),
        },
    }
}

/// Compares two keys.
pub fn key_lt(a: &Vec<KeyPart>, b: &Vec<KeyPart>) -> (lt: bool)
    ensures
        lt == key_lt_from(key_view(a@), key_view(b@), 0),
{
    let ghost va = key_view(a@);
    let ghost vb = key_view(b@);
    let mut i: usize = 0;
    while i < a.len() && i < b.len()
        invariant
            va == key_view(a@),
            vb == key_view(b@),
            i <= a@.len(),
            i <= b@.len(),
            key_lt_from(va, vb, 0) == key_lt_from(va, vb, i as int),
        decreases a@.len() - i,
    {
        if part_lt(&a[i], &b[i]) {
            return true;
        }
        if part_lt(&b[i], &a[i]) {
            return false;
        }
        i = i + 1;
    }
    i < b.len()
}

/// The part that stands for one character of a title.
pub fn part_of(c: char) -> (part: KeyPart)
    ensures
        part@ == spec_part_of(c),
{
    match plain_pinyin(c) {
        Some(bytes) => KeyPart::Pinyin(bytes),
        None => KeyPart::Plain(c),
    }
}

/// Builds the key of a title.
pub fn title_key(title: &str) -> (key: Vec<KeyPart>)
    ensures
        key_view(key@) == spec_title_key(title@),
{
    let mut key: Vec<KeyPart> = Vec::new();
    for c in it: title.chars()
        invariant
            it.seq() == title@,
            key@.len() == it.index(),
            forall|j: int| 0 <= j < key@.len() ==> #[trigger] key@[j]@ == spec_part_of(title@[j]),
    {
        let part = part_of(c);
        key.push(part);
    }
    assert(key_view(key@) =~= spec_title_key(title@));
    key
}

/// The feeds stand in listing order: none stands before a feed whose title
/// comes before its own.
pub open spec fn listed_in_order(feeds: Seq<Feed>) -> bool {
    forall|i: int, j: int|
        0 <= i < j < feeds.len() ==> !title_lt(
            (#[trigger] feeds[j]).title@,
            (#[trigger] feeds[i]).title@,
        )
}

/// `origin` tells for each place of `listed` which place of `given` its
/// feed came from, no place twice, and feeds whose titles rank alike stand
/// in `listed` as they stood in `given`.
pub open spec fn keeps_order_of_equals(given: Seq<Feed>, listed: Seq<Feed>, origin: Seq<int>) -> bool {
    &&& origin.len() == listed.len()
    &&& forall|k: int|
        0 <= k < listed.len() ==> 0 <= #[trigger] origin[k] < given.len() && listed[k]
            == given[origin[k]]
    &&& forall|i: int, j: int|
        0 <= i < j < listed.len() ==> #[trigger] origin[i] != #[trigger] origin[j]
    &&& forall|i: int, j: int|
        0 <= i < j < listed.len() && !title_lt(listed[i].title@, listed[j].title@)
            ==> #[trigger] origin[i] < #[trigger] origin[j]
}

/// Putting one more element into a sequence adds it to the elements.
pub proof fn lemma_insert_to_multiset<A>(s: Seq<A>, p: int, x: A)
    requires
        0 <= p <= s.len(),
    ensures
        s.insert(p, x).to_multiset() =~= s.to_multiset().insert(x),
{
    let head = s.subrange(0, p);
    let tail = s.subrange(p, s.len() as int);
    assert(s =~= head + tail);
    vstd::seq_lib::lemma_multiset_commutative(head, tail);
    vstd::seq_lib::lemma_multiset_commutative(head.push(x), tail);
    head.to_multiset_ensures();
}

/// Orders feeds for the subscription list: by title, each character taken
/// by its pinyin where it has one. Feeds whose titles rank alike keep the
/// order in which they came.
pub fn sort_by_title(feeds: Vec<Feed>) -> (sorted: Vec<Feed>)
    ensures
        sorted@.to_multiset() == feeds@.to_multiset(),
        sorted@.len() == feeds@.len(),
        listed_in_order(sorted@),
        exists|origin: Seq<int>| keeps_order_of_equals(feeds@, sorted@, origin),
{
    let ghost all = feeds@;
    let ghost mut origin: Seq<int> = Seq::empty();
    let mut sorted: Vec<Feed> = Vec::new();
    let mut keys: Vec<Vec<KeyPart>> = Vec::new();
    proof {
        assert(all.take(0) =~= sorted@);
    }
    for feed in it: feeds
        invariant
            it.seq() == all,
            sorted@.to_multiset() == all.take(it.index() as int).to_multiset(),
            keys@.len() == sorted@.len(),
            forall|j: int|
                0 <= j < keys@.len() ==> key_view(#[trigger] keys@[j]@) == spec_title_key(
                    sorted@[j].title@,
                ),
            listed_in_order(sorted@),
            sorted@.len() == it.index(),
            keeps_order_of_equals(all.take(it.index() as int), sorted@, origin),
    {
        let key = title_key(feed.title.as_str());
        let ghost before = sorted@;
        let ghost keys_before = keys@;
        let mut p: usize = sorted.len();
        while p > 0 && key_lt(&key, &keys[p - 1])
            invariant
                p <= sorted@.len(),
                sorted@ == before,
                keys@ == keys_before,
                keys@.len() == sorted@.len(),
                key_view(key@) == spec_title_key(feed.title@),
                forall|j: int|
                    0 <= j < keys@.len() ==> key_view(#[trigger] keys@[j]@) == spec_title_key(
                        sorted@[j].title@,
                    ),
                forall|j: int|
                    p <= j < sorted@.len() ==> title_lt(
                        feed.title@,
                        (#[trigger] sorted@[j]).title@,
                    ),
            decreases p,
        {
            p = p - 1;
        }
        proof {
            let n = it.index() as int;
            let grown = origin.insert(p as int, n);
            let listed = before.insert(p as int, feed);
            assert forall|k: int| 0 <= k < listed.len() implies 0 <= #[trigger] grown[k] < n + 1
                && listed[k] == all.take(n + 1)[grown[k]] by {
                if k < p {
                    assert(grown[k] == origin[k] && listed[k] == before[k]);
                } else if k > p {
                    assert(grown[k] == origin[k - 1] && listed[k] == before[k - 1]);
                }
            }
            assert forall|i: int, j: int| 0 <= i < j < listed.len() implies #[trigger] grown[i]
                != #[trigger] grown[j] && (!title_lt(listed[i].title@, listed[j].title@)
                ==> grown[i] < grown[j]) by {
                let oi = if i < p { i } else { i - 1 };
                let oj = if j < p { j } else { j - 1 };
                if i == p {
                    assert(grown[j] == origin[oj] && listed[j] == before[oj]);
                } else if j == p {
                    assert(grown[i] == origin[oi]);
                } else {
                    assert(grown[i] == origin[oi] && grown[j] == origin[oj]);
                    assert(listed[i] == before[oi] && listed[j] == before[oj]);
                }
            }
            origin = grown;
            lemma_insert_to_multiset(before, p as int, feed);
            all.take(it.index() as int).to_multiset_ensures();
            assert(all.take(it.index() + 1) =~= all.take(it.index() as int).push(feed));
            let after = before.insert(p as int, feed);
            assert forall|i: int, j: int| 0 <= i < j < after.len() implies !title_lt(
                (#[trigger] after[j]).title@,
                (#[trigger] after[i]).title@,
            ) by {
                if j < p {
                    assert(after[j] == before[j] && after[i] == before[i]);
                } else if j == p {
                    assert(after[j] == feed && after[i] == before[i]);
                    assert(key_view(keys_before[p - 1]@) == spec_title_key(before[p - 1].title@));
                    lemma_title_order(before[i].title@, before[p - 1].title@, feed.title@);
                } else if i == p {
                    assert(after[i] == feed && after[j] == before[j - 1]);
                    lemma_title_order(feed.title@, before[j - 1].title@, feed.title@);
                } else if i < p {
                    assert(after[i] == before[i] && after[j] == before[j - 1]);
                } else {
                    assert(after[i] == before[i - 1] && after[j] == before[j - 1]);
                }
            }
        }
        sorted.insert(p, feed);
        keys.insert(p, key);
    }
    proof {
        assert(all.take(all.len() as int) =~= all);
        assert(keeps_order_of_equals(all, sorted@, origin));
    }
    sorted
}

} // verus!

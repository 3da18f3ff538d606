//! Host names: their normal form, the allow-list and the hosts that are
//! internal to the shell.

use vstd::prelude::*;
use crate::text::{
    chars_equal, chars_of, lower_chars, lowered, slice_of, split_chars, split_text, string_of,
    texts_of, trim_chars, trimmed, views_of,
};

verus! {

/// The normal form of a host name: trimmed and in ASCII lower case.
pub open spec fn normalized(value: Seq<char>) -> Seq<char> {
    lowered(trimmed(value))
}

/// The hosts that the webview may always navigate to over http and https.
pub open spec fn is_internal_host(host: Seq<char>) -> bool {
    host == "tauri.localhost"@ || host == "localhost"@ || host == "127.0.0.1"@ || host == "::1"@
}

/// `a` stands before `b` in the order of strings: character by character
/// from index `i` on, a shorter text before its extensions.
pub open spec fn before_from(a: Seq<char>, b: Seq<char>, i: int) -> bool
    decreases a.len() - i,
{
    if i < 0 || i >= b.len() {
        false
    } else if i >= a.len() {
        true
    } else if a[i] != b[i] {
        a[i] < b[i]
    } else {
        before_from(a, b, i + 1)
    }
}

/// `a` stands before `b` in the order of strings.
pub open spec fn text_before(a: Seq<char>, b: Seq<char>) -> bool {
    before_from(a, b, 0)
}

/// Each text stands before all that follow it.
pub open spec fn strictly_sorted(items: Seq<Seq<char>>) -> bool {
    forall|i: int, j: int| 0 <= i < j < items.len() ==> text_before(items[i], items[j])
}

/// The set of hosts that a comma-separated list names: each entry in normal
/// form, blank entries left out.
pub open spec fn allowed_hosts_of(raw: Seq<char>) -> Set<Seq<char>> {
    named_hosts(split_text(raw, ','), split_text(raw, ',').len() as int)
}

/// The hosts that the first `count` entries name.
pub open spec fn named_hosts(entries: Seq<Seq<char>>, count: int) -> Set<Seq<char>> {
    Set::new(
        |h: Seq<char>|
            h.len() > 0 && exists|i: int|
                0 <= i < count && i < entries.len() && normalized(#[trigger] entries[i]) == h,
    )
}

proof fn lemma_order_from(a: Seq<char>, b: Seq<char>, i: int)
    requires
        0 <= i <= a.len(),
        i <= b.len(),
        forall|k: int| 0 <= k < i ==> a[k] == b[k],
    ensures
        a == b || before_from(a, b, i) || before_from(b, a, i),
        !(before_from(a, b, i) && before_from(b, a, i)),
        a == b ==> !before_from(a, b, i),
    decreases a.len() - i,
{
    if i >= a.len() || i >= b.len() {
        if a.len() == b.len() {
            assert(a =~= b);
        }
    } else if a[i] == b[i] {
        lemma_order_from(a, b, i + 1);
    }
}

proof fn lemma_transitive_from(a: Seq<char>, b: Seq<char>, c: Seq<char>, i: int)
    requires
        0 <= i,
        before_from(a, b, i),
        before_from(b, c, i),
    ensures
        before_from(a, c, i),
    decreases a.len() - i,
{
    if i < a.len() && a[i] == b[i] && b[i] == c[i] {
        lemma_transitive_from(a, b, c, i + 1);
    }
}

/// Of two different texts exactly one stands before the other, and no text
/// stands before itself.
pub proof fn lemma_order_is_total(a: Seq<char>, b: Seq<char>)
    ensures
        a == b || text_before(a, b) || text_before(b, a),
        !(text_before(a, b) && text_before(b, a)),
        a == b ==> !text_before(a, b),
{
    lemma_order_from(a, b, 0);
}

/// The order of strings is transitive.
pub proof fn lemma_order_is_transitive(a: Seq<char>, b: Seq<char>, c: Seq<char>)
    requires
        text_before(a, b),
        text_before(b, c),
    ensures
        text_before(a, c),
{
    lemma_transitive_from(a, b, c, 0);
}

/// The hosts of a set, each once, in the order of strings.
pub open spec fn sorted_listing(hosts: Set<Seq<char>>) -> Seq<Seq<char>> {
    choose|items: Seq<Seq<char>>| strictly_sorted(items) && items.to_set() == hosts
}

/// A set has one sorted listing at most: two strictly ascending sequences
/// with the same elements are equal.
pub proof fn lemma_sorted_listing_unique(a: Seq<Seq<char>>, b: Seq<Seq<char>>)
    requires
        strictly_sorted(a),
        strictly_sorted(b),
        a.to_set() == b.to_set(),
    ensures
        a == b,
    decreases a.len(),
{
    if a.len() == 0 {
        if b.len() > 0 {
            assert(b.to_set().contains(b[0]));
            assert(a.contains(b[0]));
        }
        assert(a =~= b);
    } else {
        assert(a.to_set().contains(a[0]));
        assert(b.contains(a[0]));
        let k = choose|k: int| 0 <= k < b.len() && b[k] == a[0];
        assert(b.to_set().contains(b[0]));
        assert(a.contains(b[0]));
        let m = choose|m: int| 0 <= m < a.len() && a[m] == b[0];
        lemma_order_is_total(a[0], a[m]);
        if k > 0 {
            assert(text_before(b[0], b[k]));
        }
        assert(a[0] == b[0]);
        let a1 = a.skip(1);
        let b1 = b.skip(1);
        assert forall|i: int, j: int| 0 <= i < j < a1.len() implies text_before(a1[i], a1[j]) by {
            assert(text_before(a[i + 1], a[j + 1]));
        }
        assert forall|i: int, j: int| 0 <= i < j < b1.len() implies text_before(b1[i], b1[j]) by {
            assert(text_before(b[i + 1], b[j + 1]));
        }
        assert forall|h: Seq<char>| a1.to_set().contains(h) <==> b1.to_set().contains(h) by {
            lemma_order_is_total(h, h);
            if a1.to_set().contains(h) {
                let i = choose|i: int| 0 <= i < a1.len() && a1[i] == h;
                assert(a[i + 1] == h);
                assert(text_before(a[0], a[i + 1]));
                assert(a.to_set().contains(h));
                assert(b.contains(h));
                let j = choose|j: int| 0 <= j < b.len() && b[j] == h;
                assert(b1[j - 1] == h);
            }
            if b1.to_set().contains(h) {
                let i = choose|i: int| 0 <= i < b1.len() && b1[i] == h;
                assert(b[i + 1] == h);
                assert(text_before(b[0], b[i + 1]));
                assert(b.to_set().contains(h));
                assert(a.contains(h));
                let j = choose|j: int| 0 <= j < a.len() && a[j] == h;
                assert(a1[j - 1] == h);
            }
        }
        assert(a1.to_set() =~= b1.to_set());
        lemma_sorted_listing_unique(a1, b1);
        assert(a.len() == b.len());
        assert forall|i: int| 0 <= i < a.len() implies a[i] == b[i] by {
            if i > 0 {
                assert(a1[i - 1] == b1[i - 1]);
            }
        }
        assert(a =~= b);
    }
}

/// A strictly ascending sequence is the sorted listing of its elements.
pub proof fn lemma_sorted_listing_of(items: Seq<Seq<char>>)
    requires
        strictly_sorted(items),
    ensures
        sorted_listing(items.to_set()) == items,
{
    let chosen = sorted_listing(items.to_set());
    assert(strictly_sorted(chosen) && chosen.to_set() == items.to_set());
    lemma_sorted_listing_unique(chosen, items);
}

/// A set of host names, kept in the order of strings.
///
/// Every value of this type lists its hosts in strictly ascending order, so
/// no host occurs twice and the listing is determined by the set.
pub struct HostSet {
    items: Vec<Vec<char>>,
}

impl View for HostSet {
    type V = Set<Seq<char>>;

    closed spec fn view(&self) -> Set<Seq<char>> {
        views_of(self.items@).to_set()
    }
}

impl HostSet {
    #[verifier::type_invariant]
    closed spec fn sorted(&self) -> bool {
        strictly_sorted(views_of(self.items@))
    }

    /// The hosts in ascending order.
    pub open spec fn listing(&self) -> Seq<Seq<char>> {
        sorted_listing(self@)
    }

    /// The empty set.
    pub fn new() -> (out: HostSet)
        ensures
            out@ == Set::<Seq<char>>::empty(),
            out.listing() == Seq::<Seq<char>>::empty(),
    {
        let out = HostSet { items: Vec::new() };
        proof {
            assert(views_of(out.items@) =~= Seq::<Seq<char>>::empty());
            assert(out@ =~= Set::<Seq<char>>::empty());
            lemma_sorted_listing_of(views_of(out.items@));
        }
        out
    }

    /// The number of hosts.
    pub fn len(&self) -> (n: usize)
        ensures
            n == self.listing().len(),
    {
        proof {
            use_type_invariant(self);
            lemma_sorted_listing_of(views_of(self.items@));
        }
        self.items.len()
    }

    /// Whether the set holds no host.
    pub fn is_empty(&self) -> (r: bool)
        ensures
            r == (self@ == Set::<Seq<char>>::empty()),
            r == (self.listing().len() == 0),
    {
        proof {
            use_type_invariant(self);
            lemma_sorted_listing_of(views_of(self.items@));
            let l = views_of(self.items@);
            if l.len() > 0 {
                assert(l.to_set().contains(l[0]));
            } else {
                assert(l.to_set() =~= Set::<Seq<char>>::empty());
            }
        }
        self.items.len() == 0
    }

    /// Whether `host` is in the set. The host is taken as it is: the caller
    /// brings it into normal form.
    pub fn contains(&self, host: &str) -> (r: bool)
        ensures
            r == self@.contains(host@),
    {
        let wanted = chars_of(host);
        let mut i: usize = 0;
        while i < self.items.len()
            invariant
                i <= self.items@.len(),
                wanted@ == host@,
                forall|k: int| 0 <= k < i ==> views_of(self.items@)[k] != host@,
            decreases self.items@.len() - i,
        {
            if same_chars(&self.items[i], &wanted) {
                proof {
                    assert(views_of(self.items@)[i as int] == host@);
                }
                return true;
            }
            i += 1;
        }
        false
    }

    /// Adds `host` to the set.
    pub fn insert(&mut self, host: &str)
        ensures
            final(self)@ == old(self)@.insert(host@),
    {
        let mut taken = HostSet::new();
        core::mem::swap(self, &mut taken);
        proof {
            use_type_invariant(&taken);
        }
        let mut items = taken.items;
        let added = chars_of(host);
        let ghost before = views_of(items@);
        let mut at: usize = 0;
        while at < items.len() && chars_before(&items[at], &added)
            invariant
                at <= items@.len(),
                before == views_of(items@),
                forall|k: int| 0 <= k < at ==> text_before(before[k], added@),
            decreases items@.len() - at,
        {
            at += 1;
        }
        if at < items.len() && same_chars(&items[at], &added) {
            proof {
                assert(before[at as int] == host@);
                assert(before.to_set().insert(host@) =~= before.to_set());
            }
            *self = HostSet { items };
            return ;
        }
        items.insert(at, added);
        proof {
            let after = views_of(items@);
            assert(after =~= before.insert(at as int, host@));
            assert forall|i: int, j: int| 0 <= i < j < after.len() implies text_before(
                after[i],
                after[j],
            ) by {
                if j == at {
                    assert(after[i] == before[i]);
                } else if i == at {
                    assert(after[j] == before[j - 1]);
                    lemma_order_is_total(before[at as int], host@);
                    if j - 1 > at {
                        lemma_order_is_transitive(host@, before[at as int], before[j - 1]);
                    }
                } else {
                    let bi = if i < at { i } else { i - 1 };
                    let bj = if j < at { j } else { j - 1 };
                    assert(after[i] == before[bi]);
                    assert(after[j] == before[bj]);
                }
            }
            assert forall|h: Seq<char>| after.to_set().contains(h) <==> before.to_set().insert(
                host@,
            ).contains(h) by {
                if after.to_set().contains(h) {
                    let k = choose|k: int| 0 <= k < after.len() && after[k] == h;
                    if k < at {
                        assert(before[k] == h);
                    } else if k > at {
                        assert(before[k - 1] == h);
                    }
                }
                if before.to_set().contains(h) {
                    let k = choose|k: int| 0 <= k < before.len() && before[k] == h;
                    if k < at {
                        assert(after[k] == h);
                    } else {
                        assert(after[k + 1] == h);
                    }
                }
                if h == host@ {
                    assert(after[at as int] == h);
                }
            }
            assert(after.to_set() =~= before.to_set().insert(host@));
        }
        *self = HostSet { items };
    }

    /// The hosts as strings, each once, in ascending order.
    pub fn to_vec(&self) -> (out: Vec<String>)
        ensures
            texts_of(out@) == self.listing(),
            strictly_sorted(texts_of(out@)),
            texts_of(out@).to_set() == self@,
    {
        proof {
            use_type_invariant(self);
            lemma_sorted_listing_of(views_of(self.items@));
        }
        let mut out: Vec<String> = Vec::new();
        let mut i: usize = 0;
        while i < self.items.len()
            invariant
                i <= self.items@.len(),
                texts_of(out@) == views_of(self.items@).take(i as int),
            decreases self.items@.len() - i,
        {
            let ghost before = texts_of(out@);
            out.push(string_of(&self.items[i]));
            proof {
                assert(texts_of(out@) =~= before.push(self.items@[i as int]@));
                assert(views_of(self.items@).take(i + 1) =~= views_of(self.items@).take(
                    i as int,
                ).push(self.items@[i as int]@));
            }
            i += 1;
        }
        proof {
            assert(views_of(self.items@).take(self.items@.len() as int) =~= views_of(
                self.items@,
            ));
        }
        out
    }

    /// A second set with the same hosts.
    pub fn duplicate(&self) -> (out: HostSet)
        ensures
            out@ == self@,
    {
        proof {
            use_type_invariant(self);
        }
        let mut items: Vec<Vec<char>> = Vec::new();
        let mut i: usize = 0;
        while i < self.items.len()
            invariant
                i <= self.items@.len(),
                views_of(items@) == views_of(self.items@).take(i as int),
            decreases self.items@.len() - i,
        {
            let ghost before = views_of(items@);
            items.push(slice_of(&self.items[i], 0, self.items[i].len()));
            proof {
                assert(self.items@[i as int]@.subrange(0, self.items@[i as int]@.len() as int)
                    =~= self.items@[i as int]@);
                assert(views_of(items@) =~= before.push(self.items@[i as int]@));
                assert(views_of(self.items@).take(i + 1) =~= views_of(self.items@).take(
                    i as int,
                ).push(self.items@[i as int]@));
            }
            i += 1;
        }
        proof {
            assert(views_of(self.items@).take(self.items@.len() as int) =~= views_of(
                self.items@,
            ));
        }
        HostSet { items }
    }
}

fn same_chars(a: &Vec<char>, b: &Vec<char>) -> (r: bool)
    ensures
        r == (a@ == b@),
{
    if a.len() != b.len() {
        return false;
    }
    let mut i: usize = 0;
    while i < a.len()
        invariant
            i <= a@.len() == b@.len(),
            forall|k: int| 0 <= k < i ==> a@[k] == b@[k],
        decreases a@.len() - i,
    {
        if a[i] != b[i] {
            return false;
        }
        i += 1;
    }
    proof {
        assert(a@ =~= b@);
    }
    true
}

fn chars_before(a: &Vec<char>, b: &Vec<char>) -> (r: bool)
    ensures
        r == text_before(a@, b@),
{
    let mut i: usize = 0;
    loop
        invariant
            i <= a@.len(),
            i <= b@.len(),
            before_from(a@, b@, i as int) == text_before(a@, b@),
        decreases a@.len() - i,
    {
        if i >= b.len() {
            return false;
        }
        if i >= a.len() {
            return true;
        }
        if a[i] != b[i] {
            return a[i] < b[i];
        }
        i += 1;
    }
}

/// The normal form of a host name: trimmed and in ASCII lower case.
pub fn normalize_host(value: &str) -> (out: String)
    ensures
        out@ == normalized(value@),
{
    string_of(&lower_chars(&trim_chars(&chars_of(value))))
}

/// Whether `host` is one of the hosts that are internal to the shell:
/// `tauri.localhost`, `localhost`, `127.0.0.1` and `::1`. The host is taken as
/// it is.
pub fn is_internal_navigation_host(host: &str) -> (r: bool)
    ensures
        r == is_internal_host(host@),
{
    let h = chars_of(host);
    chars_equal(&h, "tauri.localhost") || chars_equal(&h, "localhost") || chars_equal(
        &h,
        "127.0.0.1",
    ) || chars_equal(&h, "::1")
}

/// The allow-list that a comma-separated list of hosts names: each entry in
/// normal form, blank entries left out.
pub fn parse_allowed_hosts(raw: &str) -> (out: HostSet)
    ensures
        out@ == allowed_hosts_of(raw@),
{
    let entries = split_chars(&chars_of(raw), ',');
    let ghost all = split_text(raw@, ',');
    let mut out = HostSet::new();
    let mut i: usize = 0;
    proof {
        assert(named_hosts(all, 0) =~= Set::<Seq<char>>::empty());
    }
    while i < entries.len()
        invariant
            i <= entries@.len(),
            views_of(entries@) == all,
            out@ == named_hosts(all, i as int),
        decreases entries@.len() - i,
    {
        let host = lower_chars(&trim_chars(&entries[i]));
        proof {
            assert(all[i as int] == entries@[i as int]@);
            assert(host@ == normalized(all[i as int]));
        }
        if host.len() > 0 {
            let ghost before = out@;
            out.insert(string_of(&host).as_str());
            proof {
                assert forall|h: Seq<char>| named_hosts(all, i + 1).contains(h)
                    <==> before.insert(host@).contains(h) by {
                    if named_hosts(all, i + 1).contains(h) {
                        let k = choose|k: int|
                            0 <= k < i + 1 && k < all.len() && normalized(#[trigger] all[k]) == h;
                        if k < i {
                            assert(named_hosts(all, i as int).contains(h));
                        }
                    }
                    if before.contains(h) {
                        let k = choose|k: int|
                            0 <= k < i && k < all.len() && normalized(#[trigger] all[k]) == h;
                        assert(0 <= k < i + 1 && normalized(all[k]) == h);
                    }
                }
                assert(named_hosts(all, i + 1) =~= before.insert(host@));
            }
        } else {
            proof {
                assert forall|h: Seq<char>| named_hosts(all, i + 1).contains(h) <==> named_hosts(
                    all,
                    i as int,
                ).contains(h) by {
                    if named_hosts(all, i + 1).contains(h) {
                        let k = choose|k: int|
                            0 <= k < i + 1 && k < all.len() && normalized(#[trigger] all[k]) == h;
                        assert(k < i);
                    }
                    if named_hosts(all, i as int).contains(h) {
                        let k = choose|k: int|
                            0 <= k < i && k < all.len() && normalized(#[trigger] all[k]) == h;
                        assert(0 <= k < i + 1 && normalized(all[k]) == h);
                    }
                }
                assert(named_hosts(all, i + 1) =~= named_hosts(all, i as int));
            }
        }
        i += 1;
    }
    out
}

} // verus!

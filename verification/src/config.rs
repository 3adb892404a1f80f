//! The configured accounts: a map from account name to what was recorded about it, kept in
//! name order (the order of `String`'s `Ord`, i.e. code point by code point).

use vstd::prelude::*;
use crate::text::{eq_ignore_ascii_case, chars_of};

verus! {

/// Lexicographic order on strings, character by character; a proper prefix comes first.
pub open spec fn name_lt(a: Seq<char>, b: Seq<char>) -> bool
    decreases a.len(),
{
    if a.len() == 0 {
        b.len() > 0
    } else if b.len() == 0 {
        false
    } else if a[0] != b[0] {
        a[0] < b[0]
    } else {
        name_lt(a.drop_first(), b.drop_first())
    }
}

pub proof fn lemma_name_lt_irreflexive(a: Seq<char>)
    ensures
        !name_lt(a, a),
    decreases a.len(),
{
    if a.len() > 0 {
        lemma_name_lt_irreflexive(a.drop_first());
    }
}

pub proof fn lemma_name_lt_transitive(a: Seq<char>, b: Seq<char>, c: Seq<char>)
    requires
        name_lt(a, b),
        name_lt(b, c),
    ensures
        name_lt(a, c),
    decreases a.len(),
{
    if a.len() > 0 && b.len() > 0 && c.len() > 0 {
        if a[0] == b[0] && b[0] == c[0] {
            lemma_name_lt_transitive(a.drop_first(), b.drop_first(), c.drop_first());
        }
    }
}

pub proof fn lemma_name_lt_total(a: Seq<char>, b: Seq<char>)
    ensures
        a == b || name_lt(a, b) || name_lt(b, a),
    decreases a.len(),
{
    if a.len() > 0 && b.len() > 0 {
        if a[0] == b[0] {
            lemma_name_lt_total(a.drop_first(), b.drop_first());
            if a.drop_first() == b.drop_first() {
                assert(a =~= seq![a[0]] + a.drop_first());
                assert(b =~= seq![b[0]] + b.drop_first());
            }
        } else {
        }
    } else if a.len() == 0 && b.len() == 0 {
        assert(a =~= b);
    }
}

pub proof fn lemma_name_lt_asymmetric(a: Seq<char>, b: Seq<char>)
    ensures
        !(name_lt(a, b) && name_lt(b, a)),
{
    if name_lt(a, b) && name_lt(b, a) {
        lemma_name_lt_transitive(a, b, a);
        lemma_name_lt_irreflexive(a);
    }
}

/// What is recorded about one account.
#[derive(Debug)]
pub struct AccountConfig {
    /// Who the key belongs to, as far as is known (`valid` once checked against the API).
    pub identity: String,
    /// When the account was added, as UTC text.
    pub added_at: String,
}

/// The view of an [`AccountConfig`].
pub struct AccountV {
    pub identity: Seq<char>,
    pub added_at: Seq<char>,
}

impl AccountConfig {
    /// A copy with the same text.
    pub fn copy(&self) -> (r: AccountConfig)
        ensures
            r@ == self@,
    {
        AccountConfig { identity: self.identity.clone(), added_at: self.added_at.clone() }
    }
}

impl View for AccountConfig {
    type V = AccountV;

    open spec fn view(&self) -> AccountV {
        AccountV { identity: self.identity@, added_at: self.added_at@ }
    }
}

/// Entries in strictly increasing name order, so no name occurs twice.
pub open spec fn sorted_names(s: Seq<(Seq<char>, AccountV)>) -> bool {
    forall|i: int, j: int| 0 <= i < j < s.len() ==> name_lt(#[trigger] s[i].0, #[trigger] s[j].0)
}

/// How many leading entries have a name below `name`: where `name` belongs.
pub open spec fn insertion_point(s: Seq<(Seq<char>, AccountV)>, name: Seq<char>) -> int
    decreases s.len(),
{
    if s.len() > 0 && name_lt(s[0].0, name) {
        1 + insertion_point(s.drop_first(), name)
    } else {
        0
    }
}

/// The entries once `name` maps to `account`: its entry replaced when it is there, otherwise
/// a new entry at its place in name order.
pub open spec fn insert_entry(s: Seq<(Seq<char>, AccountV)>, name: Seq<char>, account: AccountV) -> Seq<(Seq<char>, AccountV)> {
    let p = insertion_point(s, name);
    if p < s.len() && s[p].0 == name {
        s.update(p, (name, account))
    } else {
        s.insert(p, (name, account))
    }
}

/// The first entry named exactly `name`.
pub open spec fn find_exact(s: Seq<(Seq<char>, AccountV)>, name: Seq<char>) -> Option<(Seq<char>, AccountV)>
    decreases s.len(),
{
    if s.len() == 0 {
        None
    } else if s[0].0 == name {
        Some(s[0])
    } else {
        find_exact(s.drop_first(), name)
    }
}

/// The first entry whose name equals `name` up to ASCII letter case.
pub open spec fn find_nocase(s: Seq<(Seq<char>, AccountV)>, name: Seq<char>) -> Option<(Seq<char>, AccountV)>
    decreases s.len(),
{
    if s.len() == 0 {
        None
    } else if eq_ignore_ascii_case(s[0].0, name) {
        Some(s[0])
    } else {
        find_nocase(s.drop_first(), name)
    }
}

/// The account a name designates: the one of that exact name, else the first whose name
/// differs from it only in ASCII letter case.
pub open spec fn find_entry(s: Seq<(Seq<char>, AccountV)>, name: Seq<char>) -> Option<(Seq<char>, AccountV)> {
    if find_exact(s, name) is Some {
        find_exact(s, name)
    } else {
        find_nocase(s, name)
    }
}

proof fn lemma_insertion_point(s: Seq<(Seq<char>, AccountV)>, name: Seq<char>)
    requires
        sorted_names(s),
    ensures
        0 <= insertion_point(s, name) <= s.len(),
        forall|j: int| 0 <= j < insertion_point(s, name) ==> name_lt(#[trigger] s[j].0, name),
        insertion_point(s, name) < s.len() ==> !name_lt(s[insertion_point(s, name)].0, name),
    decreases s.len(),
{
    if s.len() > 0 && name_lt(s[0].0, name) {
        let d = s.drop_first();
        assert forall|a: int, b: int| 0 <= a < b < d.len() implies name_lt(#[trigger] d[a].0, #[trigger] d[b].0) by {
            assert(d[a] == s[a + 1] && d[b] == s[b + 1]);
        }
        lemma_insertion_point(d, name);
        assert forall|j: int| 0 <= j < insertion_point(s, name) implies name_lt(#[trigger] s[j].0, name) by {
            if j > 0 {
                assert(s[j] == d[j - 1]);
            }
        }
        if insertion_point(s, name) < s.len() {
            assert(s[insertion_point(s, name)] == d[insertion_point(d, name)]);
        }
    }
}

proof fn lemma_find_exact_at(t: Seq<(Seq<char>, AccountV)>, name: Seq<char>, p: int)
    requires
        0 <= p < t.len(),
        t[p].0 == name,
        forall|j: int| 0 <= j < p ==> #[trigger] t[j].0 != name,
    ensures
        find_exact(t, name) == Some(t[p]),
    decreases p,
{
    if p > 0 {
        let d = t.drop_first();
        assert forall|j: int| 0 <= j < p - 1 implies #[trigger] d[j].0 != name by {
            assert(d[j] == t[j + 1]);
        }
        assert(t[0].0 != name);
        lemma_find_exact_at(d, name, p - 1);
    }
}

proof fn lemma_find_exact_none(t: Seq<(Seq<char>, AccountV)>, name: Seq<char>)
    requires
        forall|j: int| 0 <= j < t.len() ==> #[trigger] t[j].0 != name,
    ensures
        find_exact(t, name) is None,
    decreases t.len(),
{
    if t.len() > 0 {
        let d = t.drop_first();
        assert forall|j: int| 0 <= j < d.len() implies #[trigger] d[j].0 != name by {
            assert(d[j] == t[j + 1]);
        }
        assert(t[0].0 != name);
        lemma_find_exact_none(d, name);
    }
}

proof fn lemma_find_exact_first(t: Seq<(Seq<char>, AccountV)>, name: Seq<char>)
    ensures
        match find_exact(t, name) {
            Some(e) => exists|p: int| 0 <= p < t.len() && t[p] == e && e.0 == name && (forall|j: int| 0 <= j < p ==> #[trigger] t[j].0 != name),
            None => forall|j: int| 0 <= j < t.len() ==> #[trigger] t[j].0 != name,
        },
    decreases t.len(),
{
    if t.len() > 0 {
        let d = t.drop_first();
        lemma_find_exact_first(d, name);
        if t[0].0 == name {
            assert(t[0] == find_exact(t, name)->0);
        } else {
            match find_exact(d, name) {
                Some(e) => {
                    let p = choose|p: int| 0 <= p < d.len() && d[p] == e && e.0 == name && (forall|j: int| 0 <= j < p ==> #[trigger] d[j].0 != name);
                    assert(t[p + 1] == e);
                    assert forall|j: int| 0 <= j < p + 1 implies #[trigger] t[j].0 != name by {
                        if j > 0 {
                            assert(t[j] == d[j - 1]);
                        }
                    }
                },
                None => {
                    assert forall|j: int| 0 <= j < t.len() implies #[trigger] t[j].0 != name by {
                        if j > 0 {
                            assert(t[j] == d[j - 1]);
                        }
                    }
                },
            }
        }
    }
}

/// In sorted entries, the entry of a name is the only one with that name.
proof fn lemma_sorted_unique(s: Seq<(Seq<char>, AccountV)>, i: int, j: int)
    requires
        sorted_names(s),
        0 <= i < s.len(),
        0 <= j < s.len(),
        s[i].0 == s[j].0,
    ensures
        i == j,
{
    if i < j {
        assert(name_lt(s[i].0, s[j].0));
        lemma_name_lt_irreflexive(s[i].0);
    } else if j < i {
        assert(name_lt(s[j].0, s[i].0));
        lemma_name_lt_irreflexive(s[i].0);
    }
}

/// Once an account is recorded under a name, that name designates exactly that account.
pub proof fn lookup_after_insert(s: Seq<(Seq<char>, AccountV)>, name: Seq<char>, account: AccountV)
    requires
        sorted_names(s),
    ensures
        find_entry(insert_entry(s, name, account), name) == Some((name, account)),
{
    lemma_insertion_point(s, name);
    let p = insertion_point(s, name);
    let t = insert_entry(s, name, account);
    assert forall|j: int| 0 <= j < p implies #[trigger] t[j].0 != name by {
        assert(t[j] == s[j]);
        if s[j].0 == name {
            lemma_name_lt_irreflexive(name);
        }
    }
    lemma_find_exact_at(t, name, p);
}

/// Recording an account under one name changes nothing about any other exact name.
pub proof fn insert_keeps_others(s: Seq<(Seq<char>, AccountV)>, name: Seq<char>, account: AccountV, other: Seq<char>)
    requires
        sorted_names(s),
        other != name,
    ensures
        find_exact(insert_entry(s, name, account), other) == find_exact(s, other),
{
    lemma_insertion_point(s, name);
    let p = insertion_point(s, name);
    let t = insert_entry(s, name, account);
    lemma_find_exact_first(s, other);
    lemma_find_exact_first(t, other);
    if p < s.len() && s[p].0 == name {
        match find_exact(s, other) {
            Some(e) => {
                let q = choose|q: int| 0 <= q < s.len() && s[q] == e && e.0 == other && (forall|j: int| 0 <= j < q ==> #[trigger] s[j].0 != other);
                assert forall|j: int| 0 <= j < q implies #[trigger] t[j].0 != other by {
                    if j != p {
                        assert(t[j] == s[j]);
                    }
                }
                assert(t[q] == s[q]);
                lemma_find_exact_at(t, other, q);
            },
            None => {
                assert forall|j: int| 0 <= j < t.len() implies #[trigger] t[j].0 != other by {
                    if j != p {
                        assert(t[j] == s[j]);
                    }
                }
                lemma_find_exact_none(t, other);
            },
        }
    } else {
        match find_exact(s, other) {
            Some(e) => {
                let q = choose|q: int| 0 <= q < s.len() && s[q] == e && e.0 == other && (forall|j: int| 0 <= j < q ==> #[trigger] s[j].0 != other);
                let q2 = if q < p { q } else { q + 1 };
                assert(t[q2] == s[q]);
                assert forall|j: int| 0 <= j < q2 implies #[trigger] t[j].0 != other by {
                    if j < p {
                        assert(t[j] == s[j]);
                    } else if j > p {
                        assert(t[j] == s[j - 1]);
                    }
                }
                lemma_find_exact_at(t, other, q2);
            },
            None => {
                assert forall|j: int| 0 <= j < t.len() implies #[trigger] t[j].0 != other by {
                    if j < p {
                        assert(t[j] == s[j]);
                    } else if j > p {
                        assert(t[j] == s[j - 1]);
                    }
                }
                lemma_find_exact_none(t, other);
            },
        }
    }
}

/// Once an account is removed by its exact name, no account of that exact name is left.
pub proof fn nothing_left_after_remove(s: Seq<(Seq<char>, AccountV)>, i: int)
    requires
        sorted_names(s),
        0 <= i < s.len(),
    ensures
        find_exact(s.remove(i), s[i].0) is None,
{
    let t = s.remove(i);
    assert forall|j: int| 0 <= j < t.len() implies #[trigger] t[j].0 != s[i].0 by {
        if j < i {
            assert(t[j] == s[j]);
            if s[j].0 == s[i].0 {
                lemma_sorted_unique(s, i, j);
            }
        } else {
            assert(t[j] == s[j + 1]);
            if s[j + 1].0 == s[i].0 {
                lemma_sorted_unique(s, i, j + 1);
            }
        }
    }
    lemma_find_exact_none(t, s[i].0);
}

pub open spec fn entries_view(v: Seq<(String, AccountConfig)>) -> Seq<(Seq<char>, AccountV)> {
    v.map_values(|e: (String, AccountConfig)| (e.0@, e.1@))
}

/// The configured accounts.
pub struct Config {
    accounts: Vec<(String, AccountConfig)>,
}

impl View for Config {
    type V = Seq<(Seq<char>, AccountV)>;

    closed spec fn view(&self) -> Seq<(Seq<char>, AccountV)> {
        entries_view(self.accounts@)
    }
}

impl Config {
    #[verifier::type_invariant]
    closed spec fn inv(self) -> bool {
        sorted_names(entries_view(self.accounts@))
    }

    /// No accounts.
    pub fn new() -> (r: Config)
        ensures
            r@ == Seq::<(Seq<char>, AccountV)>::empty(),
    {
        let r = Config { accounts: Vec::new() };
        assert(r@ =~= Seq::<(Seq<char>, AccountV)>::empty());
        r
    }

    pub fn len(&self) -> (r: usize)
        ensures
            r == self@.len(),
    {
        self.accounts.len()
    }

    pub fn is_empty(&self) -> (r: bool)
        ensures
            r == (self@.len() == 0),
    {
        self.accounts.len() == 0
    }

    /// The entries in name order.
    pub fn sorted(&self) -> (r: Vec<(String, AccountConfig)>)
        ensures
            entries_view(r@) == self@,
            sorted_names(self@),
    {
        proof {
            use_type_invariant(self);
        }
        let mut out: Vec<(String, AccountConfig)> = Vec::new();
        let mut i: usize = 0;
        while i < self.accounts.len()
            invariant
                i <= self.accounts@.len(),
                out@.len() == i,
                entries_view(out@) =~= entries_view(self.accounts@).take(i as int),
            decreases self.accounts@.len() - i,
        {
            let (k, v) = &self.accounts[i];
            let e = (k.clone(), v.copy());
            proof {
                assert(e.0@ == self.accounts@[i as int].0@);
                assert(e.1@ == self.accounts@[i as int].1@);
            }
            let ghost prev = out@;
            out.push(e);
            proof {
                assert(out@ == prev.push(e));
                assert(entries_view(out@).len() == i + 1);
                assert forall|j: int| 0 <= j < i + 1 implies #[trigger] entries_view(out@)[j]
                    == entries_view(self.accounts@).take(i + 1)[j] by {
                    if j < i {
                        assert(entries_view(out@)[j] == entries_view(prev)[j]);
                    }
                }
                assert(entries_view(out@) =~= entries_view(self.accounts@).take(i + 1));
            }
            i = i + 1;
        }
        proof {
            assert(entries_view(self.accounts@).take(i as int) =~= entries_view(self.accounts@));
        }
        out
    }

    /// The account a name designates (see [`find_entry`]).
    pub fn find(&self, name: &str) -> (r: Option<(String, AccountConfig)>)
        ensures
            match r {
                Some((k, a)) => find_entry(self@, name@) == Some((k@, a@)),
                None => find_entry(self@, name@) is None,
            },
    {
        let ghost s = self@;
        let cs = chars_of(name);
        let mut i: usize = 0;
        proof {
            assert(s.skip(0) =~= s);
        }
        while i < self.accounts.len()
            invariant
                i <= self.accounts@.len(),
                s == entries_view(self.accounts@),
                cs@ == name@,
                find_exact(s, name@) == find_exact(s.skip(i as int), name@),
            decreases self.accounts@.len() - i,
        {
            proof {
                assert(s.skip(i as int).drop_first() =~= s.skip(i + 1));
                assert(s.skip(i as int)[0] == s[i as int]);
            }
            let (k, v) = &self.accounts[i];
            let kc = chars_of(k.as_str());
            if crate::text::chars_eq(kc.as_slice(), cs.as_slice()) {
                return Some((k.clone(), v.copy()));
            }
            i = i + 1;
        }
        i = 0;
        proof {
            assert(find_exact(s.skip(self.accounts@.len() as int), name@) is None);
        }
        while i < self.accounts.len()
            invariant
                i <= self.accounts@.len(),
                s == entries_view(self.accounts@),
                cs@ == name@,
                find_exact(s, name@) is None,
                find_nocase(s, name@) == find_nocase(s.skip(i as int), name@),
            decreases self.accounts@.len() - i,
        {
            proof {
                assert(s.skip(i as int).drop_first() =~= s.skip(i + 1));
                assert(s.skip(i as int)[0] == s[i as int]);
            }
            let (k, v) = &self.accounts[i];
            let kc = chars_of(k.as_str());
            if eq_ascii_nocase_chars(kc.as_slice(), cs.as_slice()) {
                return Some((k.clone(), v.copy()));
            }
            i = i + 1;
        }
        None
    }

    /// Records `account` under `name`, replacing what was recorded under that exact name.
    pub fn insert(&mut self, name: String, account: AccountConfig)
        ensures
            final(self)@ == insert_entry(old(self)@, name@, account@),
            sorted_names(final(self)@),
    {
        proof {
            use_type_invariant(&*self);
        }
        let ghost s = self@;
        let nc = chars_of(name.as_str());
        let mut i: usize = 0;
        proof {
            assert(s.skip(0) =~= s);
        }
        while i < self.accounts.len() && name_below(&self.accounts, i, nc.as_slice())
            invariant
                i <= self.accounts@.len(),
                s == entries_view(self.accounts@),
                sorted_names(s),
                nc@ == name@,
                insertion_point(s, name@) == i + insertion_point(s.skip(i as int), name@),
                forall|j: int| 0 <= j < i ==> name_lt(#[trigger] s[j].0, name@),
            decreases self.accounts@.len() - i,
        {
            proof {
                assert(s.skip(i as int).drop_first() =~= s.skip(i + 1));
                assert(s.skip(i as int)[0] == s[i as int]);
            }
            i = i + 1;
        }
        proof {
            if i < s.len() {
                assert(s.skip(i as int)[0] == s[i as int]);
                assert(!name_lt(s[i as int].0, name@));
            }
            assert(insertion_point(s.skip(i as int), name@) == 0);
        }
        let same = if i < self.accounts.len() {
            let kc = chars_of(self.accounts[i].0.as_str());
            crate::text::chars_eq(kc.as_slice(), nc.as_slice())
        } else {
            false
        };
        assert(same == (i < s.len() && s[i as int].0 == name@));
        let ghost entry = (name@, account@);
        let mut accounts: Vec<(String, AccountConfig)> = Vec::new();
        std::mem::swap(&mut accounts, &mut self.accounts);
        if same {
            accounts.set(i, (name, account));
            proof {
                let t = entries_view(accounts@);
                assert(t =~= s.update(i as int, entry));
                assert forall|a: int, b: int| 0 <= a < b < t.len() implies name_lt(
                    #[trigger] t[a].0,
                    #[trigger] t[b].0,
                ) by {
                    assert(t[a].0 == s[a].0);
                    assert(t[b].0 == s[b].0);
                }
            }
        } else {
            accounts.insert(i, (name, account));
            proof {
                let t = entries_view(accounts@);
                assert(t =~= s.insert(i as int, entry));
                if i < s.len() {
                    lemma_name_lt_total(s[i as int].0, name@);
                }
                assert forall|a: int, b: int| 0 <= a < b < t.len() implies name_lt(
                    #[trigger] t[a].0,
                    #[trigger] t[b].0,
                ) by {
                    if b < i {
                        assert(t[a] == s[a] && t[b] == s[b]);
                    } else if b == i {
                        assert(t[a] == s[a]);
                    } else if a == i {
                        assert(t[b] == s[b - 1]);
                        if b - 1 > i {
                            lemma_name_lt_transitive(name@, s[i as int].0, s[b - 1].0);
                        }
                    } else if a < i {
                        assert(t[a] == s[a] && t[b] == s[b - 1]);
                    } else {
                        assert(t[a] == s[a - 1] && t[b] == s[b - 1]);
                    }
                }
            }
        }
        self.accounts = accounts;
    }

    /// Forgets the account of exactly that name, giving back what was recorded for it.
    pub fn remove(&mut self, name: &str) -> (r: Option<AccountConfig>)
        ensures
            match r {
                Some(a) => exists|i: int|
                    0 <= i < old(self)@.len() && old(self)@[i] == (name@, a@) && final(self)@
                        == old(self)@.remove(i),
                None => final(self)@ == old(self)@ && find_exact(old(self)@, name@) is None,
            },
            sorted_names(final(self)@),
    {
        proof {
            use_type_invariant(&*self);
        }
        let ghost s = self@;
        let cs = chars_of(name);
        let mut i: usize = 0;
        proof {
            assert(s.skip(0) =~= s);
        }
        while i < self.accounts.len()
            invariant
                i <= self.accounts@.len(),
                s == entries_view(self.accounts@),
                s == old(self)@,
                sorted_names(s),
                cs@ == name@,
                find_exact(s, name@) == find_exact(s.skip(i as int), name@),
            decreases self.accounts@.len() - i,
        {
            proof {
                assert(s.skip(i as int).drop_first() =~= s.skip(i + 1));
                assert(s.skip(i as int)[0] == s[i as int]);
            }
            let kc = chars_of(self.accounts[i].0.as_str());
            if crate::text::chars_eq(kc.as_slice(), cs.as_slice()) {
                let mut accounts: Vec<(String, AccountConfig)> = Vec::new();
                std::mem::swap(&mut accounts, &mut self.accounts);
                let (_, a) = accounts.remove(i);
                proof {
                    assert(s[i as int] == (name@, a@));
                    let t = entries_view(accounts@);
                    assert(t =~= s.remove(i as int));
                    assert forall|x: int, y: int| 0 <= x < y < t.len() implies name_lt(
                        #[trigger] t[x].0,
                        #[trigger] t[y].0,
                    ) by {
                        if y < i {
                            assert(t[x] == s[x] && t[y] == s[y]);
                        } else if x < i {
                            assert(t[x] == s[x] && t[y] == s[y + 1]);
                        } else {
                            assert(t[x] == s[x + 1] && t[y] == s[y + 1]);
                        }
                    }
                }
                self.accounts = accounts;
                proof {
                    assert(self@ =~= s.remove(i as int));
                    assert(old(self)@ == s);
                    assert(old(self)@[i as int] == (name@, a@));
                }
                return Some(a);
            }
            i = i + 1;
        }
        None
    }
}

/// Whether the name of entry `i` comes before `name`.
fn name_below(v: &Vec<(String, AccountConfig)>, i: usize, name: &[char]) -> (r: bool)
    requires
        i < v@.len(),
    ensures
        r == name_lt(v@[i as int].0@, name@),
{
    let kc = chars_of(v[i].0.as_str());
    name_lt_exec(kc.as_slice(), name)
}

/// ASCII case-insensitive equality of two character sequences.
fn eq_ascii_nocase_chars(a: &[char], b: &[char]) -> (r: bool)
    ensures
        r == eq_ignore_ascii_case(a@, b@),
{
    if a.len() != b.len() {
        return false;
    }
    let mut i: usize = 0;
    while i < a.len()
        invariant
            i <= a@.len(),
            a@.len() == b@.len(),
            forall|j: int| 0 <= j < i ==> crate::text::ascii_lower(#[trigger] a@[j]) == crate::text::ascii_lower(b@[j]),
        decreases a@.len() - i,
    {
        if crate::text::char_ascii_lower(a[i]) != crate::text::char_ascii_lower(b[i]) {
            return false;
        }
        i = i + 1;
    }
    true
}

/// Whether `a` comes before `b` in name order.
pub fn name_lt_exec(a: &[char], b: &[char]) -> (r: bool)
    ensures
        r == name_lt(a@, b@),
{
    let mut i: usize = 0;
    proof {
        assert(a@.skip(0) =~= a@);
        assert(b@.skip(0) =~= b@);
    }
    while i < a.len() && i < b.len() && a[i] == b[i]
        invariant
            i <= a@.len(),
            i <= b@.len(),
            name_lt(a@, b@) == name_lt(a@.skip(i as int), b@.skip(i as int)),
        decreases a@.len() - i,
    {
        proof {
            assert(a@.skip(i as int).drop_first() =~= a@.skip(i + 1));
            assert(b@.skip(i as int).drop_first() =~= b@.skip(i + 1));
        }
        i = i + 1;
    }
    proof {
        if i < a@.len() {
            assert(a@.skip(i as int)[0] == a@[i as int]);
        }
        if i < b@.len() {
            assert(b@.skip(i as int)[0] == b@[i as int]);
        }
    }
    if i == a.len() {
        i < b.len()
    } else if i == b.len() {
        false
    } else {
        a[i] < b[i]
    }
}

} // verus!
